//! Changing the description of a repository.

use crate::api::{ApiReply, ApiReplyView, ApiRequestView};
use crate::dialogue::{
    ask, finish, finish_with, last_step, prompt_step, send, send_step, sent,
    without_authorization, Event, EventView, Step, StepView,
};
use crate::json::no_members;
use crate::repository::{
    failure_lines, list_request, names_of, patch_request, picker_entries, profile_failure,
    profile_request, report_failure, repository_names, update_fields, RepositoryManager,
    UpdateRequest,
};
use crate::text::{join, join3, no_lines, pick_index, picked, push_line, push_lines, trimmed};
use crate::ui::get_input;
use vstd::prelude::*;
use vstd::string::*;

verus! {

/// How far changing a repository has come.
#[derive(Debug, PartialEq, Eq)]
pub enum UpdateState {
    /// Nothing has happened yet.
    Start,
    /// The request for the repositories was sent.
    Listing,
    /// The user is choosing among the repositories of these names.
    Choosing(Vec<String>),
    /// The user is being asked for the new description of the repository of
    /// this name.
    Describing(String),
    /// These fields of the repository of this name are to change, and the
    /// request for the profile was sent to learn under whose login.
    Resolving { name: String, fields: UpdateRequest },
    /// The request that changes the repository was sent.
    Patching,
    /// The operation is over.
    Done,
}

/// What an `UpdateState` holds.
pub enum UpdateStateView {
    Start,
    Listing,
    Choosing(Seq<Seq<char>>),
    Describing(Seq<char>),
    Resolving { name: Seq<char>, fields: Map<Seq<char>, Option<Seq<char>>> },
    Patching,
    Done,
}

impl View for UpdateState {
    type V = UpdateStateView;

    open spec fn view(&self) -> UpdateStateView {
        match self {
            UpdateState::Start => UpdateStateView::Start,
            UpdateState::Listing => UpdateStateView::Listing,
            UpdateState::Choosing(names) => UpdateStateView::Choosing(names.deep_view()),
            UpdateState::Describing(name) => UpdateStateView::Describing(name@),
            UpdateState::Resolving { name, fields } => UpdateStateView::Resolving {
                name: name@,
                fields: fields@,
            },
            UpdateState::Patching => UpdateStateView::Patching,
            UpdateState::Done => UpdateStateView::Done,
        }
    }
}

/// The prompt for the new description of the repository called `name`.
pub open spec fn description_prompt(name: Seq<char>) -> Seq<char> {
    "Введите новое описание для "@ + name + " (Enter чтобы пропустить): "@
}

/// The step that follows the reply to the request for the repositories: a
/// refusal and an empty list each end the operation with one line, and a
/// list of some opens the picker over their names.
pub open spec fn update_listed(reply: ApiReplyView) -> (UpdateStateView, StepView) {
    match reply {
        ApiReplyView::Refused { status, .. } => (
            UpdateStateView::Done,
            last_step(seq!["Ошибка при получении списка репозиториев: "@ + status]),
        ),
        ApiReplyView::Repositories(repositories) => if repositories.len() == 0 {
            (UpdateStateView::Done, last_step(seq!["У вас нет репозиториев для обновления."@]))
        } else {
            (
                UpdateStateView::Choosing(repository_names(repositories)),
                prompt_step(
                    seq!["\nВыберите репозиторий для обновления:"@] + picker_entries(
                        repository_names(repositories),
                    ),
                    "Введите номер репозитория: "@,
                ),
            )
        },
        _ => (UpdateStateView::Done, last_step(Seq::empty())),
    }
}

/// The step that follows the answer at the picker: an ordinal of the list
/// leads to the prompt for that repository's new description, and anything
/// else ends the operation.
pub open spec fn update_chosen(names: Seq<Seq<char>>, answer: Seq<char>) -> (
    UpdateStateView,
    StepView,
) {
    match picked(answer, names.len()) {
        Some(index) => (
            UpdateStateView::Describing(names[index as int]),
            prompt_step(Seq::empty(), description_prompt(names[index as int])),
        ),
        None => (UpdateStateView::Done, last_step(seq!["Неверный выбор."@])),
    }
}

/// The step that follows the answer to the prompt for a description: an
/// empty one leaves nothing to change and ends the operation; any other is
/// the repository's new description, and the request for the profile goes
/// out to learn under whose login the repository is addressed.
pub open spec fn update_described(token: Seq<char>, name: Seq<char>, answer: Seq<char>) -> (
    UpdateStateView,
    StepView,
) {
    if answer.len() == 0 {
        (UpdateStateView::Done, last_step(seq!["Нет данных для обновления."@]))
    } else {
        (
            UpdateStateView::Resolving { name, fields: update_fields(answer) },
            send_step(Seq::empty(), profile_request(token)),
        )
    }
}

/// The step that follows the reply to the request for the profile: the
/// change goes out to the repository of that name under the login that the
/// profile gives, and a refusal ends the operation with one line.
pub open spec fn update_resolved(
    token: Seq<char>,
    name: Seq<char>,
    fields: Map<Seq<char>, Option<Seq<char>>>,
    reply: ApiReplyView,
) -> (UpdateStateView, StepView) {
    match reply {
        ApiReplyView::Profile(login) => (
            UpdateStateView::Patching,
            send_step(Seq::empty(), patch_request(token, login, name, fields)),
        ),
        ApiReplyView::Refused { status, .. } => (
            UpdateStateView::Done,
            last_step(seq![profile_failure(status)]),
        ),
        _ => (UpdateStateView::Done, last_step(Seq::empty())),
    }
}

/// What is printed for the reply to the request that changes a repository.
pub open spec fn update_report(reply: ApiReplyView) -> Seq<Seq<char>> {
    match reply {
        ApiReplyView::Refused { status, details } => failure_lines(
            "Ошибка при обновлении репозитория: "@,
            status,
            details,
        ),
        _ => seq!["Репозиторий успешно обновлен!"@],
    }
}

/// One step of changing a repository: the repositories are fetched anew and
/// shown in a picker; the answer there, and then the answer to the prompt
/// for a description, each count without the white space around them. The
/// change goes to the repository under the login of the user that the token
/// belongs to, which is asked for once there is something to change. An
/// event that the state does not await ends the operation with nothing
/// printed.
pub open spec fn update_step(token: Seq<char>, state: UpdateStateView, event: EventView) -> (
    UpdateStateView,
    StepView,
) {
    match (state, event) {
        (UpdateStateView::Start, EventView::Start) => (
            UpdateStateView::Listing,
            send_step(Seq::empty(), list_request(token)),
        ),
        (UpdateStateView::Listing, EventView::Reply(reply)) => update_listed(reply),
        (UpdateStateView::Choosing(names), EventView::Input(line)) => update_chosen(
            names,
            trimmed(line),
        ),
        (UpdateStateView::Describing(name), EventView::Input(line)) => update_described(
            token,
            name,
            trimmed(line),
        ),
        (UpdateStateView::Resolving { name, fields }, EventView::Reply(reply)) => update_resolved(
            token,
            name,
            fields,
            reply,
        ),
        (UpdateStateView::Patching, EventView::Reply(reply)) => (
            UpdateStateView::Done,
            last_step(update_report(reply)),
        ),
        _ => (UpdateStateView::Done, last_step(Seq::empty())),
    }
}

/// The token goes nowhere but into the `Authorization` header: what a step
/// prints, what it asks, where the operation stands afterwards, and the rest
/// of a request are the same for any two tokens.
pub proof fn lemma_update_keeps_token(
    token: Seq<char>,
    other: Seq<char>,
    state: UpdateStateView,
    event: EventView,
)
    ensures
        update_step(token, state, event).0 == update_step(other, state, event).0,
        without_authorization(update_step(token, state, event).1) == without_authorization(
            update_step(other, state, event).1,
        ),
{
}

/// The requests that go out, in order, when the operation stands at `state`
/// and the shell reports `events` one after the other.
pub open spec fn update_requests(
    token: Seq<char>,
    state: UpdateStateView,
    events: Seq<EventView>,
) -> Seq<ApiRequestView>
    decreases events.len(),
{
    if events.len() == 0 {
        Seq::empty()
    } else {
        let (next, step) = update_step(token, state, events[0]);
        sent(step) + update_requests(token, next, events.drop_first())
    }
}

/// Once the operation is over it sends nothing more, whatever is reported
/// to it.
pub proof fn lemma_update_over(token: Seq<char>, events: Seq<EventView>)
    ensures
        update_requests(token, UpdateStateView::Done, events) == Seq::<ApiRequestView>::empty(),
    decreases events.len(),
{
    if events.len() > 0 {
        lemma_update_over(token, events.drop_first());
    }
}

/// An empty description changes nothing: where the answer to the prompt
/// for the new description holds nothing but white space, the step says so
/// and ends the operation, and no request goes out then or later, whatever
/// the shell reports afterwards.
pub proof fn lemma_empty_description_sends_nothing(
    token: Seq<char>,
    name: Seq<char>,
    line: Seq<char>,
    later: Seq<EventView>,
)
    requires
        trimmed(line).len() == 0,
    ensures
        update_step(token, UpdateStateView::Describing(name), EventView::Input(line)) == (
            UpdateStateView::Done,
            last_step(seq!["Нет данных для обновления."@]),
        ),
        update_requests(
            token,
            UpdateStateView::Describing(name),
            seq![EventView::Input(line)] + later,
        ) == Seq::<ApiRequestView>::empty(),
{
    let events = seq![EventView::Input(line)] + later;
    assert(events[0] == EventView::Input(line));
    assert(events.drop_first() =~= later);
    lemma_update_over(token, later);
}

/// An answer at the picker that is no ordinal of the list changes nothing:
/// the step says that the choice is invalid and ends the operation, and no
/// request goes out then or later, whatever the shell reports afterwards.
pub proof fn lemma_invalid_choice_updates_nothing(
    token: Seq<char>,
    names: Seq<Seq<char>>,
    line: Seq<char>,
    later: Seq<EventView>,
)
    requires
        picked(trimmed(line), names.len()) is None,
    ensures
        update_step(token, UpdateStateView::Choosing(names), EventView::Input(line)) == (
            UpdateStateView::Done,
            last_step(seq!["Неверный выбор."@]),
        ),
        update_requests(
            token,
            UpdateStateView::Choosing(names),
            seq![EventView::Input(line)] + later,
        ) == Seq::<ApiRequestView>::empty(),
{
    let events = seq![EventView::Input(line)] + later;
    assert(events[0] == EventView::Input(line));
    assert(events.drop_first() =~= later);
    lemma_update_over(token, later);
}

impl RepositoryManager {
    /// The step that follows the reply to the request for the repositories.
    fn update_listed(&self, reply: &ApiReply) -> (next: (UpdateState, Step))
        ensures
            (next.0@, next.1@) == update_listed(reply@),
    {
        match reply {
            ApiReply::Refused { status, details: _ } => {
                let mut lines = no_lines();
                push_line(
                    &mut lines,
                    join("Ошибка при получении списка репозиториев: ", status.as_str()),
                );
                assert(lines.deep_view() =~= seq![
                    "Ошибка при получении списка репозиториев: "@ + status@,
                ]);
                (UpdateState::Done, finish(lines))
            },
            ApiReply::Repositories(repositories) => {
                if repositories.len() == 0 {
                    (UpdateState::Done, finish_with("У вас нет репозиториев для обновления."))
                } else {
                    let names = names_of(repositories);
                    let mut lines = no_lines();
                    push_line(
                        &mut lines,
                        String::from_str("\nВыберите репозиторий для обновления:"),
                    );
                    push_lines(&mut lines, self.picker_entries(&names));
                    assert(lines.deep_view() =~= seq!["\nВыберите репозиторий для обновления:"@]
                        + picker_entries(names.deep_view()));
                    (
                        UpdateState::Choosing(names),
                        ask(lines, String::from_str("Введите номер репозитория: ")),
                    )
                }
            },
            _ => (UpdateState::Done, finish(no_lines())),
        }
    }

    /// The step that follows the answer at the picker.
    fn update_chosen(&self, names: &Vec<String>, answer: &str) -> (next: (UpdateState, Step))
        ensures
            (next.0@, next.1@) == update_chosen(names.deep_view(), answer@),
    {
        match pick_index(answer, names.len()) {
            Some(index) => {
                let name = names[index].clone();
                let prompt = join3(
                    "Введите новое описание для ",
                    name.as_str(),
                    " (Enter чтобы пропустить): ",
                );
                (UpdateState::Describing(name), ask(no_lines(), prompt))
            },
            None => (UpdateState::Done, finish_with("Неверный выбор.")),
        }
    }

    /// The step that follows the answer to the prompt for a description.
    fn update_described(&self, token: &str, name: &str, answer: &str) -> (next: (
        UpdateState,
        Step,
    ))
        ensures
            (next.0@, next.1@) == update_described(token@, name@, answer@),
    {
        let fields = UpdateRequest::new(answer);
        assert(answer@.len() > 0 ==> fields@.contains_key("description"@));
        assert(!no_members().contains_key("description"@));
        if fields.is_empty() {
            (UpdateState::Done, finish_with("Нет данных для обновления."))
        } else {
            (
                UpdateState::Resolving { name: String::from_str(name), fields },
                send(no_lines(), self.profile_request(token)),
            )
        }
    }

    /// The step that follows the reply to the request for the profile.
    fn update_resolved(
        &self,
        token: &str,
        name: &str,
        fields: UpdateRequest,
        reply: &ApiReply,
    ) -> (next: (UpdateState, Step))
        ensures
            (next.0@, next.1@) == update_resolved(token@, name@, fields@, reply@),
    {
        match reply {
            ApiReply::Profile(login) => (
                UpdateState::Patching,
                send(no_lines(), self.patch_request(token, login.as_str(), name, fields)),
            ),
            ApiReply::Refused { status, details: _ } => {
                let line = join("Ошибка при получении профиля пользователя: ", status.as_str());
                (UpdateState::Done, finish_with(line.as_str()))
            },
            _ => (UpdateState::Done, finish(no_lines())),
        }
    }

    /// What is printed for the reply to the request that changes a
    /// repository.
    pub fn update_report(&self, reply: &ApiReply) -> (lines: Vec<String>)
        ensures
            lines.deep_view() == update_report(reply@),
    {
        match reply {
            ApiReply::Refused { status, details } => report_failure(
                "Ошибка при обновлении репозитория: ",
                status.as_str(),
                details,
            ),
            _ => {
                let mut lines = no_lines();
                push_line(&mut lines, String::from_str("Репозиторий успешно обновлен!"));
                assert(lines.deep_view() =~= seq!["Репозиторий успешно обновлен!"@]);
                lines
            },
        }
    }

    /// One step of changing a repository with `token`. Start with
    /// `UpdateState::Start` and `Event::Start`, do what each step says, and
    /// hand back what came of it, until the effect is `Finish`.
    pub fn update_repository(&self, token: &str, state: UpdateState, event: Event) -> (next: (
        UpdateState,
        Step,
    ))
        ensures
            (next.0@, next.1@) == update_step(token@, state@, event@),
    {
        match (state, event) {
            (UpdateState::Start, Event::Start) => (
                UpdateState::Listing,
                send(no_lines(), self.list_request(token)),
            ),
            (UpdateState::Listing, Event::Reply(reply)) => self.update_listed(&reply),
            (UpdateState::Choosing(names), Event::Input(line)) => {
                let answer = get_input(line.as_str());
                self.update_chosen(&names, answer.as_str())
            },
            (UpdateState::Describing(name), Event::Input(line)) => {
                let answer = get_input(line.as_str());
                self.update_described(token, name.as_str(), answer.as_str())
            },
            (UpdateState::Resolving { name, fields }, Event::Reply(reply)) => {
                self.update_resolved(token, name.as_str(), fields, &reply)
            },
            (UpdateState::Patching, Event::Reply(reply)) => (
                UpdateState::Done,
                finish(self.update_report(&reply)),
            ),
            _ => (UpdateState::Done, finish(no_lines())),
        }
    }
}

} // verus!
