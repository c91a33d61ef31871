//! Deleting one repository, or all of them.

use crate::api::{ApiReply, ApiReplyView, ApiRequestView};
use crate::dialogue::{
    ask, finish, finish_with, last_step, prompt_step, send, send_step, sent,
    without_authorization, Event, EventView, Step, StepView,
};
use crate::repository::{
    delete_request, failure_lines, list_request, names_of, picker_entries, profile_failure,
    profile_request, report_failure, repository_names, RepositoryManager,
};
use crate::text::{
    join, join3, no_lines, pick_index, picked, push_line, push_lines, same_text, trimmed,
};
use crate::ui::get_input;
use vstd::prelude::*;
use vstd::string::*;

verus! {

/// How far deleting has come.
#[derive(Debug, PartialEq, Eq)]
pub enum DeleteState {
    /// Nothing has happened yet.
    Start,
    /// The request for the repositories was sent.
    Listing,
    /// The user is choosing among the repositories of these names.
    Choosing(Vec<String>),
    /// The user is being asked to confirm that the repositories of these
    /// names are all to go.
    ConfirmingAll(Vec<String>),
    /// The user is being asked to confirm that the repository of this name
    /// is to go.
    ConfirmingOne(String),
    /// The repositories of these names are all to go, and the request for
    /// the profile was sent to learn under whose login.
    ResolvingAll(Vec<String>),
    /// The repository of this name is to go, and the request for the
    /// profile was sent to learn under whose login.
    ResolvingOne(String),
    /// All are to go, under the login `owner`: the request for `current`
    /// was sent, and those for `rest` are still to be sent, in this order.
    DeletingAll { owner: String, current: String, rest: Vec<String> },
    /// The request that deletes the one repository of this name was sent.
    DeletingOne(String),
    /// The operation is over.
    Done,
}

/// What a `DeleteState` holds.
pub enum DeleteStateView {
    Start,
    Listing,
    Choosing(Seq<Seq<char>>),
    ConfirmingAll(Seq<Seq<char>>),
    ConfirmingOne(Seq<char>),
    ResolvingAll(Seq<Seq<char>>),
    ResolvingOne(Seq<char>),
    DeletingAll { owner: Seq<char>, current: Seq<char>, rest: Seq<Seq<char>> },
    DeletingOne(Seq<char>),
    Done,
}

impl View for DeleteState {
    type V = DeleteStateView;

    open spec fn view(&self) -> DeleteStateView {
        match self {
            DeleteState::Start => DeleteStateView::Start,
            DeleteState::Listing => DeleteStateView::Listing,
            DeleteState::Choosing(names) => DeleteStateView::Choosing(names.deep_view()),
            DeleteState::ConfirmingAll(names) => DeleteStateView::ConfirmingAll(
                names.deep_view(),
            ),
            DeleteState::ConfirmingOne(name) => DeleteStateView::ConfirmingOne(name@),
            DeleteState::ResolvingAll(names) => DeleteStateView::ResolvingAll(names.deep_view()),
            DeleteState::ResolvingOne(name) => DeleteStateView::ResolvingOne(name@),
            DeleteState::DeletingAll { owner, current, rest } => DeleteStateView::DeletingAll {
                owner: owner@,
                current: current@,
                rest: rest.deep_view(),
            },
            DeleteState::DeletingOne(name) => DeleteStateView::DeletingOne(name@),
            DeleteState::Done => DeleteStateView::Done,
        }
    }
}

/// The prompt that asks whether the repository called `name` is to go.
pub open spec fn confirm_prompt(name: Seq<char>) -> Seq<char> {
    "Вы уверены, что хотите удалить репозиторий '"@ + name + "'? (y/n): "@
}

/// The step that follows the reply to the request for the repositories: a
/// refusal and an empty list each end the operation with one line, and a
/// list of some opens the picker over their names.
pub open spec fn delete_listed(reply: ApiReplyView) -> (DeleteStateView, StepView) {
    match reply {
        ApiReplyView::Refused { status, .. } => (
            DeleteStateView::Done,
            last_step(seq!["Ошибка при получении списка репозиториев: "@ + status]),
        ),
        ApiReplyView::Repositories(repositories) => if repositories.len() == 0 {
            (DeleteStateView::Done, last_step(seq!["У вас нет репозиториев для удаления."@]))
        } else {
            (
                DeleteStateView::Choosing(repository_names(repositories)),
                prompt_step(
                    seq!["\nВыберите репозиторий для удаления:"@] + picker_entries(
                        repository_names(repositories),
                    ),
                    "Введите номер репозитория (или 'all' для удаления всех): "@,
                ),
            )
        },
        _ => (DeleteStateView::Done, last_step(Seq::empty())),
    }
}

/// The step that follows the answer at the picker: `all` asks for one
/// confirmation for the whole list, an ordinal of the list asks for one for
/// that repository, and anything else ends the operation.
pub open spec fn delete_chosen(names: Seq<Seq<char>>, answer: Seq<char>) -> (
    DeleteStateView,
    StepView,
) {
    if answer == "all"@ {
        (
            DeleteStateView::ConfirmingAll(names),
            prompt_step(
                Seq::empty(),
                "Вы уверены, что хотите удалить ВСЕ репозитории? (y/n): "@,
            ),
        )
    } else {
        match picked(answer, names.len()) {
            Some(index) => (
                DeleteStateView::ConfirmingOne(names[index as int]),
                prompt_step(Seq::empty(), confirm_prompt(names[index as int])),
            ),
            None => (DeleteStateView::Done, last_step(seq!["Неверный выбор."@])),
        }
    }
}

/// The step that follows a `y` to the confirmation for the whole list: the
/// request for the profile goes out to learn under whose login the
/// repositories are addressed; a list of none is done at once.
pub open spec fn delete_all_confirmed(token: Seq<char>, names: Seq<Seq<char>>) -> (
    DeleteStateView,
    StepView,
) {
    if names.len() == 0 {
        (DeleteStateView::Done, last_step(seq!["Все репозитории успешно удалены!"@]))
    } else {
        (DeleteStateView::ResolvingAll(names), send_step(Seq::empty(), profile_request(token)))
    }
}

/// The step that moves on through the repositories that are all to go,
/// under the login `owner`: after `output`, the request for the first of
/// `names` goes out, and once none is left a last line ends the operation.
pub open spec fn delete_next(
    token: Seq<char>,
    owner: Seq<char>,
    output: Seq<Seq<char>>,
    names: Seq<Seq<char>>,
) -> (DeleteStateView, StepView) {
    if names.len() == 0 {
        (DeleteStateView::Done, last_step(output + seq!["Все репозитории успешно удалены!"@]))
    } else {
        (
            DeleteStateView::DeletingAll { owner, current: names[0], rest: names.drop_first() },
            send_step(output, delete_request(token, owner, names[0])),
        )
    }
}

/// The step that follows the reply to the request for the profile where all
/// are to go: the deletions start under the login that the profile gives,
/// and a refusal ends the operation with one line.
pub open spec fn delete_all_resolved(
    token: Seq<char>,
    names: Seq<Seq<char>>,
    reply: ApiReplyView,
) -> (DeleteStateView, StepView) {
    match reply {
        ApiReplyView::Profile(login) => delete_next(token, login, Seq::empty(), names),
        ApiReplyView::Refused { status, .. } => (
            DeleteStateView::Done,
            last_step(seq![profile_failure(status)]),
        ),
        _ => (DeleteStateView::Done, last_step(Seq::empty())),
    }
}

/// The step that follows the reply to the request for the profile where one
/// repository is to go: the request that deletes it goes out under the
/// login that the profile gives, and a refusal ends the operation with one
/// line.
pub open spec fn delete_one_resolved(token: Seq<char>, name: Seq<char>, reply: ApiReplyView) -> (
    DeleteStateView,
    StepView,
) {
    match reply {
        ApiReplyView::Profile(login) => (
            DeleteStateView::DeletingOne(name),
            send_step(Seq::empty(), delete_request(token, login, name)),
        ),
        ApiReplyView::Refused { status, .. } => (
            DeleteStateView::Done,
            last_step(seq![profile_failure(status)]),
        ),
        _ => (DeleteStateView::Done, last_step(Seq::empty())),
    }
}

/// What is printed for a reply to the request that deletes the repository
/// called `name`: the status and the body of a refusal, and nothing
/// otherwise.
pub open spec fn delete_report(name: Seq<char>, reply: ApiReplyView) -> Seq<Seq<char>> {
    match reply {
        ApiReplyView::Refused { status, details } => failure_lines(
            "Ошибка при удалении репозитория '"@ + name + "': "@,
            status,
            details,
        ),
        _ => Seq::empty(),
    }
}

/// The line that closes the deletion of the one repository called `name`.
pub open spec fn deleted_line(name: Seq<char>) -> Seq<char> {
    "Репозиторий '"@ + name + "' успешно удален!"@
}

/// One step of deleting: the repositories are fetched anew and shown in a
/// picker. Nothing is deleted before the user has answered `y` to a
/// confirmation: one for a single repository, one for all of them. The
/// deletions go to the repositories under the login of the user that the
/// token belongs to, which is asked for once the user has confirmed. Where
/// all are to go, the requests go out one after the other in the order of
/// the list, and a refusal is reported and does not stop the rest. Answers
/// count without the white space around them. An event that the state does
/// not await ends the operation with nothing printed.
pub open spec fn delete_step(token: Seq<char>, state: DeleteStateView, event: EventView) -> (
    DeleteStateView,
    StepView,
) {
    match (state, event) {
        (DeleteStateView::Start, EventView::Start) => (
            DeleteStateView::Listing,
            send_step(Seq::empty(), list_request(token)),
        ),
        (DeleteStateView::Listing, EventView::Reply(reply)) => delete_listed(reply),
        (DeleteStateView::Choosing(names), EventView::Input(line)) => delete_chosen(
            names,
            trimmed(line),
        ),
        (DeleteStateView::ConfirmingAll(names), EventView::Input(line)) => if trimmed(line)
            == "y"@ {
            delete_all_confirmed(token, names)
        } else {
            (DeleteStateView::Done, last_step(seq!["Операция отменена."@]))
        },
        (DeleteStateView::ConfirmingOne(name), EventView::Input(line)) => if trimmed(line)
            == "y"@ {
            (DeleteStateView::ResolvingOne(name), send_step(Seq::empty(), profile_request(token)))
        } else {
            (DeleteStateView::Done, last_step(seq!["Операция отменена."@]))
        },
        (DeleteStateView::ResolvingAll(names), EventView::Reply(reply)) => delete_all_resolved(
            token,
            names,
            reply,
        ),
        (DeleteStateView::ResolvingOne(name), EventView::Reply(reply)) => delete_one_resolved(
            token,
            name,
            reply,
        ),
        (DeleteStateView::DeletingAll { owner, current, rest }, EventView::Reply(reply)) =>
            delete_next(token, owner, delete_report(current, reply), rest),
        (DeleteStateView::DeletingOne(name), EventView::Reply(reply)) => (
            DeleteStateView::Done,
            last_step(delete_report(name, reply) + seq![deleted_line(name)]),
        ),
        _ => (DeleteStateView::Done, last_step(Seq::empty())),
    }
}

/// The token goes nowhere but into the `Authorization` header: what a step
/// prints, what it asks, where the operation stands afterwards, and the rest
/// of a request are the same for any two tokens.
pub proof fn lemma_delete_keeps_token(
    token: Seq<char>,
    other: Seq<char>,
    state: DeleteStateView,
    event: EventView,
)
    ensures
        delete_step(token, state, event).0 == delete_step(other, state, event).0,
        without_authorization(delete_step(token, state, event).1) == without_authorization(
            delete_step(other, state, event).1,
        ),
{
}

/// The requests that go out, in order, when the operation stands at `state`
/// and the shell reports `events` one after the other.
pub open spec fn delete_requests(
    token: Seq<char>,
    state: DeleteStateView,
    events: Seq<EventView>,
) -> Seq<ApiRequestView>
    decreases events.len(),
{
    if events.len() == 0 {
        Seq::empty()
    } else {
        let (next, step) = delete_step(token, state, events[0]);
        sent(step) + delete_requests(token, next, events.drop_first())
    }
}

/// Once the operation is over it sends nothing more, whatever is reported
/// to it.
pub proof fn lemma_delete_over(token: Seq<char>, events: Seq<EventView>)
    ensures
        delete_requests(token, DeleteStateView::Done, events) == Seq::<ApiRequestView>::empty(),
    decreases events.len(),
{
    if events.len() > 0 {
        lemma_delete_over(token, events.drop_first());
    }
}

/// An answer at the picker that is neither `all` nor an ordinal of the list
/// deletes nothing: the step says that the choice is invalid and ends the
/// operation, and no request goes out then or later, whatever the shell
/// reports afterwards.
pub proof fn lemma_invalid_choice_deletes_nothing(
    token: Seq<char>,
    names: Seq<Seq<char>>,
    line: Seq<char>,
    later: Seq<EventView>,
)
    requires
        trimmed(line) != "all"@,
        picked(trimmed(line), names.len()) is None,
    ensures
        delete_step(token, DeleteStateView::Choosing(names), EventView::Input(line)) == (
            DeleteStateView::Done,
            last_step(seq!["Неверный выбор."@]),
        ),
        delete_requests(
            token,
            DeleteStateView::Choosing(names),
            seq![EventView::Input(line)] + later,
        ) == Seq::<ApiRequestView>::empty(),
{
    let events = seq![EventView::Input(line)] + later;
    assert(events[0] == EventView::Input(line));
    assert(events.drop_first() =~= later);
    lemma_delete_over(token, later);
}

/// Without a `y` nothing is deleted: where the answer to either
/// confirmation is anything else, the step says that the operation is
/// cancelled and ends it, and no request goes out then or later, whatever
/// the shell reports afterwards.
pub proof fn lemma_unconfirmed_deletes_nothing(
    token: Seq<char>,
    state: DeleteStateView,
    line: Seq<char>,
    later: Seq<EventView>,
)
    requires
        state is ConfirmingAll || state is ConfirmingOne,
        trimmed(line) != "y"@,
    ensures
        delete_step(token, state, EventView::Input(line)) == (
            DeleteStateView::Done,
            last_step(seq!["Операция отменена."@]),
        ),
        delete_requests(token, state, seq![EventView::Input(line)] + later) == Seq::<
            ApiRequestView,
        >::empty(),
{
    let events = seq![EventView::Input(line)] + later;
    assert(events[0] == EventView::Input(line));
    assert(events.drop_first() =~= later);
    lemma_delete_over(token, later);
}

/// While all repositories are going, whatever the replies are, each reply
/// is followed by the request for the next name still to go, in order.
pub proof fn lemma_delete_all_reaches_each(
    token: Seq<char>,
    owner: Seq<char>,
    current: Seq<char>,
    rest: Seq<Seq<char>>,
    replies: Seq<ApiReplyView>,
)
    requires
        replies.len() == rest.len(),
    ensures
        delete_requests(
            token,
            DeleteStateView::DeletingAll { owner, current, rest },
            replies.map_values(|reply: ApiReplyView| EventView::Reply(reply)),
        ) == rest.map_values(|name: Seq<char>| delete_request(token, owner, name)),
    decreases rest.len(),
{
    let events = replies.map_values(|reply: ApiReplyView| EventView::Reply(reply));
    let wanted = rest.map_values(|name: Seq<char>| delete_request(token, owner, name));
    if rest.len() == 0 {
        assert(events =~= Seq::empty());
        assert(wanted =~= Seq::empty());
    } else {
        lemma_delete_all_reaches_each(
            token,
            owner,
            rest[0],
            rest.drop_first(),
            replies.drop_first(),
        );
        assert(events[0] == EventView::Reply(replies[0]));
        assert(events.drop_first() =~= replies.drop_first().map_values(
            |reply: ApiReplyView| EventView::Reply(reply),
        ));
        assert(wanted =~= seq![delete_request(token, owner, rest[0])]
            + rest.drop_first().map_values(
            |name: Seq<char>| delete_request(token, owner, name),
        ));
    }
}

/// Where all repositories are to go, one refusal does not stop the rest:
/// once the user has answered `y` and the profile has given the login,
/// whatever the replies to the deletions are, one request goes out for each
/// name of the list, in the order of the list, each to the repository of
/// that name under that login.
pub proof fn lemma_delete_all_sends_each(
    token: Seq<char>,
    names: Seq<Seq<char>>,
    line: Seq<char>,
    login: Seq<char>,
    replies: Seq<ApiReplyView>,
)
    requires
        trimmed(line) == "y"@,
        names.len() > 0,
        replies.len() == names.len() - 1,
    ensures
        delete_requests(
            token,
            DeleteStateView::ConfirmingAll(names),
            seq![EventView::Input(line), EventView::Reply(ApiReplyView::Profile(login))]
                + replies.map_values(|reply: ApiReplyView| EventView::Reply(reply)),
        ) == seq![profile_request(token)] + names.map_values(
            |name: Seq<char>| delete_request(token, login, name),
        ),
{
    let reported = replies.map_values(|reply: ApiReplyView| EventView::Reply(reply));
    let resolved = seq![EventView::Reply(ApiReplyView::Profile(login))] + reported;
    let events = seq![EventView::Input(line), EventView::Reply(ApiReplyView::Profile(login))]
        + reported;
    assert(events[0] == EventView::Input(line));
    assert(events.drop_first() =~= resolved);
    assert(resolved[0] == EventView::Reply(ApiReplyView::Profile(login)));
    assert(resolved.drop_first() =~= reported);
    lemma_delete_all_reaches_each(token, login, names[0], names.drop_first(), replies);
    let deletions = names.map_values(|name: Seq<char>| delete_request(token, login, name));
    assert(deletions =~= seq![delete_request(token, login, names[0])]
        + names.drop_first().map_values(
        |name: Seq<char>| delete_request(token, login, name),
    ));
    let after = delete_requests(token, DeleteStateView::ResolvingAll(names), resolved);
    assert(after == deletions);
    assert(delete_requests(token, DeleteStateView::ConfirmingAll(names), events) == seq![
        profile_request(token),
    ] + after);
}

impl RepositoryManager {
    /// The step that follows the reply to the request for the repositories.
    fn delete_listed(&self, reply: &ApiReply) -> (next: (DeleteState, Step))
        ensures
            (next.0@, next.1@) == delete_listed(reply@),
    {
        match reply {
            ApiReply::Refused { status, details: _ } => {
                let mut lines = no_lines();
                push_line(
                    &mut lines,
                    join("Ошибка при получении списка репозиториев: ", status.as_str()),
                );
                assert(lines.deep_view() =~= seq![
                    "Ошибка при получении списка репозиториев: "@ + status@,
                ]);
                (DeleteState::Done, finish(lines))
            },
            ApiReply::Repositories(repositories) => {
                if repositories.len() == 0 {
                    (DeleteState::Done, finish_with("У вас нет репозиториев для удаления."))
                } else {
                    let names = names_of(repositories);
                    let mut lines = no_lines();
                    push_line(&mut lines, String::from_str("\nВыберите репозиторий для удаления:"));
                    push_lines(&mut lines, self.picker_entries(&names));
                    assert(lines.deep_view() =~= seq!["\nВыберите репозиторий для удаления:"@]
                        + picker_entries(names.deep_view()));
                    (
                        DeleteState::Choosing(names),
                        ask(
                            lines,
                            String::from_str(
                                "Введите номер репозитория (или 'all' для удаления всех): ",
                            ),
                        ),
                    )
                }
            },
            _ => (DeleteState::Done, finish(no_lines())),
        }
    }

    /// The step that follows the answer at the picker.
    fn delete_chosen(&self, names: Vec<String>, answer: &str) -> (next: (DeleteState, Step))
        ensures
            (next.0@, next.1@) == delete_chosen(names.deep_view(), answer@),
    {
        if same_text(answer, "all") {
            (
                DeleteState::ConfirmingAll(names),
                ask(
                    no_lines(),
                    String::from_str("Вы уверены, что хотите удалить ВСЕ репозитории? (y/n): "),
                ),
            )
        } else {
            match pick_index(answer, names.len()) {
                Some(index) => {
                    let name = names[index].clone();
                    let prompt = join3(
                        "Вы уверены, что хотите удалить репозиторий '",
                        name.as_str(),
                        "'? (y/n): ",
                    );
                    (DeleteState::ConfirmingOne(name), ask(no_lines(), prompt))
                },
                None => (DeleteState::Done, finish_with("Неверный выбор.")),
            }
        }
    }

    /// The step that follows a `y` to the confirmation for the whole list.
    fn delete_all_confirmed(&self, token: &str, names: Vec<String>) -> (next: (
        DeleteState,
        Step,
    ))
        ensures
            (next.0@, next.1@) == delete_all_confirmed(token@, names.deep_view()),
    {
        if names.len() == 0 {
            (DeleteState::Done, finish_with("Все репозитории успешно удалены!"))
        } else {
            (DeleteState::ResolvingAll(names), send(no_lines(), self.profile_request(token)))
        }
    }

    /// The step that follows the reply to the request for the profile where
    /// all are to go.
    fn delete_all_resolved(&self, token: &str, names: Vec<String>, reply: &ApiReply) -> (next: (
        DeleteState,
        Step,
    ))
        ensures
            (next.0@, next.1@) == delete_all_resolved(token@, names.deep_view(), reply@),
    {
        match reply {
            ApiReply::Profile(login) => self.delete_next(token, login.clone(), no_lines(), names),
            ApiReply::Refused { status, details: _ } => {
                let line = join("Ошибка при получении профиля пользователя: ", status.as_str());
                (DeleteState::Done, finish_with(line.as_str()))
            },
            _ => (DeleteState::Done, finish(no_lines())),
        }
    }

    /// The step that follows the reply to the request for the profile where
    /// one repository is to go.
    fn delete_one_resolved(&self, token: &str, name: String, reply: &ApiReply) -> (next: (
        DeleteState,
        Step,
    ))
        ensures
            (next.0@, next.1@) == delete_one_resolved(token@, name@, reply@),
    {
        match reply {
            ApiReply::Profile(login) => {
                let request = self.delete_single_repository(token, login.as_str(), name.as_str());
                (DeleteState::DeletingOne(name), send(no_lines(), request))
            },
            ApiReply::Refused { status, details: _ } => {
                let line = join("Ошибка при получении профиля пользователя: ", status.as_str());
                (DeleteState::Done, finish_with(line.as_str()))
            },
            _ => (DeleteState::Done, finish(no_lines())),
        }
    }

    /// The step that moves on through the repositories that are all to go.
    fn delete_next(
        &self,
        token: &str,
        owner: String,
        output: Vec<String>,
        names: Vec<String>,
    ) -> (next: (DeleteState, Step))
        ensures
            (next.0@, next.1@) == delete_next(
                token@,
                owner@,
                output.deep_view(),
                names.deep_view(),
            ),
    {
        let ghost printed = output.deep_view();
        let ghost all = names.deep_view();
        let mut output = output;
        let mut rest = names;
        if rest.len() == 0 {
            push_line(&mut output, String::from_str("Все репозитории успешно удалены!"));
            assert(output.deep_view() =~= printed + seq!["Все репозитории успешно удалены!"@]);
            (DeleteState::Done, finish(output))
        } else {
            let current = rest.remove(0);
            assert(current@ == all[0]);
            assert(rest.deep_view() =~= all.drop_first());
            let request = self.delete_single_repository(token, owner.as_str(), current.as_str());
            (DeleteState::DeletingAll { owner, current, rest }, send(output, request))
        }
    }

    /// What is printed for a reply to the request that deletes the
    /// repository called `name`.
    pub fn delete_report(&self, name: &str, reply: &ApiReply) -> (lines: Vec<String>)
        ensures
            lines.deep_view() == delete_report(name@, reply@),
    {
        match reply {
            ApiReply::Refused { status, details } => {
                let heading = join3("Ошибка при удалении репозитория '", name, "': ");
                report_failure(heading.as_str(), status.as_str(), details)
            },
            _ => no_lines(),
        }
    }

    /// One step of deleting with `token`. Start with `DeleteState::Start`
    /// and `Event::Start`, do what each step says, and hand back what came
    /// of it, until the effect is `Finish`.
    pub fn delete_repository(&self, token: &str, state: DeleteState, event: Event) -> (next: (
        DeleteState,
        Step,
    ))
        ensures
            (next.0@, next.1@) == delete_step(token@, state@, event@),
    {
        match (state, event) {
            (DeleteState::Start, Event::Start) => (
                DeleteState::Listing,
                send(no_lines(), self.list_request(token)),
            ),
            (DeleteState::Listing, Event::Reply(reply)) => self.delete_listed(&reply),
            (DeleteState::Choosing(names), Event::Input(line)) => {
                let answer = get_input(line.as_str());
                self.delete_chosen(names, answer.as_str())
            },
            (DeleteState::ConfirmingAll(names), Event::Input(line)) => {
                let answer = get_input(line.as_str());
                if same_text(answer.as_str(), "y") {
                    self.delete_all_confirmed(token, names)
                } else {
                    (DeleteState::Done, finish_with("Операция отменена."))
                }
            },
            (DeleteState::ConfirmingOne(name), Event::Input(line)) => {
                let answer = get_input(line.as_str());
                if same_text(answer.as_str(), "y") {
                    (DeleteState::ResolvingOne(name), send(no_lines(), self.profile_request(token)))
                } else {
                    (DeleteState::Done, finish_with("Операция отменена."))
                }
            },
            (DeleteState::ResolvingAll(names), Event::Reply(reply)) => {
                self.delete_all_resolved(token, names, &reply)
            },
            (DeleteState::ResolvingOne(name), Event::Reply(reply)) => {
                self.delete_one_resolved(token, name, &reply)
            },
            (DeleteState::DeletingAll { owner, current, rest }, Event::Reply(reply)) => {
                let output = self.delete_report(current.as_str(), &reply);
                self.delete_next(token, owner, output, rest)
            },
            (DeleteState::DeletingOne(name), Event::Reply(reply)) => {
                let mut output = self.delete_report(name.as_str(), &reply);
                push_line(&mut output, join3("Репозиторий '", name.as_str(), "' успешно удален!"));
                assert(output.deep_view() =~= delete_report(name@, reply@) + seq![
                    deleted_line(name@),
                ]);
                (DeleteState::Done, finish(output))
            },
            _ => (DeleteState::Done, finish(no_lines())),
        }
    }
}

} // verus!
