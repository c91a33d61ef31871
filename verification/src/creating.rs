//! Creating a repository.

use crate::api::{ApiReply, ApiReplyView};
use crate::dialogue::{
    ask, finish, last_step, prompt_step, send, send_step, without_authorization, Event,
    EventView, Step, StepView,
};
use crate::repository::{
    create_body, create_request, failure_lines, report_failure, RepositoryManager,
};
use crate::text::{join, no_lines, push_line, trimmed};
use crate::ui::get_input;
use vstd::prelude::*;
use vstd::string::*;

verus! {

/// How far creating a repository has come.
#[derive(Debug, PartialEq, Eq)]
pub enum CreateState {
    /// Nothing has happened yet.
    Start,
    /// The user is being asked for the name.
    Naming,
    /// The name is known and the user is being asked for the description.
    Describing { name: String },
    /// Name and description are known and the user is being asked whether
    /// the repository is to be private.
    Flagging { name: String, description: String },
    /// The request was sent.
    Sending,
    /// The operation is over.
    Done,
}

/// What a `CreateState` holds.
pub enum CreateStateView {
    Start,
    Naming,
    Describing { name: Seq<char> },
    Flagging { name: Seq<char>, description: Seq<char> },
    Sending,
    Done,
}

impl View for CreateState {
    type V = CreateStateView;

    open spec fn view(&self) -> CreateStateView {
        match self {
            CreateState::Start => CreateStateView::Start,
            CreateState::Naming => CreateStateView::Naming,
            CreateState::Describing { name } => CreateStateView::Describing { name: name@ },
            CreateState::Flagging { name, description } => CreateStateView::Flagging {
                name: name@,
                description: description@,
            },
            CreateState::Sending => CreateStateView::Sending,
            CreateState::Done => CreateStateView::Done,
        }
    }
}

/// What is printed for the reply to the request that creates a repository:
/// the address of the new repository, or the status and the body of a
/// refusal.
pub open spec fn create_report(reply: ApiReplyView) -> Seq<Seq<char>> {
    match reply {
        ApiReplyView::Created(repository) => seq![
            "Репозиторий успешно создан: "@ + repository.html_url,
        ],
        ApiReplyView::Refused { status, details } => failure_lines(
            "Ошибка при создании репозитория: "@,
            status,
            details,
        ),
        _ => Seq::empty(),
    }
}

/// One step of creating a repository: three prompts, for the name, the
/// description and whether it is to be private; then the request made of
/// the three answers, each without the white space around it; then what is
/// printed for the reply. An event that the state does not await ends the
/// operation with nothing printed.
pub open spec fn create_step(token: Seq<char>, state: CreateStateView, event: EventView) -> (
    CreateStateView,
    StepView,
) {
    match (state, event) {
        (CreateStateView::Start, EventView::Start) => (
            CreateStateView::Naming,
            prompt_step(Seq::empty(), "Введите имя для нового репозитория: "@),
        ),
        (CreateStateView::Naming, EventView::Input(line)) => (
            CreateStateView::Describing { name: trimmed(line) },
            prompt_step(Seq::empty(), "Введите описание (нажмите Enter, чтобы пропустить): "@),
        ),
        (CreateStateView::Describing { name }, EventView::Input(line)) => (
            CreateStateView::Flagging { name, description: trimmed(line) },
            prompt_step(Seq::empty(), "Сделать репозиторий приватным? (y/n): "@),
        ),
        (CreateStateView::Flagging { name, description }, EventView::Input(line)) => (
            CreateStateView::Sending,
            send_step(Seq::empty(), create_request(token, name, description, trimmed(line))),
        ),
        (CreateStateView::Sending, EventView::Reply(reply)) => (
            CreateStateView::Done,
            last_step(create_report(reply)),
        ),
        _ => (CreateStateView::Done, last_step(Seq::empty())),
    }
}

/// The token goes nowhere but into the `Authorization` header: what a step
/// prints, what it asks, where the operation stands afterwards, and the rest
/// of a request are the same for any two tokens.
pub proof fn lemma_create_keeps_token(
    token: Seq<char>,
    other: Seq<char>,
    state: CreateStateView,
    event: EventView,
)
    ensures
        create_step(token, state, event).0 == create_step(other, state, event).0,
        without_authorization(create_step(token, state, event).1) == without_authorization(
            create_step(other, state, event).1,
        ),
{
}

/// The repository is private exactly if the answer to the last prompt is
/// `y`, the white space around it aside; any other answer makes it public.
pub proof fn lemma_private_only_on_y(
    token: Seq<char>,
    name: Seq<char>,
    description: Seq<char>,
    line: Seq<char>,
)
    ensures
        create_step(
            token,
            CreateStateView::Flagging { name, description },
            EventView::Input(line),
        ).1 == send_step(Seq::empty(), create_request(token, name, description, trimmed(line))),
        create_body(name, description, trimmed(line)).private <==> trimmed(line) == "y"@,
{
}

impl RepositoryManager {
    /// What is printed for the reply to the request that creates a
    /// repository.
    pub fn create_report(&self, reply: &ApiReply) -> (lines: Vec<String>)
        ensures
            lines.deep_view() == create_report(reply@),
    {
        match reply {
            ApiReply::Created(repository) => {
                let mut lines = no_lines();
                push_line(
                    &mut lines,
                    join("Репозиторий успешно создан: ", repository.html_url.as_str()),
                );
                assert(lines.deep_view() =~= create_report(reply@));
                lines
            },
            ApiReply::Refused { status, details } => report_failure(
                "Ошибка при создании репозитория: ",
                status.as_str(),
                details,
            ),
            _ => no_lines(),
        }
    }

    /// One step of creating a repository with `token`. Start with
    /// `CreateState::Start` and `Event::Start`, do what each step says, and
    /// hand back what came of it, until the effect is `Finish`.
    pub fn create_repository(&self, token: &str, state: CreateState, event: Event) -> (next: (
        CreateState,
        Step,
    ))
        ensures
            (next.0@, next.1@) == create_step(token@, state@, event@),
    {
        match (state, event) {
            (CreateState::Start, Event::Start) => (
                CreateState::Naming,
                ask(no_lines(), String::from_str("Введите имя для нового репозитория: ")),
            ),
            (CreateState::Naming, Event::Input(line)) => (
                CreateState::Describing { name: get_input(line.as_str()) },
                ask(
                    no_lines(),
                    String::from_str("Введите описание (нажмите Enter, чтобы пропустить): "),
                ),
            ),
            (CreateState::Describing { name }, Event::Input(line)) => (
                CreateState::Flagging { name, description: get_input(line.as_str()) },
                ask(no_lines(), String::from_str("Сделать репозиторий приватным? (y/n): ")),
            ),
            (CreateState::Flagging { name, description }, Event::Input(line)) => {
                let private = get_input(line.as_str());
                (
                    CreateState::Sending,
                    send(
                        no_lines(),
                        self.create_request(token, name, description, private.as_str()),
                    ),
                )
            },
            (CreateState::Sending, Event::Reply(reply)) => (
                CreateState::Done,
                finish(self.create_report(&reply)),
            ),
            _ => (CreateState::Done, finish(no_lines())),
        }
    }
}

} // verus!
