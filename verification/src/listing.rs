//! Listing the caller's repositories.

use crate::api::{ApiReply, ApiReplyView};
use crate::dialogue::{
    finish, last_step, send, send_step, without_authorization, Event, EventView, Step, StepView,
};
use crate::repository::{list_request, Repository, RepositoryManager, RepositoryView};
use crate::text::{decimal, decimal_string, join, no_lines, push_line, push_lines};
use vstd::prelude::*;
use vstd::string::*;

verus! {

/// How far a listing has come.
#[derive(Debug, Clone, Copy, PartialEq, Eq, Structural)]
pub enum ListState {
    /// Nothing has happened yet.
    Start,
    /// The request for the repositories was sent.
    Listing,
    /// The operation is over.
    Done,
}

/// The lines that show the repository at position `index`, counted from
/// zero: its ordinal, name and address, and under them its description where
/// it has one that is not empty.
pub open spec fn entry_lines(index: int, repository: RepositoryView) -> Seq<Seq<char>> {
    let entry = decimal((index + 1) as nat) + ". "@ + repository.name + " - "@
        + repository.html_url;
    match repository.description {
        Some(text) if text.len() > 0 => seq![entry, "   Описание: "@ + text],
        _ => seq![entry],
    }
}

/// The lines that show `repositories`, one after the other.
pub open spec fn listing(repositories: Seq<RepositoryView>) -> Seq<Seq<char>>
    decreases repositories.len(),
{
    if repositories.len() == 0 {
        Seq::empty()
    } else {
        listing(repositories.drop_last()) + entry_lines(
            repositories.len() - 1,
            repositories.last(),
        )
    }
}

/// What is printed for the reply to the request for the repositories: a
/// notice where there are none, a heading and the listing where there are
/// some, and the status alone where the request was refused.
pub open spec fn list_report(reply: ApiReplyView) -> Seq<Seq<char>> {
    match reply {
        ApiReplyView::Repositories(repositories) => if repositories.len() == 0 {
            seq!["У вас нет репозиториев."@]
        } else {
            seq!["\nСписок ваших репозиториев:"@] + listing(repositories)
        },
        ApiReplyView::Refused { status, .. } => seq!["Ошибка: "@ + status],
        _ => Seq::empty(),
    }
}

/// One step of a listing: the request goes out first, and what is printed
/// for its reply ends the operation. An event that the state does not await
/// ends it with nothing printed.
pub open spec fn list_step(token: Seq<char>, state: ListState, event: EventView) -> (
    ListState,
    StepView,
) {
    match (state, event) {
        (ListState::Start, EventView::Start) => (
            ListState::Listing,
            send_step(Seq::empty(), list_request(token)),
        ),
        (ListState::Listing, EventView::Reply(reply)) => (
            ListState::Done,
            last_step(list_report(reply)),
        ),
        _ => (ListState::Done, last_step(Seq::empty())),
    }
}

/// The token goes nowhere but into the `Authorization` header: what a step
/// prints, what it asks, where the operation stands afterwards, and the rest
/// of a request are the same for any two tokens.
pub proof fn lemma_list_keeps_token(
    token: Seq<char>,
    other: Seq<char>,
    state: ListState,
    event: EventView,
)
    ensures
        list_step(token, state, event).0 == list_step(other, state, event).0,
        without_authorization(list_step(token, state, event).1) == without_authorization(
            list_step(other, state, event).1,
        ),
{
}

impl RepositoryManager {
    /// The lines that show `repositories`, one after the other.
    pub fn listing(&self, repositories: &Vec<Repository>) -> (lines: Vec<String>)
        ensures
            lines.deep_view() == listing(repositories.deep_view()),
    {
        let mut lines = no_lines();
        let mut at: usize = 0;
        let ghost all = repositories.deep_view();
        assert(all.take(0) =~= Seq::empty());
        while at < repositories.len()
            invariant
                at <= repositories.len(),
                all == repositories.deep_view(),
                lines.deep_view() == listing(all.take(at as int)),
            decreases repositories.len() - at,
        {
            let repository = &repositories[at];
            let ghost shown = all.take(at + 1);
            assert(shown.drop_last() =~= all.take(at as int));
            assert(shown.last() == repository@);
            let ordinal = decimal_string(at + 1);
            let mut entry = ordinal;
            entry.append(". ");
            entry.append(repository.name.as_str());
            entry.append(" - ");
            entry.append(repository.html_url.as_str());
            push_line(&mut lines, entry);
            match &repository.description {
                Some(text) => {
                    if !text.as_str().is_empty() {
                        push_line(&mut lines, join("   Описание: ", text.as_str()));
                    }
                },
                None => {},
            }
            assert(lines.deep_view() =~= listing(all.take(at as int)) + entry_lines(
                at as int,
                repository@,
            ));
            at += 1;
        }
        assert(all.take(at as int) =~= all);
        lines
    }

    /// What is printed for the reply to the request for the repositories.
    pub fn list_report(&self, reply: &ApiReply) -> (lines: Vec<String>)
        ensures
            lines.deep_view() == list_report(reply@),
    {
        let mut lines = no_lines();
        match reply {
            ApiReply::Repositories(repositories) => {
                if repositories.len() == 0 {
                    push_line(&mut lines, String::from_str("У вас нет репозиториев."));
                } else {
                    push_line(&mut lines, String::from_str("\nСписок ваших репозиториев:"));
                    push_lines(&mut lines, self.listing(repositories));
                }
            },
            ApiReply::Refused { status, details: _ } => {
                push_line(&mut lines, join("Ошибка: ", status.as_str()));
            },
            _ => {},
        }
        assert(lines.deep_view() =~= list_report(reply@));
        lines
    }

    /// One step of listing the repositories that `token` gives access to.
    /// Start with `ListState::Start` and `Event::Start`, do what each step
    /// says, and hand back what came of it, until the effect is `Finish`.
    pub fn list_repositories(&self, token: &str, state: ListState, event: Event) -> (next: (
        ListState,
        Step,
    ))
        ensures
            (next.0, next.1@) == list_step(token@, state, event@),
    {
        match (state, event) {
            (ListState::Start, Event::Start) => (
                ListState::Listing,
                send(no_lines(), self.list_request(token)),
            ),
            (ListState::Listing, Event::Reply(reply)) => (
                ListState::Done,
                finish(self.list_report(&reply)),
            ),
            _ => (ListState::Done, finish(no_lines())),
        }
    }
}

} // verus!
