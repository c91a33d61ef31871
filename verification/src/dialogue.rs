//! The exchange between an operation and the shell that runs it. An
//! operation never reads or writes anything itself: each of its steps takes
//! the event that the shell reports, and gives the lines to print and the
//! one thing the shell is to do next.

use crate::api::{ApiReply, ApiReplyView, ApiRequest, ApiRequestView};
use crate::config::{Config, ConfigView, Stored, StoredView};
use crate::text::{no_lines, push_line};
use vstd::prelude::*;
use vstd::string::*;

verus! {

/// What the shell is to do after a step.
#[derive(Debug, PartialEq, Eq)]
pub enum Effect {
    /// Nothing: the operation is over.
    Finish,
    /// Show the prompt and read a line; report it as `Event::Input`.
    Prompt(String),
    /// Send the request; report what came back as `Event::Reply`.
    Send(ApiRequest),
    /// Read the credential file at this path; report what it gave as
    /// `Event::Loaded`.
    Load(String),
    /// Write the credential to the file at this path, in place of what the
    /// file held; report `Event::Saved` once that is done.
    Save(String, Config),
}

/// What an `Effect` holds.
pub enum EffectView {
    Finish,
    Prompt(Seq<char>),
    Send(ApiRequestView),
    Load(Seq<char>),
    Save(Seq<char>, ConfigView),
}

impl View for Effect {
    type V = EffectView;

    open spec fn view(&self) -> EffectView {
        match self {
            Effect::Finish => EffectView::Finish,
            Effect::Prompt(prompt) => EffectView::Prompt(prompt@),
            Effect::Send(request) => EffectView::Send(request@),
            Effect::Load(path) => EffectView::Load(path@),
            Effect::Save(path, config) => EffectView::Save(path@, config@),
        }
    }
}

/// What the shell reports to an operation.
#[derive(Debug, PartialEq, Eq)]
pub enum Event {
    /// The operation was chosen and nothing has happened yet.
    Start,
    /// The line that the user typed at a prompt, as it was read.
    Input(String),
    /// The reply to the request that was sent.
    Reply(ApiReply),
    /// What reading the credential file gave.
    Loaded(Stored),
    /// The credential file was written.
    Saved,
}

/// What an `Event` holds.
pub enum EventView {
    Start,
    Input(Seq<char>),
    Reply(ApiReplyView),
    Loaded(StoredView),
    Saved,
}

impl View for Event {
    type V = EventView;

    open spec fn view(&self) -> EventView {
        match self {
            Event::Start => EventView::Start,
            Event::Input(line) => EventView::Input(line@),
            Event::Reply(reply) => EventView::Reply(reply@),
            Event::Loaded(stored) => EventView::Loaded(stored@),
            Event::Saved => EventView::Saved,
        }
    }
}

/// One step of an operation: the lines to print, in order, and then what
/// the shell is to do.
#[derive(Debug, PartialEq, Eq)]
pub struct Step {
    pub output: Vec<String>,
    pub effect: Effect,
}

/// What a `Step` holds.
pub struct StepView {
    pub output: Seq<Seq<char>>,
    pub effect: EffectView,
}

impl View for Step {
    type V = StepView;

    open spec fn view(&self) -> StepView {
        StepView { output: self.output.deep_view(), effect: self.effect@ }
    }
}

/// A step that prints `output` and ends the operation.
pub open spec fn last_step(output: Seq<Seq<char>>) -> StepView {
    StepView { output, effect: EffectView::Finish }
}

/// A step that prints `output` and then asks the user.
pub open spec fn prompt_step(output: Seq<Seq<char>>, prompt: Seq<char>) -> StepView {
    StepView { output, effect: EffectView::Prompt(prompt) }
}

/// A step that prints `output` and then sends a request.
pub open spec fn send_step(output: Seq<Seq<char>>, request: ApiRequestView) -> StepView {
    StepView { output, effect: EffectView::Send(request) }
}

/// A step that prints `output` and ends the operation.
pub fn finish(output: Vec<String>) -> (step: Step)
    ensures
        step@ == last_step(output.deep_view()),
{
    Step { output, effect: Effect::Finish }
}

/// A step that prints one line and ends the operation.
pub fn finish_with(line: &str) -> (step: Step)
    ensures
        step@ == last_step(seq![line@]),
{
    let mut output = no_lines();
    push_line(&mut output, String::from_str(line));
    assert(output.deep_view() =~= seq![line@]);
    finish(output)
}

/// A step that prints `output` and then asks the user.
pub fn ask(output: Vec<String>, prompt: String) -> (step: Step)
    ensures
        step@ == prompt_step(output.deep_view(), prompt@),
{
    Step { output, effect: Effect::Prompt(prompt) }
}

/// A step that prints `output` and then sends a request.
pub fn send(output: Vec<String>, request: ApiRequest) -> (step: Step)
    ensures
        step@ == send_step(output.deep_view(), request@),
{
    Step { output, effect: Effect::Send(request) }
}

/// A step with the `Authorization` header of its request, if it sends one,
/// blanked: all of the step that can be seen without knowing the token.
pub open spec fn without_authorization(step: StepView) -> StepView {
    match step.effect {
        EffectView::Send(request) => StepView {
            output: step.output,
            effect: EffectView::Send(
                ApiRequestView { authorization: Seq::empty(), ..request },
            ),
        },
        _ => step,
    }
}

/// The requests that a step sends: its one request, or none.
pub open spec fn sent(step: StepView) -> Seq<ApiRequestView> {
    match step.effect {
        EffectView::Send(request) => seq![request],
        _ => Seq::empty(),
    }
}

} // verus!
