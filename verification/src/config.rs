//! The stored credential and the steps that obtain one.

use crate::dialogue::{
    ask, finish, finish_with, last_step, prompt_step, Effect, EffectView, Event, EventView, Step,
    StepView,
};
use crate::text::{no_lines, trimmed};
use crate::ui::get_input;
use vstd::prelude::*;
use vstd::string::*;

verus! {

/// The credential as it is stored: one access token.
#[derive(Debug, Clone, PartialEq, Eq)]
pub struct Config {
    pub token: String,
}

/// What a `Config` holds.
pub struct ConfigView {
    pub token: Seq<char>,
}

impl View for Config {
    type V = ConfigView;

    open spec fn view(&self) -> ConfigView {
        ConfigView { token: self.token@ }
    }
}

/// What reading the credential file gave.
#[derive(Debug, PartialEq, Eq)]
pub enum Stored {
    /// The file could not be read.
    Missing,
    /// The file was read and does not hold a credential.
    Malformed,
    /// The file holds this credential.
    Present(Config),
}

/// What a `Stored` holds.
pub enum StoredView {
    Missing,
    Malformed,
    Present(ConfigView),
}

impl View for Stored {
    type V = StoredView;

    open spec fn view(&self) -> StoredView {
        match self {
            Stored::Missing => StoredView::Missing,
            Stored::Malformed => StoredView::Malformed,
            Stored::Present(config) => StoredView::Present(config@),
        }
    }
}

/// Keeps the credential: reads it from its file, asks for one where the
/// file gives none, and writes each one that is entered.
#[derive(Debug, PartialEq, Eq)]
pub struct TokenManager {
    config_path: String,
}

/// How far obtaining a token has come.
#[derive(Debug, PartialEq, Eq)]
pub enum TokenState {
    /// Nothing has happened yet.
    Start,
    /// The credential file is being read.
    Loading,
    /// The user is being asked for a token.
    Asking,
    /// This token was entered and is being written to the file.
    Saving(String),
    /// This is the token; the operation is over.
    Ready(String),
}

/// What a `TokenState` holds.
pub enum TokenStateView {
    Start,
    Loading,
    Asking,
    Saving(Seq<char>),
    Ready(Seq<char>),
}

impl View for TokenState {
    type V = TokenStateView;

    open spec fn view(&self) -> TokenStateView {
        match self {
            TokenState::Start => TokenStateView::Start,
            TokenState::Loading => TokenStateView::Loading,
            TokenState::Asking => TokenStateView::Asking,
            TokenState::Saving(token) => TokenStateView::Saving(token@),
            TokenState::Ready(token) => TokenStateView::Ready(token@),
        }
    }
}

/// The token that a read of the credential file gives: the stored one where
/// the file holds a credential, none where it is missing or malformed.
pub open spec fn loaded_token(stored: StoredView) -> Option<Seq<char>> {
    match stored {
        StoredView::Present(config) => Some(config.token),
        _ => None,
    }
}

/// The effect that stores `token` in the file at `path`.
pub open spec fn save_effect(path: Seq<char>, token: Seq<char>) -> EffectView {
    EffectView::Save(path, ConfigView { token })
}

/// The steps that follow a prompt for a token: the answer, without the white
/// space around it, is written to the file at `path`; once it is written,
/// one line says so and the answer is the token. An event that the state
/// does not await ends the operation where it stands.
pub open spec fn store_step(path: Seq<char>, state: TokenStateView, event: EventView) -> (
    TokenStateView,
    StepView,
) {
    match (state, event) {
        (TokenStateView::Asking, EventView::Input(line)) => (
            TokenStateView::Saving(trimmed(line)),
            StepView { output: Seq::empty(), effect: save_effect(path, trimmed(line)) },
        ),
        (TokenStateView::Saving(token), EventView::Saved) => (
            TokenStateView::Ready(token),
            last_step(seq!["Токен успешно сохранен!"@]),
        ),
        _ => (state, last_step(Seq::empty())),
    }
}

/// One step of `get_or_prompt_token`: the file at `path` is read first; a
/// credential found there is the token, and anything else leads to a prompt
/// and then on as `store_step` says.
pub open spec fn get_or_prompt_step(path: Seq<char>, state: TokenStateView, event: EventView) -> (
    TokenStateView,
    StepView,
) {
    match (state, event) {
        (TokenStateView::Start, EventView::Start) => (
            TokenStateView::Loading,
            StepView { output: Seq::empty(), effect: EffectView::Load(path) },
        ),
        (TokenStateView::Loading, EventView::Loaded(stored)) => match loaded_token(stored) {
            Some(token) => (TokenStateView::Ready(token), last_step(Seq::empty())),
            None => (
                TokenStateView::Asking,
                prompt_step(Seq::empty(), "Введите ваш GitHub токен: "@),
            ),
        },
        _ => store_step(path, state, event),
    }
}

/// One step of `update_token`: a prompt comes first, whatever the file
/// holds, and then on as `store_step` says.
pub open spec fn update_token_step(path: Seq<char>, state: TokenStateView, event: EventView) -> (
    TokenStateView,
    StepView,
) {
    match (state, event) {
        (TokenStateView::Start, EventView::Start) => (
            TokenStateView::Asking,
            prompt_step(Seq::empty(), "Введите новый GitHub токен: "@),
        ),
        _ => store_step(path, state, event),
    }
}

/// A token that was stored is the token that the next read gives: the
/// answer to the prompt goes to the file as it is, but for the white space
/// around it; the operation that stored it ends with that token; and a
/// later `get_or_prompt_token` that finds the stored credential ends with
/// the same token, and asks nothing.
pub proof fn lemma_stored_token_loads_back(path: Seq<char>, line: Seq<char>)
    ensures
        ({
            let token = trimmed(line);
            let stored = ConfigView { token };
            let (saving, save) = store_step(path, TokenStateView::Asking, EventView::Input(line));
            &&& save.effect == EffectView::Save(path, stored)
            &&& store_step(path, saving, EventView::Saved).0 == TokenStateView::Ready(token)
            &&& loaded_token(StoredView::Present(stored)) == Some(token)
            &&& get_or_prompt_step(
                path,
                TokenStateView::Loading,
                EventView::Loaded(StoredView::Present(stored)),
            ) == (TokenStateView::Ready(token), last_step(Seq::empty()))
        }),
{
}

/// `get_or_prompt_token` never ends without a token: it asks wherever the
/// file gives none, be it missing or malformed.
pub proof fn lemma_absent_credential_prompts(path: Seq<char>, stored: StoredView)
    requires
        !(stored is Present),
    ensures
        get_or_prompt_step(path, TokenStateView::Loading, EventView::Loaded(stored)) == (
            TokenStateView::Asking,
            prompt_step(Seq::empty(), "Введите ваш GitHub токен: "@),
        ),
{
}

impl TokenState {
    /// The token, once the operation has one.
    pub fn token(&self) -> (token: Option<String>)
        ensures
            match token {
                Some(text) => self@ == TokenStateView::Ready(text@),
                None => !(self@ is Ready),
            },
    {
        match self {
            TokenState::Ready(token) => Some(token.clone()),
            _ => None,
        }
    }
}

impl TokenManager {
    /// The path of the credential file.
    pub closed spec fn path(&self) -> Seq<char> {
        self.config_path@
    }

    /// A manager whose credential file is `config.json` in the working
    /// directory.
    pub fn new() -> (manager: TokenManager)
        ensures
            manager.path() == "config.json"@,
    {
        TokenManager { config_path: String::from_str("config.json") }
    }

    /// The path of the credential file.
    pub fn config_path(&self) -> (path: &str)
        ensures
            path@ == self.path(),
    {
        self.config_path.as_str()
    }

    /// The token that a read of the credential file gives, if any.
    pub fn load_token(&self, stored: Stored) -> (token: Option<String>)
        ensures
            token.deep_view() == loaded_token(stored@),
    {
        match stored {
            Stored::Present(config) => Some(config.token),
            _ => None,
        }
    }

    /// The effect that writes `token` to the credential file.
    pub fn save_token(&self, token: &str) -> (effect: Effect)
        ensures
            effect@ == save_effect(self.path(), token@),
    {
        Effect::Save(self.config_path.clone(), Config { token: String::from_str(token) })
    }

    /// The steps that a prompt for a token leads to.
    fn store(&self, state: TokenState, event: Event) -> (next: (TokenState, Step))
        ensures
            (next.0@, next.1@) == store_step(self.path(), state@, event@),
    {
        match (state, event) {
            (TokenState::Asking, Event::Input(line)) => {
                let token = get_input(line.as_str());
                let effect = self.save_token(token.as_str());
                (TokenState::Saving(token), Step { output: no_lines(), effect })
            },
            (TokenState::Saving(token), Event::Saved) => (
                TokenState::Ready(token),
                finish_with("Токен успешно сохранен!"),
            ),
            (state, _) => (state, finish(no_lines())),
        }
    }

    /// One step towards the stored token: reads the credential file, and
    /// asks for a token and stores it where the file gives none. Start with
    /// `TokenState::Start` and `Event::Start`, do what each step says, and
    /// hand back what came of it, until the effect is `Finish`.
    pub fn get_or_prompt_token(&self, state: TokenState, event: Event) -> (next: (
        TokenState,
        Step,
    ))
        ensures
            (next.0@, next.1@) == get_or_prompt_step(self.path(), state@, event@),
    {
        match (state, event) {
            (TokenState::Start, Event::Start) => (
                TokenState::Loading,
                Step { output: no_lines(), effect: Effect::Load(self.config_path.clone()) },
            ),
            (TokenState::Loading, Event::Loaded(stored)) => match self.load_token(stored) {
                Some(token) => (TokenState::Ready(token), finish(no_lines())),
                None => (
                    TokenState::Asking,
                    ask(no_lines(), String::from_str("Введите ваш GitHub токен: ")),
                ),
            },
            (state, event) => self.store(state, event),
        }
    }

    /// One step towards a new token: asks for one, whatever the file holds,
    /// and stores it. To be driven as `get_or_prompt_token` is.
    pub fn update_token(&self, state: TokenState, event: Event) -> (next: (TokenState, Step))
        ensures
            (next.0@, next.1@) == update_token_step(self.path(), state@, event@),
    {
        match (state, event) {
            (TokenState::Start, Event::Start) => (
                TokenState::Asking,
                ask(no_lines(), String::from_str("Введите новый GitHub токен: ")),
            ),
            (state, event) => self.store(state, event),
        }
    }
}

} // verus!
