//! The client facade: a credential, the settings of its calls, and the
//! transitions of a call.

use crate::call::{
    advance_of, request_for, step_of, Action, CallState, Event, DIAGNOSTIC_LANGUAGE,
};
use crate::error::ClientError;
use crate::extract::read_answer;
use crate::request::Prompt;
use crate::temperature::Temperature;
use crate::transport::{json_headers, HttpPost, TIMEOUT_SECONDS};
use vstd::prelude::*;
use vstd::string::*;

verus! {

/// The endpoint that a client talks to unless told otherwise.
pub const OPENAI_API_URL: &'static str = "https://api.openai.com/v1/chat/completions";

/// The model that a client asks unless told otherwise.
pub const OPENAI_MODEL: &'static str = "gpt-3.5-turbo";

/// The prompt limit of a client unless told otherwise: a prompt has to be
/// shorter than this many characters.
pub const MAX_TOKENS: usize = 4096;

/// The temperature of a client unless told otherwise, in hundredths.
pub const TEMPERATURE_HUNDREDTHS: u8 = 20;

/// The settings of a client's calls: where they go, which model they ask at
/// which temperature, and the length that a prompt has to stay under.
#[derive(Clone, Copy, Debug, PartialEq, Eq)]
pub struct Settings<'a> {
    pub url: &'a str,
    pub model: &'a str,
    /// A prompt has to be shorter than this many characters.
    pub limit: usize,
    pub temperature: Temperature,
}

impl Default for Settings<'static> {
    /// The default endpoint, model, prompt limit and temperature.
    fn default() -> (settings: Self)
        ensures
            settings.url@ == OPENAI_API_URL@,
            settings.model@ == OPENAI_MODEL@,
            settings.limit == MAX_TOKENS,
            settings.temperature@ == TEMPERATURE_HUNDREDTHS,
    {
        Settings {
            url: OPENAI_API_URL,
            model: OPENAI_MODEL,
            limit: MAX_TOKENS,
            temperature: Temperature::from_hundredths(TEMPERATURE_HUNDREDTHS).unwrap(),
        }
    }
}

/// The client: a credential and the settings of every call it makes. It
/// keeps nothing from one call to the next.
pub struct GPTClient<'a> {
    api_key: &'a str,
    settings: Settings<'a>,
}

/// A client as contracts see it.
pub struct ClientView {
    pub api_key: Seq<char>,
    pub url: Seq<char>,
    pub model: Seq<char>,
    pub limit: nat,
    pub temperature: nat,
}

impl<'a> View for GPTClient<'a> {
    type V = ClientView;

    closed spec fn view(&self) -> ClientView {
        ClientView {
            api_key: self.api_key@,
            url: self.settings.url@,
            model: self.settings.model@,
            limit: self.settings.limit as nat,
            temperature: self.settings.temperature@,
        }
    }
}

impl<'a> GPTClient<'a> {
    /// A client for the given key, with the default settings.
    pub fn new(api_key: &'a str) -> (client: Self)
        ensures
            client@ == (ClientView {
                api_key: api_key@,
                url: OPENAI_API_URL@,
                model: OPENAI_MODEL@,
                limit: MAX_TOKENS as nat,
                temperature: TEMPERATURE_HUNDREDTHS as nat,
            }),
    {
        GPTClient { api_key, settings: Settings::default() }
    }

    /// A client for the given key with settings of the caller's choice.
    pub fn with_settings(api_key: &'a str, settings: Settings<'a>) -> (client: Self)
        ensures
            client@ == (ClientView {
                api_key: api_key@,
                url: settings.url@,
                model: settings.model@,
                limit: settings.limit as nat,
                temperature: settings.temperature@,
            }),
    {
        GPTClient { api_key, settings }
    }

    /// The request for a prompt.
    fn request(&self, prompt: &str) -> (request: HttpPost)
        ensures
            request@ == request_for(self@, prompt@),
    {
        HttpPost {
            url: self.settings.url.to_owned(),
            headers: json_headers(self.api_key),
            body: Prompt::new(prompt, self.settings.model, self.settings.temperature).to_json(),
            timeout: TIMEOUT_SECONDS,
        }
    }

    /// Makes one transition of a call.
    pub fn step(&self, state: CallState, event: Event) -> (next: (CallState, Action))
        ensures
            (next.0@, next.1@) == step_of(self@, state@, event@),
    {
        match (state, event) {
            (CallState::Idle, Event::Submit { prompt }) => {
                if prompt.as_str().unicode_len() < self.settings.limit {
                    let request = self.request(prompt.as_str());
                    (CallState::Validated, Action::Post { request })
                } else {
                    (
                        CallState::Rejected,
                        Action::Fail {
                            error: ClientError::Validation { limit: self.settings.limit },
                        },
                    )
                }
            },
            (CallState::Validated, Event::Delivered { body }) => (
                CallState::Sent { body },
                Action::Continue,
            ),
            (CallState::Validated, Event::Undelivered { reason }) => (
                CallState::TransportFailed,
                Action::Fail { error: ClientError::Transport { reason } },
            ),
            (CallState::Sent { body }, Event::Resume) => match read_answer(body.as_str()) {
                Ok(answer) => (CallState::Parsed { answer }, Action::Continue),
                Err(fault) => (
                    CallState::ExtractionFailed,
                    Action::Diagnose {
                        raw_body: body,
                        language: DIAGNOSTIC_LANGUAGE.to_owned(),
                        error: ClientError::Extraction { fault },
                    },
                ),
            },
            (CallState::Parsed { answer }, Event::Resume) => (
                CallState::Done,
                Action::Return { answer },
            ),
            (state, _) => (state, Action::Halt),
        }
    }

    /// Makes the transitions that one event sets off, up to the first that
    /// asks something of the driver.
    pub fn advance(&self, state: CallState, event: Event) -> (next: (CallState, Action))
        ensures
            (next.0@, next.1@) == advance_of(self@, state@, event@),
            !(next.1 is Continue),
    {
        let first = self.step(state, event);
        match first.1 {
            Action::Continue => {
                let second = self.step(first.0, Event::Resume);
                match second.1 {
                    Action::Continue => self.step(second.0, Event::Resume),
                    _ => second,
                }
            },
            _ => first,
        }
    }
}

} // verus!
