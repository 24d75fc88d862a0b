//! One call, from prompt to answer, as a state machine. The machine decides;
//! whoever drives it sends the request and renders what has to be shown.

use crate::client::ClientView;
use crate::error::{ClientError, ClientErrorView};
use crate::extract::{answer_in, answer_is_the_content, answer_of, content_at, ExtractionFault};
use crate::json::{parsed, JsonValue};
use crate::request::{envelope_json, turns_for, PromptView};
use crate::transport::{headers_for, HttpPost, HttpPostView, TIMEOUT_SECONDS};
use vstd::prelude::*;

verus! {

/// The language in which a reply without an answer is rendered.
pub const DIAGNOSTIC_LANGUAGE: &'static str = "json";

/// Where a call stands.
#[derive(Clone, Debug, PartialEq, Eq)]
pub enum CallState {
    /// Nothing has happened yet.
    Idle,
    /// The prompt was accepted and the request handed out.
    Validated,
    /// The reply has come in and has not been read yet.
    Sent { body: String },
    /// The answer has been read from the reply.
    Parsed { answer: String },
    /// The answer was returned.
    Done,
    /// The prompt was too long.
    Rejected,
    /// The transport failed.
    TransportFailed,
    /// The reply held no answer.
    ExtractionFailed,
}

/// What the driver reports to the call.
#[derive(Clone, Debug, PartialEq, Eq)]
pub enum Event {
    /// The caller asks for an answer to `prompt`.
    Submit { prompt: String },
    /// The transport brought back the full body of a reply.
    Delivered { body: String },
    /// The transport could not connect, timed out, or met a protocol error.
    Undelivered { reason: String },
    /// Nothing new: the call goes on by itself.
    Resume,
}

/// What the call asks of its driver.
#[derive(Clone, Debug, PartialEq, Eq)]
pub enum Action {
    /// Send this request, once, and report `Delivered` or `Undelivered`.
    Post { request: HttpPost },
    /// Report `Resume`.
    Continue,
    /// Hand the answer to the caller.
    Return { answer: String },
    /// Hand the failure to the caller.
    Fail { error: ClientError },
    /// Render the raw body in the given language, for whoever has to find out
    /// what came back, and then hand the failure to the caller.
    Diagnose { raw_body: String, language: String, error: ClientError },
    /// The event does not apply where the call stands. Nothing is to be done.
    Halt,
}

/// A state as contracts see it.
pub enum CallStateView {
    Idle,
    Validated,
    Sent { body: Seq<char> },
    Parsed { answer: Seq<char> },
    Done,
    Rejected,
    TransportFailed,
    ExtractionFailed,
}

/// An event as contracts see it.
pub enum EventView {
    Submit { prompt: Seq<char> },
    Delivered { body: Seq<char> },
    Undelivered { reason: Seq<char> },
    Resume,
}

/// An action as contracts see it.
pub enum ActionView {
    Post { request: HttpPostView },
    Continue,
    Return { answer: Seq<char> },
    Fail { error: ClientErrorView },
    Diagnose { raw_body: Seq<char>, language: Seq<char>, error: ClientErrorView },
    Halt,
}

impl View for CallState {
    type V = CallStateView;

    open spec fn view(&self) -> CallStateView {
        match *self {
            CallState::Idle => CallStateView::Idle,
            CallState::Validated => CallStateView::Validated,
            CallState::Sent { body } => CallStateView::Sent { body: body@ },
            CallState::Parsed { answer } => CallStateView::Parsed { answer: answer@ },
            CallState::Done => CallStateView::Done,
            CallState::Rejected => CallStateView::Rejected,
            CallState::TransportFailed => CallStateView::TransportFailed,
            CallState::ExtractionFailed => CallStateView::ExtractionFailed,
        }
    }
}

impl View for Event {
    type V = EventView;

    open spec fn view(&self) -> EventView {
        match *self {
            Event::Submit { prompt } => EventView::Submit { prompt: prompt@ },
            Event::Delivered { body } => EventView::Delivered { body: body@ },
            Event::Undelivered { reason } => EventView::Undelivered { reason: reason@ },
            Event::Resume => EventView::Resume,
        }
    }
}

impl View for Action {
    type V = ActionView;

    open spec fn view(&self) -> ActionView {
        match *self {
            Action::Post { request } => ActionView::Post { request: request@ },
            Action::Continue => ActionView::Continue,
            Action::Return { answer } => ActionView::Return { answer: answer@ },
            Action::Fail { error } => ActionView::Fail { error: error@ },
            Action::Diagnose { raw_body, language, error } => ActionView::Diagnose {
                raw_body: raw_body@,
                language: language@,
                error: error@,
            },
            Action::Halt => ActionView::Halt,
        }
    }
}

/// The request that a client sends for a prompt: to its endpoint, with its
/// key as bearer token, the envelope for the prompt as JSON body, and the
/// fixed timeout.
pub open spec fn request_for(client: ClientView, prompt: Seq<char>) -> HttpPostView {
    HttpPostView {
        url: client.url,
        headers: headers_for(client.api_key),
        body: envelope_json(
            PromptView {
                model: client.model,
                messages: turns_for(prompt),
                temperature: client.temperature,
            },
        ),
        timeout: TIMEOUT_SECONDS as nat,
    }
}

/// One transition of a call: where it stands next, and what it asks of its
/// driver.
///
/// A prompt is accepted where it is shorter than the limit, counted in
/// characters, and rejected otherwise. A delivered body is read in a step of
/// its own; the answer in it is returned in another. An event that does not
/// apply leaves the call where it stands.
pub open spec fn step_of(client: ClientView, state: CallStateView, event: EventView) -> (
    CallStateView,
    ActionView,
) {
    match (state, event) {
        (CallStateView::Idle, EventView::Submit { prompt }) => if prompt.len() < client.limit {
            (CallStateView::Validated, ActionView::Post { request: request_for(client, prompt) })
        } else {
            (
                CallStateView::Rejected,
                ActionView::Fail { error: ClientErrorView::Validation { limit: client.limit } },
            )
        },
        (CallStateView::Validated, EventView::Delivered { body }) => (
            CallStateView::Sent { body },
            ActionView::Continue,
        ),
        (CallStateView::Validated, EventView::Undelivered { reason }) => (
            CallStateView::TransportFailed,
            ActionView::Fail { error: ClientErrorView::Transport { reason } },
        ),
        (CallStateView::Sent { body }, EventView::Resume) => match answer_of(body) {
            Ok(answer) => (CallStateView::Parsed { answer }, ActionView::Continue),
            Err(fault) => (
                CallStateView::ExtractionFailed,
                ActionView::Diagnose {
                    raw_body: body,
                    language: DIAGNOSTIC_LANGUAGE@,
                    error: ClientErrorView::Extraction { fault },
                },
            ),
        },
        (CallStateView::Parsed { answer }, EventView::Resume) => (
            CallStateView::Done,
            ActionView::Return { answer },
        ),
        _ => (state, ActionView::Halt),
    }
}

/// The transitions that one event sets off: the one it causes, and those that
/// the call then makes by itself, up to the first that asks something of the
/// driver.
pub open spec fn advance_of(client: ClientView, state: CallStateView, event: EventView) -> (
    CallStateView,
    ActionView,
) {
    let first = step_of(client, state, event);
    if first.1 is Continue {
        let second = step_of(client, first.0, EventView::Resume);
        if second.1 is Continue {
            step_of(client, second.0, EventView::Resume)
        } else {
            second
        }
    } else {
        first
    }
}

/// Whether a call has come to its end in this state.
pub open spec fn is_final(state: CallStateView) -> bool {
    ||| state is Done
    ||| state is Rejected
    ||| state is TransportFailed
    ||| state is ExtractionFailed
}

/// A prompt shorter than the limit is sent. Where the reply to it is a JSON
/// document with a string at `choices[0].message.content`, the call returns
/// that string, character for character, and is done.
pub proof fn answer_is_returned_as_it_came(
    client: ClientView,
    prompt: Seq<char>,
    body: Seq<char>,
    doc: JsonValue,
    answer: Seq<char>,
)
    requires
        prompt.len() < client.limit,
        parsed(body) == Some(doc),
        content_at(doc) == Some(JsonValue::Text(answer)),
    ensures
        advance_of(client, CallStateView::Idle, EventView::Submit { prompt }) == (
            CallStateView::Validated,
            ActionView::Post { request: request_for(client, prompt) },
        ),
        advance_of(client, CallStateView::Validated, EventView::Delivered { body }) == (
            CallStateView::Done,
            ActionView::Return { answer },
        ),
{
    answer_is_the_content(doc);
}

/// A prompt as long as the limit, or longer, is rejected with the limit
/// named in the failure. No request is handed out for it, then or later.
pub proof fn long_prompt_is_rejected_unsent(client: ClientView, prompt: Seq<char>)
    requires
        prompt.len() >= client.limit,
    ensures
        advance_of(client, CallStateView::Idle, EventView::Submit { prompt }) == (
            CallStateView::Rejected,
            ActionView::Fail { error: ClientErrorView::Validation { limit: client.limit } },
        ),
        forall|event: EventView|
            !(#[trigger] advance_of(client, CallStateView::Rejected, event).1 is Post),
{
}

/// A reply that is no JSON document makes the call fail with an extraction
/// failure, and its raw body is handed out to be rendered.
pub proof fn invalid_json_is_shown_and_fails(client: ClientView, body: Seq<char>)
    requires
        parsed(body) is None,
    ensures
        advance_of(client, CallStateView::Validated, EventView::Delivered { body }) == (
            CallStateView::ExtractionFailed,
            ActionView::Diagnose {
                raw_body: body,
                language: DIAGNOSTIC_LANGUAGE@,
                error: ClientErrorView::Extraction { fault: ExtractionFault::InvalidJson },
            },
        ),
{
}

/// A reply that is a JSON document without a string at
/// `choices[0].message.content` makes the call fail with an extraction
/// failure that names the missing step, and its raw body is handed out to be
/// rendered.
pub proof fn missing_answer_is_shown_and_fails(client: ClientView, body: Seq<char>, doc: JsonValue)
    requires
        parsed(body) == Some(doc),
        !(content_at(doc) matches Some(JsonValue::Text(_))),
    ensures
        ({
            let next = advance_of(client, CallStateView::Validated, EventView::Delivered { body });
            &&& next.0 == CallStateView::ExtractionFailed
            &&& next.1 matches ActionView::Diagnose { raw_body, language, error }
            &&& raw_body == body
            &&& language == DIAGNOSTIC_LANGUAGE@
            &&& error matches ClientErrorView::Extraction { fault }
            &&& fault != ExtractionFault::InvalidJson
            &&& answer_in(doc) == Err::<Seq<char>, ExtractionFault>(fault)
        }),
{
    answer_is_the_content(doc);
}

/// No extraction failure reaches the caller unseen: it always comes with the
/// raw body of the reply that caused it, to be rendered as JSON.
pub proof fn extraction_failure_is_always_shown(
    client: ClientView,
    state: CallStateView,
    event: EventView,
)
    ensures
        ({
            let next = advance_of(client, state, event);
            &&& next.1 matches ActionView::Fail { error } ==> !(error is Extraction)
            &&& next.1 matches ActionView::Diagnose { raw_body, language, error } ==> {
                &&& error is Extraction
                &&& language == DIAGNOSTIC_LANGUAGE@
                &&& next.0 is ExtractionFailed
                &&& (state == CallStateView::Sent { body: raw_body } || (state is Validated
                    && event == EventView::Delivered { body: raw_body }))
            }
        }),
{
}

/// A request that the transport could not deliver makes the call fail with
/// the transport's own account. No answer is returned for it, then or later.
pub proof fn transport_failure_is_passed_on(client: ClientView, reason: Seq<char>)
    ensures
        advance_of(client, CallStateView::Validated, EventView::Undelivered { reason }) == (
            CallStateView::TransportFailed,
            ActionView::Fail { error: ClientErrorView::Transport { reason } },
        ),
        forall|event: EventView|
            !(#[trigger] advance_of(client, CallStateView::TransportFailed, event).1 is Return),
{
}

/// A call that has come to its end stays there: whatever is reported to it,
/// it asks for nothing more.
pub proof fn ended_call_stays_ended(client: ClientView, state: CallStateView, event: EventView)
    requires
        is_final(state),
    ensures
        step_of(client, state, event) == (state, ActionView::Halt),
        advance_of(client, state, event) == (state, ActionView::Halt),
{
}

/// A call sends at most once: a request is handed out only for a prompt
/// submitted to an idle call, which is idle no longer.
pub proof fn request_is_sent_once(client: ClientView, state: CallStateView, event: EventView)
    requires
        advance_of(client, state, event).1 is Post,
    ensures
        state is Idle,
        event is Submit,
        advance_of(client, state, event).0 is Validated,
{
}

} // verus!
