//! The response extractor: from the raw body of a reply to the answer text,
//! or to the reason why the body holds none.

use crate::json::{document, element, member, parse, parsed, text, JsonValue};
use vstd::prelude::*;

verus! {

/// Why a reply yields no answer: the first step of the way to
/// `choices[0].message.content` that could not be taken.
#[derive(Clone, Copy, Debug, PartialEq, Eq, Structural)]
pub enum ExtractionFault {
    /// The body is not a JSON document.
    InvalidJson,
    /// The document is no object, or has no member `choices`.
    MissingChoices,
    /// `choices` is no array, or an empty one.
    NoCandidate,
    /// The first candidate is no object, or has no member `message`.
    MissingMessage,
    /// The message is no object, or has no member `content`.
    MissingContent,
    /// `content` is not a string.
    ContentNotText,
}

/// The sentence that tells of an extraction fault.
pub open spec fn fault_text(fault: ExtractionFault) -> Seq<char> {
    match fault {
        ExtractionFault::InvalidJson => "Response is not valid JSON"@,
        ExtractionFault::MissingChoices => "Response has no choices"@,
        ExtractionFault::NoCandidate => "Response has no first choice"@,
        ExtractionFault::MissingMessage => "First choice has no message"@,
        ExtractionFault::MissingContent => "Message has no content"@,
        ExtractionFault::ContentNotText => "Content is not a string"@,
    }
}

impl ExtractionFault {
    /// The sentence that tells of this fault.
    pub fn message(&self) -> (text: &'static str)
        ensures
            text@ == fault_text(*self),
    {
        match self {
            ExtractionFault::InvalidJson => "Response is not valid JSON",
            ExtractionFault::MissingChoices => "Response has no choices",
            ExtractionFault::NoCandidate => "Response has no first choice",
            ExtractionFault::MissingMessage => "First choice has no message",
            ExtractionFault::MissingContent => "Message has no content",
            ExtractionFault::ContentNotText => "Content is not a string",
        }
    }
}

/// The answer that a document carries: the string at
/// `choices[0].message.content`, character for character, or the first step
/// on the way to it that fails.
pub open spec fn answer_in(doc: JsonValue) -> Result<Seq<char>, ExtractionFault> {
    match doc.member("choices"@) {
        None => Err(ExtractionFault::MissingChoices),
        Some(choices) => match choices.element(0) {
            None => Err(ExtractionFault::NoCandidate),
            Some(candidate) => match candidate.member("message"@) {
                None => Err(ExtractionFault::MissingMessage),
                Some(message) => match message.member("content"@) {
                    None => Err(ExtractionFault::MissingContent),
                    Some(content) => match content.text() {
                        None => Err(ExtractionFault::ContentNotText),
                        Some(characters) => Ok(characters),
                    },
                },
            },
        },
    }
}

/// What stands at `choices[0].message.content` in a document, if anything
/// does.
pub open spec fn content_at(doc: JsonValue) -> Option<JsonValue> {
    match doc.member("choices"@) {
        None => None,
        Some(choices) => match choices.element(0) {
            None => None,
            Some(candidate) => match candidate.member("message"@) {
                None => None,
                Some(message) => message.member("content"@),
            },
        },
    }
}

/// The answer that a raw body carries: that of the document it parses to.
pub open spec fn answer_of(body: Seq<char>) -> Result<Seq<char>, ExtractionFault> {
    match parsed(body) {
        None => Err(ExtractionFault::InvalidJson),
        Some(doc) => answer_in(doc),
    }
}

/// What an extraction returned, as contracts see it.
pub open spec fn extraction_view(outcome: Result<String, ExtractionFault>) -> Result<
    Seq<char>,
    ExtractionFault,
> {
    match outcome {
        Ok(answer) => Ok(answer@),
        Err(fault) => Err(fault),
    }
}

/// Walks a parsed reply to its first candidate's text and returns it as it
/// stands, or names the step that failed.
pub fn extract_answer(doc: &serde_json::Value) -> (outcome: Result<String, ExtractionFault>)
    ensures
        extraction_view(outcome) == answer_in(document(*doc)),
{
    let choices = match member(doc, "choices") {
        Some(choices) => choices,
        None => { return Err(ExtractionFault::MissingChoices); },
    };
    let candidate = match element(choices, 0) {
        Some(candidate) => candidate,
        None => { return Err(ExtractionFault::NoCandidate); },
    };
    let message = match member(candidate, "message") {
        Some(message) => message,
        None => { return Err(ExtractionFault::MissingMessage); },
    };
    let content = match member(message, "content") {
        Some(content) => content,
        None => { return Err(ExtractionFault::MissingContent); },
    };
    match text(content) {
        Some(characters) => Ok(characters.to_owned()),
        None => Err(ExtractionFault::ContentNotText),
    }
}

/// Parses the raw body of a reply and extracts its answer.
pub fn read_answer(body: &str) -> (outcome: Result<String, ExtractionFault>)
    ensures
        extraction_view(outcome) == answer_of(body@),
{
    match parse(body) {
        Ok(doc) => extract_answer(&doc),
        Err(_) => Err(ExtractionFault::InvalidJson),
    }
}

/// A document carries an answer exactly where a string stands at
/// `choices[0].message.content`, and the answer is that string.
pub proof fn answer_is_the_content(doc: JsonValue)
    ensures
        content_at(doc) matches Some(JsonValue::Text(characters)) ==> answer_in(doc) == Ok::<
            Seq<char>,
            ExtractionFault,
        >(characters),
        !(content_at(doc) matches Some(JsonValue::Text(_))) ==> answer_in(doc) is Err,
{
}

} // verus!
