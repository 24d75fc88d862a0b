//! The request envelope: a fixed system instruction and the caller's prompt,
//! for one model at one temperature.

use crate::json::{quote, quoted};
use crate::message::{message_json, Message, MessageView};
use crate::temperature::{hundredths_text, Temperature};
use vstd::prelude::*;
use vstd::string::*;

verus! {

/// The role tag of the instruction turn.
pub const SYSTEM_ROLE: &'static str = "system";

/// The role tag of the caller's turn.
pub const USER_ROLE: &'static str = "user";

/// What every request tells the model before the prompt: to answer with code
/// alone.
pub const SYSTEM_INSTRUCTION: &'static str =
    "I want you to act as a coding assistant. I will provide prompts specifying a program or data structure definition. Please only reply with the code output. Do not include markdown symbols around the code block. Please make the code ready to paste into an editor. Do not write explanations.";

/// A request envelope as contracts see it.
pub struct PromptView {
    pub model: Seq<char>,
    pub messages: Seq<MessageView>,
    pub temperature: nat,
}

/// The two turns of every request: the instruction, then the prompt.
pub open spec fn turns_for(prompt: Seq<char>) -> Seq<MessageView> {
    seq![
        MessageView { role: SYSTEM_ROLE@, content: SYSTEM_INSTRUCTION@ },
        MessageView { role: USER_ROLE@, content: prompt },
    ]
}

/// A request envelope as a JSON object: the model, the turns in their order,
/// the temperature.
pub open spec fn envelope_json(envelope: PromptView) -> Seq<char> {
    "{\"model\":"@ + quoted(envelope.model) + ",\"messages\":["@ + message_json(
        envelope.messages[0],
    ) + ","@ + message_json(envelope.messages[1]) + "],\"temperature\":"@ + hundredths_text(
        envelope.temperature,
    ) + "}"@
}

/// A request envelope. It always holds exactly two turns: the system
/// instruction first, the caller's prompt second.
pub struct Prompt {
    model: String,
    messages: [Message; 2],
    temperature: Temperature,
}

impl View for Prompt {
    type V = PromptView;

    closed spec fn view(&self) -> PromptView {
        PromptView {
            model: self.model@,
            messages: seq![self.messages@[0]@, self.messages@[1]@],
            temperature: self.temperature@,
        }
    }
}

impl Prompt {
    #[verifier::type_invariant]
    spec fn instruction_precedes_prompt(self) -> bool {
        &&& self.messages@[0]@.role == SYSTEM_ROLE@
        &&& self.messages@[0]@.content == SYSTEM_INSTRUCTION@
        &&& self.messages@[1]@.role == USER_ROLE@
    }

    /// The envelope that asks `model`, at `temperature`, to answer `prompt`.
    pub fn new(prompt: &str, model: &str, temperature: Temperature) -> (envelope: Prompt)
        ensures
            envelope@ == (PromptView {
                model: model@,
                messages: turns_for(prompt@),
                temperature: temperature@,
            }),
    {
        let envelope = Prompt {
            model: model.to_owned(),
            messages: [
                Message::new(SYSTEM_ROLE, SYSTEM_INSTRUCTION),
                Message::new(USER_ROLE, prompt),
            ],
            temperature,
        };
        envelope
    }

    /// The model that the envelope is for.
    pub fn model(&self) -> (model: &str)
        ensures
            model@ == self@.model,
    {
        self.model.as_str()
    }

    /// The two turns: the system instruction, then the caller's prompt.
    pub fn messages(&self) -> (turns: &[Message; 2])
        ensures
            self@.messages == seq![turns@[0]@, turns@[1]@],
            turns@[0]@.role == SYSTEM_ROLE@,
            turns@[0]@.content == SYSTEM_INSTRUCTION@,
            turns@[1]@.role == USER_ROLE@,
    {
        proof {
            use_type_invariant(self);
        }
        &self.messages
    }

    /// The temperature that the envelope asks for.
    pub fn temperature(&self) -> (temperature: Temperature)
        ensures
            temperature@ == self@.temperature,
    {
        self.temperature
    }

    /// Writes the envelope as the JSON document that goes on the wire.
    pub fn to_json(&self) -> (text: String)
        ensures
            text@ == envelope_json(self@),
    {
        let mut text = "{\"model\":".to_owned();
        let model = quote(self.model.as_str());
        text.append(model.as_str());
        text.append(",\"messages\":[");
        let first = self.messages[0].to_json();
        text.append(first.as_str());
        text.append(",");
        let second = self.messages[1].to_json();
        text.append(second.as_str());
        text.append("],\"temperature\":");
        let temperature = self.temperature.to_text();
        text.append(temperature.as_str());
        text.append("}");
        text
    }
}

} // verus!
