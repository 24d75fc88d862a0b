//! The ways in which a call fails.

use crate::decimal::{decimal, decimal_text};
use crate::extract::{fault_text, ExtractionFault};
use vstd::prelude::*;
use vstd::string::*;

verus! {

/// Why a call gave no answer.
#[derive(Clone, Debug, PartialEq, Eq)]
pub enum ClientError {
    /// The prompt is as long as the limit or longer. Nothing was sent.
    Validation { limit: usize },
    /// The request could not be delivered, or no reply came back in time.
    /// `reason` is the transport's own account.
    Transport { reason: String },
    /// A reply came back, and no answer could be read from it.
    Extraction { fault: ExtractionFault },
}

/// A failure as contracts see it.
pub enum ClientErrorView {
    Validation { limit: nat },
    Transport { reason: Seq<char> },
    Extraction { fault: ExtractionFault },
}

impl View for ClientError {
    type V = ClientErrorView;

    open spec fn view(&self) -> ClientErrorView {
        match *self {
            ClientError::Validation { limit } => ClientErrorView::Validation {
                limit: limit as nat,
            },
            ClientError::Transport { reason } => ClientErrorView::Transport { reason: reason@ },
            ClientError::Extraction { fault } => ClientErrorView::Extraction { fault },
        }
    }
}

/// The sentence that tells of a failure. A rejected prompt is told the limit
/// it has to stay under; a transport failure is told in the transport's
/// words.
pub open spec fn message_text(error: ClientErrorView) -> Seq<char> {
    match error {
        ClientErrorView::Validation { limit } => "Prompt cannot exceed length of "@ + decimal(limit)
            + " tokens"@,
        ClientErrorView::Transport { reason } => reason,
        ClientErrorView::Extraction { fault } => fault_text(fault),
    }
}

impl ClientError {
    /// The sentence that tells of this failure.
    pub fn message(&self) -> (text: String)
        ensures
            text@ == message_text(self@),
    {
        match self {
            ClientError::Validation { limit } => {
                let mut text = "Prompt cannot exceed length of ".to_owned();
                let digits = decimal_text(*limit);
                text.append(digits.as_str());
                text.append(" tokens");
                text
            },
            ClientError::Transport { reason } => reason.clone(),
            ClientError::Extraction { fault } => fault.message().to_owned(),
        }
    }
}

} // verus!
