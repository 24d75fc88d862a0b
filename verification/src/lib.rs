//! A client core that turns a coding prompt into one chat-completion request
//! and the reply into one answer text.
//!
//! The crate decides and computes; it neither sends nor prints. A call is a
//! small state machine ([`call`]) that a driver runs: the driver reports an
//! event, [`client::GPTClient::advance`] answers with the next state and with
//! what to do, and the driver does it. Sending the request and rendering a
//! reply that holds no answer are the two things it is asked to do.
//!
//! * [`message`], [`temperature`], [`request`]: the turns of a conversation
//!   and the envelope that goes on the wire.
//! * [`transport`]: the POST that the driver is handed, in plain values.
//! * [`json`], [`extract`]: reading the answer out of a reply.
//! * [`call`], [`client`], [`error`]: the state machine, the client that
//!   drives its transitions, and the ways a call fails.
//! * [`language`]: which language a text is rendered in.
//! * [`decimal`]: numbers in decimal digits.

pub mod call;
pub mod client;
pub mod decimal;
pub mod error;
pub mod extract;
pub mod json;
pub mod language;
pub mod message;
pub mod request;
pub mod temperature;
pub mod transport;
