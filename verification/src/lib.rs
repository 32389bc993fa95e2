//! The protocol-state core of an SSH client binding.
//!
//! The engine that speaks SSH is a C library, and no call into it is made
//! here. Every operation of a [`Session`], a [`Channel`] or an [`Scp`] comes
//! in two halves. The first, named with `_call`, says which function of the
//! engine is to be called, on which handle and with which arguments: a
//! [`Call`]. Where an argument is a text and cannot travel as a C string,
//! there is no call. The second half carries the operation's own name and
//! takes what the engine answered, together with the text of the session's
//! last-error slot as it stands after the call. It turns the answer into the
//! operation's result, and keeps what little state the layer has. Whoever
//! owns the engine makes the call in between.
//!
//! A channel or a transfer borrows its session for as long as it lives, so a
//! session cannot be touched, let alone dropped, while one of them is in
//! use. Each of the three is released by `free`, which takes the value with
//! it.

pub mod call;
pub mod channel;
pub mod error;
pub mod known;
pub mod mode;
pub mod options;
pub mod request;
pub mod scp;
pub mod session;
pub mod status;

pub use call::{c_text, is_c_string, Call, CallView, OptionValue, Step};
pub use channel::{Channel, ChannelReader};
pub use error::{err, Error, ErrorView, IoError, IoErrorView};
pub use known::ServerKnown;
pub use mode::Mode;
pub use options::SshOptions;
pub use request::Request;
pub use scp::Scp;
pub use session::Session;
pub use status::SSH_OK;
