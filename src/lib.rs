//! The authentication-and-session-launch core of a login manager: the
//! control-message vocabulary, the conversation bridge between the native
//! authentication stack and a handler, and the session worker's state machine.

pub mod conversation;
pub mod protocol;
pub mod text;
pub mod worker;
