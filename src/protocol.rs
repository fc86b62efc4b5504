//! The messages exchanged between the session worker and its parent.

use vstd::prelude::*;
use vstd::string::*;

verus! {

/// Largest encoded message, in bytes, that one transport unit carries.
pub const MAX_MESSAGE_SIZE: usize = 10240;

/// The style of a notice that the worker forwards to its parent.
#[derive(Clone, Copy, Debug, PartialEq, Eq, Structural)]
pub enum AuthMessageType {
    Visible,
    Secret,
    Info,
    Error,
}

/// Where the session's standard streams go.
#[derive(Clone, Debug, PartialEq, Eq)]
pub enum TerminalMode {
    Terminal { path: String, vt: usize, switch: bool },
    Stdin,
}

/// A message from the parent to the worker.
#[derive(Clone, Debug, PartialEq, Eq)]
pub enum ParentToSessionChild {
    InitiateLogin {
        service: String,
        class: String,
        user: String,
        authenticate: bool,
        tty: TerminalMode,
        source_profile: bool,
    },
    PamResponse { resp: Option<String> },
    Args { cmd: Vec<String> },
    Start,
    Cancel,
}

/// The tag of a parent-to-worker message, without its payload.
#[derive(Clone, Copy, Debug, PartialEq, Eq, Structural)]
pub enum MessageKind {
    InitiateLogin,
    PamResponse,
    Args,
    Start,
    Cancel,
}

/// Why a login attempt was abandoned. Every failure is plain data so that it
/// can cross the process boundary.
#[derive(Clone, Debug, PartialEq, Eq)]
pub enum Error {
    /// The parent cancelled while the worker awaited a message.
    Cancelled,
    /// A well-formed message arrived out of sequence.
    UnexpectedMessage { expected: MessageKind, got: MessageKind },
    /// An oversized, truncated or malformed message.
    Protocol(String),
    /// A call into the native authentication transaction failed.
    Native(String),
    /// A user record, terminal device or process could not be had.
    Resource(String),
    /// A variable that the worker needs is missing from its environment.
    MissingEnvironment(String),
    /// The socket or another operating-system facility failed.
    Io(String),
    /// An event arrived that the worker's current state does not await.
    OutOfStep,
}

/// A message from the worker to the parent.
#[derive(Clone, Debug, PartialEq, Eq)]
pub enum SessionChildToParent {
    Success,
    Error(Error),
    PamMessage { style: AuthMessageType, msg: String },
    FinalChildPid(u64),
}

pub open spec fn kind_of(m: ParentToSessionChild) -> MessageKind {
    match m {
        ParentToSessionChild::InitiateLogin { .. } => MessageKind::InitiateLogin,
        ParentToSessionChild::PamResponse { .. } => MessageKind::PamResponse,
        ParentToSessionChild::Args { .. } => MessageKind::Args,
        ParentToSessionChild::Start => MessageKind::Start,
        ParentToSessionChild::Cancel => MessageKind::Cancel,
    }
}

impl ParentToSessionChild {
    /// The tag of this message.
    pub fn kind(&self) -> (r: MessageKind)
        ensures
            r == kind_of(*self),
    {
        match self {
            ParentToSessionChild::InitiateLogin { .. } => MessageKind::InitiateLogin,
            ParentToSessionChild::PamResponse { .. } => MessageKind::PamResponse,
            ParentToSessionChild::Args { .. } => MessageKind::Args,
            ParentToSessionChild::Start => MessageKind::Start,
            ParentToSessionChild::Cancel => MessageKind::Cancel,
        }
    }
}

/// Accepts a received transport unit of `len` bytes for decoding, or refuses
/// it as oversized.
pub fn check_frame(len: usize) -> (r: Result<(), Error>)
    ensures
        r is Ok <==> len <= MAX_MESSAGE_SIZE,
        r is Err ==> r->Err_0 is Protocol,
{
    if len <= MAX_MESSAGE_SIZE {
        Ok(())
    } else {
        Err(Error::Protocol(String::from_str("message exceeds the size bound")))
    }
}

} // verus!
