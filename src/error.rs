use vstd::prelude::*;

verus! {

/// The family an error belongs to.
#[derive(Clone, Copy, Debug, PartialEq, Eq, Structural)]
pub enum ErrorKind {
    /// Establishing the link to the target failed.
    Connection,
    /// The RTT control block could not be located or validated.
    Protocol,
    /// A lifecycle precondition was violated by the caller.
    Usage,
    /// A hardware transaction failed after its preconditions held.
    Hardware,
}

/// Every failure the session can report, with the context needed to act on it.
#[derive(Clone, Debug)]
pub enum RttError {
    /// No debug probe is connected.
    NoProbeFound,
    /// No connected probe matches the selector.
    ProbeSelectorMismatch(String),
    /// Opening the probe or attaching to the chip failed.
    AttachFailure { chip: String, cause: String },
    /// The debug-info file holds no RTT control block symbol.
    SymbolNotFound(String),
    /// The debug-info file could not be read or parsed.
    SymbolSourceError { path: String, cause: String },
    /// Scanning target memory found no control block.
    ControlBlockNotFound(String),
    /// The structure at the given address is not a valid control block.
    ControlBlockInvalid { address: u64, cause: String },
    /// The operation needs an attached session.
    NotAttached,
    /// The operation needs RTT to be started.
    RttNotStarted,
    /// The channel index is not below the discovered channel count.
    ChannelNotFound(usize),
    /// Resetting the core failed.
    ResetFailed(String),
    /// The core did not halt within the bounded wait.
    HaltTimeout(String),
    /// Reading an up channel failed.
    ReadFailed(String),
    /// Writing a down channel failed.
    WriteFailed(String),
}

/// The family of each error variant.
pub open spec fn kind_of(e: RttError) -> ErrorKind {
    match e {
        RttError::NoProbeFound => ErrorKind::Connection,
        RttError::ProbeSelectorMismatch(_) => ErrorKind::Connection,
        RttError::AttachFailure { .. } => ErrorKind::Connection,
        RttError::SymbolNotFound(_) => ErrorKind::Protocol,
        RttError::SymbolSourceError { .. } => ErrorKind::Protocol,
        RttError::ControlBlockNotFound(_) => ErrorKind::Protocol,
        RttError::ControlBlockInvalid { .. } => ErrorKind::Protocol,
        RttError::NotAttached => ErrorKind::Usage,
        RttError::RttNotStarted => ErrorKind::Usage,
        RttError::ChannelNotFound(_) => ErrorKind::Usage,
        RttError::ResetFailed(_) => ErrorKind::Hardware,
        RttError::HaltTimeout(_) => ErrorKind::Hardware,
        RttError::ReadFailed(_) => ErrorKind::Hardware,
        RttError::WriteFailed(_) => ErrorKind::Hardware,
    }
}

impl RttError {
    /// The family this error belongs to.
    pub fn kind(&self) -> (k: ErrorKind)
        ensures
            k == kind_of(*self),
    {
        match self {
            RttError::NoProbeFound => ErrorKind::Connection,
            RttError::ProbeSelectorMismatch(_) => ErrorKind::Connection,
            RttError::AttachFailure { .. } => ErrorKind::Connection,
            RttError::SymbolNotFound(_) => ErrorKind::Protocol,
            RttError::SymbolSourceError { .. } => ErrorKind::Protocol,
            RttError::ControlBlockNotFound(_) => ErrorKind::Protocol,
            RttError::ControlBlockInvalid { .. } => ErrorKind::Protocol,
            RttError::NotAttached => ErrorKind::Usage,
            RttError::RttNotStarted => ErrorKind::Usage,
            RttError::ChannelNotFound(_) => ErrorKind::Usage,
            RttError::ResetFailed(_) => ErrorKind::Hardware,
            RttError::HaltTimeout(_) => ErrorKind::Hardware,
            RttError::ReadFailed(_) => ErrorKind::Hardware,
            RttError::WriteFailed(_) => ErrorKind::Hardware,
        }
    }
}

} // verus!
