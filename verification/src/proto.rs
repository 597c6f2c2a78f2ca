//! The messages of the two protocols that a session speaks: requests and
//! replies exchanged with the host over TCP, and the messages exchanged with
//! the kernel CPU through the mailbox.

use vstd::prelude::*;

verus! {

/// What the host asks of the device.
#[derive(Debug, PartialEq, Eq)]
pub enum HostRequest {
    Ident,
    Log,
    LogClear,
    FlashRead { key: String },
    FlashWrite { key: String, value: Vec<u8> },
    FlashRemove { key: String },
    FlashErase,
    SwitchClock(u8),
    LoadLibrary(Vec<u8>),
    RunKernel,
    RpcReply(Vec<u8>),
    RpcException(Vec<u8>),
}

/// What the device answers to the host.
#[derive(Debug, PartialEq, Eq)]
pub enum HostReply {
    Ident(String),
    Log(String),
    FlashRead(Vec<u8>),
    FlashOk,
    FlashError,
    ClockSwitchCompleted,
    ClockSwitchFailed,
    LoadCompleted,
    LoadFailed,
    KernelStartupFailed,
    WatchdogExpired,
    ClockFailure,
}

/// A message in the mailbox, in either direction.
#[derive(Debug, PartialEq, Eq)]
pub enum KernelMessage {
    LoadRequest(Vec<u8>),
    LoadReply { error: Option<String> },
    Log(String),
    NowInitRequest,
    NowInitReply(u64),
    NowSave(u64),
    WatchdogSetRequest { ms: u64 },
    WatchdogSetReply { id: usize },
    WatchdogClear { id: usize },
    CacheGetRequest { key: Vec<u8> },
    CacheGetReply { value: Vec<u32> },
    CachePutRequest { key: Vec<u8>, value: Vec<u32> },
    CachePutReply { succeeded: bool },
    RpcRecvRequest { slot: usize },
}

/// The host's answer to a remote call of the kernel.
#[derive(Debug, PartialEq, Eq)]
pub enum RpcAnswer {
    /// The call returned; the bytes hold what it returned.
    Reply(Vec<u8>),
    /// The call raised; the bytes describe the exception.
    Exception(Vec<u8>),
}

/// Work that the session asks of the board for a host request. Each is
/// answered by the `Outcome` of the same name.
#[derive(Debug, PartialEq, Eq)]
pub enum Call {
    /// Read the hardware identifier.
    Ident,
    /// Take the text of the in-memory log.
    ExtractLog,
    /// Empty the in-memory log.
    ClearLog,
    FlashRead { key: String },
    FlashWrite { key: String, value: Vec<u8> },
    FlashRemove { key: String },
    FlashErase,
    /// Switch the RTIO clock to the given source.
    SwitchClock(u8),
    /// Start the kernel CPU, send it the library, and wait for its answer.
    LoadKernel(Vec<u8>),
}

/// What the board did for a `Call`.
#[derive(Debug, PartialEq, Eq)]
pub enum Outcome {
    Ident(String),
    Log(String),
    LogCleared,
    FlashValue(Vec<u8>),
    /// Whether the store took the value.
    FlashWritten(bool),
    FlashRemoved,
    FlashErased,
    /// Whether the clock was switched.
    ClockSwitched(bool),
    /// The kernel CPU's answer to the library it was sent.
    KernelReplied(KernelMessage),
}

/// Which `Call` is out.
#[derive(Clone, Copy, Debug, PartialEq, Eq, Structural)]
pub enum CallKind {
    Ident,
    ExtractLog,
    ClearLog,
    FlashRead,
    FlashWrite,
    FlashRemove,
    FlashErase,
    SwitchClock,
    LoadKernel,
}

/// What the session does towards the kernel CPU.
#[derive(Debug, PartialEq, Eq)]
pub enum KernelAction {
    /// Clear the mailbox.
    Acknowledge,
    /// Append the text to the in-memory log under the kernel's name, then
    /// clear the mailbox.
    Log(String),
    /// Send the message and wait until the kernel has taken it.
    Send(KernelMessage),
    /// Hand the host's answer to the kernel that waits for it.
    Forward(RpcAnswer),
}

impl Call {
    /// Which call this is.
    pub open spec fn kind_spec(&self) -> CallKind {
        match self {
            Call::Ident => CallKind::Ident,
            Call::ExtractLog => CallKind::ExtractLog,
            Call::ClearLog => CallKind::ClearLog,
            Call::FlashRead { .. } => CallKind::FlashRead,
            Call::FlashWrite { .. } => CallKind::FlashWrite,
            Call::FlashRemove { .. } => CallKind::FlashRemove,
            Call::FlashErase => CallKind::FlashErase,
            Call::SwitchClock(_) => CallKind::SwitchClock,
            Call::LoadKernel(_) => CallKind::LoadKernel,
        }
    }

    /// Which call this is.
    #[verifier::when_used_as_spec(kind_spec)]
    pub fn kind(&self) -> (kind: CallKind)
        ensures
            kind == self.kind_spec(),
    {
        match self {
            Call::Ident => CallKind::Ident,
            Call::ExtractLog => CallKind::ExtractLog,
            Call::ClearLog => CallKind::ClearLog,
            Call::FlashRead { .. } => CallKind::FlashRead,
            Call::FlashWrite { .. } => CallKind::FlashWrite,
            Call::FlashRemove { .. } => CallKind::FlashRemove,
            Call::FlashErase => CallKind::FlashErase,
            Call::SwitchClock(_) => CallKind::SwitchClock,
            Call::LoadKernel(_) => CallKind::LoadKernel,
        }
    }
}

impl Outcome {
    /// The call that this outcome answers.
    pub open spec fn kind_spec(&self) -> CallKind {
        match self {
            Outcome::Ident(_) => CallKind::Ident,
            Outcome::Log(_) => CallKind::ExtractLog,
            Outcome::LogCleared => CallKind::ClearLog,
            Outcome::FlashValue(_) => CallKind::FlashRead,
            Outcome::FlashWritten(_) => CallKind::FlashWrite,
            Outcome::FlashRemoved => CallKind::FlashRemove,
            Outcome::FlashErased => CallKind::FlashErase,
            Outcome::ClockSwitched(_) => CallKind::SwitchClock,
            Outcome::KernelReplied(_) => CallKind::LoadKernel,
        }
    }

    /// The call that this outcome answers.
    #[verifier::when_used_as_spec(kind_spec)]
    pub fn kind(&self) -> (kind: CallKind)
        ensures
            kind == self.kind_spec(),
    {
        match self {
            Outcome::Ident(_) => CallKind::Ident,
            Outcome::Log(_) => CallKind::ExtractLog,
            Outcome::LogCleared => CallKind::ClearLog,
            Outcome::FlashValue(_) => CallKind::FlashRead,
            Outcome::FlashWritten(_) => CallKind::FlashWrite,
            Outcome::FlashRemoved => CallKind::FlashRemove,
            Outcome::FlashErased => CallKind::FlashErase,
            Outcome::ClockSwitched(_) => CallKind::SwitchClock,
            Outcome::KernelReplied(_) => CallKind::LoadKernel,
        }
    }
}

} // verus!
