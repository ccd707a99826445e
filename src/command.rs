use vstd::prelude::*;

verus! {

/// The errors that a recorder command can surface to its caller.
#[derive(Debug, Clone, Copy, PartialEq, Eq, Structural)]
pub enum RecorderError {
    /// The operating system's audio subsystem could not be reached.
    DeviceQuery,
    /// The selected device vanished or the identifier is unknown.
    DeviceNotFound,
    /// A session is already open.
    SessionAlreadyOpen,
    /// The operation is not permitted in the current state.
    InvalidState,
    /// The capture worker is not running.
    WorkerUnavailable,
    /// The command was issued against a session generation that has since
    /// been superseded, and was discarded.
    Superseded,
}

/// What a command asks the capture worker to do.
#[derive(Debug, Clone, Copy, PartialEq, Eq, Structural)]
pub enum CommandKind {
    Init,
    Start,
    Stop,
    Cancel,
    Close,
    Shutdown,
}

/// A request travelling from the session manager to the capture worker.
/// `device_id` names the device of the session the command was issued
/// against (empty when no session was open); `generation` is the session
/// generation at the time of issue.
#[derive(Debug, Clone)]
pub struct Command {
    pub kind: CommandKind,
    pub generation: u64,
    pub device_id: String,
}

/// Cancel, close and shutdown overtake the ordinary commands in the channel.
pub open spec fn is_priority(kind: CommandKind) -> bool {
    kind == CommandKind::Cancel || kind == CommandKind::Close || kind == CommandKind::Shutdown
}

impl CommandKind {
    /// Whether commands of this kind are delivered ahead of ordinary ones.
    pub fn is_priority(&self) -> (r: bool)
        ensures
            r == is_priority(*self),
    {
        match self {
            CommandKind::Cancel | CommandKind::Close | CommandKind::Shutdown => true,
            _ => false,
        }
    }
}

/// The audio captured by one completed recording.
#[derive(Debug, Clone, PartialEq, Eq)]
pub struct CapturedAudio {
    pub device_id: String,
    pub generation: u64,
    pub samples: Vec<i16>,
}

/// A successful completion of a command by the capture worker.
#[derive(Debug, Clone, PartialEq, Eq)]
pub enum Ack {
    Done,
    Captured(CapturedAudio),
}

} // verus!
