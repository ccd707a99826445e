use vstd::prelude::*;
use crate::command::{Ack, Command, CommandKind, RecorderError};
use crate::device::{find_device, has_device, DeviceDescriptor};

verus! {

/// The states of a recording session as the session manager sees them.
#[derive(Debug, Clone, Copy, PartialEq, Eq, Structural)]
pub enum SessionState {
    Idle,
    Initializing,
    Ready,
    Recording,
    Stopping,
    Cancelled,
}

/// The states in which no acknowledgement from the worker is awaited.
pub open spec fn is_settled(s: SessionState) -> bool {
    s == SessionState::Idle || s == SessionState::Ready || s == SessionState::Recording
}

/// The mathematical content of a session manager.
pub struct SessionModel {
    pub state: SessionState,
    pub device: Option<Seq<char>>,
    pub generation: nat,
    pub worker_running: bool,
}

impl SessionModel {
    /// An open session always has a device, an idle manager has none, and
    /// without a worker no session is open.
    pub open spec fn wf(self) -> bool {
        &&& (self.state == SessionState::Idle <==> self.device is None)
        &&& (!self.worker_running ==> self.state == SessionState::Idle)
    }
}

/// The shadow copy of the session state held on the caller side.
pub struct SessionManager {
    state: SessionState,
    device: Option<String>,
    generation: u64,
    worker_running: bool,
}

impl View for SessionManager {
    type V = SessionModel;

    closed spec fn view(&self) -> SessionModel {
        SessionModel {
            state: self.state,
            device: match self.device {
                Some(d) => Some(d@),
                None => None,
            },
            generation: self.generation as nat,
            worker_running: self.worker_running,
        }
    }
}

// ---- Transitions, stated over the model ----

/// What `init_recording_session` answers, `found` being whether the device
/// is among the enumerated ones.
pub open spec fn init_check(m: SessionModel, found: bool) -> Result<(), RecorderError> {
    if !m.worker_running {
        Err(RecorderError::WorkerUnavailable)
    } else if m.state != SessionState::Idle {
        Err(RecorderError::SessionAlreadyOpen)
    } else if !found {
        Err(RecorderError::DeviceNotFound)
    } else {
        Ok(())
    }
}

pub open spec fn init_model(m: SessionModel, id: Seq<char>, found: bool) -> SessionModel {
    if init_check(m, found) is Ok {
        SessionModel {
            state: SessionState::Initializing,
            device: Some(id),
            generation: m.generation + 1,
            ..m
        }
    } else {
        m
    }
}

/// What `start_recording` answers; it leaves the model as it is.
pub open spec fn start_check(m: SessionModel) -> Result<(), RecorderError> {
    if !m.worker_running {
        Err(RecorderError::WorkerUnavailable)
    } else if m.state != SessionState::Ready {
        Err(RecorderError::InvalidState)
    } else {
        Ok(())
    }
}

/// What `stop_recording` answers.
pub open spec fn stop_check(m: SessionModel) -> Result<(), RecorderError> {
    if !m.worker_running {
        Err(RecorderError::WorkerUnavailable)
    } else if m.state != SessionState::Recording {
        Err(RecorderError::InvalidState)
    } else {
        Ok(())
    }
}

pub open spec fn stop_model(m: SessionModel) -> SessionModel {
    if stop_check(m) is Ok {
        SessionModel { state: SessionState::Stopping, ..m }
    } else {
        m
    }
}

/// Cancel and close abort an open session: a new generation begins at once,
/// so that every command still in flight for the old one is discarded.
pub open spec fn abort_model(m: SessionModel) -> SessionModel {
    if m.worker_running && m.state != SessionState::Idle {
        SessionModel { state: SessionState::Cancelled, generation: m.generation + 1, ..m }
    } else {
        m
    }
}

pub open spec fn close_thread_model(m: SessionModel) -> SessionModel {
    if !m.worker_running {
        m
    } else if m.state != SessionState::Idle {
        SessionModel {
            state: SessionState::Idle,
            device: None,
            generation: m.generation + 1,
            worker_running: false,
        }
    } else {
        SessionModel { worker_running: false, ..m }
    }
}

pub open spec fn idle(m: SessionModel) -> SessionModel {
    SessionModel { state: SessionState::Idle, device: None, ..m }
}

/// The model after the worker acknowledged a command of `kind` issued
/// against `generation`, `ok` telling whether it succeeded. A stale
/// acknowledgement changes nothing; a failed one rolls back.
pub open spec fn finish_model(m: SessionModel, kind: CommandKind, generation: nat, ok: bool) -> SessionModel {
    if generation != m.generation {
        m
    } else {
        match kind {
            CommandKind::Init => if m.state == SessionState::Initializing {
                if ok { SessionModel { state: SessionState::Ready, ..m } } else { idle(m) }
            } else {
                m
            },
            CommandKind::Start => if m.state == SessionState::Ready && ok {
                SessionModel { state: SessionState::Recording, ..m }
            } else {
                m
            },
            CommandKind::Stop => if m.state == SessionState::Stopping {
                if ok { idle(m) } else { SessionModel { state: SessionState::Recording, ..m } }
            } else {
                m
            },
            CommandKind::Cancel | CommandKind::Close => idle(m),
            CommandKind::Shutdown => m,
        }
    }
}

impl SessionManager {
    /// A manager with no session and no worker.
    pub fn new() -> (r: SessionManager)
        ensures
            r@ == (SessionModel {
                state: SessionState::Idle,
                device: None,
                generation: 0,
                worker_running: false,
            }),
            r@.wf(),
    {
        SessionManager { state: SessionState::Idle, device: None, generation: 0, worker_running: false }
    }

    pub fn state(&self) -> (r: SessionState)
        ensures
            r == self@.state,
    {
        self.state
    }

    pub fn generation(&self) -> (r: u64)
        ensures
            r == self@.generation,
    {
        self.generation
    }

    pub fn worker_running(&self) -> (r: bool)
        ensures
            r == self@.worker_running,
    {
        self.worker_running
    }

    /// The device of the open session, if any.
    pub fn device(&self) -> (r: Option<&String>)
        ensures
            r matches Some(d) ==> self@.device == Some(d@),
            r is None <==> self@.device is None,
    {
        match &self.device {
            Some(d) => Some(d),
            None => None,
        }
    }

    fn device_or_empty(&self) -> (r: String)
        ensures
            self@.device matches Some(d) ==> r@ == d,
            self@.device is None ==> r@ == Seq::<char>::empty(),
    {
        match &self.device {
            Some(d) => d.clone(),
            None => String::new(),
        }
    }

    /// Marks the worker as running. Returns whether it has to be spawned,
    /// that is whether it was not running before.
    pub fn ensure_thread_initialized(&mut self) -> (spawn: bool)
        requires
            old(self)@.wf(),
        ensures
            spawn == !old(self)@.worker_running,
            final(self)@ == (SessionModel { worker_running: true, ..old(self)@ }),
            final(self)@.wf(),
    {
        let spawn = !self.worker_running;
        self.worker_running = true;
        spawn
    }

    /// Stops the worker, cancelling any open session first. Returns the
    /// shutdown command to deliver, or `None` when no worker was running.
    pub fn close_thread(&mut self) -> (r: Option<Command>)
        requires
            old(self)@.wf(),
            old(self)@.generation < u64::MAX,
        ensures
            final(self)@ == close_thread_model(old(self)@),
            final(self)@.wf(),
            r is None <==> !old(self)@.worker_running,
            r matches Some(c) ==> c.kind == CommandKind::Shutdown && c.generation == final(self)@.generation,
    {
        if !self.worker_running {
            return None;
        }
        if self.state != SessionState::Idle {
            self.generation = self.generation + 1;
        }
        let device_id = self.device_or_empty();
        self.state = SessionState::Idle;
        self.device = None;
        self.worker_running = false;
        Some(Command { kind: CommandKind::Shutdown, generation: self.generation, device_id })
    }

    /// Records that the worker died unexpectedly: the session is lost and
    /// every command fails until the worker is started again.
    pub fn mark_worker_lost(&mut self)
        requires
            old(self)@.wf(),
        ensures
            final(self)@ == (SessionModel { worker_running: false, ..idle(old(self)@) }),
            final(self)@.wf(),
    {
        self.state = SessionState::Idle;
        self.device = None;
        self.worker_running = false;
    }

    /// Opens a session on `device_id`, which must be among `devices`.
    /// On success the manager waits for the worker in `Initializing` and the
    /// returned command, of a fresh generation, is to be delivered.
    pub fn init_recording_session(&mut self, device_id: &String, devices: &Vec<DeviceDescriptor>) -> (r: Result<Command, RecorderError>)
        requires
            old(self)@.wf(),
            old(self)@.generation < u64::MAX,
        ensures
            final(self)@ == init_model(old(self)@, device_id@, has_device(devices@, device_id@)),
            final(self)@.wf(),
            match init_check(old(self)@, has_device(devices@, device_id@)) {
                Ok(_) => r matches Ok(c) && c.kind == CommandKind::Init
                    && c.generation == final(self)@.generation && c.device_id@ == device_id@,
                Err(e) => r == Err::<Command, RecorderError>(e),
            },
    {
        if !self.worker_running {
            return Err(RecorderError::WorkerUnavailable);
        }
        if self.state != SessionState::Idle {
            return Err(RecorderError::SessionAlreadyOpen);
        }
        if find_device(devices, device_id).is_none() {
            return Err(RecorderError::DeviceNotFound);
        }
        self.generation = self.generation + 1;
        self.state = SessionState::Initializing;
        self.device = Some(device_id.clone());
        Ok(Command { kind: CommandKind::Init, generation: self.generation, device_id: device_id.clone() })
    }

    /// Asks the worker to start capturing; the state changes only when the
    /// worker acknowledges.
    pub fn start_recording(&mut self) -> (r: Result<Command, RecorderError>)
        requires
            old(self)@.wf(),
        ensures
            final(self)@ == old(self)@,
            match start_check(old(self)@) {
                Ok(_) => r matches Ok(c) && c.kind == CommandKind::Start
                    && c.generation == old(self)@.generation
                    && Some(c.device_id@) == old(self)@.device,
                Err(e) => r == Err::<Command, RecorderError>(e),
            },
    {
        if !self.worker_running {
            return Err(RecorderError::WorkerUnavailable);
        }
        if self.state != SessionState::Ready {
            return Err(RecorderError::InvalidState);
        }
        let device_id = self.device_or_empty();
        Ok(Command { kind: CommandKind::Start, generation: self.generation, device_id })
    }

    /// Asks the worker to stop capturing and hand over the audio; the
    /// manager waits in `Stopping`.
    pub fn stop_recording(&mut self) -> (r: Result<Command, RecorderError>)
        requires
            old(self)@.wf(),
        ensures
            final(self)@ == stop_model(old(self)@),
            final(self)@.wf(),
            match stop_check(old(self)@) {
                Ok(_) => r matches Ok(c) && c.kind == CommandKind::Stop
                    && c.generation == old(self)@.generation
                    && Some(c.device_id@) == old(self)@.device,
                Err(e) => r == Err::<Command, RecorderError>(e),
            },
    {
        if !self.worker_running {
            return Err(RecorderError::WorkerUnavailable);
        }
        if self.state != SessionState::Recording {
            return Err(RecorderError::InvalidState);
        }
        self.state = SessionState::Stopping;
        let device_id = self.device_or_empty();
        Ok(Command { kind: CommandKind::Stop, generation: self.generation, device_id })
    }

    /// Aborts the open session, discarding what was captured. Never fails;
    /// a no-op when idle or when no worker runs.
    pub fn cancel_recording(&mut self) -> (r: Option<Command>)
        requires
            old(self)@.wf(),
            old(self)@.generation < u64::MAX,
        ensures
            final(self)@ == abort_model(old(self)@),
            final(self)@.wf(),
            r is Some <==> old(self)@.worker_running && old(self)@.state != SessionState::Idle,
            r matches Some(c) ==> c.kind == CommandKind::Cancel && c.generation == final(self)@.generation,
    {
        if !self.worker_running || self.state == SessionState::Idle {
            return None;
        }
        self.generation = self.generation + 1;
        self.state = SessionState::Cancelled;
        let device_id = self.device_or_empty();
        Some(Command { kind: CommandKind::Cancel, generation: self.generation, device_id })
    }

    /// Releases the device, aborting any open session. Never fails; when
    /// idle the worker is still told to release whatever it holds.
    pub fn close_recording_session(&mut self) -> (r: Option<Command>)
        requires
            old(self)@.wf(),
            old(self)@.generation < u64::MAX,
        ensures
            final(self)@ == abort_model(old(self)@),
            final(self)@.wf(),
            r is Some <==> old(self)@.worker_running,
            r matches Some(c) ==> c.kind == CommandKind::Close && c.generation == final(self)@.generation,
    {
        if !self.worker_running {
            return None;
        }
        if self.state != SessionState::Idle {
            self.generation = self.generation + 1;
            self.state = SessionState::Cancelled;
        }
        let device_id = self.device_or_empty();
        Some(Command { kind: CommandKind::Close, generation: self.generation, device_id })
    }

    /// Takes the worker's answer to `cmd` and returns what the caller sees.
    /// An answer to a superseded command is reported as `Superseded` and
    /// leaves the session alone.
    pub fn finish(&mut self, cmd: &Command, reply: Result<Ack, RecorderError>) -> (r: Result<Ack, RecorderError>)
        requires
            old(self)@.wf(),
        ensures
            final(self)@ == finish_model(old(self)@, cmd.kind, cmd.generation as nat, reply is Ok),
            final(self)@.wf(),
            cmd.generation != old(self)@.generation ==> r == Err::<Ack, RecorderError>(RecorderError::Superseded),
            cmd.generation == old(self)@.generation ==> r == reply,
    {
        if cmd.generation != self.generation {
            return Err(RecorderError::Superseded);
        }
        let ok = reply.is_ok();
        match cmd.kind {
            CommandKind::Init => {
                if self.state == SessionState::Initializing {
                    if ok {
                        self.state = SessionState::Ready;
                    } else {
                        self.state = SessionState::Idle;
                        self.device = None;
                    }
                }
            },
            CommandKind::Start => {
                if self.state == SessionState::Ready && ok {
                    self.state = SessionState::Recording;
                }
            },
            CommandKind::Stop => {
                if self.state == SessionState::Stopping {
                    if ok {
                        self.state = SessionState::Idle;
                        self.device = None;
                    } else {
                        self.state = SessionState::Recording;
                    }
                }
            },
            CommandKind::Cancel | CommandKind::Close => {
                self.state = SessionState::Idle;
                self.device = None;
            },
            CommandKind::Shutdown => {},
        }
        reply
    }
}

} // verus!
