use vstd::prelude::*;
use crate::command::{Ack, CapturedAudio, Command, CommandKind, RecorderError};

verus! {

/// How far the worker's own session has progressed.
#[derive(Debug, Clone, Copy, PartialEq, Eq, Structural)]
pub enum WorkerPhase {
    Idle,
    Open,
    Capturing,
}

/// What the worker asks of the audio device before it answers a command.
#[derive(Debug, Clone, Copy, PartialEq, Eq, Structural)]
pub enum DeviceAction {
    Nothing,
    /// Open the command's device.
    Open,
    /// Begin delivering samples from the open device.
    BeginCapture,
    /// Stop delivering samples.
    EndCapture,
    /// Close the device, dropping whatever it still holds.
    Release,
}

/// The mathematical content of the capture worker.
pub struct WorkerModel {
    pub phase: WorkerPhase,
    pub generation: nat,
    pub device: Seq<char>,
    pub buffer: Seq<i16>,
}

/// The authoritative session state, owned by the single capture worker.
pub struct CaptureWorker {
    phase: WorkerPhase,
    generation: u64,
    device: String,
    buffer: Vec<i16>,
}

impl View for CaptureWorker {
    type V = WorkerModel;

    closed spec fn view(&self) -> WorkerModel {
        WorkerModel {
            phase: self.phase,
            generation: self.generation as nat,
            device: self.device@,
            buffer: self.buffer@,
        }
    }
}

/// A command issued against an older generation than the worker's, or a
/// start or stop of a generation other than the worker's, is stale.
/// Shutdown is never stale.
pub open spec fn is_stale(w: WorkerModel, kind: CommandKind, generation: nat) -> bool {
    kind != CommandKind::Shutdown && (generation < w.generation || ((kind == CommandKind::Start
        || kind == CommandKind::Stop) && generation != w.generation))
}

pub open spec fn action_for(w: WorkerModel, kind: CommandKind, generation: nat) -> DeviceAction {
    if is_stale(w, kind, generation) {
        DeviceAction::Nothing
    } else {
        match kind {
            CommandKind::Init => if w.phase == WorkerPhase::Idle { DeviceAction::Open } else { DeviceAction::Nothing },
            CommandKind::Start => if w.phase == WorkerPhase::Open { DeviceAction::BeginCapture } else { DeviceAction::Nothing },
            CommandKind::Stop => if w.phase == WorkerPhase::Capturing { DeviceAction::EndCapture } else { DeviceAction::Nothing },
            _ => if w.phase != WorkerPhase::Idle { DeviceAction::Release } else { DeviceAction::Nothing },
        }
    }
}

pub open spec fn released(w: WorkerModel, generation: nat) -> WorkerModel {
    WorkerModel {
        phase: WorkerPhase::Idle,
        generation: if generation > w.generation { generation } else { w.generation },
        device: Seq::empty(),
        buffer: Seq::empty(),
    }
}

/// The worker after handling a command, `device_ok` being the outcome of
/// the device action that `action_for` asked for.
pub open spec fn handle_model(w: WorkerModel, kind: CommandKind, generation: nat, device_id: Seq<char>, device_ok: bool) -> WorkerModel {
    if is_stale(w, kind, generation) {
        w
    } else {
        match kind {
            CommandKind::Init => if w.phase != WorkerPhase::Idle {
                w
            } else if !device_ok {
                WorkerModel { generation, ..w }
            } else {
                WorkerModel { phase: WorkerPhase::Open, generation, device: device_id, buffer: Seq::empty() }
            },
            CommandKind::Start => if w.phase == WorkerPhase::Open && device_ok {
                WorkerModel { phase: WorkerPhase::Capturing, buffer: Seq::empty(), ..w }
            } else {
                w
            },
            CommandKind::Stop => if w.phase == WorkerPhase::Capturing {
                released(w, generation)
            } else {
                w
            },
            _ => released(w, generation),
        }
    }
}

/// The error of handling a command, if it fails.
pub open spec fn handle_error(w: WorkerModel, kind: CommandKind, generation: nat, device_ok: bool) -> Option<RecorderError> {
    if is_stale(w, kind, generation) {
        Some(RecorderError::Superseded)
    } else {
        match kind {
            CommandKind::Init => if w.phase != WorkerPhase::Idle {
                Some(RecorderError::SessionAlreadyOpen)
            } else if !device_ok {
                Some(RecorderError::DeviceNotFound)
            } else {
                None
            },
            CommandKind::Start => if w.phase != WorkerPhase::Open {
                Some(RecorderError::InvalidState)
            } else if !device_ok {
                Some(RecorderError::DeviceNotFound)
            } else {
                None
            },
            CommandKind::Stop => if w.phase != WorkerPhase::Capturing {
                Some(RecorderError::InvalidState)
            } else {
                None
            },
            _ => None,
        }
    }
}

impl CaptureWorker {
    /// A worker with no device open, at generation zero.
    pub fn new() -> (r: CaptureWorker)
        ensures
            r@ == (WorkerModel {
                phase: WorkerPhase::Idle,
                generation: 0,
                device: Seq::empty(),
                buffer: Seq::empty(),
            }),
    {
        CaptureWorker { phase: WorkerPhase::Idle, generation: 0, device: String::new(), buffer: Vec::new() }
    }

    pub fn phase(&self) -> (r: WorkerPhase)
        ensures
            r == self@.phase,
    {
        self.phase
    }

    pub fn generation(&self) -> (r: u64)
        ensures
            r == self@.generation,
    {
        self.generation
    }

    /// The number of samples captured so far in this recording.
    pub fn buffered(&self) -> (r: usize)
        ensures
            r == self@.buffer.len(),
    {
        self.buffer.len()
    }

    fn is_stale(&self, cmd: &Command) -> (r: bool)
        ensures
            r == is_stale(self@, cmd.kind, cmd.generation as nat),
    {
        match cmd.kind {
            CommandKind::Shutdown => false,
            CommandKind::Start | CommandKind::Stop => cmd.generation != self.generation,
            _ => cmd.generation < self.generation,
        }
    }

    /// The device work that handling `cmd` needs, done before `handle`.
    pub fn device_action(&self, cmd: &Command) -> (r: DeviceAction)
        ensures
            r == action_for(self@, cmd.kind, cmd.generation as nat),
    {
        if self.is_stale(cmd) {
            return DeviceAction::Nothing;
        }
        match cmd.kind {
            CommandKind::Init => if self.phase == WorkerPhase::Idle { DeviceAction::Open } else { DeviceAction::Nothing },
            CommandKind::Start => if self.phase == WorkerPhase::Open { DeviceAction::BeginCapture } else { DeviceAction::Nothing },
            CommandKind::Stop => if self.phase == WorkerPhase::Capturing { DeviceAction::EndCapture } else { DeviceAction::Nothing },
            _ => if self.phase != WorkerPhase::Idle { DeviceAction::Release } else { DeviceAction::Nothing },
        }
    }

    fn release(&mut self, generation: u64)
        ensures
            final(self)@ == released(old(self)@, generation as nat),
    {
        self.phase = WorkerPhase::Idle;
        if generation > self.generation {
            self.generation = generation;
        }
        self.device = String::new();
        self.buffer = Vec::new();
    }

    /// Handles `cmd` once the device action it needed was carried out with
    /// outcome `device_ok`, and returns the answer for the session manager.
    /// A stop hands over everything captured since the start.
    pub fn handle(&mut self, cmd: &Command, device_ok: bool) -> (r: Result<Ack, RecorderError>)
        ensures
            final(self)@ == handle_model(old(self)@, cmd.kind, cmd.generation as nat, cmd.device_id@, device_ok),
            match handle_error(old(self)@, cmd.kind, cmd.generation as nat, device_ok) {
                Some(e) => r == Err::<Ack, RecorderError>(e),
                None => if cmd.kind == CommandKind::Stop {
                    r matches Ok(Ack::Captured(a)) && a.samples@ == old(self)@.buffer
                        && a.device_id@ == old(self)@.device && a.generation == old(self)@.generation
                } else {
                    r == Ok::<Ack, RecorderError>(Ack::Done)
                },
            },
    {
        if self.is_stale(cmd) {
            return Err(RecorderError::Superseded);
        }
        match cmd.kind {
            CommandKind::Init => {
                if self.phase != WorkerPhase::Idle {
                    return Err(RecorderError::SessionAlreadyOpen);
                }
                self.generation = cmd.generation;
                if !device_ok {
                    return Err(RecorderError::DeviceNotFound);
                }
                self.phase = WorkerPhase::Open;
                self.device = cmd.device_id.clone();
                self.buffer = Vec::new();
                Ok(Ack::Done)
            },
            CommandKind::Start => {
                if self.phase != WorkerPhase::Open {
                    return Err(RecorderError::InvalidState);
                }
                if !device_ok {
                    return Err(RecorderError::DeviceNotFound);
                }
                self.phase = WorkerPhase::Capturing;
                self.buffer = Vec::new();
                Ok(Ack::Done)
            },
            CommandKind::Stop => {
                if self.phase != WorkerPhase::Capturing {
                    return Err(RecorderError::InvalidState);
                }
                let mut samples: Vec<i16> = Vec::new();
                std::mem::swap(&mut samples, &mut self.buffer);
                let device_id = self.device.clone();
                let captured = CapturedAudio { device_id, generation: self.generation, samples };
                self.release(cmd.generation);
                Ok(Ack::Captured(captured))
            },
            _ => {
                self.release(cmd.generation);
                Ok(Ack::Done)
            },
        }
    }

    /// Appends samples delivered by the device; ignored unless capturing.
    pub fn record(&mut self, samples: &Vec<i16>)
        ensures
            old(self)@.phase == WorkerPhase::Capturing ==> final(self)@ == (WorkerModel {
                buffer: old(self)@.buffer + samples@,
                ..old(self)@
            }),
            old(self)@.phase != WorkerPhase::Capturing ==> final(self)@ == old(self)@,
    {
        if self.phase != WorkerPhase::Capturing {
            return;
        }
        let mut i: usize = 0;
        while i < samples.len()
            invariant
                i <= samples@.len(),
                self.phase == old(self).phase,
                self.generation == old(self).generation,
                self.device@ == old(self).device@,
                self.buffer@ == old(self)@.buffer + samples@.subrange(0, i as int),
            decreases samples@.len() - i,
        {
            self.buffer.push(samples[i]);
            i = i + 1;
        }
        assert(samples@.subrange(0, samples@.len() as int) =~= samples@);
    }
}

} // verus!
