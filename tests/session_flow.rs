use recorder::command::{Ack, CommandKind, RecorderError};
use recorder::device::{find_device, DeviceDescriptor};
use recorder::queue::{CommandQueue, Queued};
use recorder::session::{SessionManager, SessionState};
use recorder::worker::{CaptureWorker, DeviceAction, WorkerPhase};

fn mic(id: &str) -> DeviceDescriptor {
    DeviceDescriptor { id: id.to_string(), name: format!("Microphone {}", id), sample_rate: 48000, channels: 1 }
}

fn two_mics() -> Vec<DeviceDescriptor> {
    vec![mic("mic1"), mic("mic2")]
}

fn running() -> (SessionManager, CaptureWorker) {
    let mut m = SessionManager::new();
    assert!(m.ensure_thread_initialized());
    (m, CaptureWorker::new())
}

fn open_session(m: &mut SessionManager, w: &mut CaptureWorker, id: &str) {
    let cmd = m.init_recording_session(&id.to_string(), &two_mics()).unwrap();
    assert_eq!(w.device_action(&cmd), DeviceAction::Open);
    let reply = w.handle(&cmd, true);
    assert_eq!(m.finish(&cmd, reply), Ok(Ack::Done));
}

fn start(m: &mut SessionManager, w: &mut CaptureWorker) {
    let cmd = m.start_recording().unwrap();
    assert_eq!(w.device_action(&cmd), DeviceAction::BeginCapture);
    let reply = w.handle(&cmd, true);
    assert_eq!(m.finish(&cmd, reply), Ok(Ack::Done));
}

#[test]
fn find_device_locates_first_match() {
    let devices = vec![mic("a"), mic("b"), mic("b")];
    assert_eq!(find_device(&devices, &"b".to_string()), Some(1));
    assert_eq!(find_device(&devices, &"a".to_string()), Some(0));
    assert_eq!(find_device(&devices, &"c".to_string()), None);
    assert_eq!(find_device(&Vec::new(), &"a".to_string()), None);
}

#[test]
fn full_recording_cycle() {
    let (mut m, mut w) = running();
    assert_eq!(find_device(&two_mics(), &"mic1".to_string()), Some(0));
    open_session(&mut m, &mut w, "mic1");
    assert_eq!(m.state(), SessionState::Ready);
    start(&mut m, &mut w);
    assert_eq!(m.state(), SessionState::Recording);
    w.record(&vec![1, -2, 3]);
    w.record(&vec![4]);
    let cmd = m.stop_recording().unwrap();
    assert_eq!(m.state(), SessionState::Stopping);
    assert_eq!(w.device_action(&cmd), DeviceAction::EndCapture);
    let reply = w.handle(&cmd, true);
    match m.finish(&cmd, reply) {
        Ok(Ack::Captured(audio)) => {
            assert_eq!(audio.samples, vec![1, -2, 3, 4]);
            assert_eq!(audio.device_id, "mic1");
            assert_eq!(audio.generation, 1);
        }
        other => panic!("unexpected answer {:?}", other),
    }
    assert_eq!(m.state(), SessionState::Idle);
    assert_eq!(m.device(), None);
    assert_eq!(w.phase(), WorkerPhase::Idle);
    assert_eq!(w.buffered(), 0);
}

#[test]
fn second_init_keeps_first_session() {
    let (mut m, mut w) = running();
    open_session(&mut m, &mut w, "mic1");
    let r = m.init_recording_session(&"mic2".to_string(), &two_mics());
    assert_eq!(r.err(), Some(RecorderError::SessionAlreadyOpen));
    assert_eq!(m.state(), SessionState::Ready);
    assert_eq!(m.device(), Some(&"mic1".to_string()));
}

#[test]
fn second_init_before_acknowledgement_rejected() {
    let (mut m, _w) = running();
    let _first = m.init_recording_session(&"mic1".to_string(), &two_mics()).unwrap();
    assert_eq!(m.state(), SessionState::Initializing);
    let r = m.init_recording_session(&"mic1".to_string(), &two_mics());
    assert_eq!(r.err(), Some(RecorderError::SessionAlreadyOpen));
    assert_eq!(m.state(), SessionState::Initializing);
    assert_eq!(m.generation(), 1);
}

#[test]
fn start_before_init_is_invalid() {
    let (mut m, _w) = running();
    assert_eq!(m.start_recording().err(), Some(RecorderError::InvalidState));
    assert_eq!(m.state(), SessionState::Idle);
    assert_eq!(m.stop_recording().err(), Some(RecorderError::InvalidState));
    assert_eq!(m.state(), SessionState::Idle);
}

#[test]
fn unknown_device_not_found() {
    let (mut m, _w) = running();
    let r = m.init_recording_session(&"mic9".to_string(), &two_mics());
    assert_eq!(r.err(), Some(RecorderError::DeviceNotFound));
    assert_eq!(m.state(), SessionState::Idle);
    assert_eq!(m.generation(), 0);
    let r = m.init_recording_session(&"mic1".to_string(), &Vec::new());
    assert_eq!(r.err(), Some(RecorderError::DeviceNotFound));
}

#[test]
fn device_failing_to_open_rolls_back() {
    let (mut m, mut w) = running();
    let cmd = m.init_recording_session(&"mic2".to_string(), &two_mics()).unwrap();
    let reply = w.handle(&cmd, false);
    assert_eq!(m.finish(&cmd, reply), Err(RecorderError::DeviceNotFound));
    assert_eq!(m.state(), SessionState::Idle);
    assert_eq!(m.device(), None);
    assert_eq!(w.phase(), WorkerPhase::Idle);
    open_session(&mut m, &mut w, "mic2");
    assert_eq!(m.state(), SessionState::Ready);
    assert_eq!(m.generation(), 2);
}

#[test]
fn device_failing_to_start_stays_ready() {
    let (mut m, mut w) = running();
    open_session(&mut m, &mut w, "mic1");
    let cmd = m.start_recording().unwrap();
    let reply = w.handle(&cmd, false);
    assert_eq!(m.finish(&cmd, reply), Err(RecorderError::DeviceNotFound));
    assert_eq!(m.state(), SessionState::Ready);
    assert_eq!(w.phase(), WorkerPhase::Open);
}

#[test]
fn cancel_from_each_open_state() {
    for steps in 0..4 {
        let (mut m, mut w) = running();
        let init = m.init_recording_session(&"mic1".to_string(), &two_mics()).unwrap();
        if steps >= 1 {
            let reply = w.handle(&init, true);
            m.finish(&init, reply).unwrap();
        }
        if steps >= 2 {
            start(&mut m, &mut w);
        }
        if steps >= 3 {
            let _stop = m.stop_recording().unwrap();
            assert_eq!(m.state(), SessionState::Stopping);
        }
        let before = m.generation();
        let cmd = m.cancel_recording().unwrap();
        assert_eq!(cmd.kind, CommandKind::Cancel);
        assert_eq!(m.state(), SessionState::Cancelled);
        assert_eq!(m.generation(), before + 1);
        let reply = w.handle(&cmd, true);
        assert_eq!(m.finish(&cmd, reply), Ok(Ack::Done));
        assert_eq!(m.state(), SessionState::Idle);
        assert_eq!(w.phase(), WorkerPhase::Idle);
    }
}

#[test]
fn cancel_when_idle_is_noop() {
    let (mut m, _w) = running();
    assert!(m.cancel_recording().is_none());
    assert_eq!(m.state(), SessionState::Idle);
    assert_eq!(m.generation(), 0);
}

#[test]
fn cancel_discards_captured_audio() {
    let (mut m, mut w) = running();
    open_session(&mut m, &mut w, "mic1");
    start(&mut m, &mut w);
    w.record(&vec![7, 8, 9]);
    assert_eq!(w.buffered(), 3);
    let cmd = m.cancel_recording().unwrap();
    assert_eq!(w.device_action(&cmd), DeviceAction::Release);
    let reply = w.handle(&cmd, true);
    assert_eq!(reply, Ok(Ack::Done));
    assert_eq!(w.buffered(), 0);
}

#[test]
fn stale_answer_is_superseded() {
    let (mut m, mut w) = running();
    open_session(&mut m, &mut w, "mic1");
    let start_cmd = m.start_recording().unwrap();
    let cancel = m.cancel_recording().unwrap();
    let reply = w.handle(&cancel, true);
    m.finish(&cancel, reply).unwrap();
    open_session(&mut m, &mut w, "mic2");
    assert_eq!(m.generation(), 3);
    assert_eq!(w.device_action(&start_cmd), DeviceAction::Nothing);
    let reply = w.handle(&start_cmd, true);
    assert_eq!(reply, Err(RecorderError::Superseded));
    assert_eq!(m.finish(&start_cmd, Ok(Ack::Done)), Err(RecorderError::Superseded));
    assert_eq!(m.state(), SessionState::Ready);
    assert_eq!(m.device(), Some(&"mic2".to_string()));
    assert_eq!(w.phase(), WorkerPhase::Open);
}

#[test]
fn cancel_overtakes_pending_start() {
    let (mut m, mut w) = running();
    open_session(&mut m, &mut w, "mic1");
    let mut q = CommandQueue::new();
    q.enqueue(Queued { command: m.start_recording().unwrap(), slot: "start" });
    q.enqueue(Queued { command: m.cancel_recording().unwrap(), slot: "cancel" });
    assert_eq!(q.len(), 2);
    let first = q.dequeue().unwrap();
    assert_eq!(first.slot, "cancel");
    let first = first.command;
    assert_eq!(first.kind, CommandKind::Cancel);
    let reply = w.handle(&first, true);
    assert_eq!(m.finish(&first, reply), Ok(Ack::Done));
    let second = q.dequeue().unwrap();
    assert_eq!(second.slot, "start");
    let second = second.command;
    assert_eq!(second.kind, CommandKind::Start);
    let reply = w.handle(&second, true);
    assert_eq!(reply, Err(RecorderError::Superseded));
    let seen = m.finish(&second, reply);
    assert_eq!(seen, Err(RecorderError::Superseded));
    assert_eq!(m.state(), SessionState::Idle);
    assert_eq!(w.phase(), WorkerPhase::Idle);
    assert!(q.is_empty());
    assert!(q.dequeue().is_none());
}

#[test]
fn closed_worker_refuses_until_restarted() {
    let (mut m, mut w) = running();
    open_session(&mut m, &mut w, "mic1");
    let shutdown = m.close_thread().unwrap();
    assert_eq!(shutdown.kind, CommandKind::Shutdown);
    assert_eq!(w.handle(&shutdown, true), Ok(Ack::Done));
    assert_eq!(w.phase(), WorkerPhase::Idle);
    assert!(!m.worker_running());
    assert_eq!(m.state(), SessionState::Idle);
    let r = m.init_recording_session(&"mic1".to_string(), &two_mics());
    assert_eq!(r.err(), Some(RecorderError::WorkerUnavailable));
    assert_eq!(m.start_recording().err(), Some(RecorderError::WorkerUnavailable));
    assert_eq!(m.stop_recording().err(), Some(RecorderError::WorkerUnavailable));
    assert!(m.cancel_recording().is_none());
    assert!(m.close_recording_session().is_none());
    assert!(m.close_thread().is_none());
    assert!(m.ensure_thread_initialized());
    assert!(!m.ensure_thread_initialized());
    assert!(m.init_recording_session(&"mic1".to_string(), &two_mics()).is_ok());
}

#[test]
fn lost_worker_is_unavailable() {
    let (mut m, mut w) = running();
    open_session(&mut m, &mut w, "mic1");
    m.mark_worker_lost();
    assert_eq!(m.state(), SessionState::Idle);
    assert_eq!(m.start_recording().err(), Some(RecorderError::WorkerUnavailable));
}

#[test]
fn close_session_when_idle_keeps_generation() {
    let (mut m, _w) = running();
    let cmd = m.close_recording_session().unwrap();
    assert_eq!(cmd.kind, CommandKind::Close);
    assert_eq!(cmd.generation, 0);
    assert_eq!(m.generation(), 0);
    assert_eq!(m.state(), SessionState::Idle);
}

#[test]
fn close_session_while_recording() {
    let (mut m, mut w) = running();
    open_session(&mut m, &mut w, "mic1");
    start(&mut m, &mut w);
    let cmd = m.close_recording_session().unwrap();
    assert_eq!(cmd.generation, 2);
    let reply = w.handle(&cmd, true);
    assert_eq!(m.finish(&cmd, reply), Ok(Ack::Done));
    assert_eq!(m.state(), SessionState::Idle);
    assert_eq!(w.phase(), WorkerPhase::Idle);
}

#[test]
fn queue_keeps_order_with_priority() {
    let (mut m, mut w) = running();
    open_session(&mut m, &mut w, "mic1");
    let mut q = CommandQueue::new();
    q.enqueue(Queued { command: m.start_recording().unwrap(), slot: 1 });
    q.enqueue(Queued { command: m.start_recording().unwrap(), slot: 2 });
    q.enqueue(Queued { command: m.close_recording_session().unwrap(), slot: 3 });
    q.enqueue(Queued { command: m.close_thread().unwrap(), slot: 4 });
    let order: Vec<(CommandKind, i32)> = (0..4)
        .map(|_| {
            let e = q.dequeue().unwrap();
            (e.command.kind, e.slot)
        })
        .collect();
    assert_eq!(
        order,
        vec![(CommandKind::Close, 3), (CommandKind::Shutdown, 4), (CommandKind::Start, 1), (CommandKind::Start, 2)]
    );
}

#[test]
fn record_ignored_unless_capturing() {
    let mut w = CaptureWorker::new();
    w.record(&vec![1, 2]);
    assert_eq!(w.buffered(), 0);
    assert_eq!(w.generation(), 0);
}

#[test]
fn worker_rejects_out_of_order_commands() {
    let (mut m, mut w) = running();
    let init = m.init_recording_session(&"mic1".to_string(), &two_mics()).unwrap();
    let reply = w.handle(&init, true);
    m.finish(&init, reply).unwrap();
    assert_eq!(w.handle(&init, true), Err(RecorderError::SessionAlreadyOpen));
    let start_cmd = m.start_recording().unwrap();
    assert_eq!(w.handle(&start_cmd, true), Ok(Ack::Done));
    assert_eq!(w.handle(&start_cmd, true), Err(RecorderError::InvalidState));
    assert_eq!(m.finish(&start_cmd, Err(RecorderError::InvalidState)), Err(RecorderError::InvalidState));
    assert_eq!(m.state(), SessionState::Ready);
}

#[test]
fn priority_kinds() {
    assert!(CommandKind::Cancel.is_priority());
    assert!(CommandKind::Close.is_priority());
    assert!(CommandKind::Shutdown.is_priority());
    assert!(!CommandKind::Init.is_priority());
    assert!(!CommandKind::Start.is_priority());
    assert!(!CommandKind::Stop.is_priority());
}

#[test]
fn state_settles_between_calls() {
    let settled = |s: SessionState| matches!(s, SessionState::Idle | SessionState::Ready | SessionState::Recording);
    let (mut m, mut w) = running();
    assert!(settled(m.state()));
    open_session(&mut m, &mut w, "mic2");
    assert!(settled(m.state()));
    start(&mut m, &mut w);
    assert!(settled(m.state()));
    let stop = m.stop_recording().unwrap();
    let reply = w.handle(&stop, true);
    assert!(m.finish(&stop, reply).is_ok());
    assert!(settled(m.state()));
    let close = m.close_recording_session().unwrap();
    let reply = w.handle(&close, true);
    assert!(m.finish(&close, reply).is_ok());
    assert!(settled(m.state()));
    let shutdown = m.close_thread().unwrap();
    let reply = w.handle(&shutdown, true);
    assert_eq!(m.finish(&shutdown, reply), Ok(Ack::Done));
    assert_eq!(m.state(), SessionState::Idle);
}
