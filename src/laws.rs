use vstd::prelude::*;
use crate::command::{CommandKind, RecorderError};
use crate::session::{
    abort_model, close_thread_model, finish_model, idle, init_check, init_model, is_settled,
    start_check, stop_check, stop_model, SessionModel, SessionState,
};
use crate::tray::{indicator_name, TrayIndicator};
use crate::worker::{action_for, handle_error, handle_model, DeviceAction, WorkerModel};

verus! {

/// One complete call of the command surface, as a caller sees it: the
/// command is issued and, when the manager sent one to the worker, the
/// worker's acknowledgement (`ok` telling whether it succeeded) is taken.
/// `found` tells whether the device was among the enumerated ones.
pub enum Call {
    Init { device: Seq<char>, found: bool, ok: bool },
    Start { ok: bool },
    Stop { ok: bool },
    Cancel { ok: bool },
    Close { ok: bool },
    EnsureThread,
    CloseThread,
    WorkerLost,
}

pub open spec fn complete_call(m: SessionModel, c: Call) -> SessionModel {
    match c {
        Call::Init { device, found, ok } => {
            let m1 = init_model(m, device, found);
            if init_check(m, found) is Ok {
                finish_model(m1, CommandKind::Init, m1.generation, ok)
            } else {
                m1
            }
        },
        Call::Start { ok } => if start_check(m) is Ok {
            finish_model(m, CommandKind::Start, m.generation, ok)
        } else {
            m
        },
        Call::Stop { ok } => {
            let m1 = stop_model(m);
            if stop_check(m) is Ok {
                finish_model(m1, CommandKind::Stop, m1.generation, ok)
            } else {
                m1
            }
        },
        Call::Cancel { ok } => {
            let m1 = abort_model(m);
            if m.worker_running && m.state != SessionState::Idle {
                finish_model(m1, CommandKind::Cancel, m1.generation, ok)
            } else {
                m1
            }
        },
        Call::Close { ok } => {
            let m1 = abort_model(m);
            if m.worker_running {
                finish_model(m1, CommandKind::Close, m1.generation, ok)
            } else {
                m1
            }
        },
        Call::EnsureThread => SessionModel { worker_running: true, ..m },
        Call::CloseThread => close_thread_model(m),
        Call::WorkerLost => SessionModel { worker_running: false, ..idle(m) },
    }
}

/// The manager after a sequence of complete calls.
pub open spec fn run_calls(m: SessionModel, calls: Seq<Call>) -> SessionModel
    decreases calls.len(),
{
    if calls.len() == 0 {
        m
    } else {
        run_calls(complete_call(m, calls[0]), calls.drop_first())
    }
}

/// Between calls the manager is always idle, ready or recording, and
/// well formed: every complete call keeps it so.
pub proof fn lemma_call_settles(m: SessionModel, c: Call)
    requires
        m.wf(),
        is_settled(m.state),
    ensures
        complete_call(m, c).wf(),
        is_settled(complete_call(m, c).state),
{
}

/// Whatever the sequence of commands, the state seen between calls is one
/// of the settled states and the manager stays well formed.
pub proof fn lemma_calls_settle(m: SessionModel, calls: Seq<Call>)
    requires
        m.wf(),
        is_settled(m.state),
    ensures
        run_calls(m, calls).wf(),
        is_settled(run_calls(m, calls).state),
    decreases calls.len(),
{
    if calls.len() > 0 {
        lemma_call_settles(m, calls[0]);
        lemma_calls_settle(complete_call(m, calls[0]), calls.drop_first());
    }
}

/// A second session cannot be opened while the first is open, whether the
/// worker has acknowledged the first yet or not; the first stays as it was.
pub proof fn lemma_second_init_rejected(m: SessionModel, first: Seq<char>, second: Seq<char>, found: bool)
    requires
        m.wf(),
        init_check(m, true) is Ok,
    ensures
        ({
            let m1 = init_model(m, first, true);
            let m2 = finish_model(m1, CommandKind::Init, m1.generation, true);
            &&& init_check(m1, found) == Err::<(), RecorderError>(RecorderError::SessionAlreadyOpen)
            &&& init_model(m1, second, found) == m1
            &&& m2.state == SessionState::Ready
            &&& m2.device == Some(first)
            &&& init_check(m2, found) == Err::<(), RecorderError>(RecorderError::SessionAlreadyOpen)
            &&& init_model(m2, second, found) == m2
        }),
{
}

/// Starting without an open session fails with `InvalidState` and leaves
/// the manager idle.
pub proof fn lemma_start_before_init(m: SessionModel, ok: bool)
    requires
        m.wf(),
        m.worker_running,
        m.state == SessionState::Idle,
    ensures
        start_check(m) == Err::<(), RecorderError>(RecorderError::InvalidState),
        complete_call(m, Call::Start { ok }) == m,
{
}

/// Cancelling from any open state returns the manager to idle, whatever the
/// worker answers, and the worker never refuses the cancel.
pub proof fn lemma_cancel_returns_to_idle(m: SessionModel, w: WorkerModel, ok: bool, device_ok: bool)
    requires
        m.wf(),
        m.state != SessionState::Idle,
        w.generation <= m.generation,
    ensures
        ({
            let m1 = abort_model(m);
            &&& m1.generation == m.generation + 1
            &&& finish_model(m1, CommandKind::Cancel, m1.generation, ok).state == SessionState::Idle
            &&& handle_error(w, CommandKind::Cancel, m1.generation, device_ok) is None
        }),
        complete_call(m, Call::Cancel { ok }).state == SessionState::Idle,
{
}

/// Once a cancel or a new session has moved the generation past `n`, an
/// answer to a command of generation `n` changes nothing on the caller side.
pub proof fn lemma_stale_answer_ignored(m: SessionModel, kind: CommandKind, ok: bool, device: Seq<char>)
    requires
        m.wf(),
    ensures
        ({
            let n = m.generation;
            let a = abort_model(m);
            let i = init_model(m, device, true);
            &&& (m.worker_running && m.state != SessionState::Idle) ==> a.generation == n + 1
                && finish_model(a, kind, n, ok) == a
            &&& init_check(m, true) is Ok ==> i.generation == n + 1 && finish_model(i, kind, n, ok) == i
        }),
{
}

/// A worker that has moved past generation `n` discards any command of
/// generation `n` but a shutdown: it touches no device, answers
/// `Superseded` and stays as it is.
pub proof fn lemma_stale_command_discarded(w: WorkerModel, kind: CommandKind, n: nat, device: Seq<char>, device_ok: bool)
    requires
        n < w.generation,
        kind != CommandKind::Shutdown,
    ensures
        action_for(w, kind, n) == DeviceAction::Nothing,
        handle_error(w, kind, n, device_ok) == Some(RecorderError::Superseded),
        handle_model(w, kind, n, device, device_ok) == w,
{
}

/// After the worker was stopped, every command that needs it fails with
/// `WorkerUnavailable`, cancel and close do nothing, and so it stays through
/// any calls until the worker is started again.
pub proof fn lemma_closed_worker_refuses(m: SessionModel, found: bool, calls: Seq<Call>)
    requires
        m.wf(),
        forall|i: int| 0 <= i < calls.len() ==> !(#[trigger] calls[i] is EnsureThread),
    ensures
        ({
            let m1 = close_thread_model(m);
            &&& !m1.worker_running
            &&& m1.state == SessionState::Idle
            &&& init_check(m1, found) == Err::<(), RecorderError>(RecorderError::WorkerUnavailable)
            &&& start_check(m1) == Err::<(), RecorderError>(RecorderError::WorkerUnavailable)
            &&& stop_check(m1) == Err::<(), RecorderError>(RecorderError::WorkerUnavailable)
            &&& abort_model(m1) == m1
            &&& run_calls(m1, calls) == m1
            &&& complete_call(m1, Call::EnsureThread).worker_running
        }),
{
    lemma_idle_without_worker_stays(close_thread_model(m), calls);
}

/// Distinct indicators have distinct names, and each name is one that
/// `TrayIndicator::parse` accepts; so parsing a name gives its indicator back.
pub proof fn lemma_indicator_names_distinct(a: TrayIndicator, b: TrayIndicator)
    ensures
        indicator_name(a) == indicator_name(b) ==> a == b,
        indicator_name(a) == "IDLE"@ || indicator_name(a) == "RECORDING"@ || indicator_name(a)
            == "LOADING"@,
{
    reveal_strlit("IDLE");
    reveal_strlit("RECORDING");
    reveal_strlit("LOADING");
    if indicator_name(a) == indicator_name(b) && a != b {
        assert(indicator_name(a).len() != indicator_name(b).len() || indicator_name(a)[0]
            != indicator_name(b)[0]);
    }
}

proof fn lemma_idle_without_worker_stays(m: SessionModel, calls: Seq<Call>)
    requires
        !m.worker_running,
        m.state == SessionState::Idle,
        m.device is None,
        forall|i: int| 0 <= i < calls.len() ==> !(#[trigger] calls[i] is EnsureThread),
    ensures
        run_calls(m, calls) == m,
    decreases calls.len(),
{
    if calls.len() > 0 {
        assert(!(calls[0] is EnsureThread));
        assert(complete_call(m, calls[0]) == m);
        let rest = calls.drop_first();
        assert forall|i: int| 0 <= i < rest.len() implies !(#[trigger] rest[i] is EnsureThread) by {
            assert(rest[i] == calls[i + 1]);
        }
        lemma_idle_without_worker_stays(m, rest);
    }
}

} // verus!
