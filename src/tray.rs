use vstd::prelude::*;
use crate::session::SessionState;

verus! {

/// The three indications the system tray gives of the recorder.
#[derive(Debug, Clone, Copy, PartialEq, Eq, Structural)]
pub enum TrayIndicator {
    Idle,
    Recording,
    Loading,
}

/// The name under which the front end asks for an indicator.
pub open spec fn indicator_name(t: TrayIndicator) -> Seq<char> {
    match t {
        TrayIndicator::Idle => "IDLE"@,
        TrayIndicator::Recording => "RECORDING"@,
        TrayIndicator::Loading => "LOADING"@,
    }
}

/// The indicator for a session state: waiting on the worker shows as loading.
pub open spec fn indicator_of(s: SessionState) -> TrayIndicator {
    match s {
        SessionState::Idle | SessionState::Ready => TrayIndicator::Idle,
        SessionState::Recording => TrayIndicator::Recording,
        _ => TrayIndicator::Loading,
    }
}

impl TrayIndicator {
    /// Reads an indicator from its name; any other name is refused with a
    /// message listing the valid ones.
    pub fn parse(name: &String) -> (r: Result<TrayIndicator, String>)
        ensures
            r matches Ok(t) ==> name@ == indicator_name(t),
            r is Err <==> (name@ != "IDLE"@ && name@ != "RECORDING"@ && name@ != "LOADING"@),
            r matches Err(e) ==> e@ == "Invalid state. Must be IDLE, RECORDING, or LOADING."@,
    {
        if *name == "IDLE".to_owned() {
            Ok(TrayIndicator::Idle)
        } else if *name == "RECORDING".to_owned() {
            Ok(TrayIndicator::Recording)
        } else if *name == "LOADING".to_owned() {
            Ok(TrayIndicator::Loading)
        } else {
            Err("Invalid state. Must be IDLE, RECORDING, or LOADING.".to_owned())
        }
    }

    /// The name of the indicator.
    pub fn name(&self) -> (r: String)
        ensures
            r@ == indicator_name(*self),
    {
        match self {
            TrayIndicator::Idle => "IDLE".to_owned(),
            TrayIndicator::Recording => "RECORDING".to_owned(),
            TrayIndicator::Loading => "LOADING".to_owned(),
        }
    }

    /// The indicator that reflects `state`.
    pub fn for_state(state: SessionState) -> (r: TrayIndicator)
        ensures
            r == indicator_of(state),
    {
        match state {
            SessionState::Idle | SessionState::Ready => TrayIndicator::Idle,
            SessionState::Recording => TrayIndicator::Recording,
            _ => TrayIndicator::Loading,
        }
    }
}

} // verus!
