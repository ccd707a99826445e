//! Recording-session core: a caller-side session manager, the decisions of the
//! single capture worker that owns the audio device, and the command channel
//! between them. Every transition is stated as a spec function and proved.

pub mod command;
pub mod device;
pub mod laws;
pub mod queue;
pub mod session;
pub mod tray;
pub mod worker;
