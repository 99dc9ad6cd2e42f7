//! Supervision of a game-server process: classification of its console lines
//! into player events, the notifications sent for them, the line pump, the
//! cancellation token and the supervisor's state machine.

pub mod classify;
pub mod log;
pub mod notify;
pub mod pump;
pub mod cancel;
pub mod supervisor;
pub mod invocation;
