//! A bedtime daemon's decision logic: the clock window, the persisted trigger
//! flag, the control protocol and the daemon's tick, each with a contract.

pub mod clock;
pub mod daemon;
pub mod flag;
pub mod playback;
pub mod protocol;
pub mod trigger;
pub mod window;
