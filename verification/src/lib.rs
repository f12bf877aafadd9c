//! Verified core of the lunar relay: the binary message formats exchanged
//! with the rover and the ground, the relay's command state machine, and
//! the per-packet decisions that the asynchronous drivers make.

pub mod message;
pub mod util;
pub mod relay;
pub mod io;
pub mod trace;
pub mod stream_monad;
pub mod downlink;
pub mod console;
pub mod net;
pub mod signals;
