//! Realtime gateway protocol client: the wire codec, the heartbeat
//! bookkeeping, the session worker's state machine and the session handle's
//! lifecycle, together with the plain option types of the command line.

pub mod envelope;
pub mod json;
pub mod zlib;
pub mod codec;
pub mod heartbeat;
pub mod worker;
pub mod session;
pub mod laws;
pub mod commands;
