//! A global keyboard hook core: the key identity table, the table of tracked
//! key states, the decoding of recorded device events, the guarded bridge
//! between the platform callback and the event handler, and the life cycle of
//! a capture session.

pub mod bridge;
pub mod chord;
pub mod cli;
pub mod color;
pub mod engine;
pub mod err;
pub mod events;
pub mod hooks;
pub mod key;
pub mod listener;
pub mod record;
pub mod state;
pub mod table;
pub mod uppercase;
pub mod window;
