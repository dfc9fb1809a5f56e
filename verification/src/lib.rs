//! Packet codec and controller-side session logic for a motorised scanner
//! that is driven over a noisy serial link.

pub mod wire;
pub mod packets;
pub mod coder;
pub mod state;
pub mod handlers;
pub mod mock;
