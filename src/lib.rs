//! Splitting byte buffers into nybbles and combining them back.
//!
//! Every byte of a buffer is expanded into two bytes, each holding one
//! four-bit half of the original, in an order chosen by [`NybbleOrder`];
//! the inverse operation packs adjacent pairs back into bytes.

pub mod codec;
pub mod laws;
pub mod order;

pub use codec::{
    byte_from_nybbles, denybblify, high_nybble, low_nybble, nybbles_from_byte, nybblify, NybbleError,
};
pub use order::NybbleOrder;
