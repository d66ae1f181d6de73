//! Time driver for the RP2040 timer peripheral.
//!
//! The RP2040 timer block offers a free-running 64-bit microsecond counter
//! and four compare units, each of which can be armed with an absolute tick
//! value and raises its own interrupt line when the counter reaches it.
//! This crate builds a small one-shot alarm driver on top of that block:
//! a fixed pool of four alarm slots that can be allocated, given a callback,
//! and armed for an absolute tick.
//!
//! The protocol itself — allocation, callback storage, arming, and
//! interrupt dispatch — lives in [`slots`] and is verified.  [`sim`] pairs
//! that protocol with a pure model of the timer block, so the whole driver
//! state machine can be exercised and proved off-target.  [`rp2040`] pairs
//! the same protocol with the real peripheral through `rp2040_hal`.

pub mod rp2040;
pub mod sim;
pub mod slots;
