//! The status register's bit layout and the shared zero/negative update.
//!
//! The status register is a single byte of independent condition bits:
//!
//! ```text
//! +-+-+-+-+-+-+-+-+
//! |N|V| |B|D|I|Z|C|
//! +-+-+-+-+-+-+-+-+
//!  7 6 5 4 3 2 1 0
//! ```
//!
//! C - Carry, Z - Zero, I - Interrupt Disable, D - Decimal Mode,
//! B - Break, (bit 5) - Break 2 (reserved), V - Overflow, N - Negative.

use vstd::prelude::*;

verus! {

pub const CARRY: u8 = 0b0000_0001;

pub const ZERO: u8 = 0b0000_0010;

pub const INTERRUPT: u8 = 0b0000_0100;

pub const DECIMAL: u8 = 0b0000_1000;

pub const BREAK: u8 = 0b0001_0000;

pub const BREAK2: u8 = 0b0010_0000;

pub const OVERFLOW: u8 = 0b0100_0000;

pub const NEGATIVE: u8 = 0b1000_0000;

/// The status byte that results from recording `value` in the Zero and
/// Negative flags: Zero is set exactly when `value` is zero, Negative is
/// set exactly when bit 7 of `value` is set, and every other flag keeps
/// the state it had in `status`.
pub open spec fn spec_update_zero_and_negative(status: u8, value: u8) -> u8 {
    let with_zero = if value == 0 {
        status | ZERO
    } else {
        status & !ZERO
    };
    if value & NEGATIVE != 0 {
        with_zero | NEGATIVE
    } else {
        with_zero & !NEGATIVE
    }
}

} // verus!
