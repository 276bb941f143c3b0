//! Discovery of physical display monitors and sequencing of VESA MCCS
//! "Virtual Control Panel" (VCP) power commands.
//!
//! The library holds the logic of the flow: decoding the fixed-width
//! description field of a raw hardware record, resolving one logical display
//! to its physical monitor records from the platform's query responses,
//! accumulating records over a display walk, and expanding a power intent to
//! the ordered VCP command values. The platform calls themselves (display
//! walk, monitor queries, command transport) happen outside the library and
//! hand it plain values.

use vstd::prelude::*;

pub mod descriptor;
pub mod enumerator;
pub mod power;
pub mod resolver;

verus! {

/// A failure reported by a platform call, carrying the platform's
/// diagnostic code.
#[derive(Clone, Copy, Debug, PartialEq, Eq, Structural)]
pub struct PlatformError {
    pub code: u32,
}

} // verus!
