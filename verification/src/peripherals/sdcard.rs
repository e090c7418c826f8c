//! SD card state (the card itself is driven over SPI by the caller).

use vstd::prelude::*;

verus! {

/// Whether a card is mounted.
#[derive(Clone, Copy, Debug, PartialEq, Eq, Structural)]
pub enum SdState {
    NotInserted,
    Mounted,
    Error,
}

} // verus!
