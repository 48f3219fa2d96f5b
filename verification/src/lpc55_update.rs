//! Updates of the LPC55 root of trust.

use vstd::prelude::*;

verus! {

/// The size of the blocks that an update is sent in: the size of a page of the
/// LPC55's flash memory.
///
/// While we could send arbitrary amounts of data and have the update server split
/// them up, this makes the code more complicated than necessary and is only an
/// optimization.
pub const BLOCK_SIZE_BYTES: usize = 512;

} // verus!
