//! The phases shared by the enumeration cursors: a cursor is allocated on
//! the daemon, produces elements, and ends exactly once, at the end of the
//! sequence or on the first error, when it is released.
use vstd::prelude::*;

verus! {

use crate::CS_ERR_NO_SECTIONS;

/// The phases of an enumeration cursor. `Exhausted` and `Failed` are
/// terminal: the server-side cursor is released on entering them.
#[derive(Debug, Copy, Clone, PartialEq, Eq, Structural)]
pub enum CursorPhase {
    /// Allocated, nothing fetched yet.
    Created,
    /// Producing elements.
    Active,
    /// The daemon reported the end of the sequence.
    Exhausted,
    /// A fetch failed.
    Failed,
}

/// Whether a cursor in this phase may still fetch.
pub open spec fn phase_open(p: CursorPhase) -> bool {
    p is Created || p is Active
}

/// The phase a cursor enters when an advance ends it: the end of the
/// sequence, or a failure for any other status.
pub open spec fn end_phase(res: u32) -> CursorPhase {
    if res == CS_ERR_NO_SECTIONS {
        CursorPhase::Exhausted
    } else {
        CursorPhase::Failed
    }
}

/// Whether a cursor in this phase may still fetch.
pub fn is_open_phase(p: CursorPhase) -> (r: bool)
    ensures
        r == phase_open(p),
{
    match p {
        CursorPhase::Created | CursorPhase::Active => true,
        _ => false,
    }
}

} // verus!
