//! Core of a terminal client for paging through results of a remote search
//! service: a paginated result cache with an over-fetch policy, the input
//! state machine that drives it, and the single background search worker.

use vstd::prelude::*;

pub mod app;
pub mod crates_io;
pub mod input;
pub mod toast;
pub mod widgets;
pub mod worker;

verus! {

/// Ceiling division, `ceil(a / b)`, with `ceil(0 / b) == 0`.
pub open spec fn spec_ceil_div(a: int, b: int) -> int {
    if a == 0 {
        0
    } else {
        (a + b - 1) / b
    }
}

/// Ceiling division on `u32`, used to turn a UI page number into the remote
/// batch number that covers it.
pub fn ceil_div(a: u32, b: u32) -> (r: u32)
    requires
        b >= 1,
        a == 0 || a + b <= u32::MAX,
    ensures
        r == spec_ceil_div(a as int, b as int),
{
    if a == 0 {
        0
    } else {
        (a + b - 1) / b
    }
}

} // verus!
