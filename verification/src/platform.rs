//! Signals between the platform backend and the application loop.
//!
//! The platform backend — window, event pump, clock — lives outside the
//! runtime. After each "run one frame" it reports back whether the
//! application should keep running.

use vstd::prelude::*;

verus! {

/// What one pump of the platform backend reports.
#[derive(Debug, Clone, Copy, PartialEq, Eq, Structural)]
pub enum PollResult {
    Exit,
    Continue,
}

} // verus!
