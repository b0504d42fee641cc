//! Core of a bridge between a remote command service and a game: message
//! codes and framing, per-side connection lifecycles, and the correlation of
//! game results with the commands that caused them.
use vstd::prelude::*;

pub mod correlation;
pub mod error;
pub mod framing;
pub mod lifecycle;
pub mod remote;
pub mod statuses;

verus! {

} // verus!
