//! Combinators that drive several suspendable operations to completion without
//! spawning: wait for all (`JoinEngine`, and `Join2` to `Join12` for tuples), wait
//! for the first success (`FirstOk`), and feed a stream's items to a consumer
//! (`StreamDriver`). Each engine is the decision logic of a drive step; the
//! caller probes the operations it names and reports what came back.

use vstd::prelude::*;

pub mod first_ok;
pub mod join;
pub mod permuter;
pub mod readiness;
pub mod stream;
pub mod tuple;
pub mod wakeup;

pub use first_ok::FirstOk;
pub use stream::{FromStream, IntoConcurrentStream};

verus! {

} // verus!
