use vstd::prelude::*;

verus! {

/// Keeps [`Polarity`](super::Polarity) implementable only inside this crate.
pub trait Sealed {}

} // verus!
