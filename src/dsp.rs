//! One-pole filters, as data. A filter holds no state of its own: the
//! history it reads is kept by the signal that owns it.
use vstd::prelude::*;

verus! {

/// A one-pole transform of (input, previous output, previous input).
#[derive(Clone, Copy, Debug, PartialEq)]
pub enum Filter<V> {
    Differentiator { tau: V },
    Integrator { tau: V },
    HighPassFilter { alpha: V },
    LowPassFilter { alpha: V },
    Rectifier,
}

} // verus!
