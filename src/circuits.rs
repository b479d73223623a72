//! Circuit elements, as data.
use vstd::prelude::*;

verus! {

/// A passive component and its defining quantity (ohms, farads or henries).
#[derive(Clone, Copy, Debug, PartialEq)]
pub enum Component<V> {
    Resistor(V),
    Capacitor(V),
    Inductor(V),
}

} // verus!
