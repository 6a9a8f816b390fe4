use vstd::prelude::*;

verus! {

/// A resistance of a card.
#[derive(Clone, Debug, PartialEq, Eq)]
pub struct Resistance {
    /// The type of resistance, such as Fire or Water.
    pub kind: String,
    /// The value of the resistance.
    pub value: String,
}

} // verus!
