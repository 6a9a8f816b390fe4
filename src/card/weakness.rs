use vstd::prelude::*;

verus! {

/// A weakness of a card.
#[derive(Clone, Debug, PartialEq, Eq)]
pub struct Weakness {
    /// The type of weakness, such as Fire or Water.
    pub kind: String,
    /// The value of the weakness.
    pub value: String,
}

} // verus!
