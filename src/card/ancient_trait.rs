use vstd::prelude::*;

verus! {

/// The ancient trait of a card.
#[derive(Clone, Debug, PartialEq, Eq)]
pub struct AncientTrait {
    /// The name of the ancient trait.
    pub name: String,
    /// The text value of the ancient trait.
    pub text: String,
}

} // verus!
