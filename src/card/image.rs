use vstd::prelude::*;

verus! {

/// The images of a card.
#[derive(Clone, Debug, PartialEq, Eq)]
pub struct Image {
    pub small: String,
    pub large: String,
}

} // verus!
