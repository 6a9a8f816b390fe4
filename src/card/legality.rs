use vstd::prelude::*;

verus! {

/// The formats a card is legal or banned in; a format it is not legal in is absent.
#[derive(Clone, Debug, PartialEq, Eq)]
pub struct Legality {
    pub standard: Option<String>,
    pub expanded: Option<String>,
    pub unlimited: Option<String>,
}

} // verus!
