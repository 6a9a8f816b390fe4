use vstd::prelude::*;

verus! {

/// The images of a set.
#[derive(Clone, Debug, PartialEq, Eq)]
pub struct SetImages {
    /// The url to the symbol image.
    pub symbol: String,
    /// The url to the logo image.
    pub logo: String,
}

} // verus!
