use vstd::prelude::*;

verus! {

/// An ability printed on a card.
#[derive(Clone, Debug, PartialEq, Eq)]
pub struct Ability {
    /// The name of the ability.
    pub name: String,
    /// The text value of the ability.
    pub text: String,
    /// The type of the ability, such as Ability or Pokémon-Power.
    pub kind: String,
}

} // verus!
