use vstd::prelude::*;

verus! {

/// An attack printed on a card.
#[derive(Clone, Debug, PartialEq, Eq)]
pub struct Attack {
    /// The cost of the attack, as a list of energy types.
    pub cost: Vec<String>,
    /// The name of the attack.
    pub name: String,
    /// The text or description associated with the attack.
    pub text: String,
    /// The damage amount of the attack.
    pub damage: String,
    /// The total cost of the attack: two fire energy cost 2.
    pub converted_energy_cost: Option<usize>,
}

} // verus!
