//! The immutable bag of economic constants that tunes a playthrough.
//! All monetary values are integers denominating minor currency units
//! (cents); no floating point is used anywhere.

use vstd::prelude::*;

verus! {

/// Tunable economic constants, loaded once and never mutated afterwards.
pub struct CroissantGameConfig {
    /// Number of turns before the game ends.
    pub turns: i32,
    /// Money the player starts with, in cents.
    pub starting_money: i32,
    /// Flat payoff credited by the cook action, in cents.
    pub cook_payoff: i32,
    /// Cost of one cheese unit, in cents.
    pub cheese_cost: i32,
    /// Largest cheese quantity a single purchase may request.
    pub cheese_quantity_maximum: u32,
    /// Age (in turns) at which a cheese unit counts as mature.
    pub cheese_mature_turns: i32,
    /// Payoff per mature cheese unit sold, in cents.
    pub cheese_payoff: i32,
    /// Cost of publishing one recipe, in cents.
    pub recipe_cost: i32,
    /// Dividend each owned recipe pays per turn, in cents.
    pub recipe_dividend: i32,
    /// Cost of publishing one cookbook, in cents.
    pub cookbook_cost: i32,
    /// Dividend each owned cookbook pays per turn, in cents.
    pub cookbook_dividend: i32,
    /// Market price of croissants at the start of the game, in cents.
    pub croissant_starting_price: i32,
    /// Largest croissant quantity a single purchase may request.
    pub croissant_quantity_maximum: u32,
    /// Amount the croissant price falls during each turn advancement.
    pub croissant_price_fall: i32,
    /// Amount the croissant price rises when croissants are bought.
    pub croissant_price_rise: i32,
    /// Floor below which the croissant price never drops.
    pub croissant_minimum_price: i32,
}

impl CroissantGameConfig {
    /// A correct deployment supplies only non-negative constants, quantity
    /// caps that fit a signed 32-bit count, and a starting price that
    /// respects the price floor. The engine relies on this but does not
    /// re-validate it at run time; loaders are expected to supply sane
    /// values.
    pub open spec fn valid(self) -> bool {
        &&& self.turns >= 0
        &&& self.starting_money >= 0
        &&& self.cook_payoff >= 0
        &&& self.cheese_cost >= 0
        &&& self.cheese_quantity_maximum <= i32::MAX
        &&& self.cheese_mature_turns >= 0
        &&& self.cheese_payoff >= 0
        &&& self.recipe_cost >= 0
        &&& self.recipe_dividend >= 0
        &&& self.cookbook_cost >= 0
        &&& self.cookbook_dividend >= 0
        &&& self.croissant_starting_price >= 0
        &&& self.croissant_quantity_maximum <= i32::MAX
        &&& self.croissant_price_fall >= 0
        &&& self.croissant_price_rise >= 0
        &&& self.croissant_minimum_price >= 0
        &&& self.croissant_starting_price >= self.croissant_minimum_price
    }
}

} // verus!
