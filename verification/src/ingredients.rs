//! The ingredients of a pizza and the states each of them passes through.

use vstd::prelude::*;

verus! {

/// A portion of flour: the starting point of every pizza dough.
#[derive(Clone, Copy, Debug, PartialEq, Eq, Structural)]
pub struct Flour;

/// Pizza dough, in the order in which it is prepared: hydrated, mixed,
/// fermented, proved and finally rounded into a pizza base.
#[derive(Clone, Copy, Debug, PartialEq, Eq, Structural, PartialOrd, Ord)]
pub enum Dough {
    /// Flour mixed with water.
    Hydrated,
    /// Kneaded dough.
    Mixed,
    /// Dough that has fermented in the fridge.
    Fermented,
    /// Dough that has risen in the proving room.
    Proved,
    /// Dough shaped into a pizza base.
    Rounded,
}

/// A tomato, fresh or pureed into sauce.
#[derive(Clone, Copy, Debug, PartialEq, Eq, Structural, PartialOrd, Ord)]
pub enum Tomato {
    /// An unprocessed tomato.
    Fresh,
    /// Tomato sauce.
    Pureed,
}

/// Cheese, as a fresh block or grated for topping.
#[derive(Clone, Copy, Debug, PartialEq, Eq, Structural, PartialOrd, Ord)]
pub enum Cheese {
    /// An unprocessed block of cheese.
    Fresh,
    /// Grated cheese.
    Grated,
}

/// A pizza, assembled and then baked.
#[derive(Clone, Copy, Debug, PartialEq, Eq, Structural, PartialOrd, Ord)]
pub enum Pizza {
    /// Topped but not yet baked.
    Uncooked,
    /// Baked in the oven.
    Cooked,
}

} // verus!
