//! How the kitchen is equipped and stocked when it opens.

use vstd::prelude::*;

use crate::fridge::{Fridge, Stock};
use crate::ingredients::{Cheese, Dough, Flour, Tomato};
use crate::production::{lemma_fresh_stock_production, min_nat, run_chefs};
use crate::proving_room::{initial_permits, ProvingRoom};

verus! {

/// Number of ovens in the kitchen.
pub const NUM_OVENS: usize = 2;

/// Number of mixers in the kitchen.
pub const NUM_MIXERS: usize = 3;

/// Number of tables in the kitchen.
pub const NUM_TABLES: usize = 4;

/// Number of trays in the proving room (one per table).
pub const NUM_PROVING_TRAYS: usize = 4;

/// Portions of flour in the fridge when the kitchen opens.
pub const INITIAL_FLOUR: usize = 100;

/// Fresh tomatoes in the fridge when the kitchen opens.
pub const INITIAL_TOMATOES: usize = 200;

/// Fresh blocks of cheese in the fridge when the kitchen opens.
pub const INITIAL_CHEESE: usize = 300;

/// The stock of the fridge when the kitchen opens.
pub open spec fn default_stock() -> Stock {
    Stock {
        flour: INITIAL_FLOUR as nat,
        tomatoes: Seq::new(INITIAL_TOMATOES as nat, |_i: int| Tomato::Fresh),
        cheese: Seq::new(INITIAL_CHEESE as nat, |_i: int| Cheese::Fresh),
    }
}

/// `count` portions of flour.
fn flour_portions(count: usize) -> (portions: Vec<Flour>)
    ensures
        portions@.len() == count,
{
    let mut portions: Vec<Flour> = Vec::new();
    let mut i: usize = 0;
    while i < count
        invariant
            i <= count,
            portions@.len() == i,
        decreases count - i,
    {
        portions.push(Flour);
        i = i + 1;
    }
    portions
}

/// `count` fresh tomatoes.
fn fresh_tomatoes(count: usize) -> (tomatoes: Vec<Tomato>)
    ensures
        tomatoes@ == Seq::new(count as nat, |_i: int| Tomato::Fresh),
{
    let mut tomatoes: Vec<Tomato> = Vec::new();
    let mut i: usize = 0;
    while i < count
        invariant
            i <= count,
            tomatoes@ == Seq::new(i as nat, |_i: int| Tomato::Fresh),
        decreases count - i,
    {
        tomatoes.push(Tomato::Fresh);
        i = i + 1;
    }
    tomatoes
}

/// `count` fresh blocks of cheese.
fn fresh_cheese(count: usize) -> (cheese: Vec<Cheese>)
    ensures
        cheese@ == Seq::new(count as nat, |_i: int| Cheese::Fresh),
{
    let mut cheese: Vec<Cheese> = Vec::new();
    let mut i: usize = 0;
    while i < count
        invariant
            i <= count,
            cheese@ == Seq::new(i as nat, |_i: int| Cheese::Fresh),
        decreases count - i,
    {
        cheese.push(Cheese::Fresh);
        i = i + 1;
    }
    cheese
}

/// The fridge as the kitchen opens: the initial flour, tomatoes and cheese, no
/// fermented dough and nothing fermenting.
pub fn default_fridge() -> (fridge: Fridge)
    ensures
        fridge.stock() == default_stock(),
        fridge.stored_dough() == Seq::<Dough>::empty(),
        fridge.fermenting_stations() == Set::<usize>::empty(),
{
    Fridge::new(
        flour_portions(INITIAL_FLOUR),
        fresh_tomatoes(INITIAL_TOMATOES),
        fresh_cheese(INITIAL_CHEESE),
    )
}

/// The proving room as the kitchen opens, with all its trays free.
pub fn default_proving_room() -> (room: ProvingRoom)
    ensures
        room.capacity() == NUM_PROVING_TRAYS,
        initial_permits(*room.tray_permits()) == NUM_PROVING_TRAYS,
{
    ProvingRoom::new(NUM_PROVING_TRAYS)
}

/// In a freshly opened kitchen, `n` chefs make `n` pizzas as long as the flour
/// lasts, and no more than there are portions of flour.
pub proof fn lemma_default_kitchen_production(n: nat)
    ensures
        run_chefs(default_stock(), n).0 == min_nat(n, INITIAL_FLOUR as nat),
{
    lemma_fresh_stock_production(default_stock(), n);
}

} // verus!
