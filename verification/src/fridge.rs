//! The fridge: the stock of ingredients and the record of fermenting dough.

use std::collections::HashMap;
use vstd::prelude::*;

use crate::error::PizzaError;
use crate::ingredients::{Cheese, Dough, Flour, Tomato};

verus! {

broadcast use vstd::std_specs::hash::group_hash_axioms;

/// The ingredients that the fridge holds, as mathematical values: how many
/// portions of flour there are, and the tomatoes and blocks of cheese in the
/// order in which they are stored (the last one is taken first).
pub struct Stock {
    /// Portions of flour.
    pub flour: nat,
    /// Tomatoes, the last of which is taken first.
    pub tomatoes: Seq<Tomato>,
    /// Blocks of cheese, the last of which is taken first.
    pub cheese: Seq<Cheese>,
}

impl Stock {
    /// The stock after one portion of flour is taken, if there is one.
    pub open spec fn take_flour(self) -> Stock {
        Stock { flour: if self.flour > 0 { (self.flour - 1) as nat } else { 0 }, ..self }
    }

    /// The stock after the last tomato is taken, if there is one.
    pub open spec fn take_tomato(self) -> Stock {
        Stock {
            tomatoes: if self.tomatoes.len() > 0 { self.tomatoes.drop_last() } else { self.tomatoes },
            ..self
        }
    }

    /// The stock after the last block of cheese is taken, if there is one.
    pub open spec fn take_cheese(self) -> Stock {
        Stock {
            cheese: if self.cheese.len() > 0 { self.cheese.drop_last() } else { self.cheese },
            ..self
        }
    }
}

/// A fridge that stores flour, tomatoes and cheese and ferments dough.
pub struct Fridge {
    /// Available portions of flour.
    pub portions_of_flour: Vec<Flour>,
    /// Fermented dough waiting to be proved.
    pub fermented_dough: Vec<Dough>,
    /// Tomatoes for sauce; the last one is taken first.
    pub tomatoes: Vec<Tomato>,
    /// Blocks of cheese for grating; the last one is taken first.
    pub block_of_cheese: Vec<Cheese>,
    /// The stations that have left dough to ferment.
    fermenting_processes: HashMap<usize, ()>,
}

impl Fridge {
    /// The stations that have started a fermentation in this fridge.
    pub closed spec fn fermenting_stations(&self) -> Set<usize> {
        self.fermenting_processes@.dom()
    }

    /// The ingredients in the fridge.
    pub closed spec fn stock(&self) -> Stock {
        Stock {
            flour: self.portions_of_flour@.len(),
            tomatoes: self.tomatoes@,
            cheese: self.block_of_cheese@,
        }
    }

    /// The fermented dough stored in the fridge.
    pub closed spec fn stored_dough(&self) -> Seq<Dough> {
        self.fermented_dough@
    }

    /// A fridge holding the given ingredients, no fermented dough and no
    /// fermentation in progress.
    pub fn new(flour: Vec<Flour>, tomatoes: Vec<Tomato>, cheese: Vec<Cheese>) -> (fridge: Self)
        ensures
            fridge.stock() == (Stock { flour: flour@.len(), tomatoes: tomatoes@, cheese: cheese@ }),
            fridge.stored_dough() == Seq::<Dough>::empty(),
            fridge.fermenting_stations() == Set::<usize>::empty(),
    {
        Fridge {
            portions_of_flour: flour,
            fermented_dough: Vec::new(),
            tomatoes,
            block_of_cheese: cheese,
            fermenting_processes: HashMap::new(),
        }
    }

    /// Takes one portion of flour, or reports that there is none left.
    pub fn get_flour(&mut self) -> (res: Result<Flour, PizzaError>)
        ensures
            old(self).stock().flour == 0 ==> res == Err::<Flour, PizzaError>(PizzaError::OutOfFlour),
            old(self).stock().flour > 0 ==> res is Ok,
            final(self).stock() == old(self).stock().take_flour(),
            final(self).stored_dough() == old(self).stored_dough(),
            final(self).fermenting_stations() == old(self).fermenting_stations(),
    {
        match self.portions_of_flour.pop() {
            Some(flour) => Ok(flour),
            None => Err(PizzaError::OutOfFlour),
        }
    }

    /// Takes the last tomato, or reports that there is none left.
    pub fn get_tomato(&mut self) -> (res: Result<Tomato, PizzaError>)
        ensures
            old(self).stock().tomatoes.len() == 0 ==> res == Err::<Tomato, PizzaError>(
                PizzaError::OutOfTomatoes,
            ),
            old(self).stock().tomatoes.len() > 0 ==> res == Ok::<Tomato, PizzaError>(
                old(self).stock().tomatoes.last(),
            ),
            final(self).stock() == old(self).stock().take_tomato(),
            final(self).stored_dough() == old(self).stored_dough(),
            final(self).fermenting_stations() == old(self).fermenting_stations(),
    {
        match self.tomatoes.pop() {
            Some(tomato) => Ok(tomato),
            None => Err(PizzaError::OutOfTomatoes),
        }
    }

    /// Takes the last block of cheese, or reports that there is none left.
    pub fn get_cheese(&mut self) -> (res: Result<Cheese, PizzaError>)
        ensures
            old(self).stock().cheese.len() == 0 ==> res == Err::<Cheese, PizzaError>(
                PizzaError::OutOfCheese,
            ),
            old(self).stock().cheese.len() > 0 ==> res == Ok::<Cheese, PizzaError>(
                old(self).stock().cheese.last(),
            ),
            final(self).stock() == old(self).stock().take_cheese(),
            final(self).stored_dough() == old(self).stored_dough(),
            final(self).fermenting_stations() == old(self).fermenting_stations(),
    {
        match self.block_of_cheese.pop() {
            Some(cheese) => Ok(cheese),
            None => Err(PizzaError::OutOfCheese),
        }
    }

    /// Records that `station_id` has left mixed dough to ferment, and returns
    /// the dough that the fermentation yields.
    pub fn leave_dough_to_ferment(&mut self, dough: Dough, station_id: usize) -> (fermented: Dough)
        requires
            dough == Dough::Mixed,
        ensures
            fermented == Dough::Fermented,
            final(self).fermenting_stations() == old(self).fermenting_stations().insert(station_id),
            final(self).stock() == old(self).stock(),
            final(self).stored_dough() == old(self).stored_dough(),
    {
        self.fermenting_processes.insert(station_id, ());
        Dough::Fermented
    }
}

} // verus!
