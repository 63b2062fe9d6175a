//! The chef, who takes ingredients through each step of making a pizza.
//!
//! Each step is given the equipment it works with; which oven, mixer or table
//! that is, and how long the step takes, is up to the caller.

use vstd::prelude::*;

use crate::equipment::{Mixer, Oven, Table};
use crate::error::{fails_with_dough_state, fails_with_ingredient_state, PizzaError};
use crate::fridge::Fridge;
use crate::ingredients::{Cheese, Dough, Pizza, Tomato};
use crate::proving_room::ProvingRoom;

verus! {

/// The result of a step of pizza making.
pub type PizzaResult<T> = Result<T, PizzaError>;

/// A chef who performs the steps of making a pizza.
pub struct Chef;

impl Chef {
    /// Takes a portion of flour from the fridge and hydrates it on `table`.
    pub fn create_dough(&self, fridge: &mut Fridge, table: &Table) -> (res: PizzaResult<Dough>)
        ensures
            old(fridge).stock().flour == 0 ==> res == Err::<Dough, PizzaError>(
                PizzaError::OutOfFlour,
            ),
            old(fridge).stock().flour > 0 ==> res == Ok::<Dough, PizzaError>(Dough::Hydrated),
            final(fridge).stock() == old(fridge).stock().take_flour(),
            final(fridge).stored_dough() == old(fridge).stored_dough(),
            final(fridge).fermenting_stations() == old(fridge).fermenting_stations(),
    {
        let flour = fridge.get_flour()?;
        table.mix_flour_into_dough(flour)
    }

    /// Kneads hydrated dough in `mixer`; dough in any other state is refused.
    pub fn develop_dough(&self, mixer: &Mixer, dough_to_mix: Dough) -> (res: PizzaResult<Dough>)
        ensures
            dough_to_mix == Dough::Hydrated ==> res == Ok::<Dough, PizzaError>(Dough::Mixed),
            dough_to_mix != Dough::Hydrated ==> fails_with_dough_state(
                res,
                "You can only put Hydrated Dough in the Mixer!"@,
            ),
    {
        if dough_to_mix != Dough::Hydrated {
            return Err(
                PizzaError::IncorrectDoughState(
                    String::from_str("You can only put Hydrated Dough in the Mixer!"),
                ),
            );
        }
        mixer.mix_dough(dough_to_mix)
    }

    /// Leaves mixed dough to ferment in the fridge, on behalf of `station_id`
    /// (station 0 when none is given), and returns the dough that the
    /// fermentation yields. Dough in any other state is refused and the fridge
    /// is left as it was.
    pub fn ferment_dough(
        &self,
        fridge: &mut Fridge,
        dough_to_ferment: Dough,
        station_id: Option<usize>,
    ) -> (res: PizzaResult<Dough>)
        ensures
            dough_to_ferment == Dough::Mixed ==> res == Ok::<Dough, PizzaError>(Dough::Fermented)
                && final(fridge).fermenting_stations() == old(
                fridge,
            ).fermenting_stations().insert(
                match station_id {
                    Some(id) => id,
                    None => 0,
                },
            ),
            dough_to_ferment != Dough::Mixed ==> fails_with_dough_state(
                res,
                "You can only ferment Mixed Dough!"@,
            ) && final(fridge).fermenting_stations() == old(fridge).fermenting_stations(),
            final(fridge).stock() == old(fridge).stock(),
            final(fridge).stored_dough() == old(fridge).stored_dough(),
    {
        if dough_to_ferment != Dough::Mixed {
            return Err(
                PizzaError::IncorrectDoughState(
                    String::from_str("You can only ferment Mixed Dough!"),
                ),
            );
        }
        let station = match station_id {
            Some(id) => id,
            None => 0,
        };
        Ok(fridge.leave_dough_to_ferment(dough_to_ferment, station))
    }

    /// Hands fermented dough to the proving room and returns the dough that
    /// proving yields; dough in any other state is refused.
    pub fn prove_dough(&self, proving_room: &ProvingRoom, fermented_dough: Dough) -> (res:
        PizzaResult<Dough>)
        ensures
            fermented_dough == Dough::Fermented ==> res == Ok::<Dough, PizzaError>(Dough::Proved),
            fermented_dough != Dough::Fermented ==> fails_with_dough_state(
                res,
                "Expected Fermented Dough!"@,
            ),
    {
        if fermented_dough != Dough::Fermented {
            return Err(
                PizzaError::IncorrectDoughState(String::from_str("Expected Fermented Dough!")),
            );
        }
        match proving_room.leave_dough_to_prove(fermented_dough) {
            Ok(proved) => Ok(proved),
            Err(text) => Err(PizzaError::ResourceError(String::from_str(text))),
        }
    }

    /// Shapes proved dough into a pizza base on `table`; dough in any other
    /// state is refused.
    pub fn prepare_pizza_base(&self, table: &Table, proved_dough: Dough) -> (res: PizzaResult<
        Dough,
    >)
        ensures
            proved_dough == Dough::Proved ==> res == Ok::<Dough, PizzaError>(Dough::Rounded),
            proved_dough != Dough::Proved ==> fails_with_dough_state(
                res,
                "The dough is not properly proved!"@,
            ),
    {
        if proved_dough != Dough::Proved {
            return Err(
                PizzaError::IncorrectDoughState(
                    String::from_str("The dough is not properly proved!"),
                ),
            );
        }
        table.shape_dough_into_pizza_base(proved_dough)
    }

    /// Takes the last tomato from the fridge and purees it in `mixer`.
    pub fn puree_sauce(&self, fridge: &mut Fridge, mixer: &Mixer) -> (res: PizzaResult<Tomato>)
        ensures
            old(fridge).stock().tomatoes.len() == 0 ==> res == Err::<Tomato, PizzaError>(
                PizzaError::OutOfTomatoes,
            ),
            old(fridge).stock().tomatoes.len() > 0 && old(fridge).stock().tomatoes.last()
                == Tomato::Fresh ==> res == Ok::<Tomato, PizzaError>(Tomato::Pureed),
            old(fridge).stock().tomatoes.len() > 0 && old(fridge).stock().tomatoes.last()
                != Tomato::Fresh ==> fails_with_ingredient_state(
                res,
                "You can only puree Fresh Tomatoes!"@,
            ),
            final(fridge).stock() == old(fridge).stock().take_tomato(),
            final(fridge).stored_dough() == old(fridge).stored_dough(),
            final(fridge).fermenting_stations() == old(fridge).fermenting_stations(),
    {
        let tomato = fridge.get_tomato()?;
        mixer.mix_tomato_into_puree(tomato)
    }

    /// Takes the last block of cheese from the fridge and grates it on `table`.
    pub fn shred_cheese(&self, fridge: &mut Fridge, table: &Table) -> (res: PizzaResult<Cheese>)
        ensures
            old(fridge).stock().cheese.len() == 0 ==> res == Err::<Cheese, PizzaError>(
                PizzaError::OutOfCheese,
            ),
            old(fridge).stock().cheese.len() > 0 && old(fridge).stock().cheese.last()
                == Cheese::Fresh ==> res == Ok::<Cheese, PizzaError>(Cheese::Grated),
            old(fridge).stock().cheese.len() > 0 && old(fridge).stock().cheese.last()
                != Cheese::Fresh ==> fails_with_ingredient_state(
                res,
                "You can only shred Fresh Cheese!"@,
            ),
            final(fridge).stock() == old(fridge).stock().take_cheese(),
            final(fridge).stored_dough() == old(fridge).stored_dough(),
            final(fridge).fermenting_stations() == old(fridge).fermenting_stations(),
    {
        let cheese = fridge.get_cheese()?;
        table.shred_cheese_on_table(cheese)
    }

    /// Assembles a rounded base, tomato sauce and grated cheese on `table` into
    /// an uncooked pizza; if any of them is in another state, nothing is assembled.
    pub fn combine_cold_ingredients_to_form_uncooked_pizza(
        &self,
        table: &Table,
        pizza_base: Dough,
        tomato_sauce: Tomato,
        cheese: Cheese,
    ) -> (res: PizzaResult<Pizza>)
        ensures
            pizza_base == Dough::Rounded && tomato_sauce == Tomato::Pureed && cheese
                == Cheese::Grated ==> res == Ok::<Pizza, PizzaError>(Pizza::Uncooked),
            !(pizza_base == Dough::Rounded && tomato_sauce == Tomato::Pureed && cheese
                == Cheese::Grated) ==> fails_with_ingredient_state(
                res,
                "You can only combine Pureed Tomato, Grated Cheese, and Rounded Dough to form an Uncooked Pizza!"@,
            ),
    {
        if pizza_base != Dough::Rounded || tomato_sauce != Tomato::Pureed || cheese
            != Cheese::Grated {
            return Err(
                PizzaError::IncorrectIngredientState(
                    String::from_str(
                        "You can only combine Pureed Tomato, Grated Cheese, and Rounded Dough to form an Uncooked Pizza!",
                    ),
                ),
            );
        }
        table.top_pizza_base_with_ingredients(pizza_base, tomato_sauce, cheese)
    }

    /// Bakes an uncooked pizza in `oven`; any other pizza is refused.
    pub fn cook_pizza(&self, oven: &Oven, pizza: Pizza) -> (res: PizzaResult<Pizza>)
        ensures
            pizza == Pizza::Uncooked ==> res == Ok::<Pizza, PizzaError>(Pizza::Cooked),
            pizza != Pizza::Uncooked ==> fails_with_ingredient_state(
                res,
                "You can only cook an Uncooked Pizza!"@,
            ),
    {
        if pizza != Pizza::Uncooked {
            return Err(
                PizzaError::IncorrectIngredientState(
                    String::from_str("You can only cook an Uncooked Pizza!"),
                ),
            );
        }
        oven.cook_pizza(pizza)
    }
}

} // verus!
