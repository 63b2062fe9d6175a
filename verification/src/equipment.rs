//! The kitchen's equipment: ovens, mixers and tables.
//!
//! Each operation checks the state of what it is given and, when that state is
//! the expected one, hands back the next state. How long an operation takes in the
//! simulation is given by the constants below, in milliseconds, where one
//! millisecond stands for one minute of kitchen time.

use vstd::prelude::*;

use crate::error::{fails_with_dough_state, fails_with_ingredient_state, PizzaError};
use crate::ingredients::{Cheese, Dough, Flour, Pizza, Tomato};

verus! {

/// Time to hydrate flour into dough.
pub const TIME_TO_HYDRATE_DOUGH_MILLIS: u64 = 3;

/// Time to knead dough with a mixer.
pub const TIME_TO_KNEED_DOUGH_WITH_MIXER_MILLIS: u64 = 8;

/// Time to ferment dough in the fridge (eighteen hours).
pub const TIME_TO_FERMENT_DOUGH_WITH_FRIDGE_MILLIS: u64 = 1080;

/// Time to prove dough at room temperature.
pub const TIME_TO_PROVE_DOUGH_WITH_TABLE_MILLIS: u64 = 60;

/// Time to shape dough into a pizza base.
pub const TIME_TO_SHAPE_DOUGH_INTO_PIZZA_BASE_WITH_TABLE_MILLIS: u64 = 3;

/// Time to puree a tomato in a mixer.
pub const TIME_TO_PUREE_TOMATO_WITH_MIXER_MILLIS: u64 = 1;

/// Time to shred cheese on a table.
pub const TIME_TO_SHRED_CHEESE_WITH_TABLE_MILLIS: u64 = 3;

/// Time to top a pizza base.
pub const TIME_TO_TOP_PIZZA_WITH_INGREDIENTS_WITH_TABLE_MILLIS: u64 = 2;

/// Time to cook a pizza in an oven.
pub const TIME_TO_COOK_PIZZA_WITH_OVEN_MILLIS: u64 = 1;

/// An oven, which bakes one pizza at a time.
pub struct Oven;

/// A mixer, which kneads dough and purees tomatoes.
pub struct Mixer;

/// A work table for hydrating flour, shaping bases, shredding cheese and topping pizzas.
#[derive(Default)]
pub struct Table;

impl Oven {
    /// Bakes an uncooked pizza; any other pizza is refused.
    pub fn cook_pizza(&self, uncooked_pizza: Pizza) -> (res: Result<Pizza, PizzaError>)
        ensures
            uncooked_pizza == Pizza::Uncooked ==> res == Ok::<Pizza, PizzaError>(Pizza::Cooked),
            uncooked_pizza != Pizza::Uncooked ==> fails_with_ingredient_state(
                res,
                "You can only cook an Uncooked Pizza!"@,
            ),
    {
        if uncooked_pizza != Pizza::Uncooked {
            return Err(
                PizzaError::IncorrectIngredientState(
                    String::from_str("You can only cook an Uncooked Pizza!"),
                ),
            );
        }
        Ok(Pizza::Cooked)
    }
}

impl Mixer {
    /// Kneads hydrated dough into mixed dough; dough in any other state is refused.
    pub fn mix_dough(&self, dough: Dough) -> (res: Result<Dough, PizzaError>)
        ensures
            dough == Dough::Hydrated ==> res == Ok::<Dough, PizzaError>(Dough::Mixed),
            dough != Dough::Hydrated ==> fails_with_dough_state(
                res,
                "You can only mix hydrated dough!"@,
            ),
    {
        if dough != Dough::Hydrated {
            return Err(
                PizzaError::IncorrectDoughState(String::from_str("You can only mix hydrated dough!")),
            );
        }
        Ok(Dough::Mixed)
    }

    /// Purees a fresh tomato into sauce; a tomato that is already pureed is refused.
    pub fn mix_tomato_into_puree(&self, tomato: Tomato) -> (res: Result<Tomato, PizzaError>)
        ensures
            tomato == Tomato::Fresh ==> res == Ok::<Tomato, PizzaError>(Tomato::Pureed),
            tomato != Tomato::Fresh ==> fails_with_ingredient_state(
                res,
                "You can only puree Fresh Tomatoes!"@,
            ),
    {
        if tomato != Tomato::Fresh {
            return Err(
                PizzaError::IncorrectIngredientState(
                    String::from_str("You can only puree Fresh Tomatoes!"),
                ),
            );
        }
        Ok(Tomato::Pureed)
    }
}

impl Table {
    /// Hydrates a portion of flour into dough; this always succeeds.
    pub fn mix_flour_into_dough(&self, _flour: Flour) -> (res: Result<Dough, PizzaError>)
        ensures
            res == Ok::<Dough, PizzaError>(Dough::Hydrated),
    {
        Ok(Dough::Hydrated)
    }

    /// Shapes proved dough into a rounded pizza base; dough in any other state is refused.
    pub fn shape_dough_into_pizza_base(&self, dough: Dough) -> (res: Result<Dough, PizzaError>)
        ensures
            dough == Dough::Proved ==> res == Ok::<Dough, PizzaError>(Dough::Rounded),
            dough != Dough::Proved ==> fails_with_dough_state(
                res,
                "You can only shape Proved Dough!"@,
            ),
    {
        if dough != Dough::Proved {
            return Err(
                PizzaError::IncorrectDoughState(String::from_str("You can only shape Proved Dough!")),
            );
        }
        Ok(Dough::Rounded)
    }

    /// Grates a fresh block of cheese; cheese that is already grated is refused.
    pub fn shred_cheese_on_table(&self, cheese: Cheese) -> (res: Result<Cheese, PizzaError>)
        ensures
            cheese == Cheese::Fresh ==> res == Ok::<Cheese, PizzaError>(Cheese::Grated),
            cheese != Cheese::Fresh ==> fails_with_ingredient_state(
                res,
                "You can only shred Fresh Cheese!"@,
            ),
    {
        if cheese != Cheese::Fresh {
            return Err(
                PizzaError::IncorrectIngredientState(
                    String::from_str("You can only shred Fresh Cheese!"),
                ),
            );
        }
        Ok(Cheese::Grated)
    }

    /// Tops a rounded base with sauce and grated cheese, giving an uncooked pizza.
    ///
    /// Any ingredient in the wrong state is refused with an incorrect-ingredient
    /// error. The base is checked first, then the sauce, then the cheese; the first
    /// one in the wrong state decides the error's text.
    pub fn top_pizza_base_with_ingredients(
        &self,
        pizza_base: Dough,
        tomato_sauce: Tomato,
        cheese: Cheese,
    ) -> (res: Result<Pizza, PizzaError>)
        ensures
            pizza_base != Dough::Rounded ==> fails_with_ingredient_state(
                res,
                "Pizza base must be in Rounded state!"@,
            ),
            pizza_base == Dough::Rounded && tomato_sauce != Tomato::Pureed
                ==> fails_with_ingredient_state(res, "Tomato sauce must be Pureed!"@),
            pizza_base == Dough::Rounded && tomato_sauce == Tomato::Pureed && cheese
                != Cheese::Grated ==> fails_with_ingredient_state(res, "Cheese must be Grated!"@),
            pizza_base == Dough::Rounded && tomato_sauce == Tomato::Pureed && cheese
                == Cheese::Grated ==> res == Ok::<Pizza, PizzaError>(Pizza::Uncooked),
    {
        if pizza_base != Dough::Rounded {
            return Err(
                PizzaError::IncorrectIngredientState(
                    String::from_str("Pizza base must be in Rounded state!"),
                ),
            );
        }
        if tomato_sauce != Tomato::Pureed {
            return Err(
                PizzaError::IncorrectIngredientState(String::from_str("Tomato sauce must be Pureed!")),
            );
        }
        if cheese != Cheese::Grated {
            return Err(
                PizzaError::IncorrectIngredientState(String::from_str("Cheese must be Grated!")),
            );
        }
        Ok(Pizza::Uncooked)
    }
}

} // verus!
