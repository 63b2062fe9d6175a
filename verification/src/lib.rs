//! A kitchen that turns flour, tomatoes and cheese into cooked pizzas.
//!
//! Every ingredient moves through a fixed sequence of states, and each piece of
//! kitchen equipment accepts exactly one state and produces the next one. The
//! fridge holds the stock, a chef drives one pizza through the whole workflow,
//! the production module counts what a batch of chefs achieves with a given
//! stock, and the pipeline module holds the rules of the station pipeline.

pub mod chef;
pub mod equipment;
pub mod error;
pub mod fridge;
pub mod ingredients;
pub mod kitchen;
pub mod pipeline;
pub mod production;
pub mod proving_room;

pub use crate::chef::{Chef, PizzaResult};
pub use crate::error::PizzaError;
pub use crate::ingredients::{Cheese, Dough, Flour, Pizza, Tomato};
