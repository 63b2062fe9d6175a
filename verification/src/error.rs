//! The errors that the kitchen reports.

use vstd::prelude::*;

verus! {

/// Everything that can go wrong while making a pizza.
#[derive(Debug, Clone, PartialEq, Eq)]
pub enum PizzaError {
    /// The fridge holds no flour.
    OutOfFlour,
    /// The fridge holds no tomatoes.
    OutOfTomatoes,
    /// The fridge holds no cheese.
    OutOfCheese,
    /// No fermented dough is available.
    OutOfFermentedDough,
    /// Every proving tray is in use.
    NoProvingTraysAvailable,
    /// A dough was not in the state that an operation expects; the text says which.
    IncorrectDoughState(String),
    /// An ingredient was not in the state that an operation expects; the text says which.
    IncorrectIngredientState(String),
    /// Another resource problem, described by the text.
    ResourceError(String),
}

/// `res` is the `IncorrectDoughState` error whose text is `text`.
pub open spec fn fails_with_dough_state<T>(res: Result<T, PizzaError>, text: Seq<char>) -> bool {
    res matches Err(PizzaError::IncorrectDoughState(m)) && m@ == text
}

/// `res` is the `IncorrectIngredientState` error whose text is `text`.
pub open spec fn fails_with_ingredient_state<T>(res: Result<T, PizzaError>, text: Seq<char>) -> bool {
    res matches Err(PizzaError::IncorrectIngredientState(m)) && m@ == text
}

impl PizzaError {
    /// The human-readable text of the error.
    pub open spec fn message(self) -> Seq<char> {
        match self {
            PizzaError::OutOfFlour => "Out of flour"@,
            PizzaError::OutOfTomatoes => "Out of tomatoes"@,
            PizzaError::OutOfCheese => "Out of cheese"@,
            PizzaError::OutOfFermentedDough => "Out of fermented dough"@,
            PizzaError::NoProvingTraysAvailable => "No proving trays available"@,
            PizzaError::IncorrectDoughState(msg) => "Incorrect dough state: "@ + msg@,
            PizzaError::IncorrectIngredientState(msg) => "Incorrect ingredient state: "@ + msg@,
            PizzaError::ResourceError(msg) => "Resource error: "@ + msg@,
        }
    }

    /// Renders the error as text.
    pub fn to_string(&self) -> (text: String)
        ensures
            text@ == self.message(),
    {
        match self {
            PizzaError::OutOfFlour => String::from_str("Out of flour"),
            PizzaError::OutOfTomatoes => String::from_str("Out of tomatoes"),
            PizzaError::OutOfCheese => String::from_str("Out of cheese"),
            PizzaError::OutOfFermentedDough => String::from_str("Out of fermented dough"),
            PizzaError::NoProvingTraysAvailable => String::from_str("No proving trays available"),
            PizzaError::IncorrectDoughState(msg) => {
                let mut text = String::from_str("Incorrect dough state: ");
                text.append(msg.as_str());
                text
            },
            PizzaError::IncorrectIngredientState(msg) => {
                let mut text = String::from_str("Incorrect ingredient state: ");
                text.append(msg.as_str());
                text
            },
            PizzaError::ResourceError(msg) => {
                let mut text = String::from_str("Resource error: ");
                text.append(msg.as_str());
                text
            },
        }
    }
}

} // verus!
