use life_of_pie::equipment::{Mixer, Oven, Table};
use life_of_pie::fridge::Fridge;
use life_of_pie::proving_room::ProvingRoom;
use life_of_pie::{Cheese, Dough, Flour, Pizza, PizzaError, Tomato};

#[test]
fn oven_cooks_only_uncooked_pizza() {
    assert_eq!(Oven.cook_pizza(Pizza::Uncooked), Ok(Pizza::Cooked));
    assert_eq!(
        Oven.cook_pizza(Pizza::Cooked),
        Err(PizzaError::IncorrectIngredientState(
            "You can only cook an Uncooked Pizza!".to_string()
        ))
    );
}

#[test]
fn mixer_kneads_only_hydrated_dough() {
    assert_eq!(Mixer.mix_dough(Dough::Hydrated), Ok(Dough::Mixed));
    assert_eq!(
        Mixer.mix_dough(Dough::Fermented),
        Err(PizzaError::IncorrectDoughState(
            "You can only mix hydrated dough!".to_string()
        ))
    );
}

#[test]
fn mixer_purees_only_fresh_tomatoes() {
    assert_eq!(Mixer.mix_tomato_into_puree(Tomato::Fresh), Ok(Tomato::Pureed));
    assert_eq!(
        Mixer.mix_tomato_into_puree(Tomato::Pureed),
        Err(PizzaError::IncorrectIngredientState(
            "You can only puree Fresh Tomatoes!".to_string()
        ))
    );
}

#[test]
fn table_hydrates_flour() {
    assert_eq!(Table::default().mix_flour_into_dough(Flour), Ok(Dough::Hydrated));
}

#[test]
fn table_shapes_only_proved_dough() {
    assert_eq!(Table.shape_dough_into_pizza_base(Dough::Proved), Ok(Dough::Rounded));
    assert_eq!(
        Table.shape_dough_into_pizza_base(Dough::Rounded),
        Err(PizzaError::IncorrectDoughState(
            "You can only shape Proved Dough!".to_string()
        ))
    );
}

#[test]
fn table_shreds_only_fresh_cheese() {
    assert_eq!(Table.shred_cheese_on_table(Cheese::Fresh), Ok(Cheese::Grated));
    assert_eq!(
        Table.shred_cheese_on_table(Cheese::Grated),
        Err(PizzaError::IncorrectIngredientState(
            "You can only shred Fresh Cheese!".to_string()
        ))
    );
}

#[test]
fn table_tops_base_checking_base_then_sauce_then_cheese() {
    assert_eq!(
        Table.top_pizza_base_with_ingredients(Dough::Rounded, Tomato::Pureed, Cheese::Grated),
        Ok(Pizza::Uncooked)
    );
    assert_eq!(
        Table.top_pizza_base_with_ingredients(Dough::Proved, Tomato::Fresh, Cheese::Fresh),
        Err(PizzaError::IncorrectIngredientState(
            "Pizza base must be in Rounded state!".to_string()
        ))
    );
    assert_eq!(
        Table.top_pizza_base_with_ingredients(Dough::Rounded, Tomato::Fresh, Cheese::Fresh),
        Err(PizzaError::IncorrectIngredientState(
            "Tomato sauce must be Pureed!".to_string()
        ))
    );
    assert_eq!(
        Table.top_pizza_base_with_ingredients(Dough::Rounded, Tomato::Pureed, Cheese::Fresh),
        Err(PizzaError::IncorrectIngredientState(
            "Cheese must be Grated!".to_string()
        ))
    );
}

#[test]
fn fridge_hands_out_flour_until_it_runs_out() {
    let mut fridge = Fridge::new(vec![Flour, Flour], vec![Tomato::Fresh], vec![Cheese::Fresh]);
    assert!(fridge.get_flour().is_ok());
    let result = fridge.get_flour();
    assert!(result.is_ok());
    assert_eq!(fridge.get_flour(), Err(PizzaError::OutOfFlour));
    assert_eq!(fridge.portions_of_flour.len(), 0);
    assert!(fridge.fermented_dough.is_empty());
}

#[test]
fn fridge_hands_out_the_last_tomato_and_cheese_first() {
    let mut fridge = Fridge::new(
        vec![],
        vec![Tomato::Fresh, Tomato::Pureed],
        vec![Cheese::Grated, Cheese::Fresh],
    );
    assert_eq!(fridge.get_tomato(), Ok(Tomato::Pureed));
    assert_eq!(fridge.get_tomato(), Ok(Tomato::Fresh));
    assert_eq!(fridge.get_tomato(), Err(PizzaError::OutOfTomatoes));
    assert_eq!(fridge.get_cheese(), Ok(Cheese::Fresh));
    assert_eq!(fridge.get_cheese(), Ok(Cheese::Grated));
    assert_eq!(fridge.get_cheese(), Err(PizzaError::OutOfCheese));
}

#[test]
fn fridge_ferments_mixed_dough() {
    let mut fridge = Fridge::new(vec![], vec![], vec![]);
    assert_eq!(fridge.leave_dough_to_ferment(Dough::Mixed, 3), Dough::Fermented);
}

#[test]
fn proving_room_accepts_only_fermented_dough() {
    let room = ProvingRoom::new(2);
    assert_eq!(room.leave_dough_to_prove(Dough::Fermented), Ok(Dough::Proved));
    assert_eq!(
        room.leave_dough_to_prove(Dough::Proved),
        Err("You can only prove Fermented Dough!")
    );
    assert_eq!(room.trays().available_permits(), 2);
}

#[test]
fn error_messages_match_their_kind() {
    assert_eq!(PizzaError::OutOfFlour.to_string(), "Out of flour");
    assert_eq!(PizzaError::OutOfTomatoes.to_string(), "Out of tomatoes");
    assert_eq!(PizzaError::OutOfCheese.to_string(), "Out of cheese");
    assert_eq!(PizzaError::OutOfFermentedDough.to_string(), "Out of fermented dough");
    assert_eq!(PizzaError::NoProvingTraysAvailable.to_string(), "No proving trays available");
    assert_eq!(
        PizzaError::IncorrectDoughState("too wet".to_string()).to_string(),
        "Incorrect dough state: too wet"
    );
    assert_eq!(
        PizzaError::IncorrectIngredientState("mouldy".to_string()).to_string(),
        "Incorrect ingredient state: mouldy"
    );
    assert_eq!(
        PizzaError::ResourceError("no tray".to_string()).to_string(),
        "Resource error: no tray"
    );
}
