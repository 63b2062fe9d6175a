use life_of_pie::chef::Chef;
use life_of_pie::equipment::{Mixer, Oven, Table};
use life_of_pie::kitchen::{default_fridge, default_proving_room};
use life_of_pie::{Cheese, Dough, Pizza, PizzaError, Tomato};

#[test]
fn test_create_dough_works_as_expected() {
    let mut fridge = default_fridge();
    let chef = Chef;

    let dough = chef.create_dough(&mut fridge, &Table).unwrap();
    assert_eq!(dough, Dough::Hydrated);
}

#[test]
fn test_create_dough_no_flour() {
    let mut fridge = default_fridge();
    fridge.portions_of_flour.clear(); // No flour available
    let chef = Chef;

    let result = chef.create_dough(&mut fridge, &Table);
    assert!(result.is_err());
    assert_eq!(result.unwrap_err(), PizzaError::OutOfFlour);
}

#[test]
fn test_develop_dough_works_as_expected() {
    let mut fridge = default_fridge();
    let chef = Chef;

    let hydrated_dough = chef.create_dough(&mut fridge, &Table).unwrap();
    let mixed_dough = chef.develop_dough(&Mixer, hydrated_dough).unwrap();
    assert_eq!(mixed_dough, Dough::Mixed);
}

#[test]
fn test_develop_dough_no_hydrated_dough() {
    let chef = Chef;

    let result = chef.develop_dough(&Mixer, Dough::Mixed);
    assert!(result.is_err());
    assert_eq!(
        result.unwrap_err(),
        PizzaError::IncorrectDoughState("You can only put Hydrated Dough in the Mixer!".to_string())
    );
}

#[test]
fn test_ferment_dough_works_as_expected() {
    let mut fridge = default_fridge();
    let chef = Chef;

    let hydrated_dough = chef.create_dough(&mut fridge, &Table).unwrap();
    let mixed_dough = chef.develop_dough(&Mixer, hydrated_dough).unwrap();
    let fermented_dough = chef.ferment_dough(&mut fridge, mixed_dough, None).unwrap();
    assert_eq!(fermented_dough, Dough::Fermented);
}

#[test]
fn test_ferment_dough_no_mixed_dough() {
    let mut fridge = default_fridge();
    let chef = Chef;

    let result = chef.ferment_dough(&mut fridge, Dough::Hydrated, None);
    assert!(result.is_err());
    assert_eq!(
        result.unwrap_err(),
        PizzaError::IncorrectDoughState("You can only ferment Mixed Dough!".to_string())
    );
}

#[test]
fn test_prove_dough_works_as_expected() {
    let mut fridge = default_fridge();
    let proving_room = default_proving_room();
    let chef = Chef;

    let fermented_dough = chef.ferment_dough(&mut fridge, Dough::Mixed, Some(0)).unwrap();
    let proved_dough = chef.prove_dough(&proving_room, fermented_dough).unwrap();
    assert_eq!(proved_dough, Dough::Proved);
}

#[test]
fn test_prepare_pizza_base_works_as_expected() {
    let chef = Chef;

    let proved_dough = Dough::Proved;

    let pizza_base = chef.prepare_pizza_base(&Table, proved_dough).unwrap();
    assert_eq!(pizza_base, Dough::Rounded);
}

#[test]
fn test_prepare_pizza_base_no_proved_dough() {
    let chef = Chef;

    let result = chef.prepare_pizza_base(&Table, Dough::Hydrated);
    assert!(result.is_err());
    assert_eq!(
        result.unwrap_err(),
        PizzaError::IncorrectDoughState("The dough is not properly proved!".to_string())
    );
}

#[test]
fn test_puree_sauce_works_as_expected() {
    let mut fridge = default_fridge();
    let chef = Chef;

    let sauce = chef.puree_sauce(&mut fridge, &Mixer).unwrap();
    assert_eq!(sauce, Tomato::Pureed);
}

#[test]
fn test_puree_sauce_no_tomatoes() {
    let mut fridge = default_fridge();
    let chef = Chef;

    // No tomatoes in the fridge
    fridge.tomatoes.clear();

    let result = chef.puree_sauce(&mut fridge, &Mixer);
    assert!(result.is_err());
    assert_eq!(result.unwrap_err(), PizzaError::OutOfTomatoes);
}

#[test]
fn test_shred_cheese_works_as_expected() {
    let mut fridge = default_fridge();
    let chef = Chef;

    let shredded_cheese = chef.shred_cheese(&mut fridge, &Table).unwrap();
    assert_eq!(shredded_cheese, Cheese::Grated);
}

#[test]
fn test_shred_cheese_no_cheese() {
    let mut fridge = default_fridge();
    let chef = Chef;

    // No cheese in the fridge
    fridge.block_of_cheese.clear();

    let result = chef.shred_cheese(&mut fridge, &Table);
    assert!(result.is_err());
    assert_eq!(result.unwrap_err(), PizzaError::OutOfCheese);
}

#[test]
fn test_combine_cold_ingredients_to_form_uncooked_pizza_works_as_expected() {
    let chef = Chef;

    // Assuming we have all the ingredients ready
    let pizza_base = Dough::Rounded;
    let tomato_sauce = Tomato::Pureed;
    let cheese = Cheese::Grated;

    let uncooked_pizza = chef
        .combine_cold_ingredients_to_form_uncooked_pizza(&Table, pizza_base, tomato_sauce, cheese)
        .unwrap();

    assert_eq!(uncooked_pizza, Pizza::Uncooked);
}

#[test]
fn test_combine_cold_ingredients_to_form_uncooked_pizza_incorrect_state() {
    let chef = Chef;

    // Incorrect states for ingredients
    let pizza_base = Dough::Hydrated;
    let tomato_sauce = Tomato::Fresh;
    let cheese = Cheese::Fresh;

    let result =
        chef.combine_cold_ingredients_to_form_uncooked_pizza(&Table, pizza_base, tomato_sauce, cheese);

    assert!(result.is_err());
    assert_eq!(
        result.unwrap_err(),
        PizzaError::IncorrectIngredientState(
            "You can only combine Pureed Tomato, Grated Cheese, and Rounded Dough to form an Uncooked Pizza!"
                .to_string()
        )
    );
}

#[test]
fn test_cook_pizza_works_as_expected() {
    let chef = Chef;

    // Assuming we have an uncooked pizza
    let uncooked_pizza = Pizza::Uncooked;

    let cooked_pizza = chef.cook_pizza(&Oven, uncooked_pizza).unwrap();
    assert_eq!(cooked_pizza, Pizza::Cooked);
}

#[test]
fn test_cook_pizza_incorrect_state() {
    let chef = Chef;

    // Incorrect state for pizza
    let cooked_pizza = Pizza::Cooked;

    let result = chef.cook_pizza(&Oven, cooked_pizza);
    assert!(result.is_err());
    assert_eq!(
        result.unwrap_err(),
        PizzaError::IncorrectIngredientState("You can only cook an Uncooked Pizza!".to_string())
    );
}

#[test]
fn create_dough_takes_exactly_one_portion_of_flour() {
    let mut fridge = default_fridge();
    let chef = Chef;
    chef.create_dough(&mut fridge, &Table).unwrap();
    assert_eq!(fridge.portions_of_flour.len(), 99);
    assert_eq!(fridge.tomatoes.len(), 200);
    assert_eq!(fridge.block_of_cheese.len(), 300);
}

#[test]
fn prove_dough_refuses_unfermented_dough() {
    let proving_room = default_proving_room();
    let result = Chef.prove_dough(&proving_room, Dough::Mixed);
    assert_eq!(
        result.unwrap_err(),
        PizzaError::IncorrectDoughState("Expected Fermented Dough!".to_string())
    );
}

#[test]
fn puree_sauce_refuses_a_pureed_tomato_and_uses_it_up() {
    let mut fridge = default_fridge();
    fridge.tomatoes.push(Tomato::Pureed);
    let result = Chef.puree_sauce(&mut fridge, &Mixer);
    assert_eq!(
        result.unwrap_err(),
        PizzaError::IncorrectIngredientState("You can only puree Fresh Tomatoes!".to_string())
    );
    assert_eq!(fridge.tomatoes.len(), 200);
}

#[test]
fn shred_cheese_refuses_grated_cheese() {
    let mut fridge = default_fridge();
    fridge.block_of_cheese.push(Cheese::Grated);
    let result = Chef.shred_cheese(&mut fridge, &Table);
    assert_eq!(
        result.unwrap_err(),
        PizzaError::IncorrectIngredientState("You can only shred Fresh Cheese!".to_string())
    );
}

#[test]
fn combine_refuses_when_only_the_cheese_is_wrong() {
    let result = Chef.combine_cold_ingredients_to_form_uncooked_pizza(
        &Table,
        Dough::Rounded,
        Tomato::Pureed,
        Cheese::Fresh,
    );
    assert!(matches!(result, Err(PizzaError::IncorrectIngredientState(_))));
}
