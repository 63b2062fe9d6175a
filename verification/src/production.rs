//! Making whole pizzas: one chef's complete workflow, and a batch of chefs who
//! each make one pizza from a shared fridge.

use vstd::prelude::*;

use crate::chef::{Chef, PizzaResult};
use crate::equipment::{Mixer, Oven, Table};
use crate::error::{fails_with_ingredient_state, PizzaError};
use crate::fridge::{Fridge, Stock};
use crate::ingredients::{Cheese, Pizza, Tomato};
use crate::proving_room::ProvingRoom;

verus! {

/// Whether the next tomato taken from `stock` can be pureed.
pub open spec fn next_tomato_usable(stock: Stock) -> bool {
    stock.tomatoes.len() > 0 && stock.tomatoes.last() == Tomato::Fresh
}

/// Whether the next block of cheese taken from `stock` can be grated.
pub open spec fn next_cheese_usable(stock: Stock) -> bool {
    stock.cheese.len() > 0 && stock.cheese.last() == Cheese::Fresh
}

/// What one chef making one pizza does to the stock: whether the pizza is
/// made, and the stock afterwards. The chef takes flour; if there was flour,
/// a tomato; if that tomato could be pureed, a block of cheese.
pub open spec fn one_pizza(stock: Stock) -> (bool, Stock) {
    if stock.flour == 0 {
        (false, stock)
    } else {
        let after_flour = stock.take_flour();
        let after_tomato = after_flour.take_tomato();
        if !next_tomato_usable(after_flour) {
            (false, after_tomato)
        } else {
            (next_cheese_usable(after_tomato), after_tomato.take_cheese())
        }
    }
}

/// What `n` chefs, one after another, do to the stock: how many pizzas they
/// make, and the stock afterwards.
pub open spec fn run_chefs(stock: Stock, n: nat) -> (nat, Stock)
    decreases n,
{
    if n == 0 {
        (0, stock)
    } else {
        let (made, before) = run_chefs(stock, (n - 1) as nat);
        let (ok, after) = one_pizza(before);
        (if ok {
            made + 1
        } else {
            made
        }, after)
    }
}

impl Chef {
    /// Makes one pizza from start to finish: dough from the fridge's flour,
    /// through mixing, fermenting (as station 0), proving and shaping, then sauce
    /// and cheese from the fridge, assembly and baking. The first step that fails
    /// ends the attempt with its error; the ingredients it took are used up.
    pub fn make_pizza(&self, fridge: &mut Fridge, proving_room: &ProvingRoom) -> (res: PizzaResult<
        Pizza,
    >)
        ensures
            old(fridge).stock().flour == 0 ==> res == Err::<Pizza, PizzaError>(
                PizzaError::OutOfFlour,
            ),
            old(fridge).stock().flour > 0 && old(fridge).stock().tomatoes.len() == 0 ==> res
                == Err::<Pizza, PizzaError>(PizzaError::OutOfTomatoes),
            old(fridge).stock().flour > 0 && old(fridge).stock().tomatoes.len() > 0 && !next_tomato_usable(old(fridge).stock())
                ==> fails_with_ingredient_state(res, "You can only puree Fresh Tomatoes!"@),
            old(fridge).stock().flour > 0 && next_tomato_usable(old(fridge).stock()) && old(
                fridge,
            ).stock().cheese.len() == 0 ==> res == Err::<Pizza, PizzaError>(
                PizzaError::OutOfCheese,
            ),
            old(fridge).stock().flour > 0 && next_tomato_usable(old(fridge).stock()) && old(
                fridge,
            ).stock().cheese.len() > 0 && !next_cheese_usable(old(fridge).stock())
                ==> fails_with_ingredient_state(res, "You can only shred Fresh Cheese!"@),
            one_pizza(old(fridge).stock()).0 ==> res == Ok::<Pizza, PizzaError>(Pizza::Cooked),
            final(fridge).stock() == one_pizza(old(fridge).stock()).1,
            final(fridge).stored_dough() == old(fridge).stored_dough(),
            final(fridge).fermenting_stations() == if old(fridge).stock().flour > 0 {
                old(fridge).fermenting_stations().insert(0)
            } else {
                old(fridge).fermenting_stations()
            },
    {
        let table = Table;
        let mixer = Mixer;
        let oven = Oven;
        let hydrated = self.create_dough(fridge, &table)?;
        let mixed = self.develop_dough(&mixer, hydrated)?;
        let fermented = self.ferment_dough(fridge, mixed, None)?;
        let proved = self.prove_dough(proving_room, fermented)?;
        let base = self.prepare_pizza_base(&table, proved)?;
        let sauce = self.puree_sauce(fridge, &mixer)?;
        let cheese = self.shred_cheese(fridge, &table)?;
        let uncooked = self.combine_cold_ingredients_to_form_uncooked_pizza(
            &table,
            base,
            sauce,
            cheese,
        )?;
        self.cook_pizza(&oven, uncooked)
    }
}

/// Has `num_pizzas` chefs each make one pizza, one after another, from the
/// given fridge, and returns how many pizzas were made and how many attempts
/// failed.
pub fn data_parallel_production(
    fridge: &mut Fridge,
    proving_room: &ProvingRoom,
    num_pizzas: usize,
) -> (counts: (usize, usize))
    ensures
        counts.0 + counts.1 == num_pizzas,
        counts.0 == run_chefs(old(fridge).stock(), num_pizzas as nat).0,
        final(fridge).stock() == run_chefs(old(fridge).stock(), num_pizzas as nat).1,
        final(fridge).stored_dough() == old(fridge).stored_dough(),
        final(fridge).fermenting_stations() == if num_pizzas > 0 && old(fridge).stock().flour
            > 0 {
            old(fridge).fermenting_stations().insert(0)
        } else {
            old(fridge).fermenting_stations()
        },
{
    let ghost start = fridge.stock();
    let ghost start_stations = fridge.fermenting_stations();
    let ghost start_dough = fridge.stored_dough();
    let chef = Chef;
    let mut successful: usize = 0;
    let mut failed: usize = 0;
    let mut i: usize = 0;
    while i < num_pizzas
        invariant
            i <= num_pizzas,
            successful + failed == i,
            (successful as nat, fridge.stock()) == run_chefs(start, i as nat),
            fridge.stored_dough() == start_dough,
            fridge.stock().flour <= start.flour,
            fridge.fermenting_stations() == if i > 0 && start.flour > 0 {
                start_stations.insert(0)
            } else {
                start_stations
            },
        decreases num_pizzas - i,
    {
        let ghost before = fridge.stock();
        let ghost before_stations = fridge.fermenting_stations();
        match chef.make_pizza(fridge, proving_room) {
            Ok(_) => {
                successful = successful + 1;
            },
            Err(_) => {
                failed = failed + 1;
            },
        }
        proof {
            if before.flour > 0 {
                assert(before_stations.insert(0) =~= start_stations.insert(0));
            }
        }
        i = i + 1;
    }
    (successful, failed)
}

/// The smaller of two natural numbers.
pub open spec fn min_nat(a: nat, b: nat) -> nat {
    if a <= b {
        a
    } else {
        b
    }
}

/// Whatever the state of the ingredients, `n` chefs use one portion of flour
/// each while it lasts, only ever take the last tomatoes and blocks of cheese,
/// and use a tomato and a block of cheese for every pizza they make; so they make
/// no more pizzas than there are chefs or portions of flour, tomatoes or cheese.
pub proof fn lemma_production_uses_stock(stock: Stock, n: nat)
    ensures
        ({
            let (made, after) = run_chefs(stock, n);
            &&& after.flour == stock.flour - min_nat(n, stock.flour)
            &&& made <= min_nat(n, stock.flour)
            &&& made + after.tomatoes.len() <= stock.tomatoes.len()
            &&& made + after.cheese.len() <= stock.cheese.len()
            &&& after.tomatoes == stock.tomatoes.take(after.tomatoes.len() as int)
            &&& after.cheese == stock.cheese.take(after.cheese.len() as int)
        }),
    decreases n,
{
    if n == 0 {
        assert(stock.tomatoes.take(stock.tomatoes.len() as int) =~= stock.tomatoes);
        assert(stock.cheese.take(stock.cheese.len() as int) =~= stock.cheese);
    } else {
        lemma_production_uses_stock(stock, (n - 1) as nat);
        let before = run_chefs(stock, (n - 1) as nat).1;
        if before.tomatoes.len() > 0 {
            assert(before.tomatoes.drop_last() =~= stock.tomatoes.take(
                before.tomatoes.len() - 1,
            ));
        }
        if before.cheese.len() > 0 {
            assert(before.cheese.drop_last() =~= stock.cheese.take(before.cheese.len() - 1));
        }
    }
}

/// Every tomato and every block of cheese in `stock` is fresh.
pub open spec fn all_fresh(stock: Stock) -> bool {
    &&& forall|i: int| 0 <= i < stock.tomatoes.len() ==> stock.tomatoes[i] == Tomato::Fresh
    &&& forall|i: int| 0 <= i < stock.cheese.len() ==> stock.cheese[i] == Cheese::Fresh
}

/// When every tomato and block of cheese is fresh, `n` chefs make as many
/// pizzas as the scarcest of chefs, flour, tomatoes and cheese allows. Each chef
/// who finds flour uses one portion; each of those who also finds a tomato uses
/// one; and each of those who also finds cheese uses a block and makes a pizza.
pub proof fn lemma_fresh_stock_production(stock: Stock, n: nat)
    requires
        all_fresh(stock),
    ensures
        ({
            let flour_used = min_nat(n, stock.flour);
            let tomatoes_used = min_nat(flour_used, stock.tomatoes.len());
            let made = min_nat(tomatoes_used, stock.cheese.len());
            run_chefs(stock, n) == (made, Stock {
                flour: (stock.flour - flour_used) as nat,
                tomatoes: stock.tomatoes.take(stock.tomatoes.len() - tomatoes_used),
                cheese: stock.cheese.take(stock.cheese.len() - made),
            })
        }),
    decreases n,
{
    let f = stock.flour;
    let t = stock.tomatoes.len();
    let c = stock.cheese.len();
    if n == 0 {
        assert(stock.tomatoes.take(t as int) =~= stock.tomatoes);
        assert(stock.cheese.take(c as int) =~= stock.cheese);
    } else {
        lemma_fresh_stock_production(stock, (n - 1) as nat);
        let before = run_chefs(stock, (n - 1) as nat).1;
        if n <= f && n <= t && n <= c {
            assert(before.tomatoes.drop_last() =~= stock.tomatoes.take(t - n));
            assert(before.cheese.drop_last() =~= stock.cheese.take(c - n));
            assert(before.tomatoes.last() == stock.tomatoes[t - n]);
            assert(before.cheese.last() == stock.cheese[c - n]);
        } else if n <= f && n <= t {
            assert(before.tomatoes.drop_last() =~= stock.tomatoes.take(t - n));
            assert(before.tomatoes.last() == stock.tomatoes[t - n]);
        }
    }
}

/// The number of `true` entries in `outcomes`.
pub open spec fn count_successes(outcomes: Seq<bool>) -> nat
    decreases outcomes.len(),
{
    if outcomes.len() == 0 {
        0
    } else {
        count_successes(outcomes.drop_last()) + if outcomes.last() {
            1nat
        } else {
            0nat
        }
    }
}

/// The successes counted in a list of outcomes are exactly its `true`
/// entries, and the remaining entries are exactly its `false` ones: each `true`
/// appended adds one success, each `false` adds none. So a list of `n` successes
/// counts `n`, and a list of `n` failures counts none.
pub proof fn lemma_successes_are_true_entries(outcomes: Seq<bool>)
    ensures
        count_successes(outcomes) == outcomes.filter(|b: bool| b).len(),
        outcomes.len() - count_successes(outcomes) == outcomes.filter(|b: bool| !b).len(),
        (forall|i: int| 0 <= i < outcomes.len() ==> outcomes[i]) ==> count_successes(outcomes)
            == outcomes.len(),
        (forall|i: int| 0 <= i < outcomes.len() ==> !outcomes[i]) ==> count_successes(outcomes)
            == 0,
    decreases outcomes.len(),
{
    reveal(Seq::filter);
    if outcomes.len() > 0 {
        lemma_successes_are_true_entries(outcomes.drop_last());
        assert(forall|i: int|
            0 <= i < outcomes.drop_last().len() ==> outcomes.drop_last()[i] == outcomes[i]);
    }
}

/// Counts the successful and the failed attempts among `outcomes`, where
/// `true` marks a pizza that was made: the successes are the `true` entries and
/// the failures the `false` ones.
pub fn tally_outcomes(outcomes: &Vec<bool>) -> (counts: (usize, usize))
    ensures
        counts.0 == count_successes(outcomes@),
        counts.0 + counts.1 == outcomes@.len(),
        counts.0 == outcomes@.filter(|b: bool| b).len(),
        counts.1 == outcomes@.filter(|b: bool| !b).len(),
{
    let mut successful: usize = 0;
    let mut failed: usize = 0;
    let mut i: usize = 0;
    while i < outcomes.len()
        invariant
            i <= outcomes@.len(),
            successful + failed == i,
            successful == count_successes(outcomes@.take(i as int)),
        decreases outcomes@.len() - i,
    {
        assert(outcomes@.take(i + 1).drop_last() =~= outcomes@.take(i as int));
        if outcomes[i] {
            successful = successful + 1;
        } else {
            failed = failed + 1;
        }
        i = i + 1;
    }
    assert(outcomes@.take(i as int) =~= outcomes@);
    proof {
        lemma_successes_are_true_entries(outcomes@);
    }
    (successful, failed)
}

} // verus!
