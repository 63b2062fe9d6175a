//! The rules of the station pipeline, in which every step of pizza making has
//! stations of its own and the stations hand their products on through queues.

use vstd::prelude::*;

use crate::ingredients::{Cheese, Dough, Tomato};

verus! {

/// How many workers each station of the pipeline has.
pub struct StationConfig {
    pub hydration_workers: usize,
    pub mixing_workers: usize,
    pub fermentation_workers: usize,
    pub proving_workers: usize,
    pub base_prep_workers: usize,
    pub sauce_workers: usize,
    pub cheese_workers: usize,
    pub assembly_workers: usize,
}

impl Default for StationConfig {
    /// One worker at every station.
    fn default() -> (config: Self)
        ensures
            config.hydration_workers == 1,
            config.mixing_workers == 1,
            config.fermentation_workers == 1,
            config.proving_workers == 1,
            config.base_prep_workers == 1,
            config.sauce_workers == 1,
            config.cheese_workers == 1,
            config.assembly_workers == 1,
    {
        StationConfig {
            hydration_workers: 1,
            mixing_workers: 1,
            fermentation_workers: 1,
            proving_workers: 1,
            base_prep_workers: 1,
            sauce_workers: 1,
            cheese_workers: 1,
            assembly_workers: 1,
        }
    }
}

/// The number of items that worker `id` (counting from 1) of a station with
/// `workers` workers produces when the station produces `total` items: an equal
/// share, plus one for each of the first `total % workers` workers.
pub open spec fn share_of(total: nat, workers: nat, id: nat) -> nat {
    total / workers + if 1 <= id <= total % workers {
        1nat
    } else {
        0nat
    }
}

/// The items that workers 1 to `k` produce together.
pub open spec fn shares_up_to(total: nat, workers: nat, k: nat) -> nat
    decreases k,
{
    if k == 0 {
        0
    } else {
        shares_up_to(total, workers, (k - 1) as nat) + share_of(total, workers, k)
    }
}

/// How many of `total` items worker `id` (counting from 1) of a station with
/// `workers` workers produces.
pub fn station_share(total: usize, workers: usize, id: usize) -> (share: usize)
    requires
        workers > 0,
    ensures
        share == share_of(total as nat, workers as nat, id as nat),
{
    let base = total / workers;
    let rest = total % workers;
    if 1 <= id && id <= rest {
        assert(base < usize::MAX) by (nonlinear_arith)
            requires
                base == total / workers,
                rest == total % workers,
                1 <= rest,
                workers > 0,
        {
            assert(workers >= 2);
        }
        base + 1
    } else {
        base
    }
}

/// The workers of a station together produce exactly the station's total, and
/// their shares differ by at most one, the earlier workers taking the larger ones.
pub proof fn lemma_shares_cover_total(total: nat, workers: nat)
    requires
        workers > 0,
    ensures
        shares_up_to(total, workers, workers) == total,
        forall|i: nat, j: nat|
            #![trigger share_of(total, workers, i), share_of(total, workers, j)]
            1 <= i <= j <= workers ==> share_of(total, workers, j) <= share_of(total, workers, i)
                <= share_of(total, workers, j) + 1,
{
    lemma_shares_prefix(total, workers, workers);
    assert(workers * (total / workers) + total % workers == total) by (nonlinear_arith)
        requires
            workers > 0,
    ;
}

/// Workers 1 to `k` produce `k` equal shares plus one extra item for each of
/// them among the first `total % workers`.
proof fn lemma_shares_prefix(total: nat, workers: nat, k: nat)
    requires
        workers > 0,
        k <= workers,
    ensures
        shares_up_to(total, workers, k) == k * (total / workers) + if k <= total % workers {
            k
        } else {
            total % workers
        },
    decreases k,
{
    let q = total / workers;
    if k == 0 {
        assert(k * q == 0) by (nonlinear_arith)
            requires
                k == 0,
        ;
    } else {
        let j = (k - 1) as nat;
        lemma_shares_prefix(total, workers, j);
        assert(k * q == j * q + q) by (nonlinear_arith)
            requires
                k == j + 1,
        ;
    }
}

/// Whether a station that takes its input from a queue may stop once that queue
/// is empty: it must have processed something and the station before it must
/// have finished.
pub fn station_may_finish(processed: usize, upstream_complete: bool) -> (finish: bool)
    ensures
        finish == (processed > 0 && upstream_complete),
{
    processed > 0 && upstream_complete
}

/// Whether a station whose input queue was empty, and which waited a grace
/// period once the station before it had finished, may stop: only if the station
/// before it has finished and the queue is still empty after the grace period.
pub fn station_may_finish_after_grace(upstream_complete: bool, empty_after_grace: bool) -> (finish:
    bool)
    ensures
        finish == (upstream_complete && empty_after_grace),
{
    upstream_complete && empty_after_grace
}

/// What the assembly station does with the items it has taken from its queues.
pub enum Gathered {
    /// A base, sauce and cheese were all found: assemble them.
    Ready(Dough, Tomato, Cheese),
    /// No sauce was found: put the base back.
    ReturnBase(Dough),
    /// Sauce but no cheese was found: put the base and the sauce back.
    ReturnBaseAndSauce(Dough, Tomato),
}

/// Decides, for a base taken from the base queue and what the sauce queue and
/// then the cheese queue gave, whether to assemble or what to put back. Every
/// item taken is either assembled or put back.
pub fn gather_ingredients(base: Dough, sauce: Option<Tomato>, cheese: Option<Cheese>) -> (gathered:
    Gathered)
    requires
        sauce is None ==> cheese is None,
    ensures
        gathered == match (sauce, cheese) {
            (Some(s), Some(c)) => Gathered::Ready(base, s, c),
            (Some(s), None) => Gathered::ReturnBaseAndSauce(base, s),
            (None, _) => Gathered::ReturnBase(base),
        },
{
    match sauce {
        None => Gathered::ReturnBase(base),
        Some(s) => match cheese {
            None => Gathered::ReturnBaseAndSauce(base, s),
            Some(c) => Gathered::Ready(base, s, c),
        },
    }
}

/// Whether the station that finishes now, after `previously_finished` of the
/// `stations` stations of its step have finished, completes the step.
pub fn completes_step(previously_finished: usize, stations: usize) -> (complete: bool)
    ensures
        complete == (previously_finished + 1 >= stations),
{
    stations == 0 || previously_finished >= stations - 1
}

} // verus!
