//! The proving room, where fermented dough rises on a limited number of trays.

use std::sync::Arc;
use tokio::sync::Semaphore;
use vstd::prelude::*;

use crate::ingredients::Dough;

verus! {

#[verifier::external_type_specification]
#[verifier::external_body]
pub struct ExSemaphore(tokio::sync::Semaphore);

/// The number of permits that a tokio semaphore was created with.
pub uninterp spec fn initial_permits(trays: Semaphore) -> nat;

/// Creates the semaphore that hands out the proving trays, by
/// `tokio::sync::Semaphore::new`, which creates a semaphore with the given initial
/// number of permits. That constructor panics when asked for more than
/// `Semaphore::MAX_PERMITS` (`usize::MAX >> 3`) permits, hence the precondition.
/// How many permits the semaphore holds later depends on the tasks that use it,
/// and is not stated.
#[verifier::external_body]
fn tray_semaphore(num_trays: usize) -> (trays: Arc<Semaphore>)
    requires
        num_trays <= usize::MAX / 8,
    ensures
        initial_permits(*trays) == num_trays,
{
    Arc::new(Semaphore::new(num_trays))
}

/// A room with a fixed number of proving trays, each holding one dough at a time.
pub struct ProvingRoom {
    /// Hands out one permit per tray.
    trays: Arc<Semaphore>,
    /// How many trays the room has.
    num_trays: usize,
}

impl ProvingRoom {
    /// The number of trays in the room.
    pub closed spec fn capacity(&self) -> nat {
        self.num_trays as nat
    }

    /// The semaphore that hands out this room's trays.
    pub closed spec fn tray_permits(&self) -> Arc<Semaphore> {
        self.trays
    }

    /// A proving room with `num_trays` trays, all free: its semaphore starts
    /// with one permit per tray.
    pub fn new(num_trays: usize) -> (room: Self)
        requires
            num_trays <= usize::MAX / 8,
        ensures
            room.capacity() == num_trays,
            initial_permits(*room.tray_permits()) == num_trays,
    {
        ProvingRoom { trays: tray_semaphore(num_trays), num_trays }
    }

    /// The semaphore through which tasks wait for a free tray.
    pub fn trays(&self) -> (trays: &Arc<Semaphore>)
        ensures
            *trays == self.tray_permits(),
    {
        &self.trays
    }

    /// Accepts fermented dough for proving and returns the dough that proving
    /// yields; dough in any other state is refused.
    pub fn leave_dough_to_prove(&self, dough: Dough) -> (res: Result<Dough, &'static str>)
        ensures
            dough == Dough::Fermented ==> res == Ok::<Dough, &'static str>(Dough::Proved),
            dough != Dough::Fermented ==> (res matches Err(text) && text@
                == "You can only prove Fermented Dough!"@),
    {
        if dough != Dough::Fermented {
            return Err("You can only prove Fermented Dough!");
        }
        Ok(Dough::Proved)
    }
}

} // verus!
