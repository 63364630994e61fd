use vstd::prelude::*;

verus! {

/// Error returned when the player tries to spend more than he owns.
#[derive(Debug, Clone, Copy, PartialEq, Eq, Structural)]
pub enum InventoryError {
    NotEnoughCash,
}

impl InventoryError {
    /// Human readable message of the error.
    pub fn message(&self) -> (s: String)
        ensures
            s@ == "Not enough cash"@,
    {
        proof {
            reveal_strlit("Not enough cash");
        }
        "Not enough cash".to_owned()
    }
}

/// What the player owns.
#[derive(Debug)]
pub struct Inventory {
    /// Amount of money
    scratch: u32,
}

impl Default for Inventory {
    /// An empty inventory.
    fn default() -> (r: Self)
        ensures
            r.spec_scratch() == 0,
    {
        Self { scratch: 0 }
    }
}

impl Inventory {
    /// Amount of scratch held, as a mathematical value.
    pub closed spec fn spec_scratch(&self) -> nat {
        self.scratch as nat
    }

    /// Remove all scratch. Happens at the end of each stage.
    pub fn drain_scratch(&mut self)
        ensures
            final(self).spec_scratch() == 0,
    {
        self.scratch = 0;
    }

    /// Add some money; this never fails. The amount held stops at the largest `u32`.
    pub fn add_scratch(&mut self, amt: u32)
        ensures
            final(self).spec_scratch() == scratch_after_adding(old(self).spec_scratch(), amt as nat),
    {
        self.scratch = self.scratch.saturating_add(amt);
    }

    pub fn scratch(&self) -> (r: u32)
        ensures
            r == self.spec_scratch(),
    {
        self.scratch
    }

    /// Remove some scratch. Returns an error if not enough scratch in the account.
    pub fn remove_scratch(&mut self, amt: u32) -> (r: Result<(), InventoryError>)
        ensures
            match scratch_after_removal(old(self).spec_scratch(), amt as nat) {
                Some(left) => r is Ok && final(self).spec_scratch() == left,
                None => r == Err::<(), InventoryError>(InventoryError::NotEnoughCash)
                    && final(self).spec_scratch() == old(self).spec_scratch(),
            },
    {
        if amt > self.scratch {
            Err(InventoryError::NotEnoughCash)
        } else {
            self.scratch = self.scratch - amt;
            Ok(())
        }
    }
}

/// Scratch held after earning `amt` on top of `held`, stopping at the largest `u32`.
pub open spec fn scratch_after_adding(held: nat, amt: nat) -> nat {
    if held + amt <= u32::MAX {
        held + amt
    } else {
        u32::MAX as nat
    }
}

/// Scratch left after paying `amt` out of `held`, when there is enough.
pub open spec fn scratch_after_removal(held: nat, amt: nat) -> Option<nat> {
    if amt <= held {
        Some((held - amt) as nat)
    } else {
        None
    }
}

/// Spending what was just earned succeeds and gives back the amount held before, as
/// long as the earnings did not go past the largest amount an inventory holds.
pub proof fn law_add_then_remove_restores(held: nat, amt: nat)
    requires
        held + amt <= u32::MAX,
    ensures
        scratch_after_removal(scratch_after_adding(held, amt), amt) == Some(held),
{
}

/// A payment is refused exactly when it is more than what is held; a refused payment
/// changes nothing, and an accepted one never leaves a debt.
pub proof fn law_removal_refused_iff_short(held: nat, amt: nat)
    ensures
        scratch_after_removal(held, amt) is None <==> amt > held,
        scratch_after_removal(held, amt) matches Some(left) ==> left + amt == held,
{
}

} // verus!
