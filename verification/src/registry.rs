use crate::tokens::{is_core, is_device, PeripheralId, TokenBank};
use vstd::prelude::*;

verus! {

/// The mathematical view of the registry: whether each of its two singleton
/// sets has been handed out.
pub struct RegistryV {
    pub core_taken: bool,
    pub device_taken: bool,
}

/// The process-wide peripheral registry.
///
/// It grants two singleton sets of tokens — the core-facility set and the
/// board-peripheral set — each at most once through the guarded operations.
/// One registry stands for one processor: a program creates a single
/// registry at startup and threads it through acquisition.
pub struct Registry {
    core_taken: bool,
    device_taken: bool,
}

impl View for Registry {
    type V = RegistryV;

    closed spec fn view(&self) -> RegistryV {
        RegistryV { core_taken: self.core_taken, device_taken: self.device_taken }
    }
}

impl Registry {
    /// A fresh registry: neither singleton set has been handed out yet.
    pub fn new() -> (r: Registry)
        ensures
            !r@.core_taken,
            !r@.device_taken,
    {
        Registry { core_taken: false, device_taken: false }
    }

    /// Whether the core-facility set has been handed out.
    pub fn core_taken(&self) -> (r: bool)
        ensures
            r == self@.core_taken,
    {
        self.core_taken
    }

    /// Whether the board-peripheral set has been handed out.
    pub fn device_taken(&self) -> (r: bool)
        ensures
            r == self@.device_taken,
    {
        self.device_taken
    }

    /// Takes the core-facility token set, once: the first call returns the
    /// full set, every later call returns nothing.
    pub fn take_core(&mut self) -> (r: Option<TokenBank>)
        ensures
            final(self)@.core_taken,
            final(self)@.device_taken == old(self)@.device_taken,
            r is Some <==> !old(self)@.core_taken,
            (match r {
                Some(bank) => bank.wf() && forall|id: PeripheralId|
                    bank@.contains(id) <==> #[trigger] is_core(id),
                None => true,
            }),
    {
        if self.core_taken {
            None
        } else {
            self.core_taken = true;
            let bank = TokenBank::with_index_range(0, 12);
            proof {
                assert forall|id: PeripheralId|
                    bank@.contains(id) <==> #[trigger] is_core(id) by {}
            }
            Some(bank)
        }
    }

    /// Takes the board-peripheral token set, once, in the same way.
    pub fn take_device(&mut self) -> (r: Option<TokenBank>)
        ensures
            final(self)@.device_taken,
            final(self)@.core_taken == old(self)@.core_taken,
            r is Some <==> !old(self)@.device_taken,
            (match r {
                Some(bank) => bank.wf() && forall|id: PeripheralId|
                    bank@.contains(id) <==> #[trigger] is_device(id),
                None => true,
            }),
    {
        if self.device_taken {
            None
        } else {
            self.device_taken = true;
            let bank = TokenBank::with_index_range(12, 75);
            proof {
                assert forall|id: PeripheralId|
                    bank@.contains(id) <==> #[trigger] is_device(id) by {}
            }
            Some(bank)
        }
    }

    /// Mints the core-facility token set regardless of whether it was
    /// already handed out, and marks it handed out.
    ///
    /// The caller accepts the risk: a set obtained here may alias tokens
    /// that are still live elsewhere, and the caller must show by
    /// construction that no two such sets are ever used at once.
    pub fn steal_core(&mut self) -> (r: TokenBank)
        ensures
            final(self)@.core_taken,
            final(self)@.device_taken == old(self)@.device_taken,
            r.wf(),
            forall|id: PeripheralId| r@.contains(id) <==> #[trigger] is_core(id),
    {
        self.core_taken = true;
        let bank = TokenBank::with_index_range(0, 12);
        proof {
            assert forall|id: PeripheralId| bank@.contains(id) <==> #[trigger] is_core(id) by {}
        }
        bank
    }

    /// Mints the board-peripheral token set in the same risk-bearing way.
    pub fn steal_device(&mut self) -> (r: TokenBank)
        ensures
            final(self)@.device_taken,
            final(self)@.core_taken == old(self)@.core_taken,
            r.wf(),
            forall|id: PeripheralId| r@.contains(id) <==> #[trigger] is_device(id),
    {
        self.device_taken = true;
        let bank = TokenBank::with_index_range(12, 75);
        proof {
            assert forall|id: PeripheralId| bank@.contains(id) <==> #[trigger] is_device(id) by {}
        }
        bank
    }
}

} // verus!
