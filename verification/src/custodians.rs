//! A set of custodians with a single controller.

use vstd::prelude::*;
use crate::identity::Identity;

verus! {

/// Our set of custodians for this wallet.
#[derive(Debug)]
pub struct CustodianSet {
    controller: Identity,
    custodians: Vec<Identity>,
}

impl Default for CustodianSet {
    fn default() -> (r: Self)
        ensures
            r.controller()@ == Seq::<u8>::empty(),
            forall|p: Identity| !r.holds(p),
    {
        CustodianSet { controller: Identity::management_canister(), custodians: Vec::new() }
    }
}

impl CustodianSet {
    /// Whether `principal` was added as a custodian and not removed since.
    pub closed spec fn holds(self, principal: Identity) -> bool {
        self.custodians@.contains(principal)
    }

    /// The controller.
    pub closed spec fn controller(self) -> Identity {
        self.controller
    }

    /// The custodians, in the order in which they were added.
    pub closed spec fn listed(self) -> Seq<Identity> {
        self.custodians@
    }

    fn position(&self, principal: &Identity) -> (r: Option<usize>)
        ensures
            match r {
                Some(i) => i < self.custodians@.len() && self.custodians@[i as int] == *principal,
                None => !self.custodians@.contains(*principal),
            },
    {
        let mut i: usize = 0;
        while i < self.custodians.len()
            invariant
                i <= self.custodians@.len(),
                forall|k: int| 0 <= k < i ==> self.custodians@[k] != *principal,
            decreases self.custodians@.len() - i,
        {
            if self.custodians[i] == *principal {
                return Some(i);
            }
            i += 1;
        }
        None
    }

    /// Adds a custodian; one that is in the set already stays in it once.
    pub fn add_custodian(&mut self, principal: Identity)
        ensures
            forall|p: Identity| final(self).holds(p) == (old(self).holds(p) || p == principal),
            final(self).controller() == old(self).controller(),
    {
        if self.position(&principal).is_none() {
            let ghost before = self.custodians@;
            self.custodians.push(principal);
            assert forall|p: Identity| self.custodians@.contains(p) == (before.contains(p) || p
                == principal) by {
                if before.contains(p) {
                    let k = choose|k: int| 0 <= k < before.len() && before[k] == p;
                    assert(self.custodians@[k] == p);
                }
                if p == principal {
                    assert(self.custodians@[before.len() as int] == p);
                }
            }
        }
    }

    /// Removes a custodian.
    pub fn remove_custodian(&mut self, principal: Identity)
        ensures
            forall|p: Identity| final(self).holds(p) == (old(self).holds(p) && p != principal),
            final(self).controller() == old(self).controller(),
    {
        let mut kept: Vec<Identity> = Vec::new();
        let mut i: usize = 0;
        while i < self.custodians.len()
            invariant
                i <= self.custodians@.len(),
                *self == *old(self),
                forall|p: Identity|
                    kept@.contains(p) == (self.custodians@.subrange(0, i as int).contains(p) && p
                        != principal),
            decreases self.custodians@.len() - i,
        {
            let ghost before = kept@;
            let ghost seen_next = self.custodians@.subrange(0, i + 1);
            let current = self.custodians[i];
            if current != principal {
                kept.push(current);
            }
            assert forall|p: Identity| kept@.contains(p) == (seen_next.contains(p) && p
                != principal) by {
                if before.contains(p) {
                    let k = choose|k: int| 0 <= k < before.len() && before[k] == p;
                    assert(kept@[k] == p);
                }
                if p == current {
                    assert(seen_next[i as int] == p);
                    if current != principal {
                        assert(kept@[before.len() as int] == p);
                    }
                }
            }
            i += 1;
        }
        assert(self.custodians@.subrange(0, self.custodians@.len() as int) =~= self.custodians@);
        self.custodians = kept;
    }

    /// Whether `principal` may act as a custodian: it is one, or the controller.
    pub fn is_custodian(&self, principal: &Identity) -> (r: bool)
        ensures
            r == (self.holds(*principal) || self.controller() == *principal),
    {
        self.position(principal).is_some() || self.controller == *principal
    }

    /// The custodians.
    pub fn custodians(&self) -> (r: Vec<Identity>)
        ensures
            r@ == self.listed(),
            forall|p: Identity| r@.contains(p) == self.holds(p),
    {
        let mut out: Vec<Identity> = Vec::new();
        let mut i: usize = 0;
        while i < self.custodians.len()
            invariant
                i <= self.custodians@.len(),
                out@ == self.custodians@.subrange(0, i as int),
            decreases self.custodians@.len() - i,
        {
            out.push(self.custodians[i]);
            i += 1;
        }
        assert(self.custodians@.subrange(0, self.custodians@.len() as int) =~= self.custodians@);
        out
    }

    /// Makes `principal` the controller.
    pub fn set_controller(&mut self, principal: Identity)
        ensures
            final(self).controller() == principal,
            forall|p: Identity| final(self).holds(p) == old(self).holds(p),
    {
        self.controller = principal;
    }

    /// The controller.
    pub fn get_controller(&self) -> (r: &Identity)
        ensures
            *r == self.controller(),
    {
        &self.controller
    }

    /// Whether `principal` is the controller.
    pub fn is_controller(&self, principal: &Identity) -> (r: bool)
        ensures
            r == (self.controller() == *principal),
    {
        self.controller == *principal
    }
}

} // verus!
