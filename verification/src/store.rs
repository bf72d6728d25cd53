//! The repository of proposals, keyed by identifiers that count up from zero
//! and are never given out twice.

use std::collections::HashMap;
use vstd::prelude::*;
use crate::proposals::{Proposal, ProposalView, VersionedProposal};
use crate::types::ProposalError;

verus! {

broadcast use vstd::std_specs::hash::group_hash_axioms;

/// Mathematical value of a [`ProposalStore`].
pub struct StoreView {
    /// The stored records, by identifier.
    pub proposals: Map<u64, ProposalView>,
    /// The identifier that the next new proposal gets.
    pub last_proposal_id: u64,
}

impl StoreView {
    /// Every stored identifier has been given out, and every stored record
    /// is well-formed.
    pub open spec fn wf(self) -> bool {
        forall|id: u64| #[trigger]
            self.proposals.contains_key(id) ==> id < self.last_proposal_id
                && self.proposals[id].wf()
    }

    /// The store with `p` under `id`.
    pub open spec fn with(self, id: u64, p: ProposalView) -> StoreView {
        StoreView { proposals: self.proposals.insert(id, p), ..self }
    }

    /// The store with nothing under `id`.
    pub open spec fn without(self, id: u64) -> StoreView {
        StoreView { proposals: self.proposals.remove(id), ..self }
    }

    /// The store after `p` has been entered under the next identifier.
    pub open spec fn created(self, p: ProposalView) -> StoreView {
        StoreView {
            proposals: self.proposals.insert(self.last_proposal_id, p),
            last_proposal_id: (self.last_proposal_id + 1) as u64,
        }
    }
}

/// The value of each stored record.
pub open spec fn record_views(records: Map<u64, VersionedProposal>) -> Map<u64, ProposalView> {
    Map::new(|id: u64| records.contains_key(id), |id: u64| records[id]@)
}

/// Keyed repository of proposals.
#[derive(Debug)]
pub struct ProposalStore {
    records: HashMap<u64, VersionedProposal>,
    last_proposal_id: u64,
}

impl View for ProposalStore {
    type V = StoreView;

    closed spec fn view(&self) -> StoreView {
        StoreView {
            proposals: record_views(self.records@),
            last_proposal_id: self.last_proposal_id,
        }
    }
}

impl ProposalStore {
    /// What holds of every store: its value is well-formed.
    #[verifier::type_invariant]
    pub open spec fn inv(&self) -> bool {
        self@.wf()
    }

    /// An empty store, whose first identifier is zero.
    pub fn new() -> (store: ProposalStore)
        ensures
            store@ == (StoreView { proposals: Map::empty(), last_proposal_id: 0 }),
    {
        let store = ProposalStore { records: HashMap::new(), last_proposal_id: 0 };
        assert(store@.proposals =~= Map::empty());
        store
    }

    /// An empty store that goes on where `last_proposal_id` identifiers have
    /// been given out: for a host that keeps the records elsewhere and
    /// brings in those that a call needs, with [`ProposalStore::reload`].
    pub fn resume(last_proposal_id: u64) -> (store: ProposalStore)
        ensures
            store@ == (StoreView { proposals: Map::empty(), last_proposal_id }),
    {
        let store = ProposalStore { records: HashMap::new(), last_proposal_id };
        assert(store@.proposals =~= Map::empty());
        store
    }

    /// Brings back a record that was stored under `id`. Refused, with the
    /// store left as it was, where the identifier has never been given out
    /// or the record is not well-formed.
    pub fn reload(&mut self, id: u64, proposal: Proposal) -> (ok: bool)
        ensures
            final(self)@.wf(),
            ok == (id < old(self)@.last_proposal_id && proposal@.wf()),
            final(self)@ == if ok {
                old(self)@.with(id, proposal@)
            } else {
                old(self)@
            },
    {
        proof {
            use_type_invariant(&*self);
        }
        if id >= self.last_proposal_id || !proposal.well_formed() {
            return false;
        }
        let ghost before = self@;
        let mut taken = ProposalStore::new();
        std::mem::swap(self, &mut taken);
        let ProposalStore { mut records, last_proposal_id } = taken;
        records.insert(id, VersionedProposal::Default(proposal));
        proof {
            let after = record_views(records@);
            assert(after =~= before.proposals.insert(id, proposal@));
            assert forall|k: u64| #[trigger] after.contains_key(k) implies k < last_proposal_id
                && after[k].wf() by {
                if k != id {
                    assert(before.proposals.contains_key(k));
                }
            }
        }
        *self = ProposalStore { records, last_proposal_id };
        true
    }

    /// The identifier that the next new proposal gets: the number of
    /// proposals created so far.
    pub fn get_last_proposal_id(&self) -> (id: u64)
        ensures
            id == self@.last_proposal_id,
            self@.wf(),
    {
        proof {
            use_type_invariant(self);
        }
        self.last_proposal_id
    }

    /// The proposal stored under `id`.
    pub fn get(&self, id: u64) -> (res: Result<&Proposal, ProposalError>)
        ensures
            self@.wf(),
            match res {
                Ok(p) => self@.proposals.contains_key(id) && p@ == self@.proposals[id],
                Err(e) => e == ProposalError::NotFound && !self@.proposals.contains_key(id),
            },
    {
        proof {
            use_type_invariant(self);
        }
        match self.records.get(&id) {
            Some(v) => Ok(v.as_proposal()),
            None => Err(ProposalError::NotFound),
        }
    }

    /// Enters a new proposal and returns its identifier.
    pub fn create(&mut self, proposal: Proposal) -> (id: u64)
        requires
            proposal@.wf(),
            old(self)@.last_proposal_id < u64::MAX,
        ensures
            id == old(self)@.last_proposal_id,
            final(self)@ == old(self)@.created(proposal@),
            final(self)@.wf(),
    {
        proof {
            use_type_invariant(&*self);
        }
        let ghost before = self@;
        let mut taken = ProposalStore::new();
        std::mem::swap(self, &mut taken);
        let ProposalStore { mut records, last_proposal_id } = taken;
        let id = last_proposal_id;
        records.insert(id, VersionedProposal::Default(proposal));
        proof {
            assert(record_views(records@) =~= before.proposals.insert(id, proposal@));
        }
        *self = ProposalStore { records, last_proposal_id: last_proposal_id + 1 };
        id
    }

    /// Overwrites the proposal stored under `id`. Nothing is stored under an
    /// identifier that holds no proposal.
    pub fn update(&mut self, id: u64, proposal: Proposal) -> (res: Result<(), ProposalError>)
        requires
            proposal@.wf(),
        ensures
            final(self)@.wf(),
            match res {
                Ok(()) => old(self)@.proposals.contains_key(id) && final(self)@ == old(self)@.with(
                    id,
                    proposal@,
                ),
                Err(e) => e == ProposalError::NotFound && !old(self)@.proposals.contains_key(id)
                    && final(self)@ == old(self)@,
            },
    {
        proof {
            use_type_invariant(&*self);
        }
        if !self.records.contains_key(&id) {
            return Err(ProposalError::NotFound);
        }
        let ghost before = self@;
        let mut taken = ProposalStore::new();
        std::mem::swap(self, &mut taken);
        let ProposalStore { mut records, last_proposal_id } = taken;
        records.insert(id, VersionedProposal::Default(proposal));
        proof {
            let after = record_views(records@);
            assert(before.proposals.contains_key(id));
            assert(after =~= before.proposals.insert(id, proposal@));
            assert forall|k: u64| #[trigger] after.contains_key(k) implies k < last_proposal_id
                && after[k].wf() by {
                if k != id {
                    assert(before.proposals.contains_key(k));
                }
            }
        }
        *self = ProposalStore { records, last_proposal_id };
        Ok(())
    }

    /// Removes what is stored under `id`, if anything. The identifier is not
    /// given out again.
    pub fn remove(&mut self, id: u64)
        ensures
            final(self)@ == old(self)@.without(id),
            final(self)@.wf(),
    {
        proof {
            use_type_invariant(&*self);
        }
        let ghost before = self@;
        let mut taken = ProposalStore::new();
        std::mem::swap(self, &mut taken);
        let ProposalStore { mut records, last_proposal_id } = taken;
        records.remove(&id);
        proof {
            let after = record_views(records@);
            assert(after =~= before.proposals.remove(id));
            assert forall|k: u64| #[trigger] after.contains_key(k) implies k < last_proposal_id
                && after[k].wf() by {
                assert(before.proposals.contains_key(k));
            }
        }
        *self = ProposalStore { records, last_proposal_id };
    }
}

} // verus!
