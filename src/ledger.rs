use vstd::prelude::*;
use vstd::hash_map::StringHashMap;
use crate::record::{ContractRecord, RecordModel};

verus! {

/// Why a store operation was refused.
#[derive(PartialEq, Eq, Structural, Clone, Copy, Debug)]
pub enum StoreError {
    NotFound,
    DuplicateId,
    AlreadyReleased,
}

/// The keyed store of contracts, by contract id.
pub struct Ledger {
    records: StringHashMap<ContractRecord>,
}

/// A well-formed store: each record sits under its own id, with a secret.
pub open spec fn ledger_wf(m: Map<Seq<char>, RecordModel>) -> bool {
    forall|k: Seq<char>| #[trigger] m.contains_key(k) ==> {
        &&& m[k].contract_id == k
        &&& m[k].secret.len() > 0
    }
}

impl View for Ledger {
    type V = Map<Seq<char>, RecordModel>;

    closed spec fn view(&self) -> Map<Seq<char>, RecordModel> {
        self.records@.map_values(|r: ContractRecord| r@)
    }
}

impl Ledger {
    pub closed spec fn wf(&self) -> bool {
        ledger_wf(self@)
    }

    /// An empty store.
    pub fn new() -> (r: Ledger)
        ensures
            r.wf(),
            r@ == Map::<Seq<char>, RecordModel>::empty(),
    {
        let r = Ledger { records: StringHashMap::new() };
        assert(r@ =~= Map::<Seq<char>, RecordModel>::empty());
        r
    }

    /// Number of contracts held.
    pub fn len(&self) -> (r: usize)
        ensures
            r == self@.len(),
    {
        proof {
            vstd::hash_map::axiom_string_hash_map_spec_len(&self.records);
            assert(self@.dom() =~= self.records@.dom());
        }
        self.records.len()
    }

    /// Whether a contract with this id is held.
    pub fn contains(&self, id: &str) -> (r: bool)
        ensures
            r == self@.contains_key(id@),
    {
        self.records.contains_key(id)
    }

    /// Adds a new record; refuses an id that is already held.
    pub fn insert(&mut self, record: ContractRecord) -> (r: Result<(), StoreError>)
        requires
            old(self).wf(),
            record.secret@.len() > 0,
        ensures
            final(self).wf(),
            old(self)@.contains_key(record@.contract_id) ==> {
                &&& r == Err::<(), StoreError>(StoreError::DuplicateId)
                &&& final(self)@ == old(self)@
            },
            !old(self)@.contains_key(record@.contract_id) ==> {
                &&& r is Ok
                &&& final(self)@ == old(self)@.insert(record@.contract_id, record@)
            },
    {
        if self.records.contains_key(record.contract_id.as_str()) {
            return Err(StoreError::DuplicateId);
        }
        let key = record.contract_id.clone();
        let ghost rm = record@;
        self.records.insert(key, record);
        assert(self@ =~= old(self)@.insert(rm.contract_id, rm));
        Ok(())
    }

    /// A copy of the record under `id`.
    pub fn get(&self, id: &str) -> (r: Result<ContractRecord, StoreError>)
        ensures
            self@.contains_key(id@) ==> (r matches Ok(c) && c@ == self@[id@]),
            !self@.contains_key(id@) ==> r == Err::<ContractRecord, StoreError>(StoreError::NotFound),
    {
        match self.records.get(id) {
            Some(c) => Ok(c.duplicate()),
            None => Err(StoreError::NotFound),
        }
    }

    /// The release transition: flips `released` from false to true, and
    /// refuses a record that is absent or already released.
    pub fn set_released(&mut self, id: &str) -> (r: Result<(), StoreError>)
        requires
            old(self).wf(),
        ensures
            final(self).wf(),
            !old(self)@.contains_key(id@) ==> {
                &&& r == Err::<(), StoreError>(StoreError::NotFound)
                &&& final(self)@ == old(self)@
            },
            old(self)@.contains_key(id@) && old(self)@[id@].released ==> {
                &&& r == Err::<(), StoreError>(StoreError::AlreadyReleased)
                &&& final(self)@ == old(self)@
            },
            old(self)@.contains_key(id@) && !old(self)@[id@].released ==> {
                &&& r is Ok
                &&& final(self)@ == old(self)@.insert(id@, old(self)@[id@].mark_released())
            },
    {
        let mut record = match self.records.get(id) {
            Some(c) => c.duplicate(),
            None => {
                return Err(StoreError::NotFound);
            },
        };
        if record.released {
            return Err(StoreError::AlreadyReleased);
        }
        record.released = true;
        let key = record.contract_id.clone();
        self.records.insert(key, record);
        assert(self@ =~= old(self)@.insert(id@, old(self)@[id@].mark_released()));
        Ok(())
    }
}

} // verus!
