//! The data-type registry.
//!
//! Maps a stable 128-bit type identifier, and an in-process type key, to the
//! codec handle registered for that data type. Registration inserts under
//! both keys atomically; the registry keeps each key unique, so a lookup by
//! either key resolves to the same handle.

use vstd::prelude::*;

verus! {

/// The codec handle for one registered data type: its stable identifier and
/// the key of its in-process type.
#[derive(Clone, Copy, PartialEq, Eq, Structural, Debug)]
pub struct DataType {
    pub id: u128,
    pub type_key: u64,
}

impl DataType {
    pub fn new(type_key: u64, id: u128) -> (r: DataType)
        ensures
            r.type_key == type_key && r.id == id,
    {
        DataType { id, type_key }
    }

    /// The stable identifier this handle was registered under.
    pub fn get_id(&self) -> (r: u128)
        ensures
            r == self.id,
    {
        self.id
    }
}

/// Why a registration was refused: one of its keys is already present; the
/// earlier registration stands.
#[derive(Clone, Copy, PartialEq, Eq, Structural, Debug)]
pub enum RegistryError {
    AlreadyRegistered,
}

/// A registry of codec handles, one per registered data type.
pub struct DataTypeRegistry {
    types: Vec<DataType>,
}

impl View for DataTypeRegistry {
    type V = Seq<DataType>;

    closed spec fn view(&self) -> Seq<DataType> {
        self.types@
    }
}

impl DataTypeRegistry {
    /// Both keys are unique across the registry: no two entries share a
    /// stable identifier or an in-process type key.
    pub open spec fn wf(self) -> bool {
        forall|i: int, j: int|
            #![trigger self@[i], self@[j]]
            0 <= i < j < self@.len() ==> self@[i].id != self@[j].id && self@[i].type_key
                != self@[j].type_key
    }

    pub open spec fn spec_contains_uuid(self, id: u128) -> bool {
        exists|i: int| 0 <= i < self@.len() && (#[trigger] self@[i]).id == id
    }

    pub open spec fn spec_contains_type_key(self, type_key: u64) -> bool {
        exists|i: int| 0 <= i < self@.len() && (#[trigger] self@[i]).type_key == type_key
    }

    pub fn new() -> (r: DataTypeRegistry)
        ensures
            r@.len() == 0,
            r.wf(),
    {
        DataTypeRegistry { types: Vec::new() }
    }

    /// Register a data type under both its keys. Rejected, leaving the
    /// earlier registration standing, when either key is already present.
    pub fn register(&mut self, type_key: u64, id: u128) -> (r: Result<(), RegistryError>)
        requires
            old(self).wf(),
        ensures
            final(self).wf(),
            r is Ok <==> !old(self).spec_contains_uuid(id) && !old(self).spec_contains_type_key(
                type_key,
            ),
            r is Ok ==> final(self)@ == old(self)@.push(DataType { id, type_key }),
            r is Err ==> final(self)@ == old(self)@,
    {
        if self.has_by_uuid(id) {
            return Err(RegistryError::AlreadyRegistered);
        }
        if self.by_type_id(type_key).is_some() {
            return Err(RegistryError::AlreadyRegistered);
        }
        self.types.push(DataType { id, type_key });
        proof {
            let s = self@;
            assert forall|i: int, j: int| 0 <= i < j < s.len() implies (#[trigger] s[i]).id != (
            #[trigger] s[j]).id && s[i].type_key != s[j].type_key by {
                if j == s.len() - 1 {
                    assert(s[i] == old(self)@[i]);
                }
            }
        }
        Ok(())
    }

    /// Look up the codec handle registered for an in-process type key.
    pub fn by_type_id(&self, type_key: u64) -> (r: Option<DataType>)
        ensures
            r is Some <==> self.spec_contains_type_key(type_key),
            match r {
                Some(d) => self@.contains(d) && d.type_key == type_key,
                None => true,
            },
    {
        let mut k: usize = 0;
        while k < self.types.len()
            invariant
                k <= self.types@.len(),
                forall|m: int| 0 <= m < k ==> (#[trigger] self.types@[m]).type_key != type_key,
            decreases self.types@.len() - k,
        {
            if self.types[k].type_key == type_key {
                assert((#[trigger] self@[k as int]).type_key == type_key);
                return Some(self.types[k]);
            }
            k = k + 1;
        }
        None
    }

    /// Look up the codec handle registered for a stable identifier.
    pub fn by_uuid(&self, id: u128) -> (r: Option<DataType>)
        ensures
            r is Some <==> self.spec_contains_uuid(id),
            match r {
                Some(d) => self@.contains(d) && d.id == id,
                None => true,
            },
    {
        let mut k: usize = 0;
        while k < self.types.len()
            invariant
                k <= self.types@.len(),
                forall|m: int| 0 <= m < k ==> (#[trigger] self.types@[m]).id != id,
            decreases self.types@.len() - k,
        {
            if self.types[k].id == id {
                assert((#[trigger] self@[k as int]).id == id);
                return Some(self.types[k]);
            }
            k = k + 1;
        }
        None
    }

    /// Whether a data type is registered under this stable identifier.
    pub fn has_by_uuid(&self, id: u128) -> (r: bool)
        ensures
            r == self.spec_contains_uuid(id),
    {
        self.by_uuid(id).is_some()
    }
}

impl Default for DataTypeRegistry {
    fn default() -> (r: DataTypeRegistry)
        ensures
            r@.len() == 0,
            r.wf(),
    {
        DataTypeRegistry::new()
    }
}

/// Lookups agree: in a well-formed registry holding an entry, any entry
/// found under that entry's type key and any entry found under its stable
/// identifier are that very entry. Together with the lookup contracts, a
/// registered data type is found by either key as one and the same handle.
pub proof fn lemma_lookup_agree(reg: DataTypeRegistry, e: DataType, d1: DataType, d2: DataType)
    requires
        reg.wf(),
        reg@.contains(e),
        reg@.contains(d1),
        d1.type_key == e.type_key,
        reg@.contains(d2),
        d2.id == e.id,
    ensures
        d1 == e,
        d2 == e,
{
    let s = reg@;
    let ie = choose|i: int| 0 <= i < s.len() && s[i] == e;
    let i1 = choose|i: int| 0 <= i < s.len() && s[i] == d1;
    let i2 = choose|i: int| 0 <= i < s.len() && s[i] == d2;
    assert(s[ie] == e && s[i1] == d1 && s[i2] == d2);
    if i1 != ie {
        assert(s[i1].type_key != s[ie].type_key);
    }
    if i2 != ie {
        assert(s[i2].id != s[ie].id);
    }
}

} // verus!
