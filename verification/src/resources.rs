//! The read-only resource store backend: binary assets bundled with a guest
//! application, queryable by name or by numeric id (the position of the
//! entry). A single leading path separator in a queried name is ignored.

use vstd::prelude::*;

use crate::base::WIPICWord;
use crate::codec::bytes_eq;

verus! {

/// The byte value of the path separator `/`.
pub const PATH_SEPARATOR: u8 = 47;

/// One bundled asset: its lookup name and its contents.
pub struct Resource {
    /// The name the guest looks the asset up by, without a leading separator.
    pub name: Vec<u8>,
    /// The asset's bytes.
    pub data: Vec<u8>,
}

/// The store of all bundled assets; an asset's id is its position.
pub struct ResourceStore {
    /// The assets, in id order.
    pub entries: Vec<Resource>,
}

/// The id of the first entry carrying `name`, if any.
pub open spec fn id_lookup(entries: Seq<Resource>, name: Seq<u8>) -> Option<int>
    decreases entries.len(),
{
    if entries.len() == 0 {
        None
    } else if entries[0].name@ == name {
        Some(0int)
    } else {
        match id_lookup(entries.drop_first(), name) {
            Some(i) => Some(i + 1),
            None => None,
        }
    }
}

/// A successful name lookup denotes an entry carrying exactly that name.
pub proof fn lemma_id_lookup_valid(entries: Seq<Resource>, name: Seq<u8>)
    ensures
        match id_lookup(entries, name) {
            Some(i) => 0 <= i < entries.len() && entries[i].name@ == name,
            None => true,
        },
    decreases entries.len(),
{
    if entries.len() > 0 && entries[0].name@ != name {
        lemma_id_lookup_valid(entries.drop_first(), name);
    }
}

/// The queried name with one leading path separator removed, if present.
pub open spec fn normalized_name(name: Seq<u8>) -> Seq<u8> {
    if name.len() > 0 && name[0] == PATH_SEPARATOR {
        name.drop_first()
    } else {
        name
    }
}

/// Prefixing a name with a path separator does not change which resource it
/// denotes: the separator is stripped before lookup, and a name without a
/// leading separator is looked up as it stands.
pub proof fn lemma_leading_separator_ignored(name: Seq<u8>)
    ensures
        normalized_name(seq![PATH_SEPARATOR] + name) == name,
        name.len() == 0 || name[0] != PATH_SEPARATOR ==> normalized_name(name) == name,
{
    assert((seq![PATH_SEPARATOR] + name).drop_first() =~= name);
}

impl ResourceStore {
    /// Structural invariant: ids fit in a word and every asset's length fits
    /// in a word.
    pub open spec fn wf(self) -> bool {
        &&& self.entries@.len() < u32::MAX
        &&& forall|i: int|
            0 <= i < self.entries@.len() ==> (#[trigger] self.entries@[i]).data@.len() <= u32::MAX
    }

    /// Creates a store with no assets.
    pub fn new_empty() -> (r: ResourceStore)
        ensures
            r.wf(),
            r.entries@.len() == 0,
    {
        ResourceStore { entries: Vec::new() }
    }

    /// Adds one asset at the next id.
    pub fn add(&mut self, name: Vec<u8>, data: Vec<u8>)
        requires
            old(self).wf(),
            old(self).entries@.len() + 1 < u32::MAX,
            data@.len() <= u32::MAX,
        ensures
            final(self).wf(),
            final(self).entries@.len() == old(self).entries@.len() + 1,
            final(self).entries@.last().name@ == name@,
            final(self).entries@.last().data@ == data@,
            forall|i: int|
                0 <= i < old(self).entries@.len() ==> final(self).entries@[i] == old(
                    self,
                ).entries@[i],
    {
        self.entries.push(Resource { name, data });
    }

    /// Looks a name up, returning the id of the first asset carrying it.
    pub fn id_by_name(&self, name: &[u8]) -> (r: Option<WIPICWord>)
        requires
            self.wf(),
        ensures
            match r {
                Some(id) => id_lookup(self.entries@, name@) == Some(id as int),
                None => id_lookup(self.entries@, name@) is None,
            },
    {
        let mut i: usize = 0;
        while i < self.entries.len()
            invariant
                self.wf(),
                i <= self.entries@.len(),
                forall|j: int| 0 <= j < i ==> (#[trigger] self.entries@[j]).name@ != name@,
            decreases self.entries@.len() - i,
        {
            if bytes_eq(self.entries[i].name.as_slice(), name) {
                proof {
                    lemma_id_lookup_first_hit(self.entries@, name@, i as int);
                }
                return Some(i as u32);
            }
            i = i + 1;
        }
        proof {
            lemma_id_lookup_miss(self.entries@, name@);
        }
        None
    }

    /// The byte length of the asset with the given id, if the id is valid.
    pub fn size_by_id(&self, id: WIPICWord) -> (r: Option<WIPICWord>)
        requires
            self.wf(),
        ensures
            r is Some <==> id < self.entries@.len(),
            match r {
                Some(size) => size == self.entries@[id as int].data@.len(),
                None => true,
            },
    {
        if (id as usize) < self.entries.len() {
            Some(self.entries[id as usize].data.len() as u32)
        } else {
            None
        }
    }

    /// The contents of the asset with the given id, if the id is valid.
    pub fn bytes_by_id(&self, id: WIPICWord) -> (r: Option<&Vec<u8>>)
        requires
            self.wf(),
        ensures
            r is Some <==> id < self.entries@.len(),
            match r {
                Some(bytes) => bytes@ == self.entries@[id as int].data@,
                None => true,
            },
    {
        if (id as usize) < self.entries.len() {
            Some(&self.entries[id as usize].data)
        } else {
            None
        }
    }
}

/// A scan that found `name` first at position `hit` agrees with the lookup
/// function.
pub proof fn lemma_id_lookup_first_hit(entries: Seq<Resource>, name: Seq<u8>, hit: int)
    requires
        0 <= hit < entries.len(),
        entries[hit].name@ == name,
        forall|j: int| 0 <= j < hit ==> (#[trigger] entries[j]).name@ != name,
    ensures
        id_lookup(entries, name) == Some(hit),
    decreases entries.len(),
{
    if hit > 0 {
        lemma_id_lookup_first_hit(entries.drop_first(), name, hit - 1);
    }
}

/// A scan that found `name` nowhere agrees with the lookup function.
pub proof fn lemma_id_lookup_miss(entries: Seq<Resource>, name: Seq<u8>)
    requires
        forall|j: int| 0 <= j < entries.len() ==> (#[trigger] entries[j]).name@ != name,
    ensures
        id_lookup(entries, name) is None,
    decreases entries.len(),
{
    if entries.len() > 0 {
        lemma_id_lookup_miss(entries.drop_first(), name);
    }
}

} // verus!
