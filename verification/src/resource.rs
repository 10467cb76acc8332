use std::collections::HashMap;
use vstd::prelude::*;

verus! {

broadcast use vstd::std_specs::hash::group_hash_axioms;

/// The id under which an open resource is kept in a [`ResourceTable`].
#[derive(Debug, Clone, Copy, PartialEq, Eq, Structural, Hash)]
pub struct ResourceId(pub i32);

impl ResourceId {
    /// The id with the given number.
    pub fn from_i32(n: i32) -> (rid: ResourceId)
        ensures
            rid.0 == n,
    {
        ResourceId(n)
    }

    /// The number of this id.
    pub fn to_i32(self) -> (n: i32)
        ensures
            n == self.0,
    {
        self.0
    }
}

/// An open resource: a file handle or a directory-listing handle.
#[derive(Debug, PartialEq, Eq)]
pub enum Resource<F, D> {
    File(F),
    ReadDir(D),
}

/// The table of open resources. Each resource added gets an id that no
/// resource of this table has had before: ids are handed out in increasing
/// order starting at 0.
#[verifier::reject_recursive_types(F)]
#[verifier::reject_recursive_types(D)]
pub struct ResourceTable<F, D> {
    entries: HashMap<i32, Resource<F, D>>,
    next_rid: i32,
}

impl<F, D> View for ResourceTable<F, D> {
    type V = Map<i32, Resource<F, D>>;

    closed spec fn view(&self) -> Map<i32, Resource<F, D>> {
        self.entries@
    }
}

impl<F, D> ResourceTable<F, D> {
    /// The id that the next added resource will get.
    pub closed spec fn next_id(self) -> int {
        self.next_rid as int
    }

    /// Every id in use lies below the next id to hand out, and ids are
    /// not negative.
    pub closed spec fn wf(self) -> bool {
        &&& 0 <= self.next_rid
        &&& forall|k: i32| #[trigger] self.entries@.contains_key(k) ==> 0 <= k < self.next_rid
    }

    /// Whether every id has been handed out, so that no resource can be added.
    pub open spec fn spec_is_full(self) -> bool {
        self.next_id() >= i32::MAX
    }

    /// An empty table.
    pub fn new() -> (t: Self)
        ensures
            t.wf(),
            t@ == Map::<i32, Resource<F, D>>::empty(),
            t.next_id() == 0,
    {
        ResourceTable { entries: HashMap::new(), next_rid: 0 }
    }

    /// Whether every id has been handed out.
    pub fn is_full(&self) -> (b: bool)
        ensures
            b == self.spec_is_full(),
    {
        self.next_rid == i32::MAX
    }

    /// The number of open resources.
    pub fn len(&self) -> (n: usize)
        ensures
            n == self@.len(),
    {
        self.entries.len()
    }

    /// Whether `rid` names an open resource.
    pub fn contains(&self, rid: ResourceId) -> (b: bool)
        ensures
            b == self@.contains_key(rid.0),
    {
        self.entries.contains_key(&rid.0)
    }

    fn add(&mut self, res: Resource<F, D>) -> (rid: ResourceId)
        requires
            old(self).wf(),
            !old(self).spec_is_full(),
        ensures
            final(self).wf(),
            rid.0 == old(self).next_id(),
            !old(self)@.contains_key(rid.0),
            final(self)@ == old(self)@.insert(rid.0, res),
            final(self).next_id() == old(self).next_id() + 1,
    {
        let rid = self.next_rid;
        self.entries.insert(rid, res);
        self.next_rid = rid + 1;
        ResourceId(rid)
    }

    /// Adds an open file and returns its fresh id.
    pub fn add_file(&mut self, file: F) -> (rid: ResourceId)
        requires
            old(self).wf(),
            !old(self).spec_is_full(),
        ensures
            final(self).wf(),
            rid.0 == old(self).next_id(),
            !old(self)@.contains_key(rid.0),
            final(self)@ == old(self)@.insert(rid.0, Resource::File(file)),
            final(self).next_id() == old(self).next_id() + 1,
    {
        self.add(Resource::File(file))
    }

    /// Adds an open directory listing and returns its fresh id.
    pub fn add_read_dir(&mut self, read_dir: D) -> (rid: ResourceId)
        requires
            old(self).wf(),
            !old(self).spec_is_full(),
        ensures
            final(self).wf(),
            rid.0 == old(self).next_id(),
            !old(self)@.contains_key(rid.0),
            final(self)@ == old(self)@.insert(rid.0, Resource::ReadDir(read_dir)),
            final(self).next_id() == old(self).next_id() + 1,
    {
        self.add(Resource::ReadDir(read_dir))
    }

    /// The resource with id `rid`, if it is open.
    pub fn get(&self, rid: ResourceId) -> (r: Option<&Resource<F, D>>)
        ensures
            match r {
                Some(res) => self@.contains_key(rid.0) && *res == self@[rid.0],
                None => !self@.contains_key(rid.0),
            },
    {
        self.entries.get(&rid.0)
    }

    /// The file with id `rid`, if `rid` names an open file.
    pub fn get_file(&self, rid: ResourceId) -> (r: Option<&F>)
        ensures
            match r {
                Some(f) => self@.contains_key(rid.0) && self@[rid.0] == Resource::<F, D>::File(*f),
                None => !(self@.contains_key(rid.0) && self@[rid.0] is File),
            },
    {
        match self.entries.get(&rid.0) {
            Some(Resource::File(f)) => Some(f),
            _ => None,
        }
    }

    /// The directory listing with id `rid`, if `rid` names an open listing.
    pub fn get_read_dir(&self, rid: ResourceId) -> (r: Option<&D>)
        ensures
            match r {
                Some(d) => self@.contains_key(rid.0) && self@[rid.0] == Resource::<F, D>::ReadDir(*d),
                None => !(self@.contains_key(rid.0) && self@[rid.0] is ReadDir),
            },
    {
        match self.entries.get(&rid.0) {
            Some(Resource::ReadDir(d)) => Some(d),
            _ => None,
        }
    }

    /// Takes the resource with id `rid` out of the table, if it is open.
    pub fn remove(&mut self, rid: ResourceId) -> (r: Option<Resource<F, D>>)
        requires
            old(self).wf(),
        ensures
            final(self).wf(),
            final(self)@ == old(self)@.remove(rid.0),
            final(self).next_id() == old(self).next_id(),
            match r {
                Some(res) => old(self)@.contains_key(rid.0) && res == old(self)@[rid.0],
                None => !old(self)@.contains_key(rid.0),
            },
    {
        self.entries.remove(&rid.0)
    }
}

/// Closing a resource right after opening it gives the table's contents back
/// as they were before the opening.
pub proof fn law_close_undoes_open<F, D>(
    before: Map<i32, Resource<F, D>>,
    rid: i32,
    res: Resource<F, D>,
)
    requires
        !before.contains_key(rid),
    ensures
        before.insert(rid, res).remove(rid) == before,
{
    assert(before.insert(rid, res).remove(rid) =~= before);
}

/// A resource added to the table is found under its id, and every other id
/// finds what it found before.
pub proof fn law_lookup_after_add<F, D>(
    before: Map<i32, Resource<F, D>>,
    rid: i32,
    res: Resource<F, D>,
    other: i32,
)
    requires
        other != rid,
    ensures
        before.insert(rid, res).contains_key(rid),
        before.insert(rid, res)[rid] == res,
        before.insert(rid, res).contains_key(other) == before.contains_key(other),
        before.contains_key(other) ==> before.insert(rid, res)[other] == before[other],
{
}

/// Closing one resource leaves every other open resource where it was, and
/// the closed id finds nothing.
pub proof fn law_close_leaves_others<F, D>(before: Map<i32, Resource<F, D>>, rid: i32, other: i32)
    requires
        other != rid,
    ensures
        !before.remove(rid).contains_key(rid),
        before.remove(rid).contains_key(other) == before.contains_key(other),
        before.contains_key(other) ==> before.remove(rid)[other] == before[other],
{
}

/// A well-formed table holds nothing under any id at or above the id it
/// hands out next; as that id only grows, no id is handed out twice.
pub proof fn law_fresh_ids_unused<F, D>(t: ResourceTable<F, D>, rid: i32)
    requires
        t.wf(),
        rid >= t.next_id(),
    ensures
        !t@.contains_key(rid),
{
}

} // verus!
