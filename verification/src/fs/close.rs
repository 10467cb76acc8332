//! Closing a file.
use vstd::prelude::*;
use crate::resource::{ResourceId, ResourceTable};

verus! {

/// Closes the file (or directory listing) with id `rid`: its handle leaves
/// the table and is dropped. The id must name an open resource.
pub fn fs_close_s<F, D>(resource_table: &mut ResourceTable<F, D>, rid: ResourceId)
    requires
        old(resource_table).wf(),
        old(resource_table)@.contains_key(rid.0),
    ensures
        final(resource_table).wf(),
        final(resource_table)@ == old(resource_table)@.remove(rid.0),
        final(resource_table).next_id() == old(resource_table).next_id(),
{
    // The removed handle goes out of scope here, which closes it.
    let _handle = resource_table.remove(rid);
}

} // verus!
