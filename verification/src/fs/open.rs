//! Opening a file.
use vstd::prelude::*;
use crate::error::{IoError, TheErr, TheResult};
use crate::resource::{Resource, ResourceId, ResourceTable};

verus! {

/// How a file is to be opened; every flag is off unless set.
#[derive(Debug, Copy, Clone, PartialEq, Eq, Structural)]
pub struct FsOpenOptions {
    pub append: bool,
    pub create: bool,
    pub create_new: bool,
    pub read: bool,
    pub truncate: bool,
    pub write: bool,
}

impl Default for FsOpenOptions {
    fn default() -> (o: Self)
        ensures
            o == (FsOpenOptions {
                append: false,
                create: false,
                create_new: false,
                read: false,
                truncate: false,
                write: false,
            }),
    {
        FsOpenOptions {
            append: false,
            create: false,
            create_new: false,
            read: false,
            truncate: false,
            write: false,
        }
    }
}

/// Finishes opening the file at `path`, given what the system answered: an
/// opened file is added to the table under a fresh id, which is returned; a
/// failure leaves the table as it was and is reported with the path.
pub fn fs_open_s<F, D>(
    resource_table: &mut ResourceTable<F, D>,
    path: &str,
    opened: Result<F, IoError>,
) -> (r: TheResult<ResourceId>)
    requires
        old(resource_table).wf(),
        opened is Ok ==> !old(resource_table).spec_is_full(),
    ensures
        final(resource_table).wf(),
        match opened {
            Ok(file) => {
                &&& r == Ok::<ResourceId, TheErr>(ResourceId(old(resource_table).next_id() as i32))
                &&& !old(resource_table)@.contains_key(old(resource_table).next_id() as i32)
                &&& final(resource_table)@ == old(resource_table)@.insert(
                    old(resource_table).next_id() as i32,
                    Resource::File(file),
                )
                &&& final(resource_table).next_id() == old(resource_table).next_id() + 1
            },
            Err(e) => {
                &&& r matches Err(TheErr::OpenFileFailed(p, e2)) && p@ == path@ && e2 == e
                &&& final(resource_table)@ == old(resource_table)@
                &&& final(resource_table).next_id() == old(resource_table).next_id()
            },
        },
{
    match opened {
        Ok(file) => Ok(resource_table.add_file(file)),
        Err(e) => Err(TheErr::OpenFileFailed(path.to_owned(), e)),
    }
}

} // verus!
