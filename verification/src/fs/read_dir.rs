//! Listing a directory.
use vstd::prelude::*;
use crate::error::{IoError, TheErr, TheResult};
use crate::resource::{Resource, ResourceId, ResourceTable};
use crate::fs::Settlement;

verus! {

/// One entry of a directory listing: its file name and what kind of file it
/// is.
#[derive(Debug, Clone, PartialEq, Eq)]
pub struct FsDirEntry {
    pub name: String,
    pub is_dir: bool,
    pub is_file: bool,
    pub is_symlink: bool,
}

impl Default for FsDirEntry {
    fn default() -> (e: Self)
        ensures
            e.name@ == Seq::<char>::empty(),
            !e.is_dir,
            !e.is_file,
            !e.is_symlink,
    {
        FsDirEntry { name: String::new(), is_dir: false, is_file: false, is_symlink: false }
    }
}

/// The kind of a file as the system reports it.
#[derive(Debug, Copy, Clone, PartialEq, Eq, Structural)]
pub struct FsFileType {
    pub is_dir: bool,
    pub is_file: bool,
    pub is_symlink: bool,
}

/// A directory entry as the system gave it: its file name, and its kind or
/// the error met while asking for it.
#[derive(Debug, PartialEq, Eq)]
pub struct DirEntryReading {
    pub name: String,
    pub file_type: Result<FsFileType, IoError>,
}

/// Finishes opening a listing of the directory at `path`, given what the
/// system answered: an opened listing is added to the table under a fresh
/// id, which is returned; a failure leaves the table as it was and is
/// reported with the path.
pub fn fs_read_dir_s<F, D>(
    resource_table: &mut ResourceTable<F, D>,
    path: &str,
    opened: Result<D, IoError>,
) -> (r: TheResult<ResourceId>)
    requires
        old(resource_table).wf(),
        opened is Ok ==> !old(resource_table).spec_is_full(),
    ensures
        final(resource_table).wf(),
        match opened {
            Ok(rd) => {
                &&& r == Ok::<ResourceId, TheErr>(ResourceId(old(resource_table).next_id() as i32))
                &&& !old(resource_table)@.contains_key(old(resource_table).next_id() as i32)
                &&& final(resource_table)@ == old(resource_table)@.insert(
                    old(resource_table).next_id() as i32,
                    Resource::ReadDir(rd),
                )
                &&& final(resource_table).next_id() == old(resource_table).next_id() + 1
            },
            Err(e) => {
                &&& r matches Err(TheErr::ReadDirectoryByPathFailed(p, e2)) && p@ == path@ && e2 == e
                &&& final(resource_table)@ == old(resource_table)@
                &&& final(resource_table).next_id() == old(resource_table).next_id()
            },
        },
{
    match opened {
        Ok(rd) => Ok(resource_table.add_read_dir(rd)),
        Err(e) => Err(TheErr::ReadDirectoryByPathFailed(path.to_owned(), e)),
    }
}

/// Finishes one step of the listing with id `rid`, given what the system
/// answered: the end of the listing gives `None`; an entry whose kind is
/// known becomes an [`FsDirEntry`]; an error, whether from the listing or
/// from asking for the entry's kind, is reported with the id.
pub fn fs_read_dir_next_s(
    rid: ResourceId,
    next: Option<Result<DirEntryReading, IoError>>,
) -> (r: Option<TheResult<FsDirEntry>>)
    ensures
        match next {
            None => r is None,
            Some(Err(e)) => r == Some(Err::<FsDirEntry, TheErr>(TheErr::ReadDirectoryByRidFailed(rid, e))),
            Some(Ok(entry)) => match entry.file_type {
                Ok(ft) => r == Some(Ok::<FsDirEntry, TheErr>(FsDirEntry {
                    name: entry.name,
                    is_dir: ft.is_dir,
                    is_file: ft.is_file,
                    is_symlink: ft.is_symlink,
                })),
                Err(e) => r == Some(Err::<FsDirEntry, TheErr>(TheErr::ReadDirectoryByRidFailed(rid, e))),
            },
        },
{
    match next {
        Some(Ok(entry)) => match entry.file_type {
            Ok(entry_ft) => Some(Ok(FsDirEntry {
                name: entry.name,
                is_file: entry_ft.is_file,
                is_dir: entry_ft.is_dir,
                is_symlink: entry_ft.is_symlink,
            })),
            Err(e) => Some(Err(TheErr::ReadDirectoryByRidFailed(rid, e))),
        },
        Some(Err(e)) => Some(Err(TheErr::ReadDirectoryByRidFailed(rid, e))),
        None => None,
    }
}

/// How a listing step settles, once its payload is decoded: the end of the
/// listing resolves the promise with nothing (`undefined` to scripts), an
/// entry resolves it with the entry, and a failure rejects it with its
/// error.
pub fn settle_read_dir_next(result: Option<TheResult<FsDirEntry>>) -> (s: Settlement<Option<FsDirEntry>>)
    ensures
        match result {
            None => s == Settlement::<Option<FsDirEntry>>::Resolve(None),
            Some(Ok(entry)) => s == Settlement::<Option<FsDirEntry>>::Resolve(Some(entry)),
            Some(Err(e)) => s == Settlement::<Option<FsDirEntry>>::Reject(e),
        },
{
    match result {
        None => Settlement::Resolve(None),
        Some(Ok(entry)) => Settlement::Resolve(Some(entry)),
        Some(Err(e)) => Settlement::Reject(e),
    }
}

} // verus!
