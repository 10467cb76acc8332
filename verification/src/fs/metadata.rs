//! File metadata.
use vstd::prelude::*;
use crate::error::IoError;

verus! {

/// A point in time as an offset from the Unix epoch: whole seconds
/// (negative before the epoch) and the nanoseconds past them.
#[derive(Debug, Copy, Clone, PartialEq, Eq, Structural)]
pub struct FsTime {
    pub secs: i64,
    pub nanos: u32,
}

/// The instant `secs` seconds and `nanos` nanoseconds after the epoch, or
/// before it where `before_epoch`, as an [`FsTime`].
pub open spec fn time_from_offset(before_epoch: bool, secs: nat, nanos: nat) -> FsTime {
    if !before_epoch {
        FsTime { secs: secs as i64, nanos: nanos as u32 }
    } else if nanos == 0 {
        FsTime { secs: (-secs) as i64, nanos: 0 }
    } else {
        FsTime { secs: (-secs - 1) as i64, nanos: (1_000_000_000 - nanos) as u32 }
    }
}

/// The distance of an [`FsTime`] from the epoch: whether it lies before the
/// epoch, and the whole seconds and nanoseconds of the distance.
pub open spec fn offset_of_time(t: FsTime) -> (bool, nat, nat) {
    if t.secs >= 0 {
        (false, t.secs as nat, t.nanos as nat)
    } else if t.nanos == 0 {
        (true, (-t.secs) as nat, 0)
    } else {
        (true, (-t.secs - 1) as nat, (1_000_000_000 - t.nanos) as nat)
    }
}

impl FsTime {
    /// Nanoseconds since the epoch (negative before it).
    pub open spec fn total_nanos(self) -> int {
        self.secs * 1_000_000_000 + self.nanos
    }

    /// The nanoseconds are less than a second.
    pub open spec fn is_normal(self) -> bool {
        self.nanos < 1_000_000_000
    }

    /// The instant `secs` seconds and `nanos` nanoseconds after the epoch,
    /// or before it where `before_epoch`.
    pub fn from_epoch_offset(before_epoch: bool, secs: u64, nanos: u32) -> (t: FsTime)
        requires
            nanos < 1_000_000_000,
            secs <= i64::MAX,
        ensures
            t == time_from_offset(before_epoch, secs as nat, nanos as nat),
            t.is_normal(),
            t.total_nanos() == (if before_epoch {
                -(secs * 1_000_000_000 + nanos)
            } else {
                secs * 1_000_000_000 + nanos
            }),
    {
        if !before_epoch {
            FsTime { secs: secs as i64, nanos }
        } else if nanos == 0 {
            FsTime { secs: -(secs as i64), nanos: 0 }
        } else {
            FsTime { secs: -(secs as i64) - 1, nanos: 1_000_000_000 - nanos }
        }
    }

    /// The distance of this instant from the epoch: whether it lies before
    /// the epoch, and the whole seconds and nanoseconds of the distance.
    pub fn epoch_offset(self) -> (r: (bool, u64, u32))
        requires
            self.is_normal(),
        ensures
            (r.0, r.1 as nat, r.2 as nat) == offset_of_time(self),
            r.2 < 1_000_000_000,
            self.total_nanos() == (if r.0 {
                -(r.1 * 1_000_000_000 + r.2)
            } else {
                r.1 * 1_000_000_000 + r.2
            }),
    {
        if self.secs >= 0 {
            (false, self.secs as u64, self.nanos)
        } else if self.nanos == 0 {
            (true, (-(self.secs as i128)) as u64, 0)
        } else {
            (true, (-(self.secs as i128) - 1) as u64, 1_000_000_000 - self.nanos)
        }
    }
}

/// Going from an instant to its distance from the epoch and back gives the
/// same instant, wherever the distance's seconds fit a signed 64-bit number.
pub proof fn law_time_offset_round_trip(t: FsTime)
    requires
        t.is_normal(),
        offset_of_time(t).1 <= i64::MAX,
    ensures
        time_from_offset(offset_of_time(t).0, offset_of_time(t).1, offset_of_time(t).2) == t,
{
}

/// Going from a distance from the epoch to the instant and back gives the
/// same distance; a zero distance counts as not before the epoch.
pub proof fn law_offset_time_round_trip(before_epoch: bool, secs: nat, nanos: nat)
    requires
        nanos < 1_000_000_000,
        secs <= i64::MAX,
        before_epoch ==> secs > 0 || nanos > 0,
    ensures
        offset_of_time(time_from_offset(before_epoch, secs, nanos)) == (before_epoch, secs, nanos),
{
}

/// The metadata of a file. The fields from `file_attributes` to `file_size`
/// are known on Windows only, those from `dev` to `blocks` on Unix only;
/// elsewhere they are `None`.
#[derive(Debug, Copy, Clone, PartialEq, Eq, Structural)]
pub struct FsMetadata {
    pub accessed: Option<FsTime>,
    pub created: Option<FsTime>,
    pub modified: Option<FsTime>,
    pub is_dir: bool,
    pub is_file: bool,
    pub is_symlink: bool,
    pub len: u64,
    pub read_only: bool,
    pub file_attributes: Option<u32>,
    pub creation_time: Option<u64>,
    pub last_access_time: Option<u64>,
    pub last_write_time: Option<u64>,
    pub file_size: Option<u64>,
    pub dev: Option<u64>,
    pub ino: Option<u64>,
    pub mode: Option<u32>,
    pub nlink: Option<u64>,
    pub uid: Option<u32>,
    pub gid: Option<u32>,
    pub rdev: Option<u64>,
    pub size: Option<u64>,
    pub atime: Option<i64>,
    pub atime_nsec: Option<i64>,
    pub mtime: Option<i64>,
    pub mtime_nsec: Option<i64>,
    pub ctime: Option<i64>,
    pub ctime_nsec: Option<i64>,
    pub blksize: Option<u64>,
    pub blocks: Option<u64>,
}

/// Metadata with nothing known: no times, every flag off, length 0, and no
/// platform fields.
pub open spec fn empty_metadata() -> FsMetadata {
    FsMetadata {
        accessed: None,
        created: None,
        modified: None,
        is_dir: false,
        is_file: false,
        is_symlink: false,
        len: 0,
        read_only: false,
        file_attributes: None,
        creation_time: None,
        last_access_time: None,
        last_write_time: None,
        file_size: None,
        dev: None,
        ino: None,
        mode: None,
        nlink: None,
        uid: None,
        gid: None,
        rdev: None,
        size: None,
        atime: None,
        atime_nsec: None,
        mtime: None,
        mtime_nsec: None,
        ctime: None,
        ctime_nsec: None,
        blksize: None,
        blocks: None,
    }
}

impl Default for FsMetadata {
    fn default() -> (m: Self)
        ensures
            m == empty_metadata(),
            m.accessed is None,
            m.created is None,
            m.modified is None,
            m.file_attributes is None,
            m.creation_time is None,
            m.last_access_time is None,
            m.last_write_time is None,
            m.file_size is None,
            m.dev is None,
            m.ino is None,
            m.mode is None,
            m.nlink is None,
            m.uid is None,
            m.gid is None,
            m.rdev is None,
            m.size is None,
            m.atime is None,
            m.atime_nsec is None,
            m.mtime is None,
            m.mtime_nsec is None,
            m.ctime is None,
            m.ctime_nsec is None,
            m.blksize is None,
            m.blocks is None,
            !m.is_dir,
            !m.is_file,
            !m.is_symlink,
            !m.read_only,
            m.len == 0,
    {
        FsMetadata {
            accessed: None,
            created: None,
            modified: None,
            is_dir: false,
            is_file: false,
            is_symlink: false,
            len: 0,
            read_only: false,
            file_attributes: None,
            creation_time: None,
            last_access_time: None,
            last_write_time: None,
            file_size: None,
            dev: None,
            ino: None,
            mode: None,
            nlink: None,
            uid: None,
            gid: None,
            rdev: None,
            size: None,
            atime: None,
            atime_nsec: None,
            mtime: None,
            mtime_nsec: None,
            ctime: None,
            ctime_nsec: None,
            blksize: None,
            blocks: None,
        }
    }
}

/// The metadata fields that only Unix reports.
#[derive(Debug, Copy, Clone, PartialEq, Eq, Structural)]
pub struct UnixMetadata {
    pub dev: u64,
    pub ino: u64,
    pub mode: u32,
    pub nlink: u64,
    pub uid: u32,
    pub gid: u32,
    pub rdev: u64,
    pub size: u64,
    pub atime: i64,
    pub atime_nsec: i64,
    pub mtime: i64,
    pub mtime_nsec: i64,
    pub ctime: i64,
    pub ctime_nsec: i64,
    pub blksize: u64,
    pub blocks: u64,
}

/// The metadata fields that only Windows reports.
#[derive(Debug, Copy, Clone, PartialEq, Eq, Structural)]
pub struct WindowsMetadata {
    pub file_attributes: u32,
    pub creation_time: u64,
    pub last_access_time: u64,
    pub last_write_time: u64,
    pub file_size: u64,
}

/// The platform-specific part of a metadata reading.
#[derive(Debug, Copy, Clone, PartialEq, Eq, Structural)]
pub enum PlatformMetadata {
    Unix(UnixMetadata),
    Windows(WindowsMetadata),
    Other,
}

/// Metadata as the system gave it. Each time is either known or the error
/// met while asking for it (a platform may not record it).
#[derive(Debug, PartialEq, Eq)]
pub struct MetadataReading {
    pub accessed: Result<FsTime, IoError>,
    pub created: Result<FsTime, IoError>,
    pub modified: Result<FsTime, IoError>,
    pub is_dir: bool,
    pub is_file: bool,
    pub is_symlink: bool,
    pub len: u64,
    pub read_only: bool,
    pub platform: PlatformMetadata,
}

/// A time that was read, or nothing where reading it failed.
pub open spec fn known_time(t: Result<FsTime, IoError>) -> Option<FsTime> {
    match t {
        Ok(t) => Some(t),
        Err(_) => None,
    }
}

/// The metadata record for a reading: the times that could be read, the
/// common fields as they are, and the fields of the platform that gave the
/// reading, every other platform's fields being `None`.
pub open spec fn metadata_of(meta: MetadataReading) -> FsMetadata {
    let common = FsMetadata {
        accessed: known_time(meta.accessed),
        created: known_time(meta.created),
        modified: known_time(meta.modified),
        is_dir: meta.is_dir,
        is_file: meta.is_file,
        is_symlink: meta.is_symlink,
        len: meta.len,
        read_only: meta.read_only,
        ..empty_metadata()
    };
    match meta.platform {
        PlatformMetadata::Unix(u) => FsMetadata {
            dev: Some(u.dev),
            ino: Some(u.ino),
            mode: Some(u.mode),
            nlink: Some(u.nlink),
            uid: Some(u.uid),
            gid: Some(u.gid),
            rdev: Some(u.rdev),
            size: Some(u.size),
            atime: Some(u.atime),
            atime_nsec: Some(u.atime_nsec),
            mtime: Some(u.mtime),
            mtime_nsec: Some(u.mtime_nsec),
            ctime: Some(u.ctime),
            ctime_nsec: Some(u.ctime_nsec),
            blksize: Some(u.blksize),
            blocks: Some(u.blocks),
            ..common
        },
        PlatformMetadata::Windows(w) => FsMetadata {
            file_attributes: Some(w.file_attributes),
            creation_time: Some(w.creation_time),
            last_access_time: Some(w.last_access_time),
            last_write_time: Some(w.last_write_time),
            file_size: Some(w.file_size),
            ..common
        },
        PlatformMetadata::Other => common,
    }
}

fn time_if_known(t: Result<FsTime, IoError>) -> (r: Option<FsTime>)
    ensures
        r == known_time(t),
{
    match t {
        Ok(t) => Some(t),
        Err(_) => None,
    }
}

/// Turns a metadata reading into the metadata record of the API.
pub fn convert(meta: MetadataReading) -> (m: FsMetadata)
    ensures
        m == metadata_of(meta),
        meta.accessed matches Ok(t) ==> m.accessed == Some(t),
        meta.accessed is Err ==> m.accessed is None,
        meta.created matches Ok(t) ==> m.created == Some(t),
        meta.created is Err ==> m.created is None,
        meta.modified matches Ok(t) ==> m.modified == Some(t),
        meta.modified is Err ==> m.modified is None,
        m.is_dir == meta.is_dir,
        m.is_file == meta.is_file,
        m.is_symlink == meta.is_symlink,
        m.len == meta.len,
        m.read_only == meta.read_only,
        meta.platform matches PlatformMetadata::Unix(u) ==> m.dev == Some(u.dev),
        !(meta.platform is Unix) ==> m.dev is None,
        meta.platform matches PlatformMetadata::Unix(u) ==> m.ino == Some(u.ino),
        !(meta.platform is Unix) ==> m.ino is None,
        meta.platform matches PlatformMetadata::Unix(u) ==> m.mode == Some(u.mode),
        !(meta.platform is Unix) ==> m.mode is None,
        meta.platform matches PlatformMetadata::Unix(u) ==> m.nlink == Some(u.nlink),
        !(meta.platform is Unix) ==> m.nlink is None,
        meta.platform matches PlatformMetadata::Unix(u) ==> m.uid == Some(u.uid),
        !(meta.platform is Unix) ==> m.uid is None,
        meta.platform matches PlatformMetadata::Unix(u) ==> m.gid == Some(u.gid),
        !(meta.platform is Unix) ==> m.gid is None,
        meta.platform matches PlatformMetadata::Unix(u) ==> m.rdev == Some(u.rdev),
        !(meta.platform is Unix) ==> m.rdev is None,
        meta.platform matches PlatformMetadata::Unix(u) ==> m.size == Some(u.size),
        !(meta.platform is Unix) ==> m.size is None,
        meta.platform matches PlatformMetadata::Unix(u) ==> m.atime == Some(u.atime),
        !(meta.platform is Unix) ==> m.atime is None,
        meta.platform matches PlatformMetadata::Unix(u) ==> m.atime_nsec == Some(u.atime_nsec),
        !(meta.platform is Unix) ==> m.atime_nsec is None,
        meta.platform matches PlatformMetadata::Unix(u) ==> m.mtime == Some(u.mtime),
        !(meta.platform is Unix) ==> m.mtime is None,
        meta.platform matches PlatformMetadata::Unix(u) ==> m.mtime_nsec == Some(u.mtime_nsec),
        !(meta.platform is Unix) ==> m.mtime_nsec is None,
        meta.platform matches PlatformMetadata::Unix(u) ==> m.ctime == Some(u.ctime),
        !(meta.platform is Unix) ==> m.ctime is None,
        meta.platform matches PlatformMetadata::Unix(u) ==> m.ctime_nsec == Some(u.ctime_nsec),
        !(meta.platform is Unix) ==> m.ctime_nsec is None,
        meta.platform matches PlatformMetadata::Unix(u) ==> m.blksize == Some(u.blksize),
        !(meta.platform is Unix) ==> m.blksize is None,
        meta.platform matches PlatformMetadata::Unix(u) ==> m.blocks == Some(u.blocks),
        !(meta.platform is Unix) ==> m.blocks is None,
        meta.platform matches PlatformMetadata::Windows(w) ==> m.file_attributes == Some(w.file_attributes),
        !(meta.platform is Windows) ==> m.file_attributes is None,
        meta.platform matches PlatformMetadata::Windows(w) ==> m.creation_time == Some(w.creation_time),
        !(meta.platform is Windows) ==> m.creation_time is None,
        meta.platform matches PlatformMetadata::Windows(w) ==> m.last_access_time == Some(w.last_access_time),
        !(meta.platform is Windows) ==> m.last_access_time is None,
        meta.platform matches PlatformMetadata::Windows(w) ==> m.last_write_time == Some(w.last_write_time),
        !(meta.platform is Windows) ==> m.last_write_time is None,
        meta.platform matches PlatformMetadata::Windows(w) ==> m.file_size == Some(w.file_size),
        !(meta.platform is Windows) ==> m.file_size is None,
{
    let ghost reading = meta;
    let mut m = FsMetadata::default();
    m.accessed = time_if_known(meta.accessed);
    m.created = time_if_known(meta.created);
    m.modified = time_if_known(meta.modified);
    m.is_dir = meta.is_dir;
    m.is_file = meta.is_file;
    m.is_symlink = meta.is_symlink;
    m.len = meta.len;
    m.read_only = meta.read_only;
    match meta.platform {
        PlatformMetadata::Windows(w) => {
            m.file_attributes = Some(w.file_attributes);
            m.creation_time = Some(w.creation_time);
            m.last_access_time = Some(w.last_access_time);
            m.last_write_time = Some(w.last_write_time);
            m.file_size = Some(w.file_size);
        },
        PlatformMetadata::Unix(u) => {
            m.dev = Some(u.dev);
            m.ino = Some(u.ino);
            m.mode = Some(u.mode);
            m.nlink = Some(u.nlink);
            m.uid = Some(u.uid);
            m.gid = Some(u.gid);
            m.rdev = Some(u.rdev);
            m.size = Some(u.size);
            m.atime = Some(u.atime);
            m.atime_nsec = Some(u.atime_nsec);
            m.mtime = Some(u.mtime);
            m.mtime_nsec = Some(u.mtime_nsec);
            m.ctime = Some(u.ctime);
            m.ctime_nsec = Some(u.ctime_nsec);
            m.blksize = Some(u.blksize);
            m.blocks = Some(u.blocks);
        },
        PlatformMetadata::Other => {},
    }
    assert(m == metadata_of(reading));
    m
}

/// A record made from a reading carries each time that could be read and
/// nothing for one that could not; the common fields as read; each Unix
/// field exactly as the Unix reading gives the field of the same name, and
/// none of them for a reading from elsewhere; each Windows field exactly as
/// the Windows reading gives it, and none of them for a reading from
/// elsewhere.
pub proof fn law_metadata_fields(meta: MetadataReading)
    ensures
        meta.accessed matches Ok(t) ==> metadata_of(meta).accessed == Some(t),
        meta.accessed is Err ==> metadata_of(meta).accessed is None,
        meta.created matches Ok(t) ==> metadata_of(meta).created == Some(t),
        meta.created is Err ==> metadata_of(meta).created is None,
        meta.modified matches Ok(t) ==> metadata_of(meta).modified == Some(t),
        meta.modified is Err ==> metadata_of(meta).modified is None,
        metadata_of(meta).is_dir == meta.is_dir,
        metadata_of(meta).is_file == meta.is_file,
        metadata_of(meta).is_symlink == meta.is_symlink,
        metadata_of(meta).len == meta.len,
        metadata_of(meta).read_only == meta.read_only,
        meta.platform matches PlatformMetadata::Unix(u) ==> metadata_of(meta).dev == Some(u.dev),
        !(meta.platform is Unix) ==> metadata_of(meta).dev is None,
        meta.platform matches PlatformMetadata::Unix(u) ==> metadata_of(meta).ino == Some(u.ino),
        !(meta.platform is Unix) ==> metadata_of(meta).ino is None,
        meta.platform matches PlatformMetadata::Unix(u) ==> metadata_of(meta).mode == Some(u.mode),
        !(meta.platform is Unix) ==> metadata_of(meta).mode is None,
        meta.platform matches PlatformMetadata::Unix(u) ==> metadata_of(meta).nlink == Some(u.nlink),
        !(meta.platform is Unix) ==> metadata_of(meta).nlink is None,
        meta.platform matches PlatformMetadata::Unix(u) ==> metadata_of(meta).uid == Some(u.uid),
        !(meta.platform is Unix) ==> metadata_of(meta).uid is None,
        meta.platform matches PlatformMetadata::Unix(u) ==> metadata_of(meta).gid == Some(u.gid),
        !(meta.platform is Unix) ==> metadata_of(meta).gid is None,
        meta.platform matches PlatformMetadata::Unix(u) ==> metadata_of(meta).rdev == Some(u.rdev),
        !(meta.platform is Unix) ==> metadata_of(meta).rdev is None,
        meta.platform matches PlatformMetadata::Unix(u) ==> metadata_of(meta).size == Some(u.size),
        !(meta.platform is Unix) ==> metadata_of(meta).size is None,
        meta.platform matches PlatformMetadata::Unix(u) ==> metadata_of(meta).atime == Some(u.atime),
        !(meta.platform is Unix) ==> metadata_of(meta).atime is None,
        meta.platform matches PlatformMetadata::Unix(u) ==> metadata_of(meta).atime_nsec == Some(u.atime_nsec),
        !(meta.platform is Unix) ==> metadata_of(meta).atime_nsec is None,
        meta.platform matches PlatformMetadata::Unix(u) ==> metadata_of(meta).mtime == Some(u.mtime),
        !(meta.platform is Unix) ==> metadata_of(meta).mtime is None,
        meta.platform matches PlatformMetadata::Unix(u) ==> metadata_of(meta).mtime_nsec == Some(u.mtime_nsec),
        !(meta.platform is Unix) ==> metadata_of(meta).mtime_nsec is None,
        meta.platform matches PlatformMetadata::Unix(u) ==> metadata_of(meta).ctime == Some(u.ctime),
        !(meta.platform is Unix) ==> metadata_of(meta).ctime is None,
        meta.platform matches PlatformMetadata::Unix(u) ==> metadata_of(meta).ctime_nsec == Some(u.ctime_nsec),
        !(meta.platform is Unix) ==> metadata_of(meta).ctime_nsec is None,
        meta.platform matches PlatformMetadata::Unix(u) ==> metadata_of(meta).blksize == Some(u.blksize),
        !(meta.platform is Unix) ==> metadata_of(meta).blksize is None,
        meta.platform matches PlatformMetadata::Unix(u) ==> metadata_of(meta).blocks == Some(u.blocks),
        !(meta.platform is Unix) ==> metadata_of(meta).blocks is None,
        meta.platform matches PlatformMetadata::Windows(w) ==> metadata_of(meta).file_attributes == Some(w.file_attributes),
        !(meta.platform is Windows) ==> metadata_of(meta).file_attributes is None,
        meta.platform matches PlatformMetadata::Windows(w) ==> metadata_of(meta).creation_time == Some(w.creation_time),
        !(meta.platform is Windows) ==> metadata_of(meta).creation_time is None,
        meta.platform matches PlatformMetadata::Windows(w) ==> metadata_of(meta).last_access_time == Some(w.last_access_time),
        !(meta.platform is Windows) ==> metadata_of(meta).last_access_time is None,
        meta.platform matches PlatformMetadata::Windows(w) ==> metadata_of(meta).last_write_time == Some(w.last_write_time),
        !(meta.platform is Windows) ==> metadata_of(meta).last_write_time is None,
        meta.platform matches PlatformMetadata::Windows(w) ==> metadata_of(meta).file_size == Some(w.file_size),
        !(meta.platform is Windows) ==> metadata_of(meta).file_size is None,
{
}

/// The empty record knows nothing: every time and every platform field is
/// `None`, every flag is off and the length is 0.
pub proof fn law_empty_metadata_fields()
    ensures
        empty_metadata().accessed is None,
        empty_metadata().created is None,
        empty_metadata().modified is None,
        empty_metadata().file_attributes is None,
        empty_metadata().creation_time is None,
        empty_metadata().last_access_time is None,
        empty_metadata().last_write_time is None,
        empty_metadata().file_size is None,
        empty_metadata().dev is None,
        empty_metadata().ino is None,
        empty_metadata().mode is None,
        empty_metadata().nlink is None,
        empty_metadata().uid is None,
        empty_metadata().gid is None,
        empty_metadata().rdev is None,
        empty_metadata().size is None,
        empty_metadata().atime is None,
        empty_metadata().atime_nsec is None,
        empty_metadata().mtime is None,
        empty_metadata().mtime_nsec is None,
        empty_metadata().ctime is None,
        empty_metadata().ctime_nsec is None,
        empty_metadata().blksize is None,
        empty_metadata().blocks is None,
        !empty_metadata().is_dir,
        !empty_metadata().is_file,
        !empty_metadata().is_symlink,
        !empty_metadata().read_only,
        empty_metadata().len == 0,
{
}

/// A record made from a reading holds the Unix fields exactly when the
/// reading came from Unix, and the Windows fields exactly when it came from
/// Windows.
pub proof fn law_platform_fields_exclusive(meta: MetadataReading)
    ensures
        metadata_of(meta).dev is Some <==> meta.platform is Unix,
        metadata_of(meta).blocks is Some <==> meta.platform is Unix,
        metadata_of(meta).file_attributes is Some <==> meta.platform is Windows,
        metadata_of(meta).file_size is Some <==> meta.platform is Windows,
{
}

} // verus!
