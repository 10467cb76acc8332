//! File-system primitives behind the `Rsvim.fs` scripting API: option and
//! metadata records, the table of open file and directory handles, and the
//! rules that turn the outcome of each file-system operation into a result or
//! an error of this crate.
//!
//! The operations themselves (opening, reading, writing, creating links and
//! directories) are performed by the caller, which hands their outcome to the
//! functions here as plain values.

mod codec;
mod error;
pub mod fs;
mod resource;

pub use codec::{
    postcard_i32, postcard_string, postcard_u32, postcard_usize, varint, varint_u32, varint_u64,
    varint_usize, zigzag,
};
pub use error::{IoError, TheErr, TheResult};
pub use fs::close::fs_close_s;
pub use fs::link::fs_link_s;
pub use fs::metadata::{
    convert, FsMetadata, FsTime, MetadataReading, PlatformMetadata, UnixMetadata, WindowsMetadata,
};
pub use fs::mkdir::{fs_mkdir_s, FsMkdirOptions};
pub use fs::open::{fs_open_s, FsOpenOptions};
pub use fs::read::{fs_read_s, read_buffer, settle_read};
pub use fs::read_dir::{
    fs_read_dir_next_s, fs_read_dir_s, settle_read_dir_next, DirEntryReading, FsDirEntry,
    FsFileType,
};
pub use fs::read_file::{fs_read_file_s, settle_read_file};
pub use fs::read_text_file::{fs_read_text_file_s, settle_read_text_file, settle_read_text_file_decoded};
pub use fs::stat::{fs_lstat_s, fs_stat_s, settle_stat};
pub use fs::symlink::{fs_symlink_s, FsSymlinkOptions, ParseError};
pub use fs::write::{fs_write_s, settle_write, settle_write_decoded};
pub use fs::{settle_rid, settle_rid_decoded, settle_unit, settle_unit_decoded, Settlement};
pub use resource::{Resource, ResourceId, ResourceTable};
