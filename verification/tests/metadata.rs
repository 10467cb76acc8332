use rsvim_fs::{
    convert, fs_lstat_s, fs_stat_s, FsMetadata, FsTime, IoError, MetadataReading,
    PlatformMetadata, TheErr, UnixMetadata, WindowsMetadata,
};

fn io_err(msg: &str) -> IoError {
    IoError { code: Some(95), message: msg.to_string() }
}

fn unix() -> UnixMetadata {
    UnixMetadata {
        dev: 1, ino: 2, mode: 0o100644, nlink: 3, uid: 1000, gid: 100, rdev: 0, size: 12,
        atime: 10, atime_nsec: 11, mtime: 20, mtime_nsec: 21, ctime: 30, ctime_nsec: 31,
        blksize: 4096, blocks: 8,
    }
}

fn reading(platform: PlatformMetadata) -> MetadataReading {
    MetadataReading {
        accessed: Ok(FsTime { secs: 10, nanos: 11 }),
        created: Err(io_err("unsupported")),
        modified: Ok(FsTime { secs: -5, nanos: 0 }),
        is_dir: false,
        is_file: true,
        is_symlink: false,
        len: 12,
        read_only: true,
        platform,
    }
}

#[test]
fn metadata_default_is_empty() {
    let m = FsMetadata::default();
    assert_eq!(m.accessed, None);
    assert!(!m.is_file && !m.is_dir && !m.is_symlink && !m.read_only);
    assert_eq!(m.len, 0);
    assert_eq!(m.dev, None);
    assert_eq!(m.file_size, None);
}

#[test]
fn convert_unix_reading() {
    let m = convert(reading(PlatformMetadata::Unix(unix())));
    assert_eq!(m.accessed, Some(FsTime { secs: 10, nanos: 11 }));
    assert_eq!(m.created, None);
    assert_eq!(m.modified, Some(FsTime { secs: -5, nanos: 0 }));
    assert!(m.is_file && m.read_only && !m.is_dir);
    assert_eq!(m.len, 12);
    assert_eq!(m.mode, Some(0o100644));
    assert_eq!(m.uid, Some(1000));
    assert_eq!(m.blksize, Some(4096));
    assert_eq!(m.ctime_nsec, Some(31));
    assert_eq!(m.file_attributes, None);
    assert_eq!(m.creation_time, None);
}

#[test]
fn convert_windows_reading() {
    let w = WindowsMetadata {
        file_attributes: 32, creation_time: 5, last_access_time: 6, last_write_time: 7, file_size: 12,
    };
    let m = convert(reading(PlatformMetadata::Windows(w)));
    assert_eq!(m.file_attributes, Some(32));
    assert_eq!(m.last_write_time, Some(7));
    assert_eq!(m.file_size, Some(12));
    assert_eq!(m.dev, None);
    assert_eq!(m.blocks, None);
}

#[test]
fn convert_other_platform_reading() {
    let m = convert(reading(PlatformMetadata::Other));
    let mut expected = FsMetadata::default();
    expected.accessed = Some(FsTime { secs: 10, nanos: 11 });
    expected.modified = Some(FsTime { secs: -5, nanos: 0 });
    expected.is_file = true;
    expected.len = 12;
    expected.read_only = true;
    assert_eq!(m, expected);
}

#[test]
fn stat_and_lstat() {
    let m = fs_stat_s("/f", Ok(reading(PlatformMetadata::Unix(unix())))).unwrap();
    assert_eq!(m.ino, Some(2));
    let l = fs_lstat_s("/f", Ok(reading(PlatformMetadata::Other))).unwrap();
    assert_eq!(l.ino, None);
    assert_eq!(
        fs_stat_s("/g", Err(io_err("gone"))),
        Err(TheErr::ReadFileByPathFailed("/g".to_string(), io_err("gone")))
    );
    assert_eq!(
        fs_lstat_s("/h", Err(io_err("gone"))),
        Err(TheErr::ReadFileByPathFailed("/h".to_string(), io_err("gone")))
    );
}

#[test]
fn time_from_epoch_offset() {
    assert_eq!(FsTime::from_epoch_offset(false, 5, 7), FsTime { secs: 5, nanos: 7 });
    assert_eq!(FsTime::from_epoch_offset(true, 5, 0), FsTime { secs: -5, nanos: 0 });
    assert_eq!(FsTime::from_epoch_offset(true, 5, 250_000_000), FsTime { secs: -6, nanos: 750_000_000 });
    assert_eq!(FsTime::from_epoch_offset(true, 0, 0), FsTime { secs: 0, nanos: 0 });
}

#[test]
fn time_epoch_offset_round_trip() {
    for t in [
        FsTime { secs: 0, nanos: 0 },
        FsTime { secs: 12, nanos: 999_999_999 },
        FsTime { secs: -1, nanos: 1 },
        FsTime { secs: -6, nanos: 750_000_000 },
        FsTime { secs: i64::MIN + 1, nanos: 0 },
    ] {
        let (before, secs, nanos) = t.epoch_offset();
        assert_eq!(FsTime::from_epoch_offset(before, secs, nanos), t);
    }
    assert_eq!(FsTime { secs: -6, nanos: 750_000_000 }.epoch_offset(), (true, 5, 250_000_000));
    assert_eq!(FsTime { secs: i64::MIN, nanos: 0 }.epoch_offset(), (true, 1u64 << 63, 0));
}
