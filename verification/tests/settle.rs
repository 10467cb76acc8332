use rsvim_fs::{
    settle_read, settle_read_dir_next, settle_read_file, settle_read_text_file,
    settle_read_text_file_decoded, settle_rid, settle_rid_decoded, settle_stat, settle_unit,
    settle_unit_decoded, settle_write, settle_write_decoded, FsDirEntry, FsMetadata, IoError,
    Settlement, TheErr,
};

fn err() -> TheErr {
    TheErr::CreateDirectoryFailed("/d".to_string(), IoError { code: Some(17), message: "exists".to_string() })
}

#[test]
fn settle_unit_resolves_on_zero() {
    let bytes = postcard::to_allocvec(&0u32).unwrap();
    assert_eq!(settle_unit(Ok(bytes)), Some(Settlement::Resolve(())));
}

#[test]
fn settle_unit_broken_payloads() {
    let bytes = postcard::to_allocvec(&5u32).unwrap();
    assert_eq!(settle_unit(Ok(bytes)), None);
    assert_eq!(settle_unit(Ok(vec![])), None);
    assert_eq!(settle_unit(Ok(vec![0xff, 0xff, 0xff, 0xff, 0xff, 0xff])), None);
}

#[test]
fn settle_unit_rejects_errors() {
    assert_eq!(settle_unit(Err(err())), Some(Settlement::Reject(err())));
}

#[test]
fn settle_rid_decodes_id() {
    let bytes = postcard::to_allocvec(&7i32).unwrap();
    assert_eq!(settle_rid(Ok(bytes)), Some(Settlement::Resolve(7)));
    let bytes = postcard::to_allocvec(&300i32).unwrap();
    assert_ne!(bytes.len(), 1);
    assert_eq!(settle_rid(Ok(bytes)), Some(Settlement::Resolve(300)));
    assert_eq!(settle_rid(Ok(vec![])), None);
    assert_eq!(settle_rid(Err(err())), Some(Settlement::Reject(err())));
}

#[test]
fn settle_write_decodes_count() {
    let bytes = postcard::to_allocvec(&5usize).unwrap();
    assert_eq!(settle_write(Ok(bytes)), Some(Settlement::Resolve(5)));
    let bytes = postcard::to_allocvec(&70000usize).unwrap();
    assert_eq!(settle_write(Ok(bytes)), Some(Settlement::Resolve(70000)));
    assert_eq!(settle_write(Ok(vec![])), None);
    assert_eq!(settle_write(Err(err())), Some(Settlement::Reject(err())));
}

#[test]
fn settle_read_text_file_decodes_text() {
    let bytes = postcard::to_allocvec(&"hello".to_string()).unwrap();
    assert_eq!(settle_read_text_file(Ok(bytes)), Some(Settlement::Resolve("hello".to_string())));
    assert_eq!(settle_read_text_file(Ok(vec![2, 0xff, 0xfe])), None);
    assert_eq!(settle_read_text_file(Ok(vec![5, b'a'])), None);
    assert_eq!(settle_read_text_file(Err(err())), Some(Settlement::Reject(err())));
}

#[test]
fn settle_write_large_counts() {
    let bytes = postcard::to_allocvec(&300usize).unwrap();
    assert_eq!(settle_write(Ok(bytes)), Some(Settlement::Resolve(300)));
    let bytes = postcard::to_allocvec(&(u32::MAX as usize)).unwrap();
    assert_eq!(settle_write(Ok(bytes)), Some(Settlement::Resolve(u32::MAX as i32)));
    // A varint longer than ten bytes does not decode.
    assert_eq!(settle_write(Ok(vec![0x80; 11])), None);
}

#[test]
fn settle_decoded_values() {
    assert_eq!(settle_unit_decoded(Ok(Some(0))), Some(Settlement::Resolve(())));
    assert_eq!(settle_unit_decoded(Ok(Some(3))), None);
    assert_eq!(settle_unit_decoded(Ok(None)), None);
    assert_eq!(settle_rid_decoded(Ok(Some(-2))), Some(Settlement::Resolve(-2)));
    assert_eq!(settle_rid_decoded(Ok(None)), None);
    assert_eq!(settle_write_decoded(Ok(Some(1 << 31))), Some(Settlement::Resolve(i32::MIN)));
    assert_eq!(settle_write_decoded(Err(err())), Some(Settlement::Reject(err())));
    assert_eq!(
        settle_read_text_file_decoded(Ok(Some("t".to_string()))),
        Some(Settlement::Resolve("t".to_string()))
    );
    assert_eq!(settle_read_text_file_decoded(Ok(None)), None);
}

#[test]
fn settle_text_with_padded_length_prefix() {
    // A five-byte varint for the length 0, as a 64-bit target reads it.
    let bytes = vec![0x80, 0x80, 0x80, 0x80, 0x80, 0x00];
    if usize::BITS == 64 {
        assert_eq!(settle_read_text_file(Ok(bytes)), Some(Settlement::Resolve(String::new())));
    } else {
        assert_eq!(settle_read_text_file(Ok(bytes)), None);
    }
}

#[test]
fn settle_unit_u32_bounds() {
    // Five bytes whose last carries more than 32 bits do not decode.
    assert_eq!(settle_unit(Ok(vec![0x80, 0x80, 0x80, 0x80, 0x10])), None);
    // A padded encoding of 0 does decode.
    assert_eq!(settle_unit(Ok(vec![0x80, 0x00])), Some(Settlement::Resolve(())));
}

#[test]
fn settle_rid_zigzag() {
    assert_eq!(settle_rid(Ok(vec![3])), Some(Settlement::Resolve(-2)));
    assert_eq!(settle_rid(Ok(vec![4])), Some(Settlement::Resolve(2)));
}

#[test]
fn settle_other_tasks() {
    let entry = FsDirEntry { name: "n".to_string(), is_dir: true, is_file: false, is_symlink: false };
    assert_eq!(settle_read_dir_next(None), Settlement::Resolve(None));
    assert_eq!(settle_read_dir_next(Some(Ok(entry.clone()))), Settlement::Resolve(Some(entry)));
    assert_eq!(settle_read_dir_next(Some(Err(err()))), Settlement::Reject(err()));
    let meta = FsMetadata::default();
    assert_eq!(settle_stat(Ok(meta)), Settlement::Resolve(meta));
    assert_eq!(settle_stat(Err(err())), Settlement::Reject(err()));
    assert_eq!(settle_read(Ok(vec![1, 2, 3])), Settlement::Resolve((vec![1, 2, 3], 3)));
    assert_eq!(settle_read(Err(err())), Settlement::Reject(err()));
    assert_eq!(settle_read_file(Ok(vec![7])), Settlement::Resolve(vec![7]));
    assert_eq!(settle_read_file(Err(err())), Settlement::Reject(err()));
}
