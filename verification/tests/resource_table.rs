use rsvim_fs::{fs_close_s, fs_open_s, fs_read_dir_s, IoError, Resource, ResourceId, ResourceTable, TheErr};

fn io_err(msg: &str) -> IoError {
    IoError { code: Some(2), message: msg.to_string() }
}

#[test]
fn table_hands_out_increasing_fresh_ids() {
    let mut t: ResourceTable<&str, u32> = ResourceTable::new();
    assert_eq!(t.len(), 0);
    let a = t.add_file("a");
    let b = t.add_read_dir(7);
    let c = t.add_file("c");
    assert_eq!(a, ResourceId(0));
    assert_eq!(b, ResourceId(1));
    assert_eq!(c, ResourceId(2));
    assert_eq!(t.len(), 3);
    assert!(!t.is_full());
}

#[test]
fn table_lookup_by_kind() {
    let mut t: ResourceTable<&str, u32> = ResourceTable::new();
    let f = t.add_file("file");
    let d = t.add_read_dir(9);
    assert_eq!(t.get(f), Some(&Resource::File("file")));
    assert_eq!(t.get_file(f), Some(&"file"));
    assert_eq!(t.get_read_dir(f), None);
    assert_eq!(t.get_read_dir(d), Some(&9));
    assert_eq!(t.get_file(d), None);
    assert_eq!(t.get(ResourceId(5)), None);
    assert!(t.contains(d));
    assert!(!t.contains(ResourceId(-1)));
}

#[test]
fn table_remove_then_ids_not_reused() {
    let mut t: ResourceTable<&str, u32> = ResourceTable::new();
    let a = t.add_file("a");
    assert_eq!(t.remove(a), Some(Resource::File("a")));
    assert_eq!(t.remove(a), None);
    assert!(!t.contains(a));
    let b = t.add_file("b");
    assert_eq!(b, ResourceId(1));
}

#[test]
fn close_after_open_restores_contents() {
    let mut t: ResourceTable<&str, u32> = ResourceTable::new();
    let keep = t.add_file("keep");
    let rid = fs_open_s(&mut t, "/tmp/x", Ok("x")).unwrap();
    assert_eq!(t.len(), 2);
    fs_close_s(&mut t, rid);
    assert_eq!(t.len(), 1);
    assert!(!t.contains(rid));
    assert_eq!(t.get_file(keep), Some(&"keep"));
}

#[test]
fn open_failure_reports_path_and_keeps_table() {
    let mut t: ResourceTable<&str, u32> = ResourceTable::new();
    let r = fs_open_s(&mut t, "/no/such", Err(io_err("not found")));
    assert_eq!(r, Err(TheErr::OpenFileFailed("/no/such".to_string(), io_err("not found"))));
    assert_eq!(t.len(), 0);
    let next = fs_open_s(&mut t, "/ok", Ok("ok")).unwrap();
    assert_eq!(next, ResourceId(0));
}

#[test]
fn read_dir_open_and_failure() {
    let mut t: ResourceTable<&str, u32> = ResourceTable::new();
    let rid = fs_read_dir_s(&mut t, "/dir", Ok(42)).unwrap();
    assert_eq!(t.get_read_dir(rid), Some(&42));
    let r = fs_read_dir_s(&mut t, "/nodir", Err(io_err("nope")));
    assert_eq!(r, Err(TheErr::ReadDirectoryByPathFailed("/nodir".to_string(), io_err("nope"))));
    assert_eq!(t.len(), 1);
}

#[test]
fn resource_id_conversions() {
    assert_eq!(ResourceId::from_i32(12).to_i32(), 12);
    assert_eq!(ResourceId::from_i32(-4), ResourceId(-4));
}
