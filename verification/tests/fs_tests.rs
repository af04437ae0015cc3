use httpfs::file_system::{EntryKind, HttpFs, FILE_INO, ROOT_INO};
use httpfs::http_meta_reader::HttpMetaReader;

fn new_fs() -> HttpFs {
    HttpFs::new(
        "http://example/resource",
        10 << 20,
        "file",
        vec!["X-Custom-Header: yes".to_string()],
    )
}

#[test]
fn lookup_resolves_only_the_configured_name() {
    let fs = new_fs();
    let attr = fs.lookup(ROOT_INO, &"file".to_string()).unwrap();
    assert_eq!(attr.ino, FILE_INO);
    assert_eq!(attr.size, 10 << 20);
    assert!(matches!(attr.kind, EntryKind::RegularFile));
    assert_eq!(attr.perm, 0o644);
    assert!(fs.lookup(ROOT_INO, &"other".to_string()).is_none());
    assert!(fs.lookup(FILE_INO, &"file".to_string()).is_none());
}

#[test]
fn getattr_by_inode() {
    let fs = new_fs();
    let dir = fs.getattr(ROOT_INO).unwrap();
    assert_eq!(dir.ino, ROOT_INO);
    assert!(matches!(dir.kind, EntryKind::Directory));
    assert_eq!(dir.perm, 0o755);
    assert_eq!(dir.nlink, 2);
    let file = fs.getattr(FILE_INO).unwrap();
    assert_eq!(file.ino, FILE_INO);
    assert_eq!(file.size, 10 << 20);
    assert_eq!(file.nlink, 1);
    assert!(fs.getattr(3).is_none());
}

#[test]
fn readdir_lists_dot_dotdot_and_file() {
    let fs = new_fs();
    let all = fs.readdir(ROOT_INO, 0).unwrap();
    assert_eq!(all.len(), 3);
    assert_eq!(all[0].name, ".");
    assert_eq!(all[0].ino, ROOT_INO);
    assert_eq!(all[0].next_offset, 1);
    assert_eq!(all[1].name, "..");
    assert_eq!(all[1].ino, ROOT_INO);
    assert_eq!(all[1].next_offset, 2);
    assert_eq!(all[2].name, "file");
    assert_eq!(all[2].ino, FILE_INO);
    assert_eq!(all[2].next_offset, 3);
    assert!(matches!(all[2].kind, EntryKind::RegularFile));
}

#[test]
fn readdir_honours_continuation_offset() {
    let fs = new_fs();
    let rest = fs.readdir(ROOT_INO, 2).unwrap();
    assert_eq!(rest.len(), 1);
    assert_eq!(rest[0].name, "file");
    let done = fs.readdir(ROOT_INO, 3).unwrap();
    assert!(done.is_empty());
    assert!(fs.readdir(FILE_INO, 0).is_none());
}

#[test]
fn read_addr_clamps_to_file_end() {
    let fs = new_fs();
    let len: usize = 10 << 20;
    let a = fs.read_addr(FILE_INO, 0, 4096).unwrap();
    assert_eq!(a.offset, 0);
    assert_eq!(a.size, 4096);
    let b = fs.read_addr(FILE_INO, (len - 100) as u64, 4096).unwrap();
    assert_eq!(b.offset, len - 100);
    assert_eq!(b.size, 100);
    let c = fs.read_addr(FILE_INO, (len + 50) as u64, 4096).unwrap();
    assert_eq!(c.offset, len);
    assert_eq!(c.size, 0);
    assert!(fs.read_addr(ROOT_INO, 0, 4096).is_none());
}

#[test]
fn meta_reader_keeps_request_parameters() {
    let headers = vec!["X-Custom: 1".to_string()];
    let meta = HttpMetaReader::new("http://example/resource", headers.clone());
    assert_eq!(meta.resource_url, "http://example/resource");
    assert_eq!(meta.additional_headers, headers);
}
