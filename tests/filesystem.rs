use bytes::Bytes;
use upgraded_giggle::attr::{fileattr, statfs, FileAttr, FileKind, RequestInfo};
use upgraded_giggle::client::{decode_creation, text_equals, CreationOutcome, RemoteFailure, SeafileAPI};
use upgraded_giggle::content::clamp_read;
use upgraded_giggle::fs::{
    check_create_mode, content_target, creation_result, creation_target, entry_listing, getattr_entry,
    getattr_library, getattr_root, read_result, rmdir_result, root_listing, select_library,
    FsError, SeafileFS,
};
use upgraded_giggle::ops::{
    getattr_step, mkdir_step, mknod_step, read_step, readdir_step, rmdir_step, Call, Fetched, Step,
};
use upgraded_giggle::library::{deduplicate, find_entry, find_library, name_less, Library, LibraryEntry};
use upgraded_giggle::path::{path_string, resolve_path};

fn lib(id: &str, name: &str, size: u64, mtime: u64) -> Library {
    Library {
        permission: "rw".to_string(),
        encrypted: false,
        mtime,
        owner: "owner@example.com".to_string(),
        id: id.to_string(),
        size,
        name: name.to_string(),
        library_type: "repo".to_string(),
        is_virtual: false,
        desc: String::new(),
        root: String::new(),
    }
}

fn entry(name: &str, entry_type: &str, size: u64, mtime: u64) -> LibraryEntry {
    LibraryEntry {
        id: format!("id-{}", name),
        mtime,
        size,
        name: name.to_string(),
        permission: "rw".to_string(),
        entry_type: entry_type.to_string(),
    }
}

fn comps(v: &[&str]) -> Vec<String> {
    v.iter().map(|s| s.to_string()).collect()
}

fn req() -> RequestInfo {
    RequestInfo { uid: 1000, gid: 100 }
}

fn names_of(v: &[Library]) -> Vec<String> {
    v.iter().map(|l| l.name.clone()).collect()
}

#[test]
fn name_order_is_lexicographic() {
    assert!(name_less(&"Alpha".to_string(), &"Beta".to_string()));
    assert!(name_less(&"Al".to_string(), &"Alpha".to_string()));
    assert!(!name_less(&"Alpha".to_string(), &"Alpha".to_string()));
    assert!(name_less(&"Zeta".to_string(), &"alpha".to_string()));
    assert!(!name_less(&"b".to_string(), &"a".to_string()));
}

#[test]
fn deduplicate_sorts_and_keeps_first_of_each_name() {
    let libs = vec![
        lib("3", "Household", 30, 3),
        lib("1", "Alpha", 10, 1),
        lib("4", "Household", 40, 4),
        lib("2", "Alpha", 20, 2),
    ];
    let r = deduplicate(&libs);
    assert_eq!(names_of(&r), vec!["Alpha".to_string(), "Household".to_string()]);
    assert_eq!(r[0].id, "1");
    assert_eq!(r[1].id, "3");
}

#[test]
fn deduplicate_empty_list() {
    assert!(deduplicate(&Vec::new()).is_empty());
}

#[test]
fn repeated_resolution_gives_same_library() {
    let libs = vec![lib("b", "Dup", 2, 2), lib("a", "Dup", 1, 1), lib("c", "Other", 3, 3)];
    let first = deduplicate(&libs);
    let second = deduplicate(&libs);
    let again = deduplicate(&first);
    let name = "Dup".to_string();
    for list in [&first, &second, &again] {
        let k = find_library(list, &name).unwrap();
        assert_eq!(list[k].id, "b");
    }
    assert_eq!(find_library(&first, &"dup".to_string()), None);
}

#[test]
fn library_list_is_fetched_once() {
    let mut api = SeafileAPI::new("https://files.example.com", "user", "secret");
    let mut fetches = 0;
    let mut listings = Vec::new();
    for _ in 0..3 {
        let list = match api.cached_libraries() {
            Some(l) => l,
            None => {
                fetches += 1;
                let fetched = vec![lib("2", "Household", 0, 0), lib("1", "Alpha", 0, 0)];
                api.store_libraries(&fetched)
            }
        };
        listings.push(names_of(&list));
    }
    assert_eq!(fetches, 1);
    assert!(!api.needs_library_fetch());
    for l in &listings {
        assert_eq!(l, &vec!["Alpha".to_string(), "Household".to_string()]);
    }
    api.invalidate_libraries();
    assert!(api.needs_library_fetch());
    assert!(api.cached_libraries().is_none());
}

#[test]
fn token_is_cached_with_prefix() {
    let mut api = SeafileAPI::new("https://files.example.com", "user", "secret");
    assert_eq!(api.cached_authorization(), None);
    let a = api.store_token("abc123");
    assert_eq!(a, "Token abc123");
    assert_eq!(api.cached_authorization(), Some("Token abc123".to_string()));
}

#[test]
fn request_urls() {
    let fs = SeafileFS::new("https://files.example.com", "user", "secret");
    assert_eq!(fs.api.auth_url(), "https://files.example.com/api2/auth-token/");
    assert_eq!(fs.api.repos_url(), "https://files.example.com/api2/repos/");
    assert_eq!(fs.api.dir_url("r1"), "https://files.example.com/api2/repos/r1/dir/");
    assert_eq!(fs.api.file_url("r1"), "https://files.example.com/api2/repos/r1/file/");
    assert_eq!(fs.api.username, "user");
    assert!(fs.api.libraries.is_none());
}

#[test]
fn resolve_by_depth() {
    let r = resolve_path(&comps(&[]));
    assert!(r.selector.is_none() && r.relative_path.is_empty() && r.leaf_name.is_none());
    let r = resolve_path(&comps(&["Lib"]));
    assert_eq!(r.selector, Some("Lib".to_string()));
    assert!(r.relative_path.is_empty() && r.leaf_name.is_none());
    let r = resolve_path(&comps(&["Lib", "a", "b", "c.txt"]));
    assert_eq!(r.selector, Some("Lib".to_string()));
    assert_eq!(r.relative_path, comps(&["a", "b"]));
    assert_eq!(r.leaf_name, Some("c.txt".to_string()));
}

#[test]
fn path_strings() {
    assert_eq!(path_string(&comps(&[])), "/");
    assert_eq!(path_string(&comps(&["a"])), "/a");
    assert_eq!(path_string(&comps(&["a", "b c"])), "/a/b c");
}

#[test]
fn root_attributes_are_an_empty_directory() {
    let a = getattr_root(req());
    assert_eq!(a.kind, FileKind::Directory);
    assert_eq!(a.size, 0);
    assert_eq!(a.perm, 0o755);
    assert_eq!((a.uid, a.gid), (1000, 100));
}

#[test]
fn library_attributes_come_from_the_record() {
    let libs = Ok(vec![lib("1", "Alpha", 123, 456)]);
    let a = getattr_library(req(), &libs, &"Alpha".to_string()).unwrap();
    assert_eq!(a, fileattr(req(), FileKind::Directory, 0o755, 123, 456));
    assert_eq!((a.mtime, a.atime, a.ctime, a.crtime, a.blocks), (456, 456, 456, 0, 100));
    assert_eq!(getattr_library(req(), &libs, &"Beta".to_string()), Err(FsError::NotFound));
    assert_eq!(getattr_library(req(), &Err(RemoteFailure), &"Alpha".to_string()), Err(FsError::NotFound));
}

#[test]
fn entry_attributes_by_type() {
    let entries = Ok(vec![entry("sub", "dir", 0, 7), entry("a.txt", "file", 10, 1000)]);
    let d = getattr_entry(req(), &entries, &"sub".to_string()).unwrap();
    assert_eq!((d.kind, d.perm, d.mtime), (FileKind::Directory, 0o755, 7));
    let f: FileAttr = getattr_entry(req(), &entries, &"a.txt".to_string()).unwrap();
    assert_eq!((f.kind, f.perm, f.size, f.mtime), (FileKind::RegularFile, 0o644, 10, 1000));
    assert_eq!(getattr_entry(req(), &entries, &"b.txt".to_string()), Err(FsError::NotFound));
    assert_eq!(getattr_entry(req(), &Err(RemoteFailure), &"a.txt".to_string()), Err(FsError::NotFound));
}

#[test]
fn find_entry_takes_first_match() {
    let entries = vec![entry("x", "file", 1, 0), entry("x", "dir", 2, 0)];
    assert_eq!(find_entry(&entries, &"x".to_string()), Some(0));
    assert_eq!(find_entry(&entries, &"y".to_string()), None);
}

#[test]
fn read_window_clamps() {
    let content = Bytes::from(b"0123456789".to_vec());
    assert_eq!(&clamp_read(content.clone(), 2, 3)[..], b"234");
    assert_eq!(&clamp_read(content.clone(), 5, 100)[..], b"56789");
    assert_eq!(&clamp_read(content.clone(), 10, 4)[..], b"");
    assert_eq!(&clamp_read(content.clone(), 50, 4)[..], b"");
    assert_eq!(&clamp_read(content.clone(), 0, 0)[..], b"");
    assert_eq!(&clamp_read(content, 0, 10)[..], b"0123456789");
    assert_eq!(&clamp_read(Bytes::new(), 0, 10)[..], b"");
}

#[test]
fn read_failure_is_not_found() {
    assert_eq!(read_result(Err(RemoteFailure), 0, 1).unwrap_err(), FsError::NotFound);
}

#[test]
fn create_mode_validation() {
    assert_eq!(check_create_mode(0o100644), Ok(()));
    assert_eq!(check_create_mode(0o104644), Ok(()));
    for mode in [0o100664u32, 0o100600, 0o100744, 0o100645, 0o040644, 0o120644, 0o100000, 0o644] {
        assert_eq!(check_create_mode(mode), Err(FsError::PermissionDenied));
    }
    let parent = comps(&["Lib"]);
    let name = "n.txt".to_string();
    let f = Fetched::new();
    assert!(matches!(
        mknod_step(req(), &parent, &name, 0o100600, &f),
        Step::Done(Err(FsError::PermissionDenied))
    ));
    assert!(matches!(
        mknod_step(req(), &comps(&[]), &name, 0o100644, &f),
        Step::Done(Err(FsError::PermissionDenied))
    ));
    assert!(matches!(mknod_step(req(), &parent, &name, 0o100644, &f), Step::Call(Call::ListLibraries)));
    let f = Fetched { libraries: Some(Ok(vec![lib("L", "Lib", 0, 0)])), ..Fetched::new() };
    match mknod_step(req(), &parent, &name, 0o100644, &f) {
        Step::Call(Call::CreateFile { library_id, path }) => {
            assert_eq!((library_id.as_str(), path.as_str()), ("L", "/n.txt"))
        }
        _ => panic!("expected a file creation call"),
    }
    let f = Fetched { answer: Some(Ok("\"success\"".to_string())), ..f };
    match mknod_step(req(), &parent, &name, 0o100644, &f) {
        Step::Done(Ok(a)) => assert_eq!((a.kind, a.perm), (FileKind::RegularFile, 0o644)),
        _ => panic!("expected the new file's attributes"),
    }
}

#[test]
fn mkdir_at_root_is_denied() {
    let f = Fetched::new();
    assert!(matches!(
        mkdir_step(req(), &comps(&[]), &"NewLib".to_string(), &f),
        Step::Done(Err(FsError::PermissionDenied))
    ));
    assert_eq!(
        creation_target(&comps(&["Lib", "a"]), &"b".to_string()),
        Ok(("Lib".to_string(), "/a/b".to_string()))
    );
    assert_eq!(
        creation_target(&comps(&["Lib"]), &"b".to_string()),
        Ok(("Lib".to_string(), "/b".to_string()))
    );
    let f = Fetched { libraries: Some(Ok(vec![lib("L", "Lib", 0, 0)])), ..Fetched::new() };
    match mkdir_step(req(), &comps(&["Lib", "a"]), &"b".to_string(), &f) {
        Step::Call(Call::CreateDirectory { library_id, path }) => {
            assert_eq!((library_id.as_str(), path.as_str()), ("L", "/a/b"))
        }
        _ => panic!("expected a directory creation call"),
    }
    assert!(matches!(
        mkdir_step(req(), &comps(&["Gone"]), &"b".to_string(), &f),
        Step::Done(Err(FsError::NotFound))
    ));
    let f = Fetched { answer: Some(Ok("{}".to_string())), ..f };
    assert!(matches!(
        mkdir_step(req(), &comps(&["Lib"]), &"b".to_string(), &f),
        Step::Done(Err(FsError::NotImplemented))
    ));
}

#[test]
fn creation_answers() {
    assert_eq!(decode_creation("\"success\""), CreationOutcome::Created);
    assert_eq!(decode_creation("success"), CreationOutcome::Refused);
    assert_eq!(decode_creation("{\"error_msg\": \"x\"}"), CreationOutcome::Refused);
    let ok = Ok("\"success\"".to_string());
    let d = creation_result(req(), FileKind::Directory, &ok).unwrap();
    assert_eq!((d.kind, d.perm, d.size), (FileKind::Directory, 0o755, 0));
    let f = creation_result(req(), FileKind::RegularFile, &ok).unwrap();
    assert_eq!((f.kind, f.perm, f.size), (FileKind::RegularFile, 0o644, 0));
    assert_eq!(
        creation_result(req(), FileKind::Directory, &Ok("nope".to_string())),
        Err(FsError::NotImplemented)
    );
    assert_eq!(
        creation_result(req(), FileKind::Directory, &Err(RemoteFailure)),
        Err(FsError::NotFound)
    );
}

#[test]
fn text_comparison() {
    assert!(text_equals("abc", "abc"));
    assert!(!text_equals("abc", "abd"));
    assert!(!text_equals("abc", "ab"));
    assert!(text_equals("", ""));
}

#[test]
fn rmdir_is_disabled() {
    let libs = Ok(vec![lib("1", "Lib", 0, 0)]);
    assert_eq!(rmdir_result(&libs, &"Lib".to_string()), FsError::NotImplemented);
    assert_eq!(rmdir_result(&libs, &"Gone".to_string()), FsError::NotFound);
    assert_eq!(rmdir_result(&Err(RemoteFailure), &"Lib".to_string()), FsError::NotFound);
    let f = Fetched { libraries: Some(libs), ..Fetched::new() };
    assert!(matches!(rmdir_step(&comps(&[]), &"Lib".to_string(), &f), Step::Done(Err(FsError::PermissionDenied))));
    assert!(matches!(rmdir_step(&comps(&["Lib"]), &"d".to_string(), &f), Step::Done(Err(FsError::NotImplemented))));
    assert!(matches!(rmdir_step(&comps(&["Gone"]), &"d".to_string(), &f), Step::Done(Err(FsError::NotFound))));
}

#[test]
fn statfs_is_nominal() {
    let s = statfs();
    assert_eq!((s.blocks, s.bfree, s.bavail, s.files, s.ffree), (100, 100, 0, 100, 100));
    assert_eq!((s.bsize, s.namelen, s.frsize), (100, 255, 100));
}

#[test]
fn mount_scenario_lists_and_reads() {
    let mut fs = SeafileFS::new("https://files.example.com", "user", "secret");
    let libs = fs.api.store_libraries(&vec![lib("h", "Household", 10, 1), lib("a", "Alpha", 5, 2)]);
    let root = root_listing(&Ok(libs)).unwrap();
    let names: Vec<String> = root.iter().map(|e| e.name.clone()).collect();
    assert_eq!(names, vec!["Alpha".to_string(), "Household".to_string()]);
    assert!(root.iter().all(|e| e.kind == FileKind::Directory));

    let (selector, path) = content_target(&comps(&["Household"])).unwrap();
    assert_eq!((selector.as_str(), path.as_str()), ("Household", "/"));
    let library = select_library(&Ok(fs.api.cached_libraries().unwrap()), &selector).unwrap();
    assert_eq!(library.id, "h");
    let listing = entry_listing(&Ok(vec![entry("a.txt", "file", 10, 1000)])).unwrap();
    assert_eq!(listing.len(), 1);
    assert_eq!(listing[0].name, "a.txt");
    assert_eq!(listing[0].kind, FileKind::RegularFile);

    let (selector, path) = content_target(&comps(&["Household", "a.txt"])).unwrap();
    assert_eq!((selector.as_str(), path.as_str()), ("Household", "/a.txt"));
    let body = Bytes::from(b"0123456789".to_vec());
    let data = read_result(Ok(body), 5, 100).unwrap();
    assert_eq!(&data[..], b"56789");
    assert_eq!(content_target(&comps(&[])), Err(FsError::NotFound));
}

/// A stub of the remote service that counts the calls made to it.
struct Stub {
    libraries: Vec<Library>,
    entries: Vec<LibraryEntry>,
    content: Vec<u8>,
    calls: usize,
    fetches: usize,
    api: SeafileAPI,
}

impl Stub {
    fn perform(&mut self, call: Call, f: &mut Fetched) {
        self.calls += 1;
        match call {
            Call::ListLibraries => {
                let list = match self.api.cached_libraries() {
                    Some(l) => l,
                    None => {
                        self.fetches += 1;
                        self.api.store_libraries(&self.libraries)
                    }
                };
                f.libraries = Some(Ok(list))
            }
            Call::ListEntries { .. } => {
                f.entries = Some(Ok(self
                    .entries
                    .iter()
                    .map(|e| entry(&e.name, &e.entry_type, e.size, e.mtime))
                    .collect()))
            }
            Call::DownloadLink { library_id, path } => f.link = Some(Ok(format!("https://dl/{}{}", library_id, path))),
            Call::Download { .. } => f.content = Some(Ok(Bytes::from(self.content.clone()))),
            Call::CreateDirectory { .. } | Call::CreateFile { .. } => f.answer = Some(Ok("\"success\"".to_string())),
        }
    }

    fn run<T>(&mut self, mut step: impl FnMut(&mut Fetched) -> Step<T>) -> Result<T, FsError> {
        let mut f = Fetched::new();
        loop {
            match step(&mut f) {
                Step::Done(r) => return r,
                Step::Call(c) => self.perform(c, &mut f),
            }
        }
    }
}

fn household_stub() -> Stub {
    Stub {
        libraries: vec![lib("h", "Household", 10, 1), lib("a", "Alpha", 5, 2)],
        entries: vec![entry("a.txt", "file", 10, 1000)],
        content: b"0123456789".to_vec(),
        calls: 0,
        fetches: 0,
        api: SeafileAPI::new("https://files.example.com", "user", "secret"),
    }
}

#[test]
fn mounted_scenario_through_steps() {
    let mut stub = household_stub();
    let root = stub.run(|f| readdir_step(&comps(&[]), f)).unwrap();
    let names: Vec<(String, FileKind)> = root.iter().map(|e| (e.name.clone(), e.kind)).collect();
    assert_eq!(names, vec![("Alpha".to_string(), FileKind::Directory), ("Household".to_string(), FileKind::Directory)]);

    let listing = stub.run(|f| readdir_step(&comps(&["Household"]), f)).unwrap();
    assert_eq!(listing.len(), 1);
    assert_eq!((listing[0].name.as_str(), listing[0].kind), ("a.txt", FileKind::RegularFile));

    let data = stub.run(|f| read_step(&comps(&["Household", "a.txt"]), 5, 100, f)).unwrap();
    assert_eq!(&data[..], b"56789");

    let a = stub.run(|f| getattr_step(req(), &comps(&["Household", "a.txt"]), f)).unwrap();
    assert_eq!((a.kind, a.size, a.mtime, a.perm), (FileKind::RegularFile, 10, 1000, 0o644));
    let a = stub.run(|f| getattr_step(req(), &comps(&["Household"]), f)).unwrap();
    assert_eq!((a.kind, a.size, a.mtime), (FileKind::Directory, 10, 1));
    assert_eq!(stub.run(|f| getattr_step(req(), &comps(&["Nope"]), f)), Err(FsError::NotFound));
    assert_eq!(
        stub.run(|f| getattr_step(req(), &comps(&["Household", "b.txt"]), f)),
        Err(FsError::NotFound)
    );
    assert_eq!(stub.fetches, 1);
}

#[test]
fn root_attributes_need_no_remote_call() {
    let mut stub = household_stub();
    let a = stub.run(|f| getattr_step(req(), &comps(&[]), f)).unwrap();
    assert_eq!((a.kind, a.size), (FileKind::Directory, 0));
    assert_eq!(stub.calls, 0);
}

#[test]
fn refused_creations_make_no_remote_call() {
    let mut stub = household_stub();
    let r = stub.run(|f| mkdir_step(req(), &comps(&[]), &"NewLib".to_string(), f));
    assert_eq!(r, Err(FsError::PermissionDenied));
    let r = stub.run(|f| mknod_step(req(), &comps(&["Household"]), &"x".to_string(), 0o100755, f));
    assert_eq!(r, Err(FsError::PermissionDenied));
    assert_eq!(stub.calls, 0);
    let r = stub.run(|f| mknod_step(req(), &comps(&["Household"]), &"x".to_string(), 0o100644, f));
    assert!(r.is_ok());
    assert_eq!(stub.calls, 2);
}

#[test]
fn read_steps_in_order() {
    let mut f = Fetched::new();
    let c = comps(&["Household", "d", "a.txt"]);
    assert!(matches!(read_step(&c, 0, 4, &mut f), Step::Call(Call::ListLibraries)));
    f.libraries = Some(Ok(vec![lib("h", "Household", 0, 0)]));
    match read_step(&c, 0, 4, &mut f) {
        Step::Call(Call::DownloadLink { library_id, path }) => {
            assert_eq!((library_id.as_str(), path.as_str()), ("h", "/d/a.txt"))
        }
        _ => panic!("expected a download link call"),
    }
    f.link = Some(Ok("https://dl/x".to_string()));
    match read_step(&c, 0, 4, &mut f) {
        Step::Call(Call::Download { link }) => assert_eq!(link, "https://dl/x"),
        _ => panic!("expected a download call"),
    }
    f.content = Some(Ok(Bytes::from(b"abcdef".to_vec())));
    match read_step(&c, 0, 4, &mut f) {
        Step::Done(Ok(b)) => assert_eq!(&b[..], b"abcd"),
        _ => panic!("expected data"),
    }
    f.content = Some(Err(RemoteFailure));
    assert!(matches!(read_step(&c, 0, 4, &mut f), Step::Done(Err(FsError::NotFound))));
    f.link = Some(Err(RemoteFailure));
    assert!(matches!(read_step(&c, 0, 4, &mut f), Step::Done(Err(FsError::NotFound))));
    assert!(matches!(read_step(&comps(&[]), 0, 4, &mut f), Step::Done(Err(FsError::NotFound))));
}

#[test]
fn getattr_asks_for_the_parent_listing() {
    let f = Fetched { libraries: Some(Ok(vec![lib("h", "Household", 0, 0)])), ..Fetched::new() };
    match getattr_step(req(), &comps(&["Household", "d", "e", "a.txt"]), &f) {
        Step::Call(Call::ListEntries { library_id, path }) => {
            assert_eq!((library_id.as_str(), path.as_str()), ("h", "/d/e"))
        }
        _ => panic!("expected a listing call"),
    }
    match readdir_step(&comps(&["Household", "d"]), &f) {
        Step::Call(Call::ListEntries { library_id, path }) => {
            assert_eq!((library_id.as_str(), path.as_str()), ("h", "/d"))
        }
        _ => panic!("expected a listing call"),
    }
    let f = Fetched { libraries: Some(Err(RemoteFailure)), ..Fetched::new() };
    assert!(matches!(readdir_step(&comps(&[]), &f), Step::Done(Err(FsError::NotFound))));
}
