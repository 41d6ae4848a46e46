use crate::attr::{dir_attr, file_attr, fileattr, FileAttr, FileKind, RequestInfo, DIR_PERM, FILE_PERM};
use crate::client::{decode_creation, success_sentinel, CreationOutcome, RemoteFailure, SeafileAPI};
use crate::content::{bytes_of, clamp_read, read_window};
use crate::library::{
    dir_type, find_entry, find_library, first_entry_named, first_with_name, Library, LibraryEntry,
};
use crate::path::{copy_components, names, path_string, path_text, resolution};
use bytes::Bytes;
use vstd::prelude::*;

verus! {

/// File-type bits of a mode.
pub const S_IFMT: u32 = 0o170000;

/// File-type bits of a regular file.
pub const S_IFREG: u32 = 0o100000;

/// The outward kinds of failure of a filesystem call.
#[derive(Clone, Copy, Debug, PartialEq, Eq, Structural)]
pub enum FsError {
    NotFound,
    PermissionDenied,
    NotImplemented,
}

/// One name of a directory listing.
pub struct DirEntry {
    pub name: String,
    pub kind: FileKind,
}

/// The filesystem: the client state that every call goes through.
pub struct SeafileFS {
    pub api: SeafileAPI,
}

impl SeafileFS {
    pub fn new(server: &str, username: &str, password: &str) -> (r: SeafileFS)
        ensures
            r.api.server@ == server@,
            r.api.username@ == username@,
            r.api.password@ == password@,
            r.api.authorization is None,
            r.api.libraries is None,
    {
        SeafileFS { api: SeafileAPI::new(server, username, password) }
    }
}

/// The library a selector resolves to, in a (deduplicated) library list.
pub open spec fn selected(libs: Result<Seq<Library>, RemoteFailure>, name: Seq<char>) -> Result<Library, FsError> {
    match libs {
        Ok(v) => match first_with_name(v, name) {
            Some(l) => Ok(l),
            None => Err(FsError::NotFound),
        },
        Err(_) => Err(FsError::NotFound),
    }
}

/// The view of a remote answer holding a list.
pub open spec fn seq_of<T>(r: Result<Vec<T>, RemoteFailure>) -> Result<Seq<T>, RemoteFailure> {
    match r {
        Ok(v) => Ok(v@),
        Err(e) => Err(e),
    }
}

/// Resolves a selector against the library list, exactly and case-sensitively.
pub fn select_library(libs: &Result<Vec<Library>, RemoteFailure>, name: &String) -> (r: Result<Library, FsError>)
    ensures
        r == selected(seq_of(*libs), name@),
{
    match libs {
        Ok(v) => match find_library(v, name) {
            Some(k) => Ok(v[k].duplicate()),
            None => Err(FsError::NotFound),
        },
        Err(_) => Err(FsError::NotFound),
    }
}

/// The attributes of the filesystem root.
pub fn getattr_root(req: RequestInfo) -> (r: FileAttr)
    ensures
        r == dir_attr(req, 0, 0),
{
    fileattr(req, FileKind::Directory, DIR_PERM, 0, 0)
}

/// The attributes of a library's own root.
pub open spec fn library_attr(req: RequestInfo, libs: Result<Seq<Library>, RemoteFailure>, name: Seq<char>) -> Result<FileAttr, FsError> {
    match selected(libs, name) {
        Ok(l) => Ok(dir_attr(req, l.size, l.mtime)),
        Err(e) => Err(e),
    }
}

pub fn getattr_library(req: RequestInfo, libs: &Result<Vec<Library>, RemoteFailure>, name: &String) -> (r: Result<FileAttr, FsError>)
    ensures
        r == library_attr(req, seq_of(*libs), name@),
{
    match select_library(libs, name) {
        Ok(l) => Ok(fileattr(req, FileKind::Directory, DIR_PERM, l.size, l.mtime)),
        Err(e) => Err(e),
    }
}

/// The attributes of an entry: a directory or, for any other type, a file.
pub open spec fn entry_attr(req: RequestInfo, e: LibraryEntry) -> FileAttr {
    if e.entry_type@ == dir_type() {
        dir_attr(req, e.size, e.mtime)
    } else {
        file_attr(req, e.size, e.mtime)
    }
}

/// The attributes of the entry named `leaf` of a directory listing.
pub open spec fn leaf_attr(req: RequestInfo, entries: Result<Seq<LibraryEntry>, RemoteFailure>, leaf: Seq<char>) -> Result<FileAttr, FsError> {
    match entries {
        Ok(v) => match first_entry_named(v, leaf) {
            Some(e) => Ok(entry_attr(req, e)),
            None => Err(FsError::NotFound),
        },
        Err(_) => Err(FsError::NotFound),
    }
}

pub fn getattr_entry(req: RequestInfo, entries: &Result<Vec<LibraryEntry>, RemoteFailure>, leaf: &String) -> (r: Result<FileAttr, FsError>)
    ensures
        r == leaf_attr(req, seq_of(*entries), leaf@),
{
    match entries {
        Ok(v) => match find_entry(v, leaf) {
            Some(k) => {
                let e = &v[k];
                if e.is_dir() {
                    Ok(fileattr(req, FileKind::Directory, DIR_PERM, e.size, e.mtime))
                } else {
                    Ok(fileattr(req, FileKind::RegularFile, FILE_PERM, e.size, e.mtime))
                }
            },
            None => Err(FsError::NotFound),
        },
        Err(_) => Err(FsError::NotFound),
    }
}

/// The kind an entry is listed with.
pub open spec fn entry_kind(e: LibraryEntry) -> FileKind {
    if e.entry_type@ == dir_type() {
        FileKind::Directory
    } else {
        FileKind::RegularFile
    }
}

/// `out` lists the libraries, in their order, each as a directory.
pub open spec fn lists_libraries(out: Seq<DirEntry>, libs: Seq<Library>) -> bool {
    &&& out.len() == libs.len()
    &&& forall|i: int|
        0 <= i < libs.len() ==> #[trigger] out[i].name@ == libs[i].name@ && out[i].kind
            == FileKind::Directory
}

/// `out` lists the entries, in their order, each with its kind.
pub open spec fn lists_entries(out: Seq<DirEntry>, entries: Seq<LibraryEntry>) -> bool {
    &&& out.len() == entries.len()
    &&& forall|i: int|
        0 <= i < entries.len() ==> #[trigger] out[i].name@ == entries[i].name@ && out[i].kind
            == entry_kind(entries[i])
}

/// Lists the filesystem root: one directory per library.
pub fn root_listing(libs: &Result<Vec<Library>, RemoteFailure>) -> (r: Result<Vec<DirEntry>, FsError>)
    ensures
        match (libs, r) {
            (Ok(v), Ok(out)) => lists_libraries(out@, v@),
            (Err(_), Err(e)) => e == FsError::NotFound,
            _ => false,
        },
{
    match libs {
        Ok(v) => {
            let mut out: Vec<DirEntry> = Vec::new();
            let mut i: usize = 0;
            while i < v.len()
                invariant
                    i <= v@.len(),
                    lists_libraries(out@, v@.take(i as int)),
                decreases v@.len() - i,
            {
                out.push(DirEntry { name: v[i].name.clone(), kind: FileKind::Directory });
                i = i + 1;
            }
            assert(v@.take(v@.len() as int) =~= v@);
            Ok(out)
        },
        Err(_) => Err(FsError::NotFound),
    }
}

/// Lists a directory inside a library from the remote listing.
pub fn entry_listing(entries: &Result<Vec<LibraryEntry>, RemoteFailure>) -> (r: Result<Vec<DirEntry>, FsError>)
    ensures
        match (entries, r) {
            (Ok(v), Ok(out)) => lists_entries(out@, v@),
            (Err(_), Err(e)) => e == FsError::NotFound,
            _ => false,
        },
{
    match entries {
        Ok(v) => {
            let mut out: Vec<DirEntry> = Vec::new();
            let mut i: usize = 0;
            while i < v.len()
                invariant
                    i <= v@.len(),
                    lists_entries(out@, v@.take(i as int)),
                decreases v@.len() - i,
            {
                let kind = if v[i].is_dir() {
                    FileKind::Directory
                } else {
                    FileKind::RegularFile
                };
                let ghost old_out = out@;
                out.push(DirEntry { name: v[i].name.clone(), kind });
                proof {
                    let t = v@.take(i + 1);
                    assert(kind == entry_kind(v@[i as int]));
                    assert forall|j: int| 0 <= j < t.len() implies #[trigger] out@[j].name@
                        == t[j].name@ && out@[j].kind == entry_kind(t[j]) by {
                        if j < i {
                            assert(t[j] == v@.take(i as int)[j]);
                            assert(out@[j] == old_out[j]);
                            assert(old_out[j].name@ == v@.take(i as int)[j].name@);
                        } else {
                            assert(t[j] == v@[i as int]);
                        }
                    }
                }
                i = i + 1;
            }
            assert(v@.take(v@.len() as int) =~= v@);
            Ok(out)
        },
        Err(_) => Err(FsError::NotFound),
    }
}

/// The selector and the path inside the library of a path below the
/// filesystem root; the root itself has none.
pub open spec fn content_location(c: Seq<String>) -> Result<(Seq<char>, Seq<char>), FsError> {
    if c.len() == 0 {
        Err(FsError::NotFound)
    } else {
        Ok((c[0]@, path_text(names(c.skip(1)))))
    }
}

/// Splits a path below the root into the selector and the path inside the
/// library, as listings and reads send it.
pub fn content_target(components: &Vec<String>) -> (r: Result<(String, String), FsError>)
    ensures
        match r {
            Ok((s, p)) => content_location(components@) == Ok::<(Seq<char>, Seq<char>), FsError>((s@, p@)),
            Err(e) => content_location(components@) == Err::<(Seq<char>, Seq<char>), FsError>(e),
        },
{
    let n = components.len();
    if n == 0 {
        return Err(FsError::NotFound);
    }
    let rest = copy_components(&components.as_slice()[1..n]);
    assert(rest@ =~= components@.skip(1));
    Ok((components[0].clone(), path_string(&rest)))
}

/// The selector and the path inside the library of an entry `name` to be
/// made in `parent`; nothing can be made at the filesystem root.
pub open spec fn creation_location(parent: Seq<String>, name: String) -> Result<(Seq<char>, Seq<char>), FsError> {
    if parent.len() == 0 {
        Err(FsError::PermissionDenied)
    } else {
        Ok((parent[0]@, path_text(names(parent.skip(1).push(name)))))
    }
}

pub fn creation_target(parent: &Vec<String>, name: &String) -> (r: Result<(String, String), FsError>)
    ensures
        match r {
            Ok((s, p)) => creation_location(parent@, *name) == Ok::<(Seq<char>, Seq<char>), FsError>((s@, p@)),
            Err(e) => creation_location(parent@, *name) == Err::<(Seq<char>, Seq<char>), FsError>(e),
        },
{
    let n = parent.len();
    if n == 0 {
        return Err(FsError::PermissionDenied);
    }
    let mut rest = copy_components(&parent.as_slice()[1..n]);
    rest.push(name.clone());
    assert(rest@ =~= parent@.skip(1).push(*name));
    Ok((parent[0].clone(), path_string(&rest)))
}

/// The only mode a file can be created with: a regular file, readable and
/// writable by its owner and readable by everyone else.
pub open spec fn mode_allowed(mode: u32) -> bool {
    &&& mode & S_IFMT == S_IFREG
    &&& mode & 0o700 == 0o600
    &&& mode & 0o070 == 0o040
    &&& mode & 0o007 == 0o004
}

pub fn check_create_mode(mode: u32) -> (r: Result<(), FsError>)
    ensures
        r is Ok <==> mode_allowed(mode),
        r matches Err(e) ==> e == FsError::PermissionDenied,
{
    if mode & S_IFMT != S_IFREG {
        return Err(FsError::PermissionDenied);
    }
    if mode & 0o700 != 0o600 {
        return Err(FsError::PermissionDenied);
    }
    if mode & 0o070 != 0o040 {
        return Err(FsError::PermissionDenied);
    }
    if mode & 0o007 != 0o004 {
        return Err(FsError::PermissionDenied);
    }
    Ok(())
}

/// What a creation call ends with, given the service's answer: the new
/// entry's record on the sentinel, not-implemented on any other answer,
/// not-found when the call failed.
pub open spec fn created(req: RequestInfo, kind: FileKind, answer: Result<Seq<char>, RemoteFailure>) -> Result<FileAttr, FsError> {
    match answer {
        Ok(body) => if body == success_sentinel() {
            Ok(
                match kind {
                    FileKind::Directory => dir_attr(req, 0, 0),
                    FileKind::RegularFile => file_attr(req, 0, 0),
                },
            )
        } else {
            Err(FsError::NotImplemented)
        },
        Err(_) => Err(FsError::NotFound),
    }
}

/// The view of a remote answer holding a text.
pub open spec fn text_of(r: Result<String, RemoteFailure>) -> Result<Seq<char>, RemoteFailure> {
    match r {
        Ok(s) => Ok(s@),
        Err(e) => Err(e),
    }
}

pub fn creation_result(req: RequestInfo, kind: FileKind, answer: &Result<String, RemoteFailure>) -> (r: Result<FileAttr, FsError>)
    ensures
        r == created(req, kind, text_of(*answer)),
{
    match answer {
        Ok(body) => match decode_creation(body.as_str()) {
            CreationOutcome::Created => match kind {
                FileKind::Directory => Ok(fileattr(req, FileKind::Directory, DIR_PERM, 0, 0)),
                FileKind::RegularFile => Ok(fileattr(req, FileKind::RegularFile, FILE_PERM, 0, 0)),
            },
            CreationOutcome::Refused => Err(FsError::NotImplemented),
        },
        Err(_) => Err(FsError::NotFound),
    }
}

/// Removing a directory is disabled: the service would remove a non-empty
/// directory with all it holds. The call still resolves the library, and
/// ends in not-found where it is absent, else in not-implemented.
pub fn rmdir_result(libs: &Result<Vec<Library>, RemoteFailure>, selector: &String) -> (r: FsError)
    ensures
        r == (if selected(seq_of(*libs), selector@) is Ok {
            FsError::NotImplemented
        } else {
            FsError::NotFound
        }),
{
    match select_library(libs, selector) {
        Ok(_) => FsError::NotImplemented,
        Err(e) => e,
    }
}

/// The view of a remote answer holding content.
pub open spec fn content_of(r: Result<Bytes, RemoteFailure>) -> Result<Seq<u8>, RemoteFailure> {
    match r {
        Ok(b) => Ok(bytes_of(b)),
        Err(e) => Err(e),
    }
}

/// The bytes a read returns, given the whole content that was fetched.
pub fn read_result(content: Result<Bytes, RemoteFailure>, offset: u64, size: u32) -> (r: Result<Bytes, FsError>)
    ensures
        match (content_of(content), r) {
            (Ok(c), Ok(b)) => bytes_of(b) == read_window(c, offset, size),
            (Err(_), Err(e)) => e == FsError::NotFound,
            _ => false,
        },
{
    match content {
        Ok(b) => Ok(clamp_read(b, offset, size)),
        Err(_) => Err(FsError::NotFound),
    }
}


/// Attribute lookup by depth: the filesystem root is a directory of size 0;
/// a library's root is a directory with the recorded size and modification
/// time of the library its selector resolves to, and is not found where no
/// library carries that name.
pub proof fn lemma_attributes_by_depth(req: RequestInfo, c: Seq<String>, libs: Seq<Library>)
    ensures
        c.len() == 0 ==> {
            &&& resolution(c).0 is None
            &&& dir_attr(req, 0, 0).kind == FileKind::Directory
            &&& dir_attr(req, 0, 0).size == 0
        },
        c.len() == 1 ==> {
            &&& resolution(c).0 == Some(c[0])
            &&& match first_with_name(libs, c[0]@) {
                Some(l) => {
                    &&& library_attr(req, Ok(libs), c[0]@) matches Ok(a)
                    &&& a.kind == FileKind::Directory
                    &&& a.size == l.size
                    &&& a.mtime == l.mtime
                },
                None => library_attr(req, Ok(libs), c[0]@) == Err::<FileAttr, FsError>(FsError::NotFound),
            }
        },
{
}

} // verus!
