use crate::attr::{dir_attr, FileAttr, RequestInfo};
use crate::client::RemoteFailure;
use crate::content::{bytes_of, read_window};
use crate::fs::{
    content_location, content_target, created, creation_location, creation_result, creation_target,
    entry_listing, getattr_entry, getattr_library, getattr_root, leaf_attr, library_attr,
    check_create_mode, lists_entries, lists_libraries, mode_allowed, read_result, rmdir_result,
    root_listing, select_library, selected, seq_of, text_of, DirEntry, FsError,
};
use crate::attr::FileKind;
use crate::library::{Library, LibraryEntry};
use crate::path::{names, path_string, path_text, resolve_path};
use bytes::Bytes;
use vstd::prelude::*;

verus! {

/// A remote call that a filesystem call needs next.
pub enum Call {
    ListLibraries,
    ListEntries { library_id: String, path: String },
    CreateDirectory { library_id: String, path: String },
    CreateFile { library_id: String, path: String },
    DownloadLink { library_id: String, path: String },
    Download { link: String },
}

/// What to do next: make a remote call, or answer.
pub enum Step<T> {
    Call(Call),
    Done(Result<T, FsError>),
}

/// The answers of the remote calls made so far for one filesystem call.
pub struct Fetched {
    pub libraries: Option<Result<Vec<Library>, RemoteFailure>>,
    pub entries: Option<Result<Vec<LibraryEntry>, RemoteFailure>>,
    pub answer: Option<Result<String, RemoteFailure>>,
    pub link: Option<Result<String, RemoteFailure>>,
    pub content: Option<Result<Bytes, RemoteFailure>>,
}

impl Fetched {
    /// Nothing fetched yet.
    pub fn new() -> (r: Fetched)
        ensures
            r.libraries is None,
            r.entries is None,
            r.answer is None,
            r.link is None,
            r.content is None,
    {
        Fetched { libraries: None, entries: None, answer: None, link: None, content: None }
    }
}

/// `c` is a call of kind `ListEntries` for library `id` at `path`.
pub open spec fn is_list_entries(c: Call, id: Seq<char>, path: Seq<char>) -> bool {
    c matches Call::ListEntries { library_id, path: p } && library_id@ == id && p@ == path
}

/// Attribute lookup. The root needs no remote call; any other path needs the
/// library list; a path inside a library needs the listing of its parent.
pub fn getattr_step(req: RequestInfo, components: &Vec<String>, f: &Fetched) -> (r: Step<FileAttr>)
    ensures
        components@.len() == 0 ==> r == Step::<FileAttr>::Done(Ok(dir_attr(req, 0, 0))),
        components@.len() > 0 && f.libraries is None ==> r == Step::<FileAttr>::Call(
            Call::ListLibraries,
        ),
        components@.len() == 1 && f.libraries is Some ==> r == Step::<FileAttr>::Done(
            library_attr(req, seq_of(f.libraries->0), components@[0]@),
        ),
        components@.len() > 1 && f.libraries is Some ==> match selected(
            seq_of(f.libraries->0),
            components@[0]@,
        ) {
            Err(e) => r == Step::<FileAttr>::Done(Err(e)),
            Ok(lib) => match f.entries {
                None => r matches Step::Call(c) && is_list_entries(
                    c,
                    lib.id@,
                    path_text(names(components@.subrange(1, components@.len() - 1))),
                ),
                Some(es) => r == Step::<FileAttr>::Done(
                    leaf_attr(req, seq_of(es), components@.last()@),
                ),
            },
        },
{
    let resolved = resolve_path(components);
    let selector = match resolved.selector {
        None => return Step::Done(Ok(getattr_root(req))),
        Some(s) => s,
    };
    let libs = match &f.libraries {
        None => return Step::Call(Call::ListLibraries),
        Some(l) => l,
    };
    let leaf = match resolved.leaf_name {
        None => return Step::Done(getattr_library(req, libs, &selector)),
        Some(l) => l,
    };
    let lib = match select_library(libs, &selector) {
        Err(e) => return Step::Done(Err(e)),
        Ok(l) => l,
    };
    match &f.entries {
        None => Step::Call(
            Call::ListEntries { library_id: lib.id, path: path_string(&resolved.relative_path) },
        ),
        Some(es) => Step::Done(getattr_entry(req, es, &leaf)),
    }
}

/// Directory listing: the library list first; the root lists the libraries,
/// any other directory the listing of its place inside its library.
pub fn readdir_step(components: &Vec<String>, f: &Fetched) -> (r: Step<Vec<DirEntry>>)
    ensures
        match f.libraries {
            None => r == Step::<Vec<DirEntry>>::Call(Call::ListLibraries),
            Some(Err(_)) => r == Step::<Vec<DirEntry>>::Done(Err(FsError::NotFound)),
            Some(Ok(v)) => if components@.len() == 0 {
                r matches Step::Done(Ok(out)) && lists_libraries(out@, v@)
            } else {
                match selected(Ok(v@), components@[0]@) {
                    Err(e) => r == Step::<Vec<DirEntry>>::Done(Err(e)),
                    Ok(lib) => match f.entries {
                        None => r matches Step::Call(c) && is_list_entries(
                            c,
                            lib.id@,
                            path_text(names(components@.skip(1))),
                        ),
                        Some(Err(_)) => r == Step::<Vec<DirEntry>>::Done(Err(FsError::NotFound)),
                        Some(Ok(es)) => r matches Step::Done(Ok(out)) && lists_entries(out@, es@),
                    },
                }
            },
        },
{
    let libs = match &f.libraries {
        None => return Step::Call(Call::ListLibraries),
        Some(l) => l,
    };
    if libs.is_err() {
        return Step::Done(Err(FsError::NotFound));
    }
    if components.len() == 0 {
        return Step::Done(root_listing(libs));
    }
    let (selector, path) = match content_target(components) {
        Ok(t) => t,
        Err(e) => return Step::Done(Err(e)),
    };
    let lib = match select_library(libs, &selector) {
        Err(e) => return Step::Done(Err(e)),
        Ok(l) => l,
    };
    match &f.entries {
        None => Step::Call(Call::ListEntries { library_id: lib.id, path }),
        Some(es) => Step::Done(entry_listing(es)),
    }
}


/// `c` creates an entry of `kind` in library `id` at `path`.
pub open spec fn is_create_call(c: Call, kind: FileKind, id: Seq<char>, path: Seq<char>) -> bool {
    match kind {
        FileKind::Directory => c matches Call::CreateDirectory { library_id, path: p }
            && library_id@ == id && p@ == path,
        FileKind::RegularFile => c matches Call::CreateFile { library_id, path: p } && library_id@
            == id && p@ == path,
    }
}

/// The next step of creating an entry of `kind` named `name` in `parent`,
/// once the mode (for a file) has been accepted.
pub open spec fn creation_step_ok(
    req: RequestInfo,
    kind: FileKind,
    parent: Seq<String>,
    name: String,
    f: Fetched,
    r: Step<FileAttr>,
) -> bool {
    match creation_location(parent, name) {
        Err(e) => r == Step::<FileAttr>::Done(Err(e)),
        Ok((selector, path)) => match f.libraries {
            None => r == Step::<FileAttr>::Call(Call::ListLibraries),
            Some(libs) => match selected(seq_of(libs), selector) {
                Err(e) => r == Step::<FileAttr>::Done(Err(e)),
                Ok(lib) => match f.answer {
                    None => r matches Step::Call(c) && is_create_call(c, kind, lib.id@, path),
                    Some(a) => r == Step::<FileAttr>::Done(created(req, kind, text_of(a))),
                },
            },
        },
    }
}

fn creation_step(req: RequestInfo, kind: FileKind, parent: &Vec<String>, name: &String, f: &Fetched) -> (r: Step<FileAttr>)
    ensures
        creation_step_ok(req, kind, parent@, *name, *f, r),
{
    let (selector, path) = match creation_target(parent, name) {
        Ok(t) => t,
        Err(e) => return Step::Done(Err(e)),
    };
    let libs = match &f.libraries {
        None => return Step::Call(Call::ListLibraries),
        Some(l) => l,
    };
    let lib = match select_library(libs, &selector) {
        Err(e) => return Step::Done(Err(e)),
        Ok(l) => l,
    };
    match &f.answer {
        None => match kind {
            FileKind::Directory => Step::Call(Call::CreateDirectory { library_id: lib.id, path }),
            FileKind::RegularFile => Step::Call(Call::CreateFile { library_id: lib.id, path }),
        },
        Some(a) => Step::Done(creation_result(req, kind, a)),
    }
}

/// Directory creation. Nothing is created at the filesystem root, and that
/// is refused before any remote call.
pub fn mkdir_step(req: RequestInfo, parent: &Vec<String>, name: &String, f: &Fetched) -> (r: Step<FileAttr>)
    ensures
        creation_step_ok(req, FileKind::Directory, parent@, *name, *f, r),
        parent@.len() == 0 ==> r == Step::<FileAttr>::Done(Err(FsError::PermissionDenied)),
{
    creation_step(req, FileKind::Directory, parent, name, f)
}

/// File creation. A mode other than a regular file with permissions
/// `rw-r--r--` is refused before any remote call, as is the filesystem root.
pub fn mknod_step(req: RequestInfo, parent: &Vec<String>, name: &String, mode: u32, f: &Fetched) -> (r: Step<FileAttr>)
    ensures
        !mode_allowed(mode) ==> r == Step::<FileAttr>::Done(Err(FsError::PermissionDenied)),
        mode_allowed(mode) ==> creation_step_ok(req, FileKind::RegularFile, parent@, *name, *f, r),
{
    match check_create_mode(mode) {
        Err(e) => Step::Done(Err(e)),
        Ok(()) => creation_step(req, FileKind::RegularFile, parent, name, f),
    }
}

/// Directory removal: refused at the filesystem root; elsewhere the library
/// is resolved and the removal itself is not implemented.
pub fn rmdir_step(parent: &Vec<String>, name: &String, f: &Fetched) -> (r: Step<()>)
    ensures
        match creation_location(parent@, *name) {
            Err(e) => r == Step::<()>::Done(Err(e)),
            Ok((selector, _)) => match f.libraries {
                None => r == Step::<()>::Call(Call::ListLibraries),
                Some(libs) => r == Step::<()>::Done(
                    Err(
                        if selected(seq_of(libs), selector) is Ok {
                            FsError::NotImplemented
                        } else {
                            FsError::NotFound
                        },
                    ),
                ),
            },
        },
{
    let (selector, _path) = match creation_target(parent, name) {
        Ok(t) => t,
        Err(e) => return Step::Done(Err(e)),
    };
    match &f.libraries {
        None => Step::Call(Call::ListLibraries),
        Some(libs) => Step::Done(Err(rmdir_result(libs, &selector))),
    }
}

/// Content read: the library list, then a download link for the file, then
/// the whole content, of which the requested window is returned. The
/// fetched content is taken out of `f`.
pub fn read_step(components: &Vec<String>, offset: u64, size: u32, f: &mut Fetched) -> (r: Step<Bytes>)
    ensures
        final(f).libraries == old(f).libraries,
        final(f).link == old(f).link,
        match content_location(components@) {
            Err(e) => r == Step::<Bytes>::Done(Err(e)),
            Ok((selector, path)) => match old(f).libraries {
                None => r == Step::<Bytes>::Call(Call::ListLibraries),
                Some(libs) => match selected(seq_of(libs), selector) {
                    Err(e) => r == Step::<Bytes>::Done(Err(e)),
                    Ok(lib) => match old(f).link {
                        None => r matches Step::Call(Call::DownloadLink { library_id, path: p })
                            && library_id@ == lib.id@ && p@ == path,
                        Some(Err(_)) => r == Step::<Bytes>::Done(Err(FsError::NotFound)),
                        Some(Ok(link)) => match old(f).content {
                            None => r matches Step::Call(Call::Download { link: l }) && l@ == link@,
                            Some(Err(_)) => r == Step::<Bytes>::Done(Err(FsError::NotFound)),
                            Some(Ok(c)) => r matches Step::Done(Ok(b)) && bytes_of(b) == read_window(
                                bytes_of(c),
                                offset,
                                size,
                            ),
                        },
                    },
                },
            },
        },
{
    let (selector, path) = match content_target(components) {
        Ok(t) => t,
        Err(e) => return Step::Done(Err(e)),
    };
    let libs = match &f.libraries {
        None => return Step::Call(Call::ListLibraries),
        Some(l) => l,
    };
    let lib = match select_library(libs, &selector) {
        Err(e) => return Step::Done(Err(e)),
        Ok(l) => l,
    };
    let link = match &f.link {
        None => return Step::Call(Call::DownloadLink { library_id: lib.id, path }),
        Some(Err(_)) => return Step::Done(Err(FsError::NotFound)),
        Some(Ok(l)) => l.clone(),
    };
    match f.content.take() {
        None => Step::Call(Call::Download { link }),
        Some(c) => Step::Done(read_result(c, offset, size)),
    }
}

} // verus!
