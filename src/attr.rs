use vstd::prelude::*;

verus! {

/// How long the kernel may keep an attribute record, in seconds.
pub const TTL_SECS: u64 = 1;

/// Permission bits of every directory record.
pub const DIR_PERM: u16 = 0o755;

/// Permission bits of every regular-file record.
pub const FILE_PERM: u16 = 0o644;

/// The identity of the process that issued a filesystem call.
#[derive(Clone, Copy, Debug, PartialEq, Eq, Structural)]
pub struct RequestInfo {
    pub uid: u32,
    pub gid: u32,
}

#[derive(Clone, Copy, Debug, PartialEq, Eq, Structural)]
pub enum FileKind {
    Directory,
    RegularFile,
}

/// A synthesized attribute record; times are seconds since the Unix epoch.
#[derive(Clone, Copy, Debug, PartialEq, Eq, Structural)]
pub struct FileAttr {
    pub size: u64,
    pub blocks: u64,
    pub atime: u64,
    pub mtime: u64,
    pub ctime: u64,
    pub crtime: u64,
    pub kind: FileKind,
    pub perm: u16,
    pub nlink: u32,
    pub uid: u32,
    pub gid: u32,
    pub rdev: u32,
    pub flags: u32,
}

/// The record `fileattr` builds: times all at `mtime` but creation at the
/// epoch, owner from the request, nominal block count.
pub open spec fn attr_of(req: RequestInfo, kind: FileKind, perm: u16, size: u64, mtime: u64) -> FileAttr {
    FileAttr {
        size,
        blocks: 100,
        atime: mtime,
        mtime,
        ctime: mtime,
        crtime: 0,
        kind,
        perm,
        nlink: 0,
        uid: req.uid,
        gid: req.gid,
        rdev: 0,
        flags: 0,
    }
}

/// The record of a directory.
pub open spec fn dir_attr(req: RequestInfo, size: u64, mtime: u64) -> FileAttr {
    attr_of(req, FileKind::Directory, DIR_PERM, size, mtime)
}

/// The record of a regular file.
pub open spec fn file_attr(req: RequestInfo, size: u64, mtime: u64) -> FileAttr {
    attr_of(req, FileKind::RegularFile, FILE_PERM, size, mtime)
}

pub fn fileattr(req: RequestInfo, kind: FileKind, perm: u16, size: u64, mtime: u64) -> (r: FileAttr)
    ensures
        r == attr_of(req, kind, perm, size, mtime),
{
    FileAttr {
        size,
        blocks: 100,
        atime: mtime,
        mtime,
        ctime: mtime,
        crtime: 0,
        kind,
        perm,
        nlink: 0,
        uid: req.uid,
        gid: req.gid,
        rdev: 0,
        flags: 0,
    }
}

/// Filesystem statistics.
#[derive(Clone, Copy, Debug, PartialEq, Eq, Structural)]
pub struct Statfs {
    pub blocks: u64,
    pub bfree: u64,
    pub bavail: u64,
    pub files: u64,
    pub ffree: u64,
    pub bsize: u32,
    pub namelen: u32,
    pub frsize: u32,
}

/// The nominal capacity figures reported for every path.
pub fn statfs() -> (r: Statfs)
    ensures
        r == (Statfs {
            blocks: 100,
            bfree: 100,
            bavail: 0,
            files: 100,
            ffree: 100,
            bsize: 100,
            namelen: 255,
            frsize: 100,
        }),
{
    Statfs { blocks: 100, bfree: 100, bavail: 0, files: 100, ffree: 100, bsize: 100, namelen: 255, frsize: 100 }
}

} // verus!
