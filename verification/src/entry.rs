//! Index entries: the per-path record of identity-relevant file metadata
//! plus the content-object id, and the reuse heuristic that compares a
//! previously recorded entry against a candidate file's live metadata.

use vstd::prelude::*;
use crate::errors::WatchError;
use crate::ids::ObjectId;

verus! {

/// A live file's metadata as the filesystem reports it, in plain values.
#[derive(Clone, Copy, PartialEq, Eq, Structural)]
pub struct FileMeta {
    pub mtime_secs: i64,
    pub mtime_nanos: u32,
    pub ctime_secs: i64,
    pub ctime_nanos: u32,
    pub dev: u64,
    pub ino: u64,
    pub mode: u32,
    pub uid: u32,
    pub gid: u32,
    pub size: u64,
}

/// One index entry, with the field widths the store's index format uses.
#[derive(Debug)]
pub struct Entry {
    pub ctime_secs: i32,
    pub ctime_nanos: u32,
    pub mtime_secs: i32,
    pub mtime_nanos: u32,
    pub dev: u32,
    pub ino: u32,
    pub mode: u32,
    pub uid: u32,
    pub gid: u32,
    pub file_size: u32,
    pub id: ObjectId,
    pub flags: u16,
    pub flags_extended: u16,
    pub path: String,
}

/// The mathematical content of an index entry.
pub struct EntryV {
    pub ctime_secs: int,
    pub ctime_nanos: int,
    pub mtime_secs: int,
    pub mtime_nanos: int,
    pub dev: int,
    pub ino: int,
    pub mode: int,
    pub uid: int,
    pub gid: int,
    pub file_size: int,
    pub id: Seq<u8>,
    pub flags: int,
    pub flags_extended: int,
    pub path: Seq<char>,
}

impl View for Entry {
    type V = EntryV;

    open spec fn view(&self) -> EntryV {
        EntryV {
            ctime_secs: self.ctime_secs as int,
            ctime_nanos: self.ctime_nanos as int,
            mtime_secs: self.mtime_secs as int,
            mtime_nanos: self.mtime_nanos as int,
            dev: self.dev as int,
            ino: self.ino as int,
            mode: self.mode as int,
            uid: self.uid as int,
            gid: self.gid as int,
            file_size: self.file_size as int,
            id: self.id@,
            flags: self.flags as int,
            flags_extended: self.flags_extended as int,
            path: self.path@,
        }
    }
}

/// Two records describe the same content iff modification time (both
/// components), byte size, and mode bits agree. This is a deliberate
/// heuristic, not a guarantee: a file rewritten within one mtime tick with
/// the same size and mode is a known false negative.
pub open spec fn same_content(prev: EntryV, m: FileMeta) -> bool {
    &&& prev.mtime_secs == m.mtime_secs as int
    &&& prev.mtime_nanos == m.mtime_nanos as int
    &&& prev.file_size == m.size as int
    &&& prev.mode == m.mode as int
}

/// The reuse check of the index reuse cache: decide whether `prev`'s
/// content-object id can be reused for a file whose live metadata is `m`.
pub fn metadata_matches(prev: &Entry, m: &FileMeta) -> (r: bool)
    ensures
        r == same_content(prev@, *m),
{
    prev.mtime_secs as i64 == m.mtime_secs && prev.mtime_nanos == m.mtime_nanos
        && prev.file_size as u64 == m.size && prev.mode == m.mode
}

/// Whether `m`'s values fit the index entry's field widths.
pub open spec fn meta_fits(m: FileMeta) -> bool {
    &&& i32::MIN <= m.mtime_secs <= i32::MAX
    &&& i32::MIN <= m.ctime_secs <= i32::MAX
    &&& m.dev <= u32::MAX
    &&& m.ino <= u32::MAX
    &&& m.size <= u32::MAX
}

/// The entry recorded for a freshly processed file: every metadata field
/// taken from the live file, the fixed "normal file" flag value, no
/// extended flags, and the given content-object id.
pub open spec fn fresh_entry(e: EntryV, path: Seq<char>, m: FileMeta, id: Seq<u8>) -> bool {
    &&& e.ctime_secs == m.ctime_secs as int
    &&& e.ctime_nanos == m.ctime_nanos as int
    &&& e.mtime_secs == m.mtime_secs as int
    &&& e.mtime_nanos == m.mtime_nanos as int
    &&& e.dev == m.dev as int
    &&& e.ino == m.ino as int
    &&& e.mode == m.mode as int
    &&& e.uid == m.uid as int
    &&& e.gid == m.gid as int
    &&& e.file_size == m.size as int
    &&& e.id == id
    &&& e.flags == 10
    &&& e.flags_extended == 0
    &&& e.path == path
}

/// Build the index entry for a freshly processed file at `path` whose live
/// metadata is `m` and whose content was stored under `id`. Fails, with the
/// filesystem error kind, exactly when a metadata value does not fit its
/// index field.
pub fn make_entry(path: &str, m: &FileMeta, id: ObjectId) -> (r: Result<Entry, WatchError>)
    ensures
        meta_fits(*m) <==> r is Ok,
        r matches Ok(e) ==> fresh_entry(e@, path@, *m, id@),
        r matches Err(err) ==> err is IOError,
{
    if m.mtime_secs < i32::MIN as i64 || m.mtime_secs > i32::MAX as i64 || m.ctime_secs
        < i32::MIN as i64 || m.ctime_secs > i32::MAX as i64 || m.dev > u32::MAX as u64 || m.ino
        > u32::MAX as u64 || m.size > u32::MAX as u64 {
        return Err(
            WatchError::IOError(
                crate::errors::invalid_data_error("file metadata does not fit an index entry"),
            ),
        );
    }
    Ok(
        Entry {
            ctime_secs: m.ctime_secs as i32,
            ctime_nanos: m.ctime_nanos,
            mtime_secs: m.mtime_secs as i32,
            mtime_nanos: m.mtime_nanos,
            dev: m.dev as u32,
            ino: m.ino as u32,
            mode: m.mode,
            uid: m.uid,
            gid: m.gid,
            file_size: m.size as u32,
            id,
            flags: 10,
            flags_extended: 0,
            path: path.to_owned(),
        },
    )
}

} // verus!
