//! Content store adapter: the object-store capability the core builds on.
//! Each wrapper holds one store operation; the contracts say only what the
//! store's own source shows, with content-addressed ids given names where
//! the result is a function of the arguments alone.

use vstd::prelude::*;
use crate::entry::{Entry, EntryV};
use crate::ids::ObjectId;

verus! {

/// Relied-on outside type: `git2::Repository`, the open object store.
#[verifier::external_type_specification]
#[verifier::external_body]
pub struct ExRepository(git2::Repository);

/// Relied-on outside type: `git2::IndexEntry`, the store's own entry record.
#[verifier::external_type_specification]
#[verifier::external_body]
pub struct ExIndexEntry(git2::IndexEntry);

/// The id of the blob whose content is the UTF-8 encoding of `text`.
/// Content addressing makes it a function of the text alone.
pub uninterp spec fn text_blob_oid_of(text: Seq<char>) -> Seq<u8>;

/// The id of the tree written from the given index entries. Content
/// addressing makes it a function of the entries (paths, modes, ids) alone.
pub uninterp spec fn tree_oid_of(entries: Seq<EntryV>) -> Seq<u8>;

/// The id of the tree holding exactly three named sub-trees, each entered
/// with the given filemode. Content addressing makes it a function of the
/// names, ids and mode alone.
pub uninterp spec fn tree3_oid_of(
    n1: Seq<char>,
    t1: Seq<u8>,
    n2: Seq<char>,
    t2: Seq<u8>,
    n3: Seq<char>,
    t3: Seq<u8>,
    filemode: i32,
) -> Seq<u8>;

/// The parent ids the store reads back from a commit `id`
/// (`git2::Commit::parent_id`): content addressing makes the parent list a
/// function of the commit id alone.
pub uninterp spec fn commit_parents_of(id: Seq<u8>) -> Seq<Seq<u8>>;

/// The tree id the store reads back from a commit `id`
/// (`git2::Commit::tree_id`): a function of the commit id alone.
pub uninterp spec fn commit_tree_of(id: Seq<u8>) -> Seq<u8>;

/// The message the store reads back from a commit `id`
/// (`git2::Commit::message`): a function of the commit id alone.
pub uninterp spec fn commit_message_of(id: Seq<u8>) -> Seq<char>;

/// The views of a run of entries.
pub open spec fn views_of(es: Seq<Entry>) -> Seq<EntryV> {
    es.map(|i: int, e: Entry| e@)
}

/// Relies on `git2::Repository::blob`: writes a blob with the given bytes
/// and returns its 20-byte content-addressed id.
#[verifier::external_body]
pub fn write_text_blob(repo: &git2::Repository, text: &str) -> (r: Result<ObjectId, git2::Error>)
    ensures
        r matches Ok(id) ==> id@ == text_blob_oid_of(text@) && id.wf(),
{
    match repo.blob(text.as_bytes()) {
        Ok(oid) => Ok(ObjectId { bytes: oid.as_bytes().to_vec() }),
        Err(e) => Err(e),
    }
}

/// Relies on `git2::Repository::blob_path`: reads the file at `path` and
/// writes its content as a blob. The id depends on what is on disk, so only
/// its shape is stated.
#[verifier::external_body]
pub fn write_blob_from_path(repo: &git2::Repository, path: &str) -> (r: Result<
    ObjectId,
    git2::Error,
>)
    ensures
        r matches Ok(id) ==> id.wf(),
{
    match repo.blob_path(std::path::Path::new(path)) {
        Ok(oid) => Ok(ObjectId { bytes: oid.as_bytes().to_vec() }),
        Err(e) => Err(e),
    }
}

/// Converts the store's entry record to the library's, field for field;
/// the id is carried over as its raw bytes.
#[verifier::external_body]
fn entry_from_git2(e: &git2::IndexEntry) -> (r: Entry) {
    Entry {
        ctime_secs: e.ctime.seconds(), ctime_nanos: e.ctime.nanoseconds(),
        mtime_secs: e.mtime.seconds(), mtime_nanos: e.mtime.nanoseconds(),
        dev: e.dev, ino: e.ino, mode: e.mode, uid: e.uid, gid: e.gid,
        file_size: e.file_size,
        id: ObjectId { bytes: e.id.as_bytes().to_vec() },
        flags: e.flags, flags_extended: e.flags_extended,
        path: String::from_utf8_lossy(&e.path).into_owned(),
    }
}

/// A path the store's index API accepts: non-empty, relative, its first
/// component neither `.` nor `..`, and free of NUL characters. The store's
/// own path conversion rejects anything else, and its lookup does not
/// return the rejection but panics on it.
pub open spec fn repo_rel_path_ok(p: Seq<char>) -> bool {
    &&& p.len() > 0
    &&& p[0] != '/'
    &&& (p[0] == '.' ==> p.len() > 1 && p[1] != '/' && (p[1] == '.' ==> p.len() > 2 && p[2]
        != '/'))
    &&& (forall|i: int| 0 <= i < p.len() ==> p[i] != '\0')
}

/// Relies on `git2::Repository::index` and `git2::Index::get_path`: looks
/// the path up in the store's live index. Any failure to open the index
/// reads as "no entry". A returned id is always 20 bytes. On a store
/// configured case-insensitively the entry found may be recorded under the
/// same path in different letter case, so nothing is stated of its path.
#[verifier::external_body]
pub fn lookup_index_entry(repo: &git2::Repository, rel_path: &str) -> (r: Option<Entry>)
    requires
        repo_rel_path_ok(rel_path@),
    ensures
        r matches Some(e) ==> e.id@.len() == 20,
{
    let index = repo.index().ok()?;
    let found = index.get_path(std::path::Path::new(rel_path), 0)?;
    Some(entry_from_git2(&found))
}

/// Converts a library entry to the store's record, field for field,
/// rebuilding the id from its 20 raw bytes.
#[verifier::external_body]
fn git2_entry_of(e: &Entry) -> (r: git2::IndexEntry)
    requires
        e.id@.len() == 20,
{
    git2::IndexEntry {
        ctime: git2::IndexTime::new(e.ctime_secs, e.ctime_nanos),
        mtime: git2::IndexTime::new(e.mtime_secs, e.mtime_nanos),
        dev: e.dev, ino: e.ino, mode: e.mode, uid: e.uid, gid: e.gid,
        file_size: e.file_size,
        id: git2::Oid::from_bytes(&e.id.bytes).unwrap(),
        flags: e.flags, flags_extended: e.flags_extended,
        path: e.path.clone().into_bytes(),
    }
}

/// Relies on `git2::Index::new`, `git2::Index::add` and
/// `git2::Index::write_tree_to`: writes the entries as one tree object,
/// whose id content addressing determines from the entries alone.
#[verifier::external_body]
pub fn write_index_tree(repo: &git2::Repository, entries: &Vec<Entry>) -> (r: Result<
    ObjectId,
    git2::Error,
>)
    requires
        forall|i: int| 0 <= i < entries@.len() ==> (#[trigger] entries@[i])@.id.len() == 20,
    ensures
        r matches Ok(id) ==> id@ == tree_oid_of(views_of(entries@)) && id.wf(),
{
    let mut index = git2::Index::new()?;
    for e in entries.iter() {
        index.add(&git2_entry_of(e))?;
    }
    let oid = index.write_tree_to(repo)?;
    Ok(ObjectId { bytes: oid.as_bytes().to_vec() })
}

/// Relies on `git2::Repository::treebuilder`, `git2::TreeBuilder::insert`
/// and `git2::TreeBuilder::write`: composes three written trees under the
/// given names, a pure structural join whose id content addressing
/// determines from the arguments alone.
#[verifier::external_body]
pub fn write_tree3(
    repo: &git2::Repository,
    n1: &str,
    t1: &ObjectId,
    n2: &str,
    t2: &ObjectId,
    n3: &str,
    t3: &ObjectId,
    filemode: i32,
) -> (r: Result<ObjectId, git2::Error>)
    requires
        t1.wf(),
        t2.wf(),
        t3.wf(),
    ensures
        r matches Ok(id) ==> id@ == tree3_oid_of(n1@, t1@, n2@, t2@, n3@, t3@, filemode)
            && id.wf(),
{
    let mut builder = repo.treebuilder(None)?;
    builder.insert(n1, git2::Oid::from_bytes(&t1.bytes).unwrap(), filemode)?;
    builder.insert(n2, git2::Oid::from_bytes(&t2.bytes).unwrap(), filemode)?;
    builder.insert(n3, git2::Oid::from_bytes(&t3.bytes).unwrap(), filemode)?;
    let oid = builder.write()?;
    Ok(ObjectId { bytes: oid.as_bytes().to_vec() })
}

/// Relies on `git2::Repository::revparse_single`: resolves a reference to
/// the id of the object it points at.
#[verifier::external_body]
pub fn resolve_ref_target(repo: &git2::Repository, refname: &str) -> (r: Result<
    ObjectId,
    git2::Error,
>)
    ensures
        r matches Ok(id) ==> id.wf(),
{
    let obj = repo.revparse_single(refname)?;
    Ok(ObjectId { bytes: obj.id().as_bytes().to_vec() })
}

/// Relies on `git2::Repository::commit` (with `find_tree` and `signature`):
/// writes a parentless commit holding `tree` with the given message,
/// repoints `refname` at it, and returns the new commit's id.
#[verifier::external_body]
pub fn commit_root(
    repo: &git2::Repository,
    refname: &str,
    message: &str,
    tree: &ObjectId,
) -> (r: Result<ObjectId, git2::Error>)
    requires
        tree.wf(),
    ensures
        r matches Ok(id) ==> id.wf() && commit_tree_of(id@) == tree@ && commit_parents_of(id@)
            == Seq::<Seq<u8>>::empty() && commit_message_of(id@) == message@,
{
    let t = repo.find_tree(git2::Oid::from_bytes(&tree.bytes).unwrap())?;
    let sig = repo.signature()?;
    let oid = repo.commit(Some(refname), &sig, &sig, message, &t, &[])?;
    Ok(ObjectId { bytes: oid.as_bytes().to_vec() })
}

/// Relies on `git2::Repository::commit` (with `find_tree`, `find_commit`
/// and `signature`): writes a commit holding `tree` with the given message,
/// whose sole parent is the commit `parent`, repoints `refname` at it, and
/// returns the new commit's id.
#[verifier::external_body]
pub fn commit_child(
    repo: &git2::Repository,
    refname: &str,
    message: &str,
    tree: &ObjectId,
    parent: &ObjectId,
) -> (r: Result<ObjectId, git2::Error>)
    requires
        tree.wf(),
        parent.wf(),
    ensures
        r matches Ok(id) ==> id.wf() && commit_tree_of(id@) == tree@ && commit_parents_of(id@)
            == seq![parent@] && commit_message_of(id@) == message@,
{
    let t = repo.find_tree(git2::Oid::from_bytes(&tree.bytes).unwrap())?;
    let p = repo.find_commit(git2::Oid::from_bytes(&parent.bytes).unwrap())?;
    let sig = repo.signature()?;
    let oid = repo.commit(Some(refname), &sig, &sig, message, &t, &[&p])?;
    Ok(ObjectId { bytes: oid.as_bytes().to_vec() })
}

/// Relies on `git2::Repository::is_path_ignored`: evaluates the store's
/// ignore rules for a working-directory path.
#[verifier::external_body]
pub fn path_is_ignored(repo: &git2::Repository, rel_path: &str) -> (r: Result<bool, git2::Error>) {
    repo.is_path_ignored(rel_path)
}

} // verus!
