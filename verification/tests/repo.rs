use std::io::Write;
use std::path::Path;

use gb_watcher::config::WatchConfig;
use gb_watcher::digest::Sha256Stream;
use gb_watcher::entry::{Entry, FileMeta};
use gb_watcher::errors::WatchError;
use gb_watcher::ids::ObjectId;
use gb_watcher::snapshot::{build_session_entries, build_snapshot, build_wd_entries,
    evaluate_ignores, ignored_fail_safe, wd_entry_for, SessionFile, WdFile};
use gb_watcher::store::lookup_index_entry;

fn write_file(dir: &Path, rel: &str, content: &[u8]) {
    let mut f = tempfile::NamedTempFile::new_in(dir).unwrap();
    f.write_all(content).unwrap();
    f.persist(dir.join(rel)).unwrap();
}

fn init_repo(dir: &Path) -> git2::Repository {
    let repo = git2::Repository::init(dir).unwrap();
    {
        let mut config = repo.config().unwrap();
        config.set_str("user.name", "watcher-test").unwrap();
        config.set_str("user.email", "watcher@example.com").unwrap();
        config.set_bool("core.logallrefupdates", true).unwrap();
    }
    // Seed HEAD with one commit so the reference log file exists, then give
    // the log known bytes.
    let tree_id = repo.treebuilder(None).unwrap().write().unwrap();
    {
        let tree = repo.find_tree(tree_id).unwrap();
        let sig = repo.signature().unwrap();
        repo.commit(Some("HEAD"), &sig, &sig, "seed", &tree, &[]).unwrap();
    }
    write_file(&repo.path().join("logs"), "HEAD", b"reflog\n");
    repo
}

fn gitdir_of(repo: &git2::Repository) -> String {
    repo.path().to_str().unwrap().trim_end_matches('/').to_string()
}

fn test_meta(size: u64) -> FileMeta {
    FileMeta {
        mtime_secs: 1_700_000_000,
        mtime_nanos: 1,
        ctime_secs: 1_700_000_000,
        ctime_nanos: 1,
        dev: 1,
        ino: 1,
        mode: 0o100644,
        uid: 1000,
        gid: 1000,
        size,
    }
}

fn wd_file(rel: &str, size: u64) -> WdFile {
    WdFile { rel_path: rel.to_string(), meta: test_meta(size), large_digest: None }
}

#[test]
fn stale_session_produces_composed_commit() {
    let tmp = tempfile::tempdir().unwrap();
    let repo = init_repo(tmp.path());
    let gitdir = gitdir_of(&repo);
    let workdir = tmp.path().to_str().unwrap();
    write_file(tmp.path(), "f.txt", b"hello10byt");

    let wd = vec![wd_file("f.txt", 10)];
    let sess: Vec<SessionFile> = vec![];
    let log_meta = test_meta(7);
    let cfg = WatchConfig::default();

    let snap = build_snapshot(&repo, workdir, &gitdir, &wd, &sess, &log_meta, &cfg).unwrap();
    assert!(snap.parent.is_none());
    assert_eq!(snap.kept, vec![true]);

    let coid = git2::Oid::from_bytes(&snap.commit.bytes).unwrap();
    let commit = repo.find_commit(coid).unwrap();
    assert_eq!(commit.parent_count(), 0);
    assert_eq!(commit.message().unwrap(), "gitbutler check");

    let tree = commit.tree().unwrap();
    let wd_sub = tree.get_name("wd").expect("wd sub-tree");
    let session_sub = tree.get_name("session").expect("session sub-tree");
    let logs_sub = tree.get_name("logs").expect("logs sub-tree");
    assert_eq!(session_sub.filemode(), 0o040000);

    let head = repo.revparse_single("refs/gitbutler/current").unwrap();
    assert_eq!(head.id(), coid);

    let wd_tree = repo.find_tree(wd_sub.id()).unwrap();
    let blob_id = wd_tree.get_name("f.txt").unwrap().id();
    assert_eq!(repo.find_blob(blob_id).unwrap().content(), b"hello10byt");

    let logs_tree = repo.find_tree(logs_sub.id()).unwrap();
    let log_blob = logs_tree.get_name("HEAD").unwrap().id();
    assert_eq!(repo.find_blob(log_blob).unwrap().content(), b"reflog\n");
}

#[test]
fn second_closure_chains_onto_first() {
    let tmp = tempfile::tempdir().unwrap();
    let repo = init_repo(tmp.path());
    let gitdir = gitdir_of(&repo);
    let workdir = tmp.path().to_str().unwrap();
    write_file(tmp.path(), "f.txt", b"hello10byt");

    let wd = vec![wd_file("f.txt", 10)];
    let sess: Vec<SessionFile> = vec![];
    let log_meta = test_meta(7);
    let cfg = WatchConfig::default();

    let first = build_snapshot(&repo, workdir, &gitdir, &wd, &sess, &log_meta, &cfg).unwrap();
    let second = build_snapshot(&repo, workdir, &gitdir, &wd, &sess, &log_meta, &cfg).unwrap();

    assert!(first.parent.is_none());
    assert_eq!(second.parent.as_ref().unwrap().bytes, first.commit.bytes);

    let c2 = repo.find_commit(git2::Oid::from_bytes(&second.commit.bytes).unwrap()).unwrap();
    assert_eq!(c2.parent_count(), 1);
    assert_eq!(c2.parent_id(0).unwrap(), git2::Oid::from_bytes(&first.commit.bytes).unwrap());
    assert_ne!(first.commit.bytes, second.commit.bytes);
}

#[test]
fn unchanged_inputs_repeat_tree_ids() {
    let tmp = tempfile::tempdir().unwrap();
    let repo = init_repo(tmp.path());
    let gitdir = gitdir_of(&repo);
    let workdir = tmp.path().to_str().unwrap();
    write_file(tmp.path(), "a.txt", b"alpha");
    write_file(tmp.path(), "b.txt", b"beta");

    let wd = vec![wd_file("a.txt", 5), wd_file("b.txt", 4)];
    let sess: Vec<SessionFile> = vec![];
    let log_meta = test_meta(7);
    let cfg = WatchConfig::default();

    let first = build_snapshot(&repo, workdir, &gitdir, &wd, &sess, &log_meta, &cfg).unwrap();
    let second = build_snapshot(&repo, workdir, &gitdir, &wd, &sess, &log_meta, &cfg).unwrap();

    assert_eq!(first.wd_tree, second.wd_tree);
    assert_eq!(first.session_tree, second.session_tree);
    assert_eq!(first.log_tree, second.log_tree);
    assert_eq!(first.root_tree, second.root_tree);
    assert_ne!(first.commit, second.commit);
}

#[test]
fn oversized_file_stores_pointer_blob() {
    let tmp = tempfile::tempdir().unwrap();
    let repo = init_repo(tmp.path());
    let gitdir = gitdir_of(&repo);
    let workdir = tmp.path().to_str().unwrap();

    let chunk = vec![0u8; 10_000_000];
    {
        let mut f = tempfile::NamedTempFile::new_in(tmp.path()).unwrap();
        for _ in 0..15 {
            f.write_all(&chunk).unwrap();
        }
        f.persist(tmp.path().join("big.bin")).unwrap();
    }
    let mut h = Sha256Stream::new();
    for _ in 0..15 {
        h.update(&chunk);
    }
    let digest = h.finalize_hex();

    let wd = vec![WdFile {
        rel_path: "big.bin".to_string(),
        meta: test_meta(150_000_000),
        large_digest: Some(digest.clone()),
    }];
    let sess: Vec<SessionFile> = vec![];
    let log_meta = test_meta(7);
    let cfg = WatchConfig::default();

    let snap = build_snapshot(&repo, workdir, &gitdir, &wd, &sess, &log_meta, &cfg).unwrap();

    let commit = repo.find_commit(git2::Oid::from_bytes(&snap.commit.bytes).unwrap()).unwrap();
    let tree = commit.tree().unwrap();
    let wd_tree = repo.find_tree(tree.get_name("wd").unwrap().id()).unwrap();
    let blob_id = wd_tree.get_name("big.bin").unwrap().id();
    let blob = repo.find_blob(blob_id).unwrap();
    let expected = format!(
        "version https://git-lfs.github.com/spec/v1\noid sha256:{}\nsize 150000000\n",
        digest
    );
    assert_eq!(blob.content(), expected.as_bytes());
}

#[test]
fn reuse_cache_returns_previous_entry_without_reading() {
    let tmp = tempfile::tempdir().unwrap();
    let repo = init_repo(tmp.path());
    let workdir = tmp.path().to_str().unwrap();

    // No file named r.txt exists, so only the cache can serve this entry.
    let meta = test_meta(3);
    let prev = Entry {
        ctime_secs: 1_700_000_000,
        ctime_nanos: 1,
        mtime_secs: 1_700_000_000,
        mtime_nanos: 1,
        dev: 1,
        ino: 1,
        mode: 0o100644,
        uid: 1000,
        gid: 1000,
        file_size: 3,
        id: ObjectId { bytes: vec![0xab; 20] },
        flags: 10,
        flags_extended: 0,
        path: "r.txt".to_string(),
    };
    let f = WdFile { rel_path: "r.txt".to_string(), meta, large_digest: None };
    let cfg = WatchConfig::default();
    let e = wd_entry_for(&repo, workdir, &f, Some(prev), &cfg).unwrap();
    assert_eq!(e.id.bytes, vec![0xab; 20]);
    assert_eq!(e.path, "r.txt");
}

#[test]
fn live_index_lookup_finds_recorded_entry() {
    let tmp = tempfile::tempdir().unwrap();
    let repo = init_repo(tmp.path());
    write_file(tmp.path(), "r.txt", b"one");

    let mut index = repo.index().unwrap();
    index.add_path(Path::new("r.txt")).unwrap();
    index.write().unwrap();

    let found = lookup_index_entry(&repo, "r.txt").expect("recorded entry");
    assert_eq!(found.path, "r.txt");
    assert_eq!(found.file_size, 3);
    assert_eq!(found.id.bytes, repo.blob(b"one").unwrap().as_bytes().to_vec());
    assert!(lookup_index_entry(&repo, "absent.txt").is_none());
}

#[test]
fn changed_metadata_rehashes_content() {
    let tmp = tempfile::tempdir().unwrap();
    let repo = init_repo(tmp.path());
    let workdir = tmp.path().to_str().unwrap();
    write_file(tmp.path(), "c.txt", b"second--");

    // A recorded entry whose size differs from the live file's: no reuse.
    let prev = Entry {
        ctime_secs: 1_700_000_000,
        ctime_nanos: 1,
        mtime_secs: 1_700_000_000,
        mtime_nanos: 1,
        dev: 1,
        ino: 1,
        mode: 0o100644,
        uid: 1000,
        gid: 1000,
        file_size: 5,
        id: ObjectId { bytes: vec![0xab; 20] },
        flags: 10,
        flags_extended: 0,
        path: "c.txt".to_string(),
    };
    let f = WdFile { rel_path: "c.txt".to_string(), meta: test_meta(8), large_digest: None };
    let cfg = WatchConfig::default();
    let e = wd_entry_for(&repo, workdir, &f, Some(prev), &cfg).unwrap();

    let expected = repo.blob(b"second--").unwrap();
    assert_eq!(e.id.bytes, expected.as_bytes().to_vec());
}

#[test]
fn ignored_paths_are_excluded() {
    let tmp = tempfile::tempdir().unwrap();
    let repo = init_repo(tmp.path());
    let workdir = tmp.path().to_str().unwrap();
    write_file(tmp.path(), ".gitignore", b"skipme.txt\n");
    write_file(tmp.path(), "skipme.txt", b"secret");

    let files = vec![wd_file("skipme.txt", 6)];
    let cfg = WatchConfig::default();
    let keep = evaluate_ignores(&repo, &files);
    assert_eq!(keep, vec![false]);
    let out = build_wd_entries(&repo, workdir, &files, &keep, &cfg).unwrap();
    assert!(out.is_empty());
}

#[test]
fn session_files_are_stored_fresh() {
    let tmp = tempfile::tempdir().unwrap();
    let repo = init_repo(tmp.path());

    // A separate store directory whose gb/session chain is created for us.
    let store_root = tempfile::tempdir().unwrap();
    git2::Repository::init(store_root.path().join("gb/session")).unwrap();
    let session_dir = store_root.path().join("gb/session");
    write_file(&session_dir, "sfile", b"session-data");

    let gitdir = store_root.path().to_str().unwrap().to_string();
    let sf = vec![SessionFile { rel_path: "sfile".to_string(), meta: test_meta(12) }];
    let out = build_session_entries(&repo, &gitdir, &sf).unwrap();
    assert_eq!(out.len(), 1);
    assert_eq!(out[0].path, "sfile");
    assert_eq!(out[0].flags, 10);

    let blob = repo.find_blob(git2::Oid::from_bytes(&out[0].id.bytes).unwrap()).unwrap();
    assert_eq!(blob.content(), b"session-data");
}

#[test]
fn missing_file_aborts_with_store_error() {
    let tmp = tempfile::tempdir().unwrap();
    let repo = init_repo(tmp.path());
    let workdir = tmp.path().to_str().unwrap();

    let files = vec![wd_file("gone.txt", 1)];
    let cfg = WatchConfig::default();
    let keep = evaluate_ignores(&repo, &files);
    assert_eq!(keep, vec![true]);
    let r = build_wd_entries(&repo, workdir, &files, &keep, &cfg);
    assert!(matches!(r, Err(WatchError::GitError(_))));
}

#[test]
fn ignore_evaluation_error_counts_as_ignored() {
    assert!(!ignored_fail_safe(Ok(false)));
    assert!(ignored_fail_safe(Ok(true)));
    assert!(ignored_fail_safe(Err(git2::Error::from_str("ignore rules unreadable"))));
}

#[test]
fn empty_candidate_lists_succeed() {
    let tmp = tempfile::tempdir().unwrap();
    let repo = init_repo(tmp.path());
    let gitdir = gitdir_of(&repo);
    let workdir = tmp.path().to_str().unwrap();
    let cfg = WatchConfig::default();

    let wd = build_wd_entries(&repo, workdir, &Vec::new(), &Vec::new(), &cfg).unwrap();
    assert!(wd.is_empty());
    let sess = build_session_entries(&repo, &gitdir, &Vec::new()).unwrap();
    assert!(sess.is_empty());
}

#[test]
fn kept_and_ignored_candidates_correspond_exactly() {
    let tmp = tempfile::tempdir().unwrap();
    let repo = init_repo(tmp.path());
    let workdir = tmp.path().to_str().unwrap();
    write_file(tmp.path(), ".gitignore", b"skipme.txt\n");
    write_file(tmp.path(), "a.txt", b"alpha");
    write_file(tmp.path(), "skipme.txt", b"secret");
    write_file(tmp.path(), "b.txt", b"beta");

    let files = vec![wd_file("a.txt", 5), wd_file("skipme.txt", 6), wd_file("b.txt", 4)];
    let cfg = WatchConfig::default();
    let keep = evaluate_ignores(&repo, &files);
    assert_eq!(keep, vec![true, false, true]);
    let out = build_wd_entries(&repo, workdir, &files, &keep, &cfg).unwrap();
    assert_eq!(out.len(), 2);
    assert_eq!(out[0].path, "a.txt");
    assert_eq!(out[1].path, "b.txt");
}

#[test]
fn session_metadata_misfit_is_rejected() {
    let tmp = tempfile::tempdir().unwrap();
    let repo = init_repo(tmp.path());

    let store_root = tempfile::tempdir().unwrap();
    git2::Repository::init(store_root.path().join("gb/session")).unwrap();
    write_file(&store_root.path().join("gb/session"), "huge", b"x");

    let gitdir = store_root.path().to_str().unwrap().to_string();
    let mut meta = test_meta(1);
    meta.size = u64::from(u32::MAX) + 1;
    let sf = vec![SessionFile { rel_path: "huge".to_string(), meta }];
    let r = build_session_entries(&repo, &gitdir, &sf);
    assert!(matches!(r, Err(WatchError::IOError(_))));
}
