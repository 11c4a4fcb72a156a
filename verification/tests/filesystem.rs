//! The virtual filesystem over the snapshots of a repository.
use rustic_core::jiff::tz::TimeZone;
use rustic_core::jiff::Timestamp as Instant;
use rustic_core::repofile::{MasterKey, Metadata, Node, NodeType, SnapshotFile};
use rustic_core::{
    BackupOptions, ConfigOptions, Credentials, DataId, ErrorKind as RusticKind, IndexedFullStatus,
    KeyOptions, PathList, Repository, RepositoryOptions, RusticError,
};
use rustic_vfs::backend::{build_vfs, vfs_built, BackendInfo, RepositoryContents, VfsBackend};
use rustic_vfs::config::{BackendOptions, RusticVfsConfig};
use rustic_vfs::error::{ErrorKind, ErrorStatus, VfsError};
use rustic_vfs::node::{EntryMode, Timestamp, VfsNode};
use rustic_vfs::path::normalize_path;
use rustic_vfs::repository::{end_of_blob, file_opened, open_node, RepositoryRequest};
use std::io::Write;
use std::path::Path;
use std::sync::Arc;
use std::time::Duration;

fn snapshot(hostname: &str, label: &str, second: i64) -> SnapshotFile {
    let mut snapshot = SnapshotFile::default();
    snapshot.hostname = hostname.to_string();
    snapshot.label = label.to_string();
    snapshot.time = Instant::from_second(second).expect("in range").to_zoned(TimeZone::UTC);
    snapshot
}

fn refusal() -> Box<RusticError> {
    RusticError::new(RusticKind::Vfs, "unreadable index")
}

/// A key file that opens a repository with the master key [`master_key`] by the
/// password `testing123456!`. Deriving a key from the password is meant to be slow,
/// and takes many seconds in a build without optimisation; this file asks for the
/// least work that there can be.
const KEY_FILE: &str = "\
    {\"kdf\":\"scrypt\",\"N\":2,\"r\":1,\"p\":1,\"data\":\"\
    AAECAwQFBgcAAAAAAAAAAIJv0fRY2IjJ2N+yj8Ufsfn2Hfhz4E5eQHMQtM+8uNOzkSpWXooFVdwohgz9\
    9qLKhCU+mjtOzZJcvIxZoZAZ0T9Vb1smjHPqj/hTdHSn5by09FKLEM0PO/dPI6LKElz8I4nq5xmL9MwL\
    AxQ0sU0eOJwakz8ppihWPrkAnaV1zGTejFpYsdGB1hPH7+YoIK1h6w==\
    \",\"salt\":\"\
    AAECAwQFBgcICQoLDA0ODxAREhMUFRYXGBkaGxwdHh8gISIjJCUmJygpKissLS4vMDEyMzQ1Njc4OTo7\
    PD0+Pw==\
    \"}";

/// Writes a file that is there until the handle is dropped.
fn write_file(dir: &Path, stem: &str, suffix: &str, content: &[u8]) -> tempfile::NamedTempFile {
    let mut file = tempfile::Builder::new()
        .prefix(stem)
        .suffix(suffix)
        .rand_bytes(0)
        .tempfile_in(dir)
        .expect("a new file");
    file.write_all(content).expect("write file");
    file.flush().expect("write file");
    file
}

/// The name of the key file: the hash of its content.
const KEY_ID: &str = "6b701454da457eed41b5ac191dab338b9888938318b792a00ad7243054565124";

/// The master key in [`KEY_FILE`].
fn master_key() -> MasterKey {
    let mut key = MasterKey::default();
    key.encrypt = vec![1; 32];
    key.mac.k = vec![2; 16];
    key.mac.r = vec![3; 16];
    key
}

/// A new repository without snapshots, open and indexed, with its directory.
fn empty_repository() -> (tempfile::TempDir, Arc<Repository<IndexedFullStatus>>) {
    repository_with_key(&Credentials::Masterkey(MasterKey::default()))
}

/// A new repository with the given key, open and indexed, with its directory.
fn repository_with_key(
    key: &Credentials,
) -> (tempfile::TempDir, Arc<Repository<IndexedFullStatus>>) {
    let dir = tempfile::tempdir().expect("repo tempdir");
    let backends = rustic_backend::BackendOptions::default()
        .repository(dir.path().to_string_lossy().to_string())
        .to_backends()
        .expect("backends");
    let mut options = RepositoryOptions::default();
    options.no_cache = true;
    let repo = Repository::new(&options, &backends)
        .unwrap()
        .init(
            key,
            &KeyOptions::default(),
            &ConfigOptions::default(),
        )
        .unwrap()
        .to_indexed()
        .unwrap();
    (dir, Arc::new(repo))
}

/// What the service looks at of a node.
fn facts(node: &Node) -> VfsNode {
    VfsNode {
        name: node.name.clone(),
        is_dir: node.is_dir(),
        mtime: node.meta.mtime.map(|mtime| Timestamp {
            second: mtime.as_second(),
            nanosecond: mtime.subsec_nanosecond(),
        }),
        size: node.meta.size,
    }
}

/// All bytes of a range of the file at `node`.
fn read_range(backend: &VfsBackend, node: &Node, offset: u64, size: Option<u64>) -> Vec<u8> {
    let (metadata, file, mut reader) =
        backend.read(node, &facts(node), offset, size).expect("the file opens");
    assert_eq!(metadata.content_length, node.meta.size);
    let mut all = Vec::new();
    while let Some(request) = reader.next_request() {
        let reply = backend
            .repository()
            .read_file_at(&file, request.offset, request.size)
            .map(|b| b.to_vec());
        let chunk = reader.read(reply).expect("the chunk is there");
        if chunk.is_empty() {
            break;
        }
        all.extend(chunk);
    }
    all
}

#[test]
fn snapshots_stand_under_host_label_and_time() {
    // 2023-11-14 22:13:20 UTC
    let vfs = build_vfs(Ok(vec![snapshot("host", "label", 1_700_000_000)])).expect("a tree");
    let shown = format!("{vfs:?}");
    assert!(shown.contains("\"[host]\""));
    assert!(shown.contains("\"[label]\""));
    assert!(shown.contains("\"2023-11-14_22-13-20\""));
    assert!(shown.contains("\"latest\""));
    assert!(!shown.contains("Link"));
}

#[test]
fn identical_snapshots_are_directories_of_their_own() {
    let vfs = build_vfs(Ok(vec![snapshot("h", "l", 0), snapshot("h", "l", 60)])).expect("a tree");
    let shown = format!("{vfs:?}");
    assert!(shown.contains("\"1970-01-01_00-00-00\""));
    assert!(shown.contains("\"1970-01-01_00-01-00\""));
    assert!(!shown.contains("Link"));
}

#[test]
fn tree_depends_on_the_snapshots_alone() {
    let once = build_vfs(Ok(vec![snapshot("a", "x", 1), snapshot("b", "y", 2)])).expect("a tree");
    let again = build_vfs(Ok(vec![snapshot("a", "x", 1), snapshot("b", "y", 2)])).expect("a tree");
    let other = build_vfs(Ok(vec![snapshot("a", "x", 1)])).expect("a tree");
    assert_eq!(format!("{once:?}"), format!("{again:?}"));
    assert_ne!(format!("{once:?}"), format!("{other:?}"));
}

#[test]
fn repository_without_snapshots_is_an_empty_tree() {
    let vfs = build_vfs(Ok(Vec::new())).expect("a tree");
    assert!(!format!("{vfs:?}").contains("latest"));
}

#[test]
fn unreadable_snapshots_are_unexpected() {
    let error = build_vfs(Err(refusal())).expect_err("no snapshots");
    assert!(matches!(error, VfsError::BuildVfs { .. }));
    assert_eq!(error.kind(), ErrorKind::Unexpected);
    assert_eq!(error.status(), ErrorStatus::Temporary);
    let source = error.into_source().expect("rustic said why");
    assert!(format!("{source:?}").contains("unreadable index"));
}

#[test]
fn snapshot_below_another_is_unexpected() {
    // The later snapshot would stand inside the earlier one.
    let inside = snapshot("a]/[b]/1970-01-01_00-00-00/x", "c", 60);
    let error = build_vfs(Ok(vec![snapshot("a", "b", 0), inside])).expect_err("no tree");
    assert!(matches!(error, VfsError::BuildVfs { .. }));
    assert_eq!(error.kind(), ErrorKind::Unexpected);
}

#[test]
fn refused_tree_is_unexpected() {
    let error = vfs_built(Err(refusal())).expect_err("no tree");
    assert!(matches!(error, VfsError::BuildVfs { .. }));
}

#[test]
fn service_introduces_itself() {
    let info = BackendInfo::new();
    assert_eq!(info.scheme, "rustic");
    assert_eq!(info.name, "Rustic");
    let capability = info.capability;
    assert!(capability.stat && capability.read && capability.list);
    assert!(capability.copy && capability.shared);
    assert!(!capability.write && !capability.create_dir && !capability.delete);
    assert!(!capability.rename && !capability.presign && !capability.list_with_recursive);
}

#[test]
fn service_over_snapshots_keeps_the_interval() {
    let (_dir, repo) = empty_repository();
    let backend = VfsBackend::from_repo(
        repo.clone(),
        Ok(vec![snapshot("host", "label", 0)]),
        Duration::from_secs(42),
    )
    .expect("a service");
    assert_eq!(backend.refresh_interval(), Duration::from_secs(42));
    assert!(format!("{:?}", backend.vfs()).contains("\"[host]\""));
    assert!(Arc::ptr_eq(backend.repository(), &repo));
}

#[test]
fn service_over_an_empty_repository_is_empty() {
    let (_dir, repo) = empty_repository();
    let snapshots = repo.get_all_snapshots();
    let backend =
        VfsBackend::from_repo(repo, snapshots, Duration::from_secs(1)).expect("a service");
    assert!(!format!("{:?}", backend.vfs()).contains("latest"));
}

#[test]
fn info_is_the_same_before_and_after_a_rebuild() {
    let (_dir, repo) = empty_repository();
    let mut backend =
        VfsBackend::from_repo(repo.clone(), Ok(Vec::new()), Duration::from_secs(1)).expect("one");
    let before = backend.info();
    let contents = RepositoryContents {
        repository: repo,
        snapshots: Ok(vec![snapshot("host", "label", 0)]),
    };
    backend.install(VfsBackend::rebuild(Ok(contents)).expect("a tree"));
    let after = backend.info();
    assert!(Arc::ptr_eq(&before, &after));
    assert_eq!(after.scheme, "rustic");
    assert_eq!(after.name, "Rustic");
    assert_eq!(after.capability, BackendInfo::new().capability);
    assert_eq!(backend.refresh_interval(), Duration::from_secs(1));
}

#[test]
fn rebuild_serves_what_was_read() {
    let (_dir, first) = empty_repository();
    let (_other, second) = empty_repository();
    let mut backend =
        VfsBackend::from_repo(first, Ok(Vec::new()), Duration::from_secs(1)).expect("a service");
    let contents = RepositoryContents {
        repository: second.clone(),
        snapshots: Ok(vec![snapshot("host", "label", 0)]),
    };
    backend.install(VfsBackend::rebuild(Ok(contents)).expect("a tree"));
    assert!(Arc::ptr_eq(backend.repository(), &second));
    assert!(format!("{:?}", backend.vfs()).contains("\"[host]\""));
}

#[test]
fn rebuild_of_what_cannot_be_read_is_unexpected() {
    let error = VfsBackend::rebuild(Err(refusal())).expect_err("no repository");
    assert!(matches!(error, VfsError::OpenRepository { .. }));
    let (_dir, repository) = empty_repository();
    let contents = RepositoryContents { repository, snapshots: Err(refusal()) };
    let error = VfsBackend::rebuild(Ok(contents)).expect_err("no snapshots");
    assert!(matches!(error, VfsError::BuildVfs { .. }));
}

#[test]
fn service_over_unreadable_snapshots_is_unexpected() {
    let (_dir, repo) = empty_repository();
    let error =
        VfsBackend::from_repo(repo, Err(refusal()), Duration::from_secs(1)).expect_err("none");
    assert!(matches!(error, VfsError::BuildVfs { .. }));
}

#[test]
fn blobs_add_up_to_the_length_of_a_file() {
    assert_eq!(end_of_blob(0, (32, None)), Some(0));
    assert_eq!(end_of_blob(5, (42, None)), Some(15));
    assert_eq!(end_of_blob(5, (42, Some(100))), Some(105));
    assert_eq!(end_of_blob(5, (1, Some(100))), Some(105));
    assert_eq!(end_of_blob(0, (31, None)), None);
    assert_eq!(end_of_blob(usize::MAX, (33, None)), None);
    assert_eq!(end_of_blob(usize::MAX, (32, None)), Some(usize::MAX));
}

#[test]
fn refused_file_is_unexpected() {
    let failed: Result<(), Box<RusticError>> = Err(refusal());
    let error = file_opened(failed).expect_err("not opened");
    assert!(matches!(error, VfsError::OpenFile { .. }));
    assert_eq!(error.kind(), ErrorKind::Unexpected);
    assert_eq!(file_opened(Ok(4)).expect("opened"), 4);
}

/// Strips the leading separator so `/tmp/foo` becomes `tmp/foo`, matching
/// rustic's file-structure layout inside the VFS.
fn vfs_path(host_path: &Path) -> String {
    host_path
        .to_string_lossy()
        .trim_start_matches('/')
        .replace('\\', "/")
        .replace(':', "")
}

#[test]
fn backup_and_read_through_vfs() {
    // Repository
    let repo_dir = tempfile::tempdir().expect("repo tempdir");
    let location = repo_dir.path().to_string_lossy().to_string();

    let backends = rustic_backend::BackendOptions::default()
        .repository(location.clone())
        .to_backends()
        .expect("backends");

    let repo = Repository::new(&RepositoryOptions::default(), &backends)
        .unwrap()
        .init(
            &Credentials::Masterkey(master_key()),
            &KeyOptions::default(),
            &ConfigOptions::default(),
        )
        .unwrap()
        .to_indexed_ids() // need IDs to run a backup
        .unwrap();
    let _key_file = write_file(&repo_dir.path().join("keys"), KEY_ID, "", KEY_FILE.as_bytes());

    // Source data
    let src_dir = tempfile::tempdir().expect("source tempdir");
    let _src_file = write_file(src_dir.path(), "hello", ".txt", b"hello from backup");

    // Backup
    let paths = PathList::from_iter([src_dir.path()]);
    let mut file = SnapshotFile::default();
    file.hostname = "testvm".into();
    file.label = "test".into();
    file = repo.backup(&BackupOptions::default(), &paths, file).expect("backup");

    // The service
    let config = RusticVfsConfig {
        backend: BackendOptions { repository: Some(location), ..Default::default() },
        credentials: Some(Credentials::Password("testing123456!".into())),
        ..Default::default()
    };
    let request = config.into_builder().build().expect("VFS init");
    let interval = request.refresh_interval;
    let opened = request.repository.open(&request.credentials).and_then(|r| r.to_indexed());
    let repo = RepositoryRequest::opened(opened).expect("VFS init");
    let snapshots = repo.get_all_snapshots();
    let backend = VfsBackend::from_repo(Arc::new(repo), snapshots, interval).expect("VFS init");
    let repo = backend.repository();
    let lookup =
        |path: &str| backend.vfs().node_from_path(repo, Path::new(&normalize_path(path)));
    let children =
        |path: &str| backend.vfs().dir_entries_from_path(repo, Path::new(&normalize_path(path)));

    // snapshots/latest exists
    let root = format!("/[{}]/[{}]", &file.hostname, &file.label);
    let latest = format!("{}/latest", &root);
    let latest_meta = VfsBackend::stat(lookup(&latest).map(|n| facts(&n)))
        .expect("/snapshots/latest should exist");
    assert_eq!(latest_meta.mode, EntryMode::Dir, "snapshots/latest must be a directory");

    // The backed-up file is reachable
    let relative = format!("{}/latest/{}/hello.txt", &root, vfs_path(src_dir.path()));
    let node = lookup(&relative).unwrap_or_else(|_| panic!("expected file at VFS path: {relative}"));
    let file_meta = VfsBackend::stat(Ok(facts(&node)))
        .unwrap_or_else(|_| panic!("expected file at VFS path: {relative}"));
    assert_eq!(file_meta.mode, EntryMode::File, "entry should be a regular file");
    assert_eq!(file_meta.content_length, 17);

    // Content
    assert_eq!(read_range(&backend, &node, 0, None), "hello from backup".as_bytes());
    assert_eq!(read_range(&backend, &node, 6, Some(4)), "from".as_bytes());
    assert_eq!(read_range(&backend, &node, 11, Some(100)), "backup".as_bytes());
    assert_eq!(read_range(&backend, &node, 17, None), Vec::<u8>::new());
    assert_eq!(read_range(&backend, &node, 0, Some(0)), Vec::<u8>::new());

    // A node whose blob is not in the index
    let content = Some(vec![DataId::default()]);
    let stray = Node::new("x".into(), NodeType::File, Metadata::default(), content, None);
    let error = open_node(repo, &stray).expect_err("no such blob");
    assert!(matches!(error, VfsError::OpenFile { .. }));
    let error = backend.read(&stray, &facts(&stray), 0, None).expect_err("no blob");
    assert_eq!(error.kind(), ErrorKind::Unexpected);

    // A node without content
    let empty = Node::new("x".into(), NodeType::File, Metadata::default(), None, None);
    assert_eq!(read_range(&backend, &empty, 0, None), Vec::<u8>::new());

    // Slashes in front of a path, and listed entries of such a directory
    let slashed = format!("//{}", relative);
    assert_eq!(lookup(&slashed).expect("the same file").meta.size, 17);
    let dir = format!("//{}/latest/{}", &root, vfs_path(src_dir.path()));
    let mut lister = VfsBackend::list(
        &dir,
        lookup(&dir).map(|n| facts(&n)),
        children(&dir).map(|nodes| nodes.iter().map(facts).collect()),
    )
    .expect("a directory");
    let entry = lister.next().expect("one file");
    let metadata = VfsBackend::stat(lookup(&entry.path).map(|n| facts(&n))).expect("the file");
    assert_eq!(metadata, entry.metadata);

    // Listing
    let dir = format!("{}/latest/{}/", &root, vfs_path(src_dir.path()));
    let mut lister = VfsBackend::list(
        &dir,
        lookup(&dir).map(|n| facts(&n)),
        children(&dir).map(|nodes| nodes.iter().map(facts).collect()),
    )
    .expect("a directory");
    let entry = lister.next().expect("one file");
    assert_eq!(format!("/{}", entry.path), relative);
    assert_eq!(entry.metadata, file_meta);
    assert!(lister.next().is_none());

    // What is not there
    let missing = VfsBackend::stat(lookup("/[nobody]").map(|n| facts(&n))).expect_err("missing");
    assert_eq!(missing.kind(), ErrorKind::NotFound);
    let no_dir = VfsBackend::list(
        &relative,
        lookup(&relative).map(|n| facts(&n)),
        children(&relative).map(|nodes| nodes.iter().map(facts).collect()),
    )
    .expect_err("a file");
    assert_eq!(no_dir.kind(), ErrorKind::NotFound);
}

#[test]
fn missing_repository_is_unexpected() {
    let repo_dir = tempfile::tempdir().expect("repo tempdir");
    let config = RusticVfsConfig {
        backend: BackendOptions {
            repository: Some(repo_dir.path().to_string_lossy().to_string()),
            ..Default::default()
        },
        credentials: Some(Credentials::Password("whatever".into())),
        ..Default::default()
    };
    let request = VfsBackend::from_config(config).expect("the configuration is fine");
    let opened = request.repository.open(&request.credentials);
    let error = RepositoryRequest::opened(opened.map(|_| ())).expect_err("no repository there");
    assert!(matches!(error, VfsError::OpenRepository { .. }));
    assert_eq!(error.kind(), ErrorKind::Unexpected);
}

#[test]
fn rejected_password_is_unexpected() {
    let (dir, _repo) = repository_with_key(&Credentials::Masterkey(master_key()));
    let _key_file = write_file(&dir.path().join("keys"), KEY_ID, "", KEY_FILE.as_bytes());
    let config = RusticVfsConfig {
        backend: BackendOptions {
            repository: Some(dir.path().to_string_lossy().to_string()),
            ..Default::default()
        },
        credentials: Some(Credentials::Password("not this one".into())),
        ..Default::default()
    };
    let request = VfsBackend::from_config(config).expect("the configuration is fine");
    let opened = request.repository.open(&request.credentials);
    let error = RepositoryRequest::opened(opened.map(|_| ())).expect_err("wrong password");
    assert!(matches!(error, VfsError::OpenRepository { .. }));
    assert_eq!(error.kind(), ErrorKind::Unexpected);
    assert!(error.into_source().expect("rustic said why").is_incorrect_password());
}
