use elba::cache::Cache;
use elba::error::{Error, ErrorKind};
use elba::layout::{Layout, OutputLayout};
use elba::lock::LockTable;

#[test]
fn layout_names_the_seven_directories() {
    let l = Layout::new("/home/u/.elba");
    assert_eq!(l.root, "/home/u/.elba");
    assert_eq!(l.bin, "/home/u/.elba/bin");
    assert_eq!(l.artifacts, "/home/u/.elba/artifacts");
    assert_eq!(l.src, "/home/u/.elba/src");
    assert_eq!(l.build, "/home/u/.elba/build");
    assert_eq!(l.tmp, "/home/u/.elba/tmp");
    assert_eq!(l.indices, "/home/u/.elba/indices");
    assert_eq!(
        l.dirs(),
        vec![
            "/home/u/.elba",
            "/home/u/.elba/artifacts",
            "/home/u/.elba/bin",
            "/home/u/.elba/src",
            "/home/u/.elba/build",
            "/home/u/.elba/indices",
            "/home/u/.elba/tmp",
        ]
    );
    let c = l.clone();
    assert_eq!(c.root, l.root);
    assert_eq!(c.tmp, l.tmp);
}

#[test]
fn layout_of_relative_and_slashed_roots() {
    let l = Layout::new("cache/");
    assert_eq!(l.src, "cache/src");
    let here = Layout::new("");
    assert_eq!(here.src, "src");
    assert_eq!(here.root, "");
}

#[test]
fn output_layout_lies_under_its_lock() {
    let mut table = LockTable::new();
    let lock = table.acquire("/t/out").unwrap();
    let o = OutputLayout::new(lock);
    assert_eq!(o.root, "/t/out");
    assert_eq!(o.artifacts, "/t/out/artifacts");
    assert_eq!(o.bin, "/t/out/bin");
    assert_eq!(o.lib, "/t/out/lib");
    assert_eq!(o.build, "/t/out/build");
    assert_eq!(o.deps, "/t/out/deps");
    assert_eq!(o.lock().path(), "/t/out");
    assert_eq!(
        o.dirs(),
        vec![
            "/t/out",
            "/t/out/bin",
            "/t/out/lib",
            "/t/out/build",
            "/t/out/deps",
            "/t/out/artifacts",
        ]
    );
    let back = o.into_lock();
    assert_eq!(back.path(), "/t/out");
    table.release(back);
    assert!(!table.is_held("/t/out"));
}

#[test]
fn lock_table_gives_one_claim_per_path() {
    let mut table = LockTable::new();
    assert_eq!(table.len(), 0);
    let a = table.acquire("/a").unwrap();
    assert_eq!(a.path(), "/a");
    assert!(table.is_held("/a"));
    assert!(!table.is_held("/b"));
    let busy = table.acquire("/a").unwrap_err();
    assert!(matches!(busy.kind, ErrorKind::LockBusy));
    assert_eq!(busy.path, "/a");
    assert_eq!(busy.resolution, None);
    assert_eq!(table.len(), 1);
    let b = table.acquire("/b").unwrap();
    assert_eq!(table.len(), 2);
    table.release(a);
    assert!(!table.is_held("/a"));
    assert!(table.is_held("/b"));
    let again = table.acquire("/a").unwrap();
    assert_eq!(again.path(), "/a");
    table.release(b);
    table.release(again);
    assert_eq!(table.len(), 0);
}

#[test]
fn releasing_a_foreign_claim_changes_nothing() {
    let mut one = LockTable::new();
    let mut two = LockTable::new();
    let foreign = two.acquire("/x").unwrap();
    let kept = one.acquire("/y").unwrap();
    one.release(foreign);
    assert!(one.is_held("/y"));
    assert_eq!(one.len(), 1);
    one.release(kept);
    assert_eq!(one.len(), 0);
}

#[test]
fn cache_from_disk_has_layout_and_no_claims() {
    let cache = Cache::from_disk("/c");
    assert_eq!(cache.layout().root, "/c");
    assert_eq!(cache.layout().indices, "/c/indices");
    assert!(!cache.is_held("/c"));
    assert!(!cache.is_held("/c/src"));
}

fn plain(kind: ErrorKind) -> Error {
    Error::at(kind, "/d")
}

#[test]
fn error_messages_and_retry() {
    assert_eq!(
        plain(ErrorKind::MissingManifest).message(),
        "manifest file elba.toml is missing"
    );
    assert_eq!(
        plain(ErrorKind::InvalidIndex).message(),
        "manifest or index descriptor could not be parsed"
    );
    assert_eq!(
        plain(ErrorKind::Checksum).message(),
        "retrieved bytes do not match the expected checksum"
    );
    assert_eq!(plain(ErrorKind::LockBusy).message(), "directory is locked by another holder");
    assert_eq!(plain(ErrorKind::Network).message(), "transport failure while retrieving");
    assert_eq!(plain(ErrorKind::Io).message(), "filesystem operation failed");
    let mismatch = plain(ErrorKind::NameMismatch {
        declared: "a/c".to_string(),
        found: "a/b".to_string(),
    });
    assert_eq!(
        mismatch.message(),
        "names don't match: a/c was declared, but a/b was found in elba.toml"
    );
    let exists = Error::at(ErrorKind::DestinationExists, "/p");
    assert_eq!(
        exists.message(),
        "destination `/p` already exists\n\ncreate a new `elba.toml` manifest file in the directory instead"
    );
    assert!(plain(ErrorKind::LockBusy).is_retryable());
    assert!(plain(ErrorKind::Network).is_retryable());
    assert!(!plain(ErrorKind::Io).is_retryable());
    assert!(!plain(ErrorKind::Checksum).is_retryable());
    assert!(!plain(ErrorKind::MissingManifest).is_retryable());
    assert!(!plain(ErrorKind::InvalidIndex).is_retryable());
    assert!(!mismatch.is_retryable());
    assert!(!exists.clone().is_retryable());
}

#[test]
fn errors_carry_path_and_resolution() {
    let bare = Error::at(ErrorKind::Io, "/c/build/abc");
    assert_eq!(bare.path, "/c/build/abc");
    assert_eq!(bare.resolution, None);
    assert_eq!(bare.context(), "path: /c/build/abc");
    assert_eq!(bare.report(), "filesystem operation failed\npath: /c/build/abc");
    let full = Error::within(ErrorKind::Checksum, "/c/src/x", "tar+u#c".to_string());
    assert_eq!(full.path, "/c/src/x");
    assert_eq!(full.resolution, Some("tar+u#c".to_string()));
    assert_eq!(full.context(), "path: /c/src/x, resolution: tar+u#c");
    assert_eq!(
        full.report(),
        "retrieved bytes do not match the expected checksum\npath: /c/src/x, resolution: tar+u#c"
    );
    let copy = full.clone();
    assert_eq!(copy.report(), full.report());
    assert!(matches!(copy.kind, ErrorKind::Checksum));
}
