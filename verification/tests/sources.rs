use elba::buildhash::BuildHash;
use elba::cache::Cache;
use elba::digest::sha256_hex;
use elba::error::{Error, ErrorKind};
use elba::lock::LockTable;
use elba::name::Name;
use elba::package::{Manifest, PackageId};
use elba::plan::FsStep;
use elba::resolution::DirectRes;
use elba::source::{Binary, ManifestLoad, Source, ARCHIVE_ROOT};
use elba::version::Version;

fn tarball() -> DirectRes {
    DirectRes::Tar {
        url: "https://example.com/foo-bar.tar.gz".to_string(),
        cksum: "sha256=00ff".to_string(),
    }
}

fn foo_bar() -> PackageId {
    PackageId::new(Name::parse("foo/bar").unwrap(), tarball())
}

fn manifest(name: &str, version: &str) -> ManifestLoad {
    ManifestLoad::Parsed(Manifest::new(
        Name::parse(name).unwrap(),
        Version::parse(version).unwrap(),
    ))
}

fn source_at(table: &mut LockTable, path: &str, archive: &[u8]) -> Source {
    let lock = table.acquire(path).unwrap();
    Source::from_folder(
        &foo_bar(),
        lock,
        tarball(),
        manifest("foo/bar", "1.0.0"),
        Some(archive.to_vec()),
    )
    .unwrap()
}

fn is_busy(e: &Error) -> bool {
    matches!(e.kind, ErrorKind::LockBusy)
}

fn is_create(step: &FsStep, want: &str) -> bool {
    matches!(step, FsStep::CreateDirAll { path } if path == want)
}

fn is_clear(step: &FsStep, want: &str) -> bool {
    matches!(step, FsStep::ClearDir { path } if path == want)
}

#[test]
fn tarball_cache_hit_needs_no_retrieval() {
    let mut cache = Cache::from_disk("/c");
    let pkg = foo_bar();
    let loc = tarball();
    let v = Version::new(1, 0, 0);
    let dir = cache.source_dir(pkg.name(), &loc, Some(&v));
    assert_eq!(
        dir,
        format!("/c/src/{}", Cache::get_source_dir(pkg.name(), &loc, Some(&v)))
    );
    assert_eq!(cache.check_source(pkg.name(), &loc, Some(&v), true), Some(dir.clone()));
    let ticket = cache.load_source(&pkg, &loc, Some(&v), true).unwrap();
    assert_eq!(ticket.dir.path(), dir);
    assert_eq!(ticket.steps.len(), 1);
    assert!(is_create(&ticket.steps[0], &dir));
    let source = cache
        .checkout_source(
            &pkg,
            &loc,
            ticket.dir,
            manifest("foo/bar", "1.0.0"),
            Some(b"archive".to_vec()),
        )
        .unwrap();
    assert_eq!(source.meta().summary().0.as_text(), "foo/bar");
    assert_eq!(source.meta().summary().1.to_text(), "1.0.0");
    assert_eq!(source.path(), dir);
    assert_eq!(*source.location(), loc);
    assert!(cache.is_held(&dir));
}

#[test]
fn tarball_cache_miss_retrieves_once() {
    let mut cache = Cache::from_disk("/c");
    let pkg = foo_bar();
    let loc = tarball();
    let v = Version::new(1, 0, 0);
    let dir = cache.source_dir(pkg.name(), &loc, Some(&v));
    assert_eq!(cache.check_source(pkg.name(), &loc, Some(&v), false), None);
    let ticket = cache.load_source(&pkg, &loc, Some(&v), false).unwrap();
    assert_eq!(ticket.steps.len(), 2);
    assert!(is_create(&ticket.steps[0], &dir));
    match &ticket.steps[1] {
        FsStep::Retrieve { res, dest } => {
            assert_eq!(*res, loc);
            assert_eq!(*dest, dir);
        }
        other => panic!("unexpected step {:?}", other),
    }
    let retrievals = ticket
        .steps
        .iter()
        .filter(|s| matches!(s, FsStep::Retrieve { .. }))
        .count();
    assert_eq!(retrievals, 1);
    let source = cache
        .checkout_source(
            &pkg,
            &loc,
            ticket.dir,
            manifest("foo/bar", "1.0.0"),
            Some(b"archive".to_vec()),
        )
        .unwrap();
    let lock = source.into_lock().ok().unwrap();
    cache.release(lock);
    let again = cache.load_source(&pkg, &loc, Some(&v), true).unwrap();
    assert_eq!(again.dir.path(), dir);
    assert!(again.steps.iter().all(|s| !matches!(s, FsStep::Retrieve { .. })));
}

#[test]
fn local_directory_is_used_where_it_is() {
    let mut cache = Cache::from_disk("/c");
    let loc = DirectRes::Dir { path: "/tmp/mypkg".to_string() };
    let pkg = PackageId::new(Name::parse("foo/bar").unwrap(), loc.clone());
    assert_eq!(
        cache.check_source(pkg.name(), &loc, None, false),
        Some("/tmp/mypkg".to_string())
    );
    let ticket = cache.load_source(&pkg, &loc, None, false).unwrap();
    assert_eq!(ticket.dir.path(), "/tmp/mypkg");
    assert_eq!(ticket.steps.len(), 1);
    assert!(is_create(&ticket.steps[0], "/tmp/mypkg"));
    let source = cache
        .checkout_source(&pkg, &loc, ticket.dir, manifest("foo/bar", "0.1.0"), Some(vec![1, 2]))
        .unwrap();
    assert_eq!(source.path(), "/tmp/mypkg");
    assert!(!source.path().starts_with("/c/src"));
    assert_eq!(*source.location(), loc);
}

#[test]
fn name_mismatch_names_both_names() {
    let mut cache = Cache::from_disk("/c");
    let loc = tarball();
    let pkg = PackageId::new(Name::parse("a/c").unwrap(), loc.clone());
    let ticket = cache.load_source(&pkg, &loc, None, true).unwrap();
    let dir = ticket.dir.path().to_string();
    let err = cache
        .checkout_source(&pkg, &loc, ticket.dir, manifest("a/b", "1.0.0"), Some(vec![]))
        .unwrap_err();
    match &err.kind {
        ErrorKind::NameMismatch { declared, found } => {
            assert_eq!(declared, "a/c");
            assert_eq!(found, "a/b");
        }
        other => panic!("unexpected error {:?}", other),
    }
    assert_eq!(err.path, dir);
    assert_eq!(err.resolution, Some(loc.canonical_string()));
    assert!(err.report().contains(&dir));
    assert!(err.report().contains("tar+https://example.com/foo-bar.tar.gz#sha256=00ff"));
    assert!(err.message().contains("a/c"));
    assert!(err.message().contains("a/b"));
    assert!(!cache.is_held(&dir));
}

#[test]
fn manifest_failures_come_first() {
    let mut table = LockTable::new();
    let pkg = foo_bar();
    let lock = table.acquire("/s").unwrap();
    let r = Source::from_folder(&pkg, lock, tarball(), ManifestLoad::Missing, None).unwrap_err();
    assert!(matches!(r.error.kind, ErrorKind::MissingManifest));
    assert_eq!(r.error.path, "/s");
    assert_eq!(r.error.resolution, Some(tarball().canonical_string()));
    assert_eq!(r.lock.path(), "/s");
    let r = Source::from_folder(&pkg, r.lock, tarball(), ManifestLoad::Unreadable, Some(vec![]))
        .unwrap_err();
    assert!(matches!(r.error.kind, ErrorKind::InvalidIndex));
    let r = Source::from_folder(&pkg, r.lock, tarball(), ManifestLoad::Unparsable, Some(vec![]))
        .unwrap_err();
    assert!(matches!(r.error.kind, ErrorKind::InvalidIndex));
    let r = Source::from_folder(&pkg, r.lock, tarball(), manifest("foo/baz", "1.0.0"), None)
        .unwrap_err();
    assert!(matches!(r.error.kind, ErrorKind::NameMismatch { .. }));
    let r = Source::from_folder(&pkg, r.lock, tarball(), manifest("foo/bar", "1.0.0"), None)
        .unwrap_err();
    assert!(matches!(r.error.kind, ErrorKind::Io));
    assert_eq!(r.error.path, "/s");
    let ok = Source::from_folder(
        &pkg,
        r.lock,
        tarball(),
        manifest("foo/bar", "1.0.0"),
        Some(vec![]),
    );
    assert!(ok.is_ok());
}

#[test]
fn content_hash_is_the_fingerprint_of_the_archive() {
    let mut table = LockTable::new();
    let s = source_at(&mut table, "/s", b"abc");
    assert_eq!(
        s.hash(),
        "ba7816bf8f01cfea414140de5dae2223b00361a396177a9cb410ff61f20015ad"
    );
    assert_eq!(s.hash(), sha256_hex(b"abc"));
}

#[test]
fn content_hash_is_deterministic() {
    let mut table = LockTable::new();
    let first = source_at(&mut table, "/s", b"same bytes");
    let hash = first.hash().to_string();
    let lock = first.into_lock().ok().unwrap();
    let second = Source::from_folder(
        &foo_bar(),
        lock,
        tarball(),
        manifest("foo/bar", "1.0.0"),
        Some(b"same bytes".to_vec()),
    )
    .unwrap();
    assert_eq!(second.hash(), hash);
}

#[test]
fn renaming_the_directory_keeps_the_hash() {
    let mut table = LockTable::new();
    let here = source_at(&mut table, "/old/place", b"contents");
    let there = source_at(&mut table, "/new/place", b"contents");
    assert_eq!(here.hash(), there.hash());
    assert!(here == there);
    let changed = source_at(&mut table, "/third", b"contents!");
    assert!(here != changed);
    assert_ne!(here.path(), there.path());
}

#[test]
fn two_checkouts_of_one_key_give_equal_sources() {
    let mut cache = Cache::from_disk("/c");
    let pkg = foo_bar();
    let loc = tarball();
    let v = Version::new(1, 0, 0);
    let t1 = cache.load_source(&pkg, &loc, Some(&v), false).unwrap();
    let busy = cache.load_source(&pkg, &loc, Some(&v), true).unwrap_err();
    assert!(is_busy(&busy));
    assert_eq!(busy.path, t1.dir.path());
    assert_eq!(busy.resolution, Some(loc.canonical_string()));
    let s1 = cache
        .checkout_source(&pkg, &loc, t1.dir, manifest("foo/bar", "1.0.0"), Some(vec![7; 40]))
        .unwrap();
    let seen = s1.clone();
    let handle = s1.into_lock();
    assert!(handle.is_err());
    let lock = seen.clone().into_lock();
    assert!(lock.is_err());
    let first_hash = seen.hash().to_string();
    drop(lock);
    drop(handle);
    let lock = seen.into_lock().ok().unwrap();
    cache.release(lock);
    let t2 = cache.load_source(&pkg, &loc, Some(&v), true).unwrap();
    let s2 = cache
        .checkout_source(&pkg, &loc, t2.dir, manifest("foo/bar", "1.0.0"), Some(vec![7; 40]))
        .unwrap();
    assert_eq!(s2.hash(), first_hash);
}

#[test]
fn build_round_trip() {
    let mut cache = Cache::from_disk("/c");
    let hash = BuildHash("abc".to_string());
    assert_eq!(cache.build_dir(&hash), "/c/build/abc");
    assert_eq!(cache.check_build(&hash, false), None);
    assert!(matches!(cache.checkout_build(&hash, false), Ok(None)));
    assert!(!cache.is_held("/c/build/abc"));
    let stored = cache.store_build("/tmp/out", &hash).unwrap();
    assert_eq!(stored.binary.target.path(), "/c/build/abc");
    assert_eq!(stored.steps.len(), 3);
    assert!(is_create(&stored.steps[0], "/c/build/abc"));
    assert!(is_clear(&stored.steps[1], "/c/build/abc"));
    match &stored.steps[2] {
        FsStep::CopyDir { from, to } => {
            assert_eq!(from, "/tmp/out");
            assert_eq!(to, "/c/build/abc");
        }
        other => panic!("unexpected step {:?}", other),
    }
    let busy = cache.checkout_build(&hash, true).unwrap_err();
    assert!(is_busy(&busy));
    assert_eq!(busy.path, "/c/build/abc");
    assert_eq!(busy.resolution, None);
    assert!(is_busy(&cache.store_build("/tmp/out", &hash).unwrap_err()));
    cache.release(stored.binary.target);
    assert_eq!(cache.check_build(&hash, true), Some("/c/build/abc".to_string()));
    let found = cache.checkout_build(&hash, true).unwrap().unwrap();
    assert_eq!(found.target.path(), "/c/build/abc");
    let tmp = cache.checkout_tmp(&hash).unwrap();
    assert_eq!(tmp.layout.root, "/c/tmp/abc");
    assert_eq!(tmp.layout.deps, "/c/tmp/abc/deps");
    assert_eq!(tmp.steps.len(), 2);
    assert!(is_create(&tmp.steps[0], "/c/tmp/abc"));
    assert!(is_clear(&tmp.steps[1], "/c/tmp/abc"));
}

#[test]
fn scratch_tree_is_cleared_on_every_checkout() {
    let mut cache = Cache::from_disk("/c");
    let hash = BuildHash("h1".to_string());
    for _ in 0..3 {
        let tmp = cache.checkout_tmp(&hash).unwrap();
        assert!(tmp.steps.iter().any(|s| is_clear(s, "/c/tmp/h1")));
        let busy = cache.checkout_tmp(&hash).unwrap_err();
        assert!(is_busy(&busy));
        assert_eq!(busy.path, "/c/tmp/h1");
        cache.release(tmp.layout.into_lock());
    }
}

#[test]
fn build_hash_digests_the_content_hashes_in_order() {
    let mut table = LockTable::new();
    let a = source_at(&mut table, "/a", b"a");
    let b = source_at(&mut table, "/b", b"b");
    let joined = format!("{}{}", a.hash(), b.hash());
    let swapped = format!("{}{}", b.hash(), a.hash());
    let ab = BuildHash::new(&vec![a.clone(), b.clone()]);
    let ba = BuildHash::new(&vec![b, a.clone()]);
    assert_eq!(ab.as_str(), sha256_hex(joined.as_bytes()));
    assert_eq!(ba.as_str(), sha256_hex(swapped.as_bytes()));
    assert!(!ab.same(&ba));
    assert!(ab.same(&ab.clone()));
    let alone = BuildHash::new(&vec![a.clone()]);
    assert_eq!(alone.as_str(), sha256_hex(a.hash().as_bytes()));
    let none = BuildHash::new(&vec![]);
    assert_eq!(
        none.as_str(),
        "e3b0c44298fc1c149afbf4c8996fb92427ae41e4649b934ca495991b7852b855"
    );
}

#[test]
fn package_ids_compare_by_both_components() {
    let a = foo_bar();
    assert!(a.same(&a.clone()));
    let other_name = PackageId::new(Name::parse("foo/baz").unwrap(), tarball());
    assert!(!a.same(&other_name));
    let other_res = PackageId::new(
        Name::parse("foo/bar").unwrap(),
        DirectRes::Dir { path: "/x".to_string() },
    );
    assert!(!a.same(&other_res));
    assert_eq!(*a.resolution(), tarball());
}

#[test]
fn names_are_compared_segment_by_segment() {
    let mut table = LockTable::new();
    let lock = table.acquire("/s").unwrap();
    let s = Source::from_folder(
        &foo_bar(),
        lock,
        tarball(),
        manifest("foo/bar", "2.0.0"),
        Some(vec![1]),
    )
    .unwrap();
    assert!(s.meta().summary().0.same(foo_bar().name()));
    assert_eq!(s.hash().len(), 64);
}

#[test]
fn fingerprints_have_sixty_four_digits() {
    let name = Name::parse("foo/bar").unwrap();
    assert_eq!(Cache::get_index_dir(&tarball()).len(), 64);
    assert_eq!(Cache::get_source_dir(&name, &tarball(), None).len(), 3 + 3 + 66);
    assert_eq!(BuildHash::new(&vec![]).as_str().len(), 64);
}

#[test]
fn abandon_releases_and_hands_the_error_back() {
    let mut cache = Cache::from_disk("/c");
    let hash = BuildHash("abc".to_string());
    let ticket = cache.store_build("/tmp/out", &hash).unwrap();
    assert!(cache.is_held("/c/build/abc"));
    let failure = Error::at(ErrorKind::Io, "/c/build/abc");
    let back = cache.abandon(ticket.binary.target, failure);
    assert!(matches!(back.kind, ErrorKind::Io));
    assert_eq!(back.path, "/c/build/abc");
    assert!(!cache.is_held("/c/build/abc"));
    assert!(cache.store_build("/tmp/out", &hash).is_ok());
}

#[test]
fn builds_and_fingerprints_compare_by_value() {
    let mut one = LockTable::new();
    let mut two = LockTable::new();
    let a = Binary { target: one.acquire("/c/build/x").unwrap() };
    let b = Binary { target: two.acquire("/c/build/x").unwrap() };
    let c = Binary { target: one.acquire("/c/build/y").unwrap() };
    assert!(a == b);
    assert!(a != c);
    assert!(a.target == b.target);
    assert!(BuildHash("abc".to_string()) == BuildHash("abc".to_string()));
    assert!(BuildHash("abc".to_string()) != BuildHash("abd".to_string()));
}

#[test]
fn archive_entries_go_under_a_fixed_name() {
    assert_eq!(ARCHIVE_ROOT, "irrelevant");
}
