use elba::cache::Cache;
use elba::indices::IndexWalk;
use elba::plan::FsStep;
use elba::resolution::DirectRes;
use elba::scaffold::{init, new, scaffold_with, NewCtx};
use elba::error::ErrorKind;
use elba::name::Name;

fn index(name: &str) -> DirectRes {
    DirectRes::Git { url: format!("https://example.com/{}.git", name), reference: "master".to_string() }
}

/// Runs a walk against a world given as a table: for each index, what it
/// names, or nothing where it cannot be loaded.
fn run(cache: &mut Cache, seeds: &[DirectRes], world: &[(DirectRes, Option<Vec<DirectRes>>)]) -> Vec<DirectRes> {
    let mut walk: IndexWalk = cache.get_indices(seeds);
    let mut rounds = 0;
    loop {
        rounds += 1;
        assert!(rounds < 1000);
        let visit = match walk.next(cache) {
            Some(v) => v,
            None => break,
        };
        let entry = world.iter().find(|(res, _)| *res == visit.res);
        match entry {
            Some((_, Some(depends))) => walk.loaded(depends),
            _ => walk.skipped(cache, visit.dir),
        }
    }
    assert!(walk.is_done());
    walk.finish()
}

#[test]
fn transitive_index_discovery() {
    let (x, y, z) = (index("x"), index("y"), index("z"));
    let world = vec![
        (x.clone(), Some(vec![y.clone()])),
        (y.clone(), Some(vec![x.clone(), z.clone()])),
        (z.clone(), Some(vec![])),
    ];
    let mut cache = Cache::from_disk("/c");
    let found = run(&mut cache, &[x.clone()], &world);
    assert_eq!(found, vec![x, y, z]);
}

#[test]
fn discovery_is_breadth_first_and_takes_nothing_twice() {
    let names = ["a", "b", "c", "d", "e", "f"];
    let ix: Vec<DirectRes> = names.iter().map(|n| index(n)).collect();
    let world = vec![
        (ix[0].clone(), Some(vec![ix[2].clone(), ix[3].clone()])),
        (ix[1].clone(), Some(vec![ix[3].clone(), ix[4].clone()])),
        (ix[2].clone(), Some(vec![ix[5].clone(), ix[0].clone()])),
        (ix[3].clone(), Some(vec![ix[1].clone()])),
        (ix[4].clone(), Some(vec![ix[5].clone()])),
        (ix[5].clone(), Some(vec![])),
    ];
    let mut cache = Cache::from_disk("/c");
    let found = run(&mut cache, &[ix[0].clone(), ix[1].clone(), ix[0].clone()], &world);
    assert_eq!(
        found,
        vec![
            ix[0].clone(),
            ix[1].clone(),
            ix[2].clone(),
            ix[3].clone(),
            ix[4].clone(),
            ix[5].clone()
        ]
    );
    for (i, a) in found.iter().enumerate() {
        for b in found.iter().skip(i + 1) {
            assert_ne!(a, b);
        }
    }
}

#[test]
fn broken_indices_are_passed_over() {
    let (x, y, z) = (index("x"), index("y"), index("z"));
    let world = vec![
        (x.clone(), Some(vec![y.clone(), z.clone()])),
        (y.clone(), None),
        (z.clone(), Some(vec![y.clone()])),
    ];
    let mut cache = Cache::from_disk("/c");
    let found = run(&mut cache, &[x.clone()], &world);
    assert_eq!(found, vec![x, z]);
    assert!(!cache.is_held(&cache.index_dir(&y)));
    let none = run(&mut cache, &[index("unknown")], &world);
    assert!(none.is_empty());
    let empty = run(&mut cache, &[], &world);
    assert!(empty.is_empty());
}

#[test]
fn claimed_index_directories_are_passed_over() {
    let (x, y) = (index("x"), index("y"));
    let world = vec![(x.clone(), Some(vec![y.clone()])), (y.clone(), Some(vec![]))];
    let mut cache = Cache::from_disk("/c");
    let dir = cache.index_dir(&y);
    let held = cache.claim(&dir).unwrap();
    let found = run(&mut cache, &[x.clone()], &world);
    assert_eq!(found, vec![x.clone()]);
    cache.release(held);
    let mut fresh = Cache::from_disk("/c");
    let found = run(&mut fresh, &[x.clone()], &world);
    assert_eq!(found, vec![x, y]);
}

#[test]
fn index_visits_claim_the_index_directory() {
    let mut cache = Cache::from_disk("/c");
    let remote = index("x");
    let local = DirectRes::Dir { path: "/home/u/index".to_string() };
    let mut walk = cache.get_indices(&[remote.clone(), local.clone()]);
    assert!(!walk.is_done());
    let first = walk.next(&mut cache).unwrap();
    assert_eq!(first.res, remote);
    assert_eq!(
        first.dir.path(),
        format!("/c/indices/{}", Cache::get_index_dir(&remote))
    );
    assert!(cache.is_held(first.dir.path()));
    let hit = first.steps(true);
    assert_eq!(hit.len(), 1);
    let miss = first.steps(false);
    assert_eq!(miss.len(), 2);
    match &miss[1] {
        FsStep::Retrieve { res, dest } => {
            assert_eq!(*res, remote);
            assert_eq!(dest, first.dir.path());
        }
        other => panic!("unexpected step {:?}", other),
    }
    walk.loaded(&vec![]);
    let second = walk.next(&mut cache).unwrap();
    assert_eq!(second.res, local);
    assert_eq!(second.dir.path(), "/home/u/index");
    assert_eq!(second.steps(false).len(), 1);
    assert_eq!(second.steps(true).len(), 1);
    walk.skipped(&mut cache, second.dir);
    assert!(!cache.is_held("/home/u/index"));
    assert!(walk.next(&mut cache).is_none());
    assert!(walk.is_done());
    assert_eq!(*walk.found_list(), vec![remote]);
}

fn ctx(bin: bool, author: Option<(&str, &str)>) -> NewCtx {
    NewCtx {
        path: "/work/pkg".to_string(),
        name: Name::parse("my_group/my-pkg").unwrap(),
        author: author.map(|(a, e)| (a.to_string(), e.to_string())),
        bin,
    }
}

#[test]
fn init_plans_a_library() {
    let plan = init(&ctx(false, Some(("Ada", "ada@example.com"))));
    assert_eq!(plan.message, "new package with library target created at /work/pkg");
    assert_eq!(plan.steps.len(), 3);
    match &plan.steps[0] {
        FsStep::WriteFile { path, contents } => {
            assert_eq!(path, "/work/pkg/elba.toml");
            assert_eq!(
                contents,
                "[package]\nname = \"my_group/my-pkg\"\nversion = \"0.1.0\"\nauthors = [Ada <ada@example.com>]\n\n[dependencies]\n\n[targets.lib]\npath = \"src/\"\nmods = [\n    \"MyGroup.MyPkg\"\n]\n\n"
            );
        }
        other => panic!("unexpected step {:?}", other),
    }
    assert!(matches!(&plan.steps[1], FsStep::CreateDirAll { path } if path == "/work/pkg/src/MyGroup"));
    match &plan.steps[2] {
        FsStep::WriteFile { path, contents } => {
            assert_eq!(path, "/work/pkg/src/MyGroup/MyPkg.idr");
            assert_eq!(
                contents,
                "module MyGroup.MyPkg\n\nhello : IO ()\nhello = do\n  print \"Hello, world!\"\n"
            );
        }
        other => panic!("unexpected step {:?}", other),
    }
}

#[test]
fn init_plans_a_binary() {
    let plan = init(&ctx(true, None));
    assert_eq!(plan.message, "new package with binary target created at /work/pkg");
    assert_eq!(plan.steps.len(), 3);
    match &plan.steps[0] {
        FsStep::WriteFile { path, contents } => {
            assert_eq!(path, "/work/pkg/elba.toml");
            assert_eq!(
                contents,
                "[package]\nname = \"my_group/my-pkg\"\nversion = \"0.1.0\"\nauthors = []\n\n[dependencies]\n\n[[targets.bin]]\nname = \"my-pkg\"\nmain = \"src/Main.idr\"\n\n"
            );
        }
        other => panic!("unexpected step {:?}", other),
    }
    assert!(matches!(&plan.steps[1], FsStep::CreateDirAll { path } if path == "/work/pkg/src"));
    match &plan.steps[2] {
        FsStep::WriteFile { path, contents } => {
            assert_eq!(path, "/work/pkg/src/Main.idr");
            assert_eq!(
                contents,
                "module Main\n\nmain : IO ()\nmain = do\n  print \"Hello, world!\"\n"
            );
        }
        other => panic!("unexpected step {:?}", other),
    }
}

#[test]
fn scaffold_uses_the_capitalised_segments_it_is_given() {
    let plan = scaffold_with(&ctx(false, None), "Aa", "Bb");
    assert!(matches!(&plan.steps[1], FsStep::CreateDirAll { path } if path == "/work/pkg/src/Aa"));
    assert!(matches!(&plan.steps[2], FsStep::WriteFile { path, .. } if path == "/work/pkg/src/Aa/Bb.idr"));
}

#[test]
fn new_refuses_an_existing_destination() {
    let err = new(&ctx(false, None), true).unwrap_err();
    assert!(matches!(err.kind, ErrorKind::DestinationExists));
    assert_eq!(err.path, "/work/pkg");
    assert_eq!(err.resolution, None);
    assert!(err.message().starts_with("destination `/work/pkg` already exists"));
    let plan = new(&ctx(true, None), false).unwrap();
    assert_eq!(plan.steps.len(), 4);
    assert!(matches!(&plan.steps[0], FsStep::CreateDirAll { path } if path == "/work/pkg"));
    assert!(matches!(&plan.steps[1], FsStep::WriteFile { path, .. } if path == "/work/pkg/elba.toml"));
    assert_eq!(plan.message, "new package with binary target created at /work/pkg");
}
