use swc_pipeline::cache::{CacheKey, ConfigCache};
use swc_pipeline::config::{Config, ModuleConfig, ModuleOptions, Options, RootMode};
use swc_pipeline::pipeline::Pass;
use swc_pipeline::resolve::{
    ancestors_of, config_file_path, parent_dir, plan_lookup, select_config_dir, source_dirs,
    source_id, walk_step, DirProbe, Lookup, SourceId, WalkStep,
};

fn options(filename: &str, root: Option<&str>, mode: RootMode, swcrc: bool) -> Options {
    Options {
        config: None,
        cwd: "/".to_string(),
        caller: None,
        filename: filename.to_string(),
        config_file: None,
        root: root.map(|r| r.to_string()),
        root_mode: mode,
        swcrc,
        swcrc_roots: None,
        env_name: "development".to_string(),
        input_source_map: None,
        source_maps: None,
        source_file_name: None,
        source_root: None,
    }
}

fn probe(dir: &str, cached: bool, has_file: bool) -> DirProbe {
    DirProbe { dir: dir.to_string(), cached, has_file }
}

fn strings(v: &[&str]) -> Vec<String> {
    v.iter().map(|s| s.to_string()).collect()
}

#[test]
fn parent_directories() {
    assert_eq!(parent_dir(&"/root/sub/x.js".to_string()), Some("/root/sub".to_string()));
    assert_eq!(parent_dir(&"/x.js".to_string()), Some("/".to_string()));
    assert_eq!(parent_dir(&"/".to_string()), None);
    assert_eq!(parent_dir(&"x.js".to_string()), None);
    assert_eq!(parent_dir(&"a/b".to_string()), Some("a".to_string()));
}

#[test]
fn ancestors_nearest_first() {
    assert_eq!(ancestors_of("/root/sub".to_string()), strings(&["/root/sub", "/root", "/"]));
    assert_eq!(ancestors_of("/".to_string()), strings(&["/"]));
}

#[test]
fn source_dirs_of_a_cleaned_path() {
    assert_eq!(source_dirs(&"/root/sub/../sub/./x.js".to_string()), strings(&["/root/sub", "/root", "/"]));
    assert_eq!(source_dirs(&"/root//sub/x.js".to_string()), strings(&["/root/sub", "/root", "/"]));
    assert!(source_dirs(&"x.js".to_string()).is_empty());
}

#[test]
fn empty_file_name_is_anonymous() {
    assert_eq!(source_id(&String::new()), SourceId::Anon);
    assert_eq!(source_id(&"/a.js".to_string()), SourceId::Real("/a.js".to_string()));
}

#[test]
fn lookup_disabled_reads_no_file() {
    let o = options("/root/sub/x.js", Some("/root"), RootMode::Root, false);
    assert!(matches!(plan_lookup(&o, &source_id(&o.filename)), Lookup::Skip));
    let anon = options("", None, RootMode::Root, true);
    assert!(matches!(plan_lookup(&anon, &SourceId::Anon), Lookup::Skip));
}

#[test]
fn lookup_walks_from_the_file_directory() {
    let o = options("/root/sub/x.js", Some("/root/"), RootMode::Root, true);
    match plan_lookup(&o, &source_id(&o.filename)) {
        Lookup::Walk { dirs, root } => {
            assert_eq!(dirs, strings(&["/root/sub", "/root", "/"]));
            assert_eq!(root, Some("/root".to_string()));
        }
        Lookup::Skip => panic!("expected a walk"),
    }
}

#[test]
fn walk_step_decisions() {
    let root = Some("/root".to_string());
    assert_eq!(walk_step(&probe("/root/sub", true, true), &root, RootMode::Root), WalkStep::UseCached);
    assert_eq!(walk_step(&probe("/root/sub", false, true), &root, RootMode::Root), WalkStep::LoadFile);
    assert_eq!(walk_step(&probe("/root", false, false), &root, RootMode::Root), WalkStep::Stop);
    assert_eq!(walk_step(&probe("/root", false, false), &root, RootMode::Upward), WalkStep::Ascend);
    assert_eq!(walk_step(&probe("/root", false, false), &root, RootMode::UpwardOptional), WalkStep::Ascend);
    assert_eq!(walk_step(&probe("/root", false, true), &root, RootMode::Root), WalkStep::LoadFile);
    assert_eq!(walk_step(&probe("/root/sub", false, false), &root, RootMode::Root), WalkStep::Ascend);
}

#[test]
fn nearest_file_wins() {
    let root = Some("/root".to_string());
    let probes = vec![probe("/root/sub", false, true), probe("/root", false, true), probe("/", false, false)];
    assert_eq!(select_config_dir(&probes, &root, RootMode::Root), Some(0));
}

#[test]
fn strict_root_stops_the_walk() {
    let root = Some("/root".to_string());
    let probes = vec![probe("/root/sub", false, false), probe("/root", false, false), probe("/", false, true)];
    assert_eq!(select_config_dir(&probes, &root, RootMode::Root), None);
    assert_eq!(select_config_dir(&probes, &root, RootMode::Upward), Some(2));
    assert_eq!(select_config_dir(&probes, &root, RootMode::UpwardOptional), Some(2));
    assert_eq!(select_config_dir(&vec![], &root, RootMode::Root), None);
}

#[test]
fn config_file_paths() {
    assert_eq!(config_file_path(&"/root".to_string()), "/root/.swcrc");
    assert_eq!(config_file_path(&"/".to_string()), "/.swcrc");
}

#[test]
fn nearest_config_file_applies_alone() {
    // /root/.swcrc selects a module format; /root/sub/.swcrc enables minify.
    let o = options("/root/sub/x.js", Some("/root"), RootMode::Root, true);
    let dirs = match plan_lookup(&o, &source_id(&o.filename)) {
        Lookup::Walk { dirs, .. } => dirs,
        Lookup::Skip => panic!("expected a walk"),
    };
    let probes: Vec<DirProbe> = dirs.iter().map(|d| probe(d, false, d == "/root/sub" || d == "/root")).collect();
    let i = select_config_dir(&probes, &Some("/root".to_string()), RootMode::Root).unwrap();
    assert_eq!(probes[i].dir, "/root/sub");
    let sub_file = Config { jsc: Default::default(), module: None, minify: Some(true) };
    let _root_file = Config {
        jsc: Default::default(),
        module: Some(ModuleConfig::CommonJs(ModuleOptions { strict: false, strict_mode: true, no_interop: false })),
        minify: None,
    };
    let mut cache = ConfigCache::new();
    let key = CacheKey { env: o.env_name.clone(), dir: Some(probes[i].dir.clone()) };
    let b = cache.resolve(key, &o, Some(sub_file), &vec![]);
    assert!(b.minify);
    assert_eq!(b.module, None);
    assert!(!b.passes.contains(&Pass::CommonJs));
}

#[test]
fn cache_hit_returns_the_first_build() {
    let o = options("/a/x.js", None, RootMode::Root, true);
    let mut cache = ConfigCache::new();
    let key = CacheKey { env: "development".to_string(), dir: Some("/a".to_string()) };
    assert!(cache.get(&key).is_none());
    let first = cache.resolve(key.clone(), &o, Some(Config { jsc: Default::default(), module: None, minify: Some(true) }), &vec![]);
    assert!(cache.contains(&key));
    let second = cache.resolve(key.clone(), &o, None, &vec![]);
    assert_eq!(first.minify, second.minify);
    assert!(second.minify);
    assert_eq!(first.passes, second.passes);
    let other = CacheKey { env: "production".to_string(), dir: Some("/a".to_string()) };
    assert!(!cache.contains(&other));
    let none_key = CacheKey { env: "development".to_string(), dir: None };
    assert!(!cache.contains(&none_key));
}

#[test]
fn fresh_caches_resolve_alike() {
    let o = options("/a/x.js", None, RootMode::Root, true);
    let key = CacheKey { env: "development".to_string(), dir: None };
    let a = ConfigCache::new().resolve(key.clone(), &o, None, &vec![]);
    let b = ConfigCache::new().resolve(key, &o, None, &vec![]);
    assert_eq!(a.passes, b.passes);
    assert_eq!(a.minify, b.minify);
    assert_eq!(a.syntax, b.syntax);
}

#[test]
fn insert_replaces_the_entry() {
    let o = options("", None, RootMode::Root, true);
    let mut cache = ConfigCache::new();
    let key = CacheKey { env: "development".to_string(), dir: None };
    cache.insert(key.clone(), o.build(None, &vec![]));
    let mut o2 = options("", None, RootMode::Root, true);
    o2.config = Some(Config { jsc: Default::default(), module: None, minify: Some(true) });
    cache.insert(key.clone(), o2.build(None, &vec![]));
    assert!(cache.get(&key).unwrap().minify);
}
