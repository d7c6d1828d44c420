use swc_pipeline::config::{
    default_env_name, default_envs, default_swcrc, source_maps_enabled, Config, ConfigFile,
    EsConfig, GlobalPassOption, InputSourceMap, JscConfig, ModuleConfig, ModuleOptions,
    OptimizerConfig, ReactOptions, RootMode, SourceMapsConfig, Syntax, TransformConfig,
};

fn with_minify(minify: Option<bool>) -> Config {
    Config { jsc: JscConfig::default(), module: None, minify }
}

fn commonjs() -> ModuleConfig {
    ModuleConfig::CommonJs(ModuleOptions { strict: false, strict_mode: true, no_interop: false })
}

fn umd() -> ModuleConfig {
    ModuleConfig::Umd(ModuleOptions { strict: true, strict_mode: true, no_interop: true })
}

fn ts() -> Syntax {
    Syntax::Typescript(swc_pipeline::config::TsConfig { tsx: true, decorators: true })
}

#[test]
fn defaults_of_selectors() {
    assert_eq!(RootMode::default(), RootMode::Root);
    assert_eq!(ConfigFile::default(), ConfigFile::Bool(true));
    assert_eq!(SourceMapsConfig::default(), SourceMapsConfig::Bool(true));
    assert_eq!(InputSourceMap::default(), InputSourceMap::Bool(true));
    assert!(default_swcrc());
}

#[test]
fn default_envs_are_the_two_well_known_names() {
    let v = default_envs();
    assert_eq!(v, vec!["NODE_ENV".to_string(), "SWC_ENV".to_string()]);
    let g = GlobalPassOption::default();
    assert!(g.vars.is_empty());
    assert_eq!(g.envs, vec!["NODE_ENV".to_string(), "SWC_ENV".to_string()]);
}

#[test]
fn env_name_prefers_swc_env_then_node_env() {
    assert_eq!(default_env_name(Some("a".into()), Some("b".into())), "a");
    assert_eq!(default_env_name(None, Some("production".into())), "production");
    assert_eq!(default_env_name(None, None), "development");
}

#[test]
fn source_map_policy() {
    assert!(!source_maps_enabled(&None));
    assert!(source_maps_enabled(&Some(SourceMapsConfig::Bool(true))));
    assert!(!source_maps_enabled(&Some(SourceMapsConfig::Bool(false))));
    assert!(source_maps_enabled(&Some(SourceMapsConfig::Str("out.map".into()))));
}

#[test]
fn react_defaults() {
    let r = ReactOptions::default();
    assert_eq!(r.pragma, "React.createElement");
    assert_eq!(r.pragma_frag, "React.Fragment");
    assert!(r.throw_if_namespace);
    assert!(!r.development);
    assert!(!r.use_builtins);
}

#[test]
fn enable_flag_true_over_absent_is_true() {
    let mut a = with_minify(None);
    a.merge(&with_minify(Some(true)));
    assert_eq!(a.minify, Some(true));
}

#[test]
fn enable_flag_false_then_absent_stays_false() {
    let mut a = with_minify(Some(false));
    a.merge(&with_minify(None));
    assert_eq!(a.minify, Some(false));
}

#[test]
fn enable_flag_merges_by_or() {
    let mut a = with_minify(Some(true));
    a.merge(&with_minify(Some(false)));
    assert_eq!(a.minify, Some(true));
    let mut b = with_minify(Some(false));
    b.merge(&with_minify(Some(true)));
    assert_eq!(b.minify, Some(true));
    let mut c = with_minify(Some(false));
    c.merge(&with_minify(Some(false)));
    assert_eq!(c.minify, Some(false));
}

#[test]
fn module_selector_is_replaced_whole() {
    let mut a = Config { jsc: JscConfig::default(), module: Some(commonjs()), minify: None };
    a.merge(&Config { jsc: JscConfig::default(), module: Some(umd()), minify: None });
    assert_eq!(a.module, Some(umd()));
    a.merge(&Config::default());
    assert_eq!(a.module, Some(umd()));
}

#[test]
fn syntax_is_replaced_when_given() {
    let mut a = Config::default();
    a.jsc.syntax = Some(Syntax::Es(EsConfig { jsx: true, decorators: false, export_default_from: false }));
    let mut b = Config::default();
    b.jsc.syntax = Some(ts());
    a.merge(&b);
    assert_eq!(a.jsc.syntax, Some(ts()));
}

fn with_globals(vars: &[(&str, &str)]) -> Config {
    let g = GlobalPassOption {
        vars: vars.iter().map(|(k, v)| (k.to_string(), v.to_string())).collect(),
        envs: vec!["NODE_ENV".to_string()],
    };
    let mut c = Config::default();
    c.jsc.transform = Some(TransformConfig {
        react: None,
        optimizer: Some(OptimizerConfig { globals: Some(g) }),
    });
    c
}

#[test]
fn nested_sections_merge_field_by_field() {
    let mut a = with_globals(&[("__DEV__", "true")]);
    let mut b = Config::default();
    b.jsc.transform = Some(TransformConfig {
        react: None,
        optimizer: Some(OptimizerConfig { globals: None }),
    });
    a.merge(&b);
    let g = a.jsc.transform.unwrap().optimizer.unwrap().globals.unwrap();
    assert_eq!(g.vars, vec![("__DEV__".to_string(), "true".to_string())]);
}

#[test]
fn globals_are_replaced_whole() {
    let mut a = with_globals(&[("__DEV__", "true"), ("X", "1")]);
    a.merge(&with_globals(&[("Y", "2")]));
    let g = a.jsc.transform.unwrap().optimizer.unwrap().globals.unwrap();
    assert_eq!(g.vars, vec![("Y".to_string(), "2".to_string())]);
}

#[test]
fn layered_merge_is_associative() {
    let make = || {
        let mut a = Config { jsc: JscConfig::default(), module: Some(commonjs()), minify: Some(false) };
        a.jsc.syntax = Some(ts());
        let mut b = with_globals(&[("A", "1")]);
        b.minify = None;
        b.jsc.external_helpers = Some(true);
        let c = Config { jsc: JscConfig::default(), module: Some(umd()), minify: Some(true) };
        (a, b, c)
    };
    let (mut left, b, c) = make();
    left.merge(&b);
    left.merge(&c);
    let (mut right, mut bc, c2) = make();
    bc.merge(&c2);
    right.merge(&bc);
    assert_eq!(left.module, right.module);
    assert_eq!(left.module, Some(umd()));
    assert_eq!(left.minify, right.minify);
    assert_eq!(left.minify, Some(true));
    assert_eq!(left.jsc.syntax, right.jsc.syntax);
    assert_eq!(left.jsc.syntax, Some(ts()));
    assert_eq!(left.jsc.external_helpers, Some(true));
    assert_eq!(right.jsc.external_helpers, Some(true));
    let lg = left.jsc.transform.unwrap().optimizer.unwrap().globals.unwrap();
    let rg = right.jsc.transform.unwrap().optimizer.unwrap().globals.unwrap();
    assert_eq!(lg.vars, rg.vars);
}

#[test]
fn absent_jsx_options_keep_the_base() {
    let mut base = Config::default();
    let mut r = ReactOptions::default();
    r.pragma = "h".to_string();
    base.jsc.transform = Some(TransformConfig { react: Some(r), optimizer: None });
    let mut over = Config::default();
    over.jsc.transform = Some(TransformConfig { react: None, optimizer: Some(OptimizerConfig { globals: None }) });
    base.merge(&over);
    let t = base.jsc.transform.unwrap();
    assert_eq!(t.react.unwrap().pragma, "h");
    assert!(t.optimizer.is_some());
}

#[test]
fn given_jsx_options_replace_the_base() {
    let mut base = Config::default();
    let mut r = ReactOptions::default();
    r.pragma = "h".to_string();
    base.jsc.transform = Some(TransformConfig { react: Some(r), optimizer: None });
    let mut over = Config::default();
    let mut r2 = ReactOptions::default();
    r2.pragma = "jsx".to_string();
    over.jsc.transform = Some(TransformConfig { react: Some(r2), optimizer: None });
    base.merge(&over);
    assert_eq!(base.jsc.transform.unwrap().react.unwrap().pragma, "jsx");
}
