use swc_pipeline::config::{Options, RootMode, SourceMapsConfig, Syntax};
use swc_pipeline::error::Error;
use swc_pipeline::pipeline::BuiltConfig;
use swc_pipeline::resolve::SourceId;
use swc_pipeline::session::{package_output, Action, Event, Session, Stage};

fn built(maps: bool, minify: bool) -> BuiltConfig {
    let mut o = Options {
        config: None,
        cwd: "/".to_string(),
        caller: None,
        filename: String::new(),
        config_file: None,
        root: None,
        root_mode: RootMode::Root,
        swcrc: false,
        swcrc_roots: None,
        env_name: "development".to_string(),
        input_source_map: None,
        source_maps: Some(SourceMapsConfig::Bool(maps)),
        source_file_name: None,
        source_root: None,
    };
    if minify {
        o.config = Some(swc_pipeline::config::Config { jsc: Default::default(), module: None, minify: Some(true) });
    }
    o.build(None, &vec![])
}

fn run_to_print(file: SourceId, b: BuiltConfig) -> (Session, Action) {
    let mut s = Session::new(file);
    let a = s.step(Event::Resolved(b));
    assert!(matches!(a, Action::Parse { .. }));
    assert!(matches!(s.step(Event::Parsed), Action::RunPasses));
    let p = s.step(Event::Transformed);
    (s, p)
}

#[test]
fn no_map_field_when_maps_are_off() {
    let (mut s, p) = run_to_print(SourceId::Real("/a/x.js".to_string()), built(false, false));
    match p {
        Action::Print { source_map, source_name, minify } => {
            assert!(!source_map);
            assert_eq!(source_name, None);
            assert!(!minify);
        }
        _ => panic!("expected print"),
    }
    let fin = s.step(Event::Printed { code: b"a;".to_vec(), map: Some(b"{}".to_vec()) });
    match fin {
        Action::Finish(Ok(o)) => {
            assert_eq!(o.code, "a;");
            assert!(o.map.is_none());
        }
        _ => panic!("expected output"),
    }
    assert_eq!(s.stage, Stage::Done);
}

#[test]
fn map_kept_and_source_named_when_maps_are_on() {
    let (mut s, p) = run_to_print(SourceId::Real("/a/x.js".to_string()), built(true, false));
    match p {
        Action::Print { source_map, source_name, .. } => {
            assert!(source_map);
            assert_eq!(source_name, Some("/a/x.js".to_string()));
        }
        _ => panic!("expected print"),
    }
    match s.step(Event::Printed { code: b"b;".to_vec(), map: Some(b"{\"version\":3}".to_vec()) }) {
        Action::Finish(Ok(o)) => {
            assert_eq!(o.code, "b;");
            assert_eq!(o.map, Some("{\"version\":3}".to_string()));
        }
        _ => panic!("expected output"),
    }
}

#[test]
fn anonymous_source_has_no_name() {
    let (_, p) = run_to_print(SourceId::Anon, built(true, false));
    assert!(matches!(p, Action::Print { source_name: None, .. }));
}

#[test]
fn minify_drops_comments() {
    let mut s = Session::new(SourceId::Anon);
    match s.step(Event::Resolved(built(false, true))) {
        Action::Parse { comments, syntax } => {
            assert!(!comments);
            assert_eq!(syntax, Syntax::default());
        }
        _ => panic!("expected parse"),
    }
    let mut t = Session::new(SourceId::Anon);
    assert!(matches!(t.step(Event::Resolved(built(false, false))), Action::Parse { comments: true, .. }));
}

#[test]
fn parse_failure_gives_no_code() {
    let mut s = Session::new(SourceId::Anon);
    s.step(Event::Resolved(built(false, false)));
    assert!(matches!(s.step(Event::ParseFailed), Action::Finish(Err(Error::FailedToParseModule))));
    assert_eq!(s.stage, Stage::Done);
    assert!(!s.accepts(&Event::Parsed));
}

#[test]
fn failures_end_the_request() {
    let mut s = Session::new(SourceId::Anon);
    let e = Error::FailedToReadConfigFile { err: "denied".to_string() };
    assert!(matches!(s.step(Event::ResolveFailed(e)), Action::Finish(Err(Error::FailedToReadConfigFile { .. }))));
    let (mut t, _) = run_to_print(SourceId::Anon, built(false, false));
    let e = Error::FailedToEmitModule { err: "full".to_string() };
    assert!(matches!(t.step(Event::PrintFailed(e)), Action::Finish(Err(Error::FailedToEmitModule { .. }))));
}

#[test]
fn events_out_of_order_are_refused() {
    let s = Session::new(SourceId::Anon);
    assert!(s.accepts(&Event::Resolved(built(false, false))));
    assert!(!s.accepts(&Event::Parsed));
    assert!(!s.accepts(&Event::Transformed));
    assert!(!s.accepts(&Event::Printed { code: vec![], map: None }));
}

#[test]
fn code_must_be_utf8() {
    assert!(matches!(package_output(vec![0xff, 0xfe], None, false), Err(Error::CodeNotUtf8)));
}

#[test]
fn map_must_be_utf8() {
    assert!(matches!(package_output(b"x".to_vec(), Some(vec![0xc3]), true), Err(Error::SourceMapNotUtf8)));
    match package_output(b"x".to_vec(), Some(vec![0xc3]), false) {
        Ok(o) => {
            assert_eq!(o.code, "x");
            assert!(o.map.is_none());
        }
        Err(_) => panic!("map is not kept"),
    }
}

#[test]
fn packaging_decodes_text() {
    match package_output("é;".as_bytes().to_vec(), None, true) {
        Ok(o) => {
            assert_eq!(o.code, "é;");
            assert!(o.map.is_none());
        }
        Err(_) => panic!("valid text"),
    }
}

#[test]
fn error_messages() {
    assert_eq!(Error::FailedToReadConfigFile { err: "e".into() }.message(), "failed to read config file: e");
    assert_eq!(Error::FailedToParseConfigFile { err: "e".into() }.message(), "failed to parse config file: e");
    assert_eq!(Error::FailedToParseModule.message(), "failed to parse module");
    assert_eq!(Error::FailedToReadModule { err: "e".into() }.message(), "failed to read module: e");
    assert_eq!(Error::FailedToEmitModule { err: "e".into() }.message(), "failed to emit module: e");
    assert_eq!(Error::FailedToWriteSourceMap { err: "e".into() }.message(), "failed to write sourcemap: e");
    assert_eq!(Error::SourceMapNotUtf8.message(), "sourcemap is not utf8");
    assert_eq!(Error::CodeNotUtf8.message(), "code is not utf8");
    assert_eq!(
        Error::InvalidGlobal { name: "__DEV__".into(), value: "1 +".into() }.message(),
        "invalid global variable __DEV__=`1 +`"
    );
}

#[test]
fn invalid_global_ends_the_request() {
    let mut s = Session::new(SourceId::Anon);
    s.step(Event::Resolved(built(false, false)));
    s.step(Event::Parsed);
    let e = Error::InvalidGlobal { name: "__DEV__".to_string(), value: "1 +".to_string() };
    match s.step(Event::TransformFailed(e)) {
        Action::Finish(Err(Error::InvalidGlobal { name, value })) => {
            assert_eq!(name, "__DEV__");
            assert_eq!(value, "1 +");
        }
        _ => panic!("expected the configuration error"),
    }
    assert_eq!(s.stage, Stage::Done);
}
