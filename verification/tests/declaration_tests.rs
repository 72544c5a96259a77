use elm_torture::comments::strip_json_comments;
use elm_torture::config::Config;
use elm_torture::config::OptimizationLevel;
use elm_torture::formatting::process_stderr;
use elm_torture::formatting::process_stdout;
use elm_torture::suite::reserved_flags_key;
use elm_torture::suite::FlagValue;
use elm_torture::suite::Flags;
use elm_torture::suite::Raw;
use elm_torture::suite::SuiteConfig;

fn suite_with_flags(entries: Vec<(String, FlagValue)>) -> SuiteConfig<Raw> {
    SuiteConfig::new(None, Some(Flags(entries)), None, None, None, None, None)
}

#[test]
fn make_ready_rejects_a_suite_flag_of_its_own() {
    let cfg = suite_with_flags(vec![(
        "suite".to_string(),
        FlagValue::Json("{}".to_string()),
    )]);
    assert!(cfg.make_ready(None).is_err());
}

#[test]
fn make_ready_rejects_the_reserved_key_even_without_a_server() {
    let cfg = suite_with_flags(vec![
        ("other".to_string(), FlagValue::Json("1".to_string())),
        ("suite".to_string(), FlagValue::Json("2".to_string())),
    ]);
    assert!(cfg
        .make_ready(Some(("127.0.0.1:4000".to_string(), "http://".to_string())))
        .is_err());
}

#[test]
fn make_ready_injects_the_server_record_under_the_reserved_key() {
    let cfg = suite_with_flags(vec![("speed".to_string(), FlagValue::Json("3".to_string()))]);
    let ready = cfg
        .make_ready(Some(("127.0.0.1:4000".to_string(), "http://".to_string())))
        .unwrap();
    let flags = ready.flags.unwrap().0;
    assert_eq!(flags.len(), 2);
    assert_eq!(flags[0].0, "speed");
    assert_eq!(flags[1].0, reserved_flags_key());
    match &flags[1].1 {
        FlagValue::SuiteParams { url, protocol } => {
            assert_eq!(url, "127.0.0.1:4000");
            assert_eq!(protocol, "http://");
        }
        other => panic!("wrong injected value: {:?}", other),
    }
}

#[test]
fn make_ready_without_a_server_keeps_the_flags_as_they_are() {
    let cfg = suite_with_flags(vec![("speed".to_string(), FlagValue::Json("3".to_string()))]);
    let ready = cfg.make_ready(None).unwrap();
    let flags = ready.flags.unwrap().0;
    assert_eq!(flags.len(), 1);
    assert_eq!(flags[0].0, "speed");
}

#[test]
fn make_ready_treats_absent_flags_as_empty() {
    let cfg = SuiteConfig::new(None, None, None, None, None, None, None);
    let ready = cfg
        .make_ready(Some(("[::1]:9000".to_string(), "https://".to_string())))
        .unwrap();
    let flags = ready.flags.unwrap().0;
    assert_eq!(flags.len(), 1);
    assert_eq!(flags[0].0, "suite");
}

#[test]
fn line_comments_become_spaces_of_the_same_length() {
    let stripped = strip_json_comments(b"{\"a\": 1 // speed\n}");
    assert_eq!(stripped, b"{\"a\": 1         \n}".to_vec());
    assert_eq!(stripped.len(), b"{\"a\": 1 // speed\n}".len());
}

#[test]
fn comment_markers_inside_strings_are_kept() {
    let text = b"{\"url\": \"http://x//y\"}";
    assert_eq!(strip_json_comments(text), text.to_vec());
}

#[test]
fn escaped_quote_does_not_end_the_string() {
    let text = b"{\"a\": \"q\\\"//\" }";
    assert_eq!(strip_json_comments(text), text.to_vec());
}

#[test]
fn lone_slash_is_kept_even_at_the_end() {
    assert_eq!(strip_json_comments(b"a/b"), b"a/b".to_vec());
    assert_eq!(strip_json_comments(b"ab/"), b"ab/".to_vec());
}

#[test]
fn comment_runs_to_the_end_of_the_line_only() {
    let stripped = strip_json_comments(b"1 //x\n2 //y");
    assert_eq!(stripped, b"1    \n2    ".to_vec());
}

#[test]
fn optimization_level_ids_round_trip() {
    for level in [
        OptimizationLevel::Debug,
        OptimizationLevel::Dev,
        OptimizationLevel::Optimize,
    ] {
        match OptimizationLevel::from_id(level.id()) {
            Ok(parsed) => assert_eq!(parsed, level),
            Err(e) => panic!("rejected its own id: {}", e.message()),
        }
    }
    assert!(matches!(
        OptimizationLevel::from_id("debug"),
        Ok(OptimizationLevel::Debug)
    ));
}

#[test]
fn unknown_optimization_level_is_rejected_with_its_text() {
    match OptimizationLevel::from_id("fastest") {
        Err(e) => assert_eq!(e.message(), "Invalid optimization level: fastest"),
        Ok(l) => panic!("accepted an unknown level: {:?}", l),
    }
}

#[test]
fn level_flags_and_names() {
    assert_eq!(OptimizationLevel::Debug.args(), vec!["--debug"]);
    assert_eq!(OptimizationLevel::Dev.args(), Vec::<&str>::new());
    assert_eq!(OptimizationLevel::Optimize.args(), vec!["--optimize"]);
    assert_eq!(OptimizationLevel::Dev.display_name(), "dev (default)");
    assert_eq!(OptimizationLevel::Debug.display_name(), "debug");
}

#[test]
fn config_defaults_apply_where_fields_are_unset() {
    let cfg = Config::default();
    assert_eq!(cfg.elm_compilers(), vec!["elm".to_string()]);
    assert_eq!(cfg.node(), "node");
    assert_eq!(cfg.opt_levels(), vec![OptimizationLevel::Dev]);
    assert_eq!(cfg.compiler_max_retries(), 1);
    assert_eq!(cfg.run_timeout(), 10_000);
    assert!(cfg.out_dir.is_none());
}

#[test]
fn overwrite_with_prefers_the_other_configuration() {
    let base = Config::new(
        Some(vec!["elm".to_string()]),
        Some("node-v14".to_string()),
        Some(vec![OptimizationLevel::Dev]),
        Some(2),
        Some(5_000),
        None,
    );
    let overriding = Config::new(
        None,
        Some("node-v16".to_string()),
        None,
        Some(7),
        None,
        Some("out".to_string()),
    );
    let merged = base.overwrite_with(overriding);
    assert_eq!(merged.elm_compilers(), vec!["elm".to_string()]);
    assert_eq!(merged.node(), "node-v16");
    assert_eq!(merged.opt_levels(), vec![OptimizationLevel::Dev]);
    assert_eq!(merged.compiler_max_retries(), 7);
    assert_eq!(merged.run_timeout(), 5_000);
    assert_eq!(merged.out_dir, Some("out".to_string()));
}

#[test]
fn output_sections_are_labelled_and_decoded() {
    assert_eq!(process_stdout(b"hello"), " = Std Out =\nhello");
    assert_eq!(process_stderr(b"oops"), " = Std Err =\noops");
}

#[test]
fn output_sections_survive_invalid_utf8() {
    assert_eq!(process_stdout(&[0xff]), " = Std Out =\n\u{fffd}");
}
