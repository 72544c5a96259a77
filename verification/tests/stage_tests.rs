use elm_torture::retry::retry_step;
use elm_torture::retry::RetryDecision;
use elm_torture::suite::classify_compile_output;
use elm_torture::suite::classify_run_outcome;
use elm_torture::suite::compile_command_args;
use elm_torture::suite::compile_targets;
use elm_torture::suite::compiled_artifact_name;
use elm_torture::suite::detect_stdlib_variant;
use elm_torture::suite::main_file_contents;
use elm_torture::suite::mode_advisory;
use elm_torture::suite::node_args;
use elm_torture::suite::run_timezone;
use elm_torture::suite::CompileError;
use elm_torture::suite::DetectStdlibError;
use elm_torture::suite::ElmCompilerPath;
use elm_torture::suite::ProcessOutput;
use elm_torture::suite::RunError;
use elm_torture::suite::RunOutcome;
use elm_torture::suite::StdlibVariant;
use elm_torture::config::OptimizationLevel;

fn silent_success() -> ProcessOutput {
    ProcessOutput { status_success: true, status_code: Some(0), stdout: vec![], stderr: vec![] }
}

fn drive_retry<F: FnMut() -> Result<(), String>>(
    max_retries: usize,
    mut attempt_once: F,
) -> (usize, Result<(), String>) {
    let mut attempt = 0;
    loop {
        let outcome = attempt_once();
        match retry_step(attempt, max_retries, outcome) {
            RetryDecision::Done { attempts, result } => return (attempts, result),
            RetryDecision::Retry { next_attempt } => attempt = next_attempt,
        }
    }
}

#[test]
fn retry_reports_success_at_failure_count() {
    let mut calls = 0;
    let (attempts, result) = drive_retry(5, || {
        calls += 1;
        if calls <= 2 {
            Err("broken".to_string())
        } else {
            Ok(())
        }
    });
    assert_eq!(attempts, 2);
    assert!(result.is_ok());
    assert_eq!(calls, 3);
}

#[test]
fn retry_immediate_success_is_attempt_zero() {
    let (attempts, result) = drive_retry(4, || Ok(()));
    assert_eq!(attempts, 0);
    assert!(result.is_ok());
}

#[test]
fn retry_success_on_the_final_attempt_keeps_the_full_count() {
    let mut calls = 0;
    let (attempts, result) = drive_retry(2, || {
        calls += 1;
        if calls <= 2 {
            Err("broken".to_string())
        } else {
            Ok(())
        }
    });
    assert_eq!(attempts, 2);
    assert!(result.is_ok());
    assert_eq!(calls, 3);
}

#[test]
fn retry_always_failing_reports_max_retries_and_last_failure() {
    let mut calls = 0;
    let (attempts, result) = drive_retry(3, || {
        calls += 1;
        Err(format!("failure {}", calls))
    });
    assert_eq!(attempts, 3);
    assert_eq!(result, Err("failure 4".to_string()));
}

#[test]
fn compile_failure_on_nonzero_exit() {
    let output = ProcessOutput {
        status_success: false,
        status_code: Some(1),
        stdout: vec![],
        stderr: b"boom".to_vec(),
    };
    assert!(matches!(
        classify_compile_output(output),
        Err(CompileError::Compiler(_))
    ));
}

#[test]
fn compile_failure_on_stderr_despite_success() {
    let output = ProcessOutput {
        status_success: true,
        status_code: Some(0),
        stdout: vec![],
        stderr: b"warning: shadowing".to_vec(),
    };
    assert!(matches!(
        classify_compile_output(output),
        Err(CompileError::CompilerStdErrNotEmpty(_))
    ));
}

#[test]
fn compile_silent_success_passes() {
    assert!(classify_compile_output(silent_success()).is_ok());
}

#[test]
fn probe_failure_means_official_toolchain() {
    assert!(matches!(
        detect_stdlib_variant(false, b"whatever".to_vec()),
        Ok(StdlibVariant::Official)
    ));
}

#[test]
fn probe_marker_means_another_toolchain() {
    assert!(matches!(
        detect_stdlib_variant(true, b"  another-elm 0.1\n".to_vec()),
        Ok(StdlibVariant::Another)
    ));
}

#[test]
fn probe_unexpected_output_is_parse_error() {
    let r = detect_stdlib_variant(true, b"elm 0.19.1".to_vec());
    assert!(matches!(r, Err(DetectStdlibError::Parsing(ref bytes)) if bytes == b"elm 0.19.1"));
}

#[test]
fn resolved_compiler_keeps_name_and_path() {
    let c = ElmCompilerPath::new_resolved(
        "another-elm".to_string(),
        "/usr/bin/another-elm".to_string(),
        true,
        b"another-elm\n".to_vec(),
    )
    .unwrap();
    assert_eq!(c.unresolved, "another-elm");
    assert_eq!(c.path, "/usr/bin/another-elm");
    assert_eq!(c.stdlib_variant, StdlibVariant::Another);
}

#[test]
fn timeout_is_reported_as_timeout_with_partial_output() {
    let outcome = RunOutcome::TimedOut {
        after: 10_000,
        stdout: b"partial".to_vec(),
        stderr: vec![],
    };
    match classify_run_outcome(outcome) {
        Err(RunError::Timeout { after, stdout, stderr }) => {
            assert_eq!(after, 10_000);
            assert_eq!(stdout, b"partial".to_vec());
            assert_eq!(stderr, Vec::<u8>::new());
        }
        other => panic!("timeout misclassified: {:?}", other),
    }
}

#[test]
fn timeout_is_never_runtime_or_output_produced() {
    let outcome = RunOutcome::TimedOut {
        after: 1,
        stdout: b"x".to_vec(),
        stderr: b"y".to_vec(),
    };
    let r = classify_run_outcome(outcome);
    assert!(!matches!(r, Err(RunError::Runtime(_))));
    assert!(!matches!(r, Err(RunError::OutputProduced(_))));
    assert!(matches!(r, Err(RunError::Timeout { .. })));
}

#[test]
fn run_nonzero_exit_is_runtime_failure() {
    let output = ProcessOutput {
        status_success: false,
        status_code: Some(2),
        stdout: vec![],
        stderr: vec![],
    };
    assert!(matches!(
        classify_run_outcome(RunOutcome::Exited(output)),
        Err(RunError::Runtime(_))
    ));
}

#[test]
fn run_stdout_is_output_produced() {
    let output = ProcessOutput {
        status_success: true,
        status_code: Some(0),
        stdout: b"hello".to_vec(),
        stderr: vec![],
    };
    assert!(matches!(
        classify_run_outcome(RunOutcome::Exited(output)),
        Err(RunError::OutputProduced(_))
    ));
}

#[test]
fn run_arbitrary_stderr_is_output_produced() {
    let output = ProcessOutput {
        status_success: true,
        status_code: Some(0),
        stdout: vec![],
        stderr: b"unexpected".to_vec(),
    };
    assert!(matches!(
        classify_run_outcome(RunOutcome::Exited(output)),
        Err(RunError::OutputProduced(_))
    ));
}

#[test]
fn run_advisory_stderr_is_tolerated() {
    for mode in ["DEV", "DEBUG"] {
        let output = ProcessOutput {
            status_success: true,
            status_code: Some(0),
            stdout: vec![],
            stderr: mode_advisory(mode).into_bytes(),
        };
        assert!(classify_run_outcome(RunOutcome::Exited(output)).is_ok());
    }
}

#[test]
fn run_silent_success_passes() {
    assert!(classify_run_outcome(RunOutcome::Exited(silent_success())).is_ok());
}

#[test]
fn advisory_text_is_exact() {
    assert_eq!(
        mode_advisory("DEV"),
        "Compiled in DEV mode. Follow the advice at https://elm-lang.org/0.19.1/optimize for better performance and smaller assets.\n"
    );
}

#[test]
fn targets_default_to_single_entry_file() {
    let targets = compile_targets(None);
    assert_eq!(targets, vec!["Main.elm".to_string()]);
}

#[test]
fn targets_manifest_is_split_per_line() {
    let targets = compile_targets(Some("A.elm\nB.elm"));
    assert_eq!(targets, vec!["A.elm".to_string(), "B.elm".to_string()]);
}

#[test]
fn targets_manifest_trailing_newline_gives_empty_last_entry() {
    let targets = compile_targets(Some("A.elm\n"));
    assert_eq!(targets, vec!["A.elm".to_string(), "".to_string()]);
}

#[test]
fn compile_command_lists_roots_flags_and_output() {
    let roots = vec!["Main.elm".to_string(), "Other.elm".to_string()];
    let args = compile_command_args(&roots, OptimizationLevel::Optimize, "out/elm-optimize.js");
    assert_eq!(
        args,
        vec![
            "make".to_string(),
            "Main.elm".to_string(),
            "Other.elm".to_string(),
            "--optimize".to_string(),
            "--output".to_string(),
            "out/elm-optimize.js".to_string(),
        ]
    );
}

#[test]
fn compile_command_dev_has_no_level_flag() {
    let roots = vec!["Main.elm".to_string()];
    let args = compile_command_args(&roots, OptimizationLevel::Dev, "out.js");
    assert_eq!(
        args,
        vec![
            "make".to_string(),
            "Main.elm".to_string(),
            "--output".to_string(),
            "out.js".to_string(),
        ]
    );
}

#[test]
fn artifact_name_carries_the_level_id() {
    assert_eq!(compiled_artifact_name(OptimizationLevel::Debug), "elm-debug.js");
    assert_eq!(compiled_artifact_name(OptimizationLevel::Dev), "elm-dev.js");
    assert_eq!(compiled_artifact_name(OptimizationLevel::Optimize), "elm-optimize.js");
}

#[test]
fn entry_point_script_requires_the_right_artifact() {
    let script = main_file_contents(OptimizationLevel::Optimize);
    assert!(script.contains("require('./elm-optimize.js')"));
    assert!(script.contains("require('./harness.js')"));
    assert!(script.contains("require('./xmlhttprequest.js')"));
    assert!(script.contains("require('./output.json')"));
    assert!(script.contains("harness(generated, expectedOutput);"));
}

#[test]
fn runtime_invocation_is_pinned() {
    assert_eq!(run_timezone(), "Asia/Bahrain");
    assert_eq!(
        node_args("out/main.js"),
        vec!["--unhandled-rejections=strict".to_string(), "out/main.js".to_string()]
    );
}
