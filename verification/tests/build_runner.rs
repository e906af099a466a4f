use wrangler::build::build_command;
use wrangler::build::build_target;
use wrangler::build::BuildOutcome;
use wrangler::build::ProcessExit;
use wrangler::settings::Builder;
use wrangler::settings::ScriptFormat;
use wrangler::settings::Target;

fn target(build: Option<Builder>) -> Target {
    Target { name: "worker".to_string(), kv_namespaces: vec![], build, text_blobs: None, vars: None }
}

fn builder(command: Option<&str>) -> Builder {
    Builder {
        command: command.map(|c| c.to_string()),
        watch_dir: "src".to_string(),
        upload_dir: "dist".to_string(),
        upload_format: ScriptFormat::ServiceWorker,
        upload_include: None,
        upload_exclude: None,
    }
}

#[test]
fn no_build_step_always_succeeds() {
    let plain = target(None);
    for exit in [ProcessExit::Code(0), ProcessExit::Code(2), ProcessExit::NoCode, ProcessExit::NotRun]
    {
        assert_eq!(build_target(&plain, exit), BuildOutcome::Success("no build step".to_string()));
    }
    assert_eq!(build_command(&plain), None);
}

#[test]
fn build_step_without_command_always_succeeds() {
    let no_command = target(Some(builder(None)));
    assert_eq!(build_command(&no_command), None);
    assert_eq!(
        build_target(&no_command, ProcessExit::Code(3)),
        BuildOutcome::Success("no build step".to_string())
    );
}

#[test]
fn command_is_handed_out_as_configured() {
    let with_command = target(Some(builder(Some("npm run build"))));
    assert_eq!(build_command(&with_command), Some("npm run build".to_string()));
}

#[test]
fn exit_code_zero_is_success() {
    let with_command = target(Some(builder(Some("npm run build"))));
    assert_eq!(
        build_target(&with_command, ProcessExit::Code(0)),
        BuildOutcome::Success("build completed".to_string())
    );
}

#[test]
fn exit_code_two_is_a_failure_that_names_it() {
    let with_command = target(Some(builder(Some("npm run build"))));
    let outcome = build_target(&with_command, ProcessExit::Code(2));
    assert_eq!(
        outcome,
        BuildOutcome::Failure("build failed, status code 2".to_string(), Some(2))
    );
    match outcome {
        BuildOutcome::Failure(message, _) => assert!(message.contains("2")),
        BuildOutcome::Success(_) => panic!("exit code 2 is no success"),
    }
}

#[test]
fn exit_codes_are_written_in_decimal() {
    let with_command = target(Some(builder(Some("make"))));
    assert_eq!(
        build_target(&with_command, ProcessExit::Code(127)),
        BuildOutcome::Failure("build failed, status code 127".to_string(), Some(127))
    );
    assert_eq!(
        build_target(&with_command, ProcessExit::Code(-1)),
        BuildOutcome::Failure("build failed, status code -1".to_string(), Some(-1))
    );
    assert_eq!(
        build_target(&with_command, ProcessExit::Code(i32::MIN)),
        BuildOutcome::Failure("build failed, status code -2147483648".to_string(), Some(i32::MIN))
    );
    assert_eq!(
        build_target(&with_command, ProcessExit::Code(i32::MAX)),
        BuildOutcome::Failure("build failed, status code 2147483647".to_string(), Some(i32::MAX))
    );
    assert_eq!(
        build_target(&with_command, ProcessExit::Code(1000)),
        BuildOutcome::Failure("build failed, status code 1000".to_string(), Some(1000))
    );
}

#[test]
fn command_that_did_not_run_is_a_failure_without_code() {
    let with_command = target(Some(builder(Some("no-such-binary"))));
    assert_eq!(
        build_target(&with_command, ProcessExit::NotRun),
        BuildOutcome::Failure("build failed".to_string(), None)
    );
}

#[test]
fn exit_without_code_is_a_failure_without_code() {
    let with_command = target(Some(builder(Some("sleep 100"))));
    assert_eq!(
        build_target(&with_command, ProcessExit::NoCode),
        BuildOutcome::Failure("build failed".to_string(), None)
    );
}
