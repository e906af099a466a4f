use wrangler::build::BuildOutcome;
use wrangler::settings::Builder;
use wrangler::settings::ScriptFormat;
use wrangler::settings::Target;
use wrangler::watch::debounce::Signal;
use wrangler::watch::watch_and_build;
use wrangler::watch::watch_target;
use wrangler::watch::Pipeline;
use wrangler::watch::PipelineState;
use wrangler::watch::WatchAction;
use wrangler::watch::WatchEvent;

fn project(with_build: bool) -> Target {
    let build = if with_build {
        Some(Builder {
            command: Some("npm run build".to_string()),
            watch_dir: "src".to_string(),
            upload_dir: "dist".to_string(),
            upload_format: ScriptFormat::Modules,
            upload_include: None,
            upload_exclude: None,
        })
    } else {
        None
    };
    Target { name: "worker".to_string(), kv_namespaces: vec![], build, text_blobs: None, vars: None }
}

fn started(with_build: bool) -> Pipeline {
    let mut pipeline = Pipeline::new(&project(with_build), 2000);
    assert_eq!(watch_and_build(&mut pipeline, WatchEvent::Attached), WatchAction::Wait);
    assert_eq!(pipeline.state, PipelineState::Watching);
    pipeline
}

fn raw(at: u64) -> WatchEvent {
    WatchEvent::Signal(Signal::Raw(at))
}

fn tick(at: u64) -> WatchEvent {
    WatchEvent::Signal(Signal::Tick(at))
}

#[test]
fn watch_target_is_the_root_without_a_build_step() {
    assert_eq!(watch_target(&project(false)), "./");
}

#[test]
fn watch_target_is_the_watch_directory_of_the_build_step() {
    assert_eq!(watch_target(&project(true)), "src");
}

#[test]
fn new_pipeline_is_idle() {
    let pipeline = Pipeline::new(&project(true), 2000);
    assert_eq!(pipeline.state, PipelineState::Idle);
    assert!(pipeline.has_build_step);
    assert_eq!(pipeline.debouncer.cooldown_ms, 2000);
    assert_eq!(pipeline.debouncer.pending_since_ms, None);
    assert!(!Pipeline::new(&project(false), 2000).has_build_step);
}

#[test]
fn watcher_that_cannot_attach_keeps_the_pipeline_from_starting() {
    let mut pipeline = Pipeline::new(&project(true), 2000);
    let action = watch_and_build(&mut pipeline, WatchEvent::AttachFailed("no such path".to_string()));
    assert_eq!(action, WatchAction::Abandon("no such path".to_string()));
    assert_eq!(pipeline.state, PipelineState::Idle);
}

#[test]
fn signals_before_the_start_do_nothing() {
    let mut pipeline = Pipeline::new(&project(true), 2000);
    assert_eq!(watch_and_build(&mut pipeline, raw(5)), WatchAction::Continue);
    assert_eq!(watch_and_build(&mut pipeline, tick(5000)), WatchAction::Continue);
    assert_eq!(pipeline, Pipeline::new(&project(true), 2000));
}

#[test]
fn two_edits_in_one_window_start_one_cycle_after_the_cooldown() {
    let mut pipeline = started(true);
    assert_eq!(watch_and_build(&mut pipeline, raw(0)), WatchAction::Wait);
    assert_eq!(pipeline.state, PipelineState::Debouncing);
    assert_eq!(watch_and_build(&mut pipeline, raw(500)), WatchAction::Wait);
    assert_eq!(pipeline.debouncer.time_to_wait(500), Some(2000));
    assert_eq!(watch_and_build(&mut pipeline, tick(2000)), WatchAction::Wait);
    assert_eq!(watch_and_build(&mut pipeline, tick(2499)), WatchAction::Wait);
    assert_eq!(pipeline.state, PipelineState::Debouncing);
    assert_eq!(watch_and_build(&mut pipeline, tick(2500)), WatchAction::RunBuild);
    assert_eq!(pipeline.state, PipelineState::Building);
    let built = WatchEvent::BuildFinished(BuildOutcome::Success("build completed".to_string()));
    assert_eq!(watch_and_build(&mut pipeline, built), WatchAction::Assemble);
    assert_eq!(pipeline.state, PipelineState::Assembling);
    assert_eq!(watch_and_build(&mut pipeline, WatchEvent::Assembled), WatchAction::Notify);
    assert_eq!(pipeline.state, PipelineState::Notifying);
    assert_eq!(watch_and_build(&mut pipeline, WatchEvent::Delivered), WatchAction::Wait);
    assert_eq!(pipeline.state, PipelineState::Watching);
    assert_eq!(watch_and_build(&mut pipeline, tick(10_000)), WatchAction::Wait);
    assert_eq!(pipeline.state, PipelineState::Watching);
}

#[test]
fn failed_build_is_reported_and_the_pipeline_watches_on() {
    let mut pipeline = started(true);
    watch_and_build(&mut pipeline, raw(0));
    assert_eq!(watch_and_build(&mut pipeline, tick(2000)), WatchAction::RunBuild);
    let failed = WatchEvent::BuildFinished(BuildOutcome::Failure(
        "build failed, status code 2".to_string(),
        Some(2),
    ));
    assert_eq!(
        watch_and_build(&mut pipeline, failed),
        WatchAction::Report("build failed, status code 2".to_string())
    );
    assert_eq!(pipeline.state, PipelineState::Failed);
    assert_eq!(watch_and_build(&mut pipeline, WatchEvent::Delivered), WatchAction::Wait);
    assert_eq!(pipeline.state, PipelineState::Watching);
    watch_and_build(&mut pipeline, raw(9000));
    assert_eq!(watch_and_build(&mut pipeline, tick(11_000)), WatchAction::RunBuild);
}

#[test]
fn failed_assembly_is_reported_and_the_pipeline_watches_on() {
    let mut pipeline = started(true);
    watch_and_build(&mut pipeline, raw(0));
    watch_and_build(&mut pipeline, tick(2000));
    watch_and_build(
        &mut pipeline,
        WatchEvent::BuildFinished(BuildOutcome::Success("build completed".to_string())),
    );
    let failed = WatchEvent::AssemblyFailed("duplicate binding name FOO".to_string());
    assert_eq!(
        watch_and_build(&mut pipeline, failed),
        WatchAction::Report("duplicate binding name FOO".to_string())
    );
    assert_eq!(pipeline.state, PipelineState::Failed);
    assert_eq!(watch_and_build(&mut pipeline, WatchEvent::Delivered), WatchAction::Wait);
    assert_eq!(pipeline.state, PipelineState::Watching);
}

#[test]
fn edits_during_a_cycle_give_one_more_cycle() {
    let mut pipeline = started(true);
    watch_and_build(&mut pipeline, raw(0));
    assert_eq!(watch_and_build(&mut pipeline, tick(2000)), WatchAction::RunBuild);
    for at in [2100, 2200, 2300, 5000, 9000] {
        assert_eq!(watch_and_build(&mut pipeline, raw(at)), WatchAction::Continue);
        assert_eq!(pipeline.state, PipelineState::Building);
    }
    assert_eq!(watch_and_build(&mut pipeline, tick(20_000)), WatchAction::Continue);
    assert_eq!(pipeline.state, PipelineState::Building);
    let built = WatchEvent::BuildFinished(BuildOutcome::Success("build completed".to_string()));
    assert_eq!(watch_and_build(&mut pipeline, built), WatchAction::Assemble);
    assert_eq!(watch_and_build(&mut pipeline, raw(20_500)), WatchAction::Continue);
    assert_eq!(watch_and_build(&mut pipeline, WatchEvent::Assembled), WatchAction::Notify);
    assert_eq!(watch_and_build(&mut pipeline, WatchEvent::Delivered), WatchAction::Wait);
    assert_eq!(pipeline.state, PipelineState::Debouncing);
    assert_eq!(watch_and_build(&mut pipeline, tick(22_499)), WatchAction::Wait);
    assert_eq!(watch_and_build(&mut pipeline, tick(22_500)), WatchAction::RunBuild);
    let built = WatchEvent::BuildFinished(BuildOutcome::Success("build completed".to_string()));
    watch_and_build(&mut pipeline, built);
    watch_and_build(&mut pipeline, WatchEvent::Assembled);
    assert_eq!(watch_and_build(&mut pipeline, WatchEvent::Delivered), WatchAction::Wait);
    assert_eq!(pipeline.state, PipelineState::Watching);
}

#[test]
fn without_a_build_step_a_change_is_only_handed_on() {
    let mut pipeline = started(false);
    assert_eq!(watch_and_build(&mut pipeline, raw(100)), WatchAction::Wait);
    assert_eq!(watch_and_build(&mut pipeline, tick(2100)), WatchAction::Notify);
    assert_eq!(pipeline.state, PipelineState::Notifying);
    assert_eq!(watch_and_build(&mut pipeline, WatchEvent::Delivered), WatchAction::Wait);
    assert_eq!(pipeline.state, PipelineState::Watching);
}

#[test]
fn watch_failure_is_reported_and_changes_nothing() {
    let mut pipeline = started(true);
    let before = pipeline;
    assert_eq!(
        watch_and_build(&mut pipeline, WatchEvent::WatchFailed),
        WatchAction::Report("Something went wrong while watching.".to_string())
    );
    assert_eq!(pipeline, before);
    watch_and_build(&mut pipeline, raw(0));
    let before = pipeline;
    assert_eq!(
        watch_and_build(&mut pipeline, WatchEvent::WatchFailed),
        WatchAction::Report("Something went wrong while watching.".to_string())
    );
    assert_eq!(pipeline, before);
}

#[test]
fn events_out_of_turn_change_nothing() {
    let mut pipeline = started(true);
    let before = pipeline;
    let built = WatchEvent::BuildFinished(BuildOutcome::Success("build completed".to_string()));
    assert_eq!(watch_and_build(&mut pipeline, built), WatchAction::Continue);
    assert_eq!(watch_and_build(&mut pipeline, WatchEvent::Assembled), WatchAction::Continue);
    assert_eq!(watch_and_build(&mut pipeline, WatchEvent::Delivered), WatchAction::Continue);
    assert_eq!(watch_and_build(&mut pipeline, WatchEvent::Attached), WatchAction::Continue);
    assert_eq!(
        watch_and_build(&mut pipeline, WatchEvent::AttachFailed("late".to_string())),
        WatchAction::Continue
    );
    assert_eq!(
        watch_and_build(&mut pipeline, WatchEvent::AssemblyFailed("late".to_string())),
        WatchAction::Continue
    );
    assert_eq!(pipeline, before);
}

#[test]
fn event_after_the_deadline_starts_the_cycle_and_waits_for_the_next() {
    let mut pipeline = started(true);
    watch_and_build(&mut pipeline, raw(0));
    assert_eq!(watch_and_build(&mut pipeline, raw(3000)), WatchAction::RunBuild);
    assert_eq!(pipeline.state, PipelineState::Building);
    assert_eq!(pipeline.debouncer.pending_since_ms, Some(3000));
}

#[test]
fn two_bursts_apart_start_two_cycles() {
    let mut pipeline = started(true);
    let mut builds = 0;
    let signals = [raw(0), raw(100), raw(300), tick(1000), tick(2300)];
    for signal in signals {
        if watch_and_build(&mut pipeline, signal) == WatchAction::RunBuild {
            builds += 1;
        }
    }
    assert_eq!(builds, 1);
    assert_eq!(pipeline.state, PipelineState::Building);
    let built = WatchEvent::BuildFinished(BuildOutcome::Success("build completed".to_string()));
    assert_eq!(watch_and_build(&mut pipeline, built), WatchAction::Assemble);
    assert_eq!(watch_and_build(&mut pipeline, WatchEvent::Assembled), WatchAction::Notify);
    assert_eq!(watch_and_build(&mut pipeline, WatchEvent::Delivered), WatchAction::Wait);
    assert_eq!(pipeline.state, PipelineState::Watching);
    let signals = [raw(4400), raw(4500), tick(5000), tick(6500), tick(7000)];
    for signal in signals {
        if watch_and_build(&mut pipeline, signal) == WatchAction::RunBuild {
            builds += 1;
        }
    }
    assert_eq!(builds, 2);
}

#[test]
fn many_edits_in_one_window_start_one_cycle() {
    for n in 1..40u64 {
        let mut pipeline = started(true);
        let mut builds = 0;
        for k in 0..n {
            if watch_and_build(&mut pipeline, raw(k * 50)) == WatchAction::RunBuild {
                builds += 1;
            }
        }
        let last = (n - 1) * 50;
        for at in [last + 1999, last + 2000, last + 2001, last + 9000] {
            if watch_and_build(&mut pipeline, tick(at)) == WatchAction::RunBuild {
                builds += 1;
            }
        }
        assert_eq!(builds, 1, "{} edits", n);
    }
}
