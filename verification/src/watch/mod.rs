//! The watch loop as a state machine.
//!
//! The pipeline watches a directory, waits until a burst of changes has
//! come to rest, builds, assembles, and tells its consumer that a new
//! bundle is there. Then it watches again. A failed build or assembly is
//! reported and the pipeline goes on; only a watcher that cannot be
//! attached keeps it from starting.
//!
//! All waiting and all work is the caller's: it attaches the watcher, runs
//! the build, assembles the bundle and sends the notification. After each
//! thing that happens it calls [`watch_and_build`] with the event, and does
//! what the action that comes back says.

pub mod debounce;

use vstd::prelude::*;
use vstd::string::*;
use crate::build::BuildOutcome;
use crate::build::BuildOutcomeView;
use crate::settings::Target;
use crate::watch::debounce::bursts;
use crate::watch::debounce::emissions;
use crate::watch::debounce::in_time_order;
use crate::watch::debounce::lemma_one_change_per_burst;
use crate::watch::debounce::lemma_run;
use crate::watch::debounce::lemma_window_emits_once;
use crate::watch::debounce::raw_times;
use crate::watch::debounce::settled;
use crate::watch::debounce::state_after;
use crate::watch::debounce::Debouncer;
use crate::watch::debounce::Signal;

verus! {

/// Where the pipeline stands.
#[derive(Clone, Copy, Debug, PartialEq, Eq, Structural)]
pub enum PipelineState {
    /// Not started: the watcher is not attached.
    Idle,
    /// Waiting for a first raw event.
    Watching,
    /// A burst is open; waiting for it to come to rest.
    Debouncing,
    /// The build step runs.
    Building,
    /// The bundle is assembled.
    Assembling,
    /// The consumer is being told of the new bundle.
    Notifying,
    /// A failure is being reported.
    Failed,
}

/// What happened.
#[derive(Debug)]
pub enum WatchEvent {
    /// The watcher is attached to the watch directory.
    Attached,
    /// The watcher could not be attached.
    AttachFailed(String),
    /// A raw filesystem event, or the passing of time.
    Signal(Signal),
    /// The notification subsystem reported an error.
    WatchFailed,
    /// The build step ended.
    BuildFinished(BuildOutcome),
    /// The bundle is assembled.
    Assembled,
    /// No bundle could be assembled.
    AssemblyFailed(String),
    /// The notification or the report that was asked for is delivered.
    Delivered,
}

/// What the caller is to do next.
#[derive(Debug, PartialEq, Eq)]
pub enum WatchAction {
    /// Go on with what is under way.
    Continue,
    /// Wait for the next raw event, no longer than the debouncer allows.
    Wait,
    /// Run the build step and come back with how it ended.
    RunBuild,
    /// Assemble the bundle and come back with how that went.
    Assemble,
    /// Tell the consumer that a new bundle is there, and come back.
    Notify,
    /// Report this failure to the user, and come back where the pipeline
    /// stands in `Failed`.
    Report(String),
    /// Report this failure and give up: the pipeline does not start.
    Abandon(String),
}

pub enum WatchActionView {
    Continue,
    Wait,
    RunBuild,
    Assemble,
    Notify,
    Report(Seq<char>),
    Abandon(Seq<char>),
}

impl View for WatchAction {
    type V = WatchActionView;

    open spec fn view(&self) -> WatchActionView {
        match self {
            WatchAction::Continue => WatchActionView::Continue,
            WatchAction::Wait => WatchActionView::Wait,
            WatchAction::RunBuild => WatchActionView::RunBuild,
            WatchAction::Assemble => WatchActionView::Assemble,
            WatchAction::Notify => WatchActionView::Notify,
            WatchAction::Report(m) => WatchActionView::Report(m@),
            WatchAction::Abandon(m) => WatchActionView::Abandon(m@),
        }
    }
}

/// The pipeline of one project.
#[derive(Clone, Copy, Debug, PartialEq, Eq, Structural)]
pub struct Pipeline {
    pub state: PipelineState,
    pub debouncer: Debouncer,
    /// Whether the project has a build step. Without one, a change is
    /// handed on to the consumer as it is.
    pub has_build_step: bool,
}

/// The directory that is watched where the project has no build step.
pub open spec fn project_root() -> Seq<char> {
    "./"@
}

/// The directory to watch: the project's root where it has no build step,
/// and the watch directory of the build step otherwise.
pub open spec fn watch_directory(target: Target) -> Seq<char> {
    match target.build {
        Some(config) => config.watch_dir@,
        None => project_root(),
    }
}

/// The directory to attach the watcher to.
pub fn watch_target(target: &Target) -> (directory: String)
    ensures
        directory@ == watch_directory(*target),
{
    match &target.build {
        Some(config) => config.watch_dir.clone(),
        None => String::from_str("./"),
    }
}

/// What is reported when the notification subsystem fails on a tick.
pub open spec fn watch_failure_message() -> Seq<char> {
    "Something went wrong while watching."@
}

impl PipelineState {
    /// Whether a build cycle is under way.
    pub open spec fn busy(self) -> bool {
        self is Building || self is Assembling || self is Notifying || self is Failed
    }
}

impl Pipeline {
    /// What holds of a pipeline from its making on: before its start and
    /// while it waits for a first event no burst is open, and while it
    /// waits for a burst to come to rest one is.
    pub open spec fn wf(self) -> bool {
        &&& self.state is Idle ==> self.debouncer.idle()
        &&& self.state is Watching ==> self.debouncer.idle()
        &&& self.state is Debouncing ==> !self.debouncer.idle()
    }

    /// The state in which the pipeline waits: for the end of a burst where
    /// one is open, for a first event otherwise.
    pub open spec fn waiting_state(debouncer: Debouncer) -> PipelineState {
        if debouncer.idle() {
            PipelineState::Watching
        } else {
            PipelineState::Debouncing
        }
    }

    /// The pipeline after a signal. While it waits, the debouncer takes
    /// the signal, and a change that is set free starts a cycle: with the
    /// build where there is a build step, with the notification where there
    /// is none. While a cycle is under way, a raw event opens or prolongs a
    /// burst that waits for the cycle's end, and a tick changes nothing.
    /// Before the start no signal counts.
    pub open spec fn after_signal(self, signal: Signal) -> Pipeline {
        match self.state {
            PipelineState::Idle => self,
            PipelineState::Watching | PipelineState::Debouncing => {
                let debouncer = self.debouncer.after(signal);
                if self.debouncer.emitted(signal.at()) is Some {
                    Pipeline {
                        state: if self.has_build_step {
                            PipelineState::Building
                        } else {
                            PipelineState::Notifying
                        },
                        debouncer,
                        ..self
                    }
                } else {
                    Pipeline { state: Self::waiting_state(debouncer), debouncer, ..self }
                }
            },
            _ => match signal {
                Signal::Raw(now) => Pipeline {
                    debouncer: Debouncer { pending_since_ms: Some(now), ..self.debouncer },
                    ..self
                },
                Signal::Tick(_) => self,
            },
        }
    }

    /// The pipeline after an event.
    pub open spec fn after(self, event: WatchEvent) -> Pipeline {
        match (self.state, event) {
            (_, WatchEvent::Signal(signal)) => self.after_signal(signal),
            (PipelineState::Idle, WatchEvent::Attached) => Pipeline {
                state: Self::waiting_state(self.debouncer),
                ..self
            },
            (PipelineState::Building, WatchEvent::BuildFinished(outcome)) => Pipeline {
                state: if outcome is Success {
                    PipelineState::Assembling
                } else {
                    PipelineState::Failed
                },
                ..self
            },
            (PipelineState::Assembling, WatchEvent::Assembled) => Pipeline {
                state: PipelineState::Notifying,
                ..self
            },
            (PipelineState::Assembling, WatchEvent::AssemblyFailed(_)) => Pipeline {
                state: PipelineState::Failed,
                ..self
            },
            (PipelineState::Notifying, WatchEvent::Delivered) => Pipeline {
                state: Self::waiting_state(self.debouncer),
                ..self
            },
            (PipelineState::Failed, WatchEvent::Delivered) => Pipeline {
                state: Self::waiting_state(self.debouncer),
                ..self
            },
            _ => self,
        }
    }

    /// What the caller is to do after an event.
    pub open spec fn action(self, event: WatchEvent) -> WatchActionView {
        match (self.state, event) {
            (PipelineState::Idle, WatchEvent::Attached) => WatchActionView::Wait,
            (PipelineState::Idle, WatchEvent::AttachFailed(message)) => WatchActionView::Abandon(
                message@,
            ),
            (PipelineState::Idle, _) => WatchActionView::Continue,
            (_, WatchEvent::WatchFailed) => WatchActionView::Report(watch_failure_message()),
            (_, WatchEvent::Signal(signal)) => match self.after_signal(signal).state {
                PipelineState::Watching | PipelineState::Debouncing => WatchActionView::Wait,
                PipelineState::Building => if self.state.busy() {
                    WatchActionView::Continue
                } else {
                    WatchActionView::RunBuild
                },
                PipelineState::Notifying => if self.state.busy() {
                    WatchActionView::Continue
                } else {
                    WatchActionView::Notify
                },
                _ => WatchActionView::Continue,
            },
            (PipelineState::Building, WatchEvent::BuildFinished(outcome)) => match outcome {
                BuildOutcome::Success(_) => WatchActionView::Assemble,
                BuildOutcome::Failure(message, _) => WatchActionView::Report(message@),
            },
            (PipelineState::Assembling, WatchEvent::Assembled) => WatchActionView::Notify,
            (PipelineState::Assembling, WatchEvent::AssemblyFailed(message)) => {
                WatchActionView::Report(message@)
            },
            (PipelineState::Notifying, WatchEvent::Delivered) => WatchActionView::Wait,
            (PipelineState::Failed, WatchEvent::Delivered) => WatchActionView::Wait,
            _ => WatchActionView::Continue,
        }
    }

    /// The pipeline of `target` before its start, with this cooldown in
    /// milliseconds.
    pub fn new(target: &Target, cooldown_ms: u64) -> (pipeline: Pipeline)
        ensures
            pipeline.wf(),
            pipeline.state == PipelineState::Idle,
            pipeline.debouncer == (Debouncer { cooldown_ms, pending_since_ms: None }),
            pipeline.has_build_step == target.build is Some,
    {
        Pipeline {
            state: PipelineState::Idle,
            debouncer: Debouncer::new(cooldown_ms),
            has_build_step: target.build.is_some(),
        }
    }

    fn waiting(debouncer: &Debouncer) -> (state: PipelineState)
        ensures
            state == Self::waiting_state(*debouncer),
    {
        match debouncer.pending_since_ms {
            None => PipelineState::Watching,
            Some(_) => PipelineState::Debouncing,
        }
    }

    fn take_signal(&mut self, signal: Signal) -> (action: WatchAction)
        ensures
            *final(self) == old(self).after_signal(signal),
            action@ == old(self).action(WatchEvent::Signal(signal)),
    {
        match self.state {
            PipelineState::Idle => WatchAction::Continue,
            PipelineState::Watching | PipelineState::Debouncing => {
                match self.debouncer.step(signal) {
                    Some(_) => {
                        if self.has_build_step {
                            self.state = PipelineState::Building;
                            WatchAction::RunBuild
                        } else {
                            self.state = PipelineState::Notifying;
                            WatchAction::Notify
                        }
                    },
                    None => {
                        self.state = Self::waiting(&self.debouncer);
                        WatchAction::Wait
                    },
                }
            },
            _ => {
                match signal {
                    Signal::Raw(now) => {
                        self.debouncer.pending_since_ms = Some(now);
                    },
                    Signal::Tick(_) => {},
                }
                WatchAction::Continue
            },
        }
    }
}

/// Takes one event, moves the pipeline on, and says what the caller is to
/// do: the state afterwards is [`Pipeline::after`] of the state before, the
/// action is [`Pipeline::action`].
pub fn watch_and_build(pipeline: &mut Pipeline, event: WatchEvent) -> (action: WatchAction)
    ensures
        *final(pipeline) == old(pipeline).after(event),
        action@ == old(pipeline).action(event),
        old(pipeline).wf() ==> final(pipeline).wf(),
{
    match event {
        WatchEvent::Signal(signal) => pipeline.take_signal(signal),
        WatchEvent::WatchFailed => match pipeline.state {
            PipelineState::Idle => WatchAction::Continue,
            _ => WatchAction::Report(String::from_str("Something went wrong while watching.")),
        },
        WatchEvent::Attached => match pipeline.state {
            PipelineState::Idle => {
                pipeline.state = Pipeline::waiting(&pipeline.debouncer);
                WatchAction::Wait
            },
            _ => WatchAction::Continue,
        },
        WatchEvent::AttachFailed(message) => match pipeline.state {
            PipelineState::Idle => WatchAction::Abandon(message),
            _ => WatchAction::Continue,
        },
        WatchEvent::BuildFinished(outcome) => match pipeline.state {
            PipelineState::Building => match outcome {
                BuildOutcome::Success(_) => {
                    pipeline.state = PipelineState::Assembling;
                    WatchAction::Assemble
                },
                BuildOutcome::Failure(message, _) => {
                    pipeline.state = PipelineState::Failed;
                    WatchAction::Report(message)
                },
            },
            _ => WatchAction::Continue,
        },
        WatchEvent::Assembled => match pipeline.state {
            PipelineState::Assembling => {
                pipeline.state = PipelineState::Notifying;
                WatchAction::Notify
            },
            _ => WatchAction::Continue,
        },
        WatchEvent::AssemblyFailed(message) => match pipeline.state {
            PipelineState::Assembling => {
                pipeline.state = PipelineState::Failed;
                WatchAction::Report(message)
            },
            _ => WatchAction::Continue,
        },
        WatchEvent::Delivered => match pipeline.state {
            PipelineState::Notifying | PipelineState::Failed => {
                pipeline.state = Pipeline::waiting(&pipeline.debouncer);
                WatchAction::Wait
            },
            _ => WatchAction::Continue,
        },
    }
}

/// Every event keeps the pipeline well formed.
pub proof fn lemma_events_keep_well_formed(pipeline: Pipeline, event: WatchEvent)
    requires
        pipeline.wf(),
    ensures
        pipeline.after(event).wf(),
{
}

/// Two edits within one cooldown start one cycle, a cooldown after the
/// second: a pipeline with a build step that waits for a first event sees
/// an edit at `first` and one at `second`, less than a cooldown later. A
/// tick before a cooldown has passed since the second edit starts nothing;
/// the tick that comes then starts the build.
pub proof fn lemma_edits_in_one_window_start_one_cycle(
    pipeline: Pipeline,
    first: u64,
    second: u64,
    early: u64,
    due: u64,
)
    requires
        pipeline.wf(),
        pipeline.state is Watching,
        pipeline.has_build_step,
        first <= second <= early <= due,
        second - first < pipeline.debouncer.cooldown_ms,
        early - second < pipeline.debouncer.cooldown_ms,
        due - second >= pipeline.debouncer.cooldown_ms,
    ensures
        ({
            let after_first = pipeline.after(WatchEvent::Signal(Signal::Raw(first)));
            let after_second = after_first.after(WatchEvent::Signal(Signal::Raw(second)));
            let after_early = after_second.after(WatchEvent::Signal(Signal::Tick(early)));
            &&& pipeline.action(WatchEvent::Signal(Signal::Raw(first))) == WatchActionView::Wait
            &&& after_first.action(WatchEvent::Signal(Signal::Raw(second))) == WatchActionView::Wait
            &&& after_second.action(WatchEvent::Signal(Signal::Tick(early)))
                == WatchActionView::Wait
            &&& after_early.state is Debouncing
            &&& after_early.action(WatchEvent::Signal(Signal::Tick(due)))
                == WatchActionView::RunBuild
            &&& after_early.after(WatchEvent::Signal(Signal::Tick(due))).state is Building
            &&& after_early.after(WatchEvent::Signal(Signal::Tick(due))).debouncer.idle()
        }),
{
}

/// A pipeline that waits starts a cycle exactly when its debouncer sets a
/// change free, and its debouncer takes every signal: so what holds of the
/// changes of a debouncer holds of the cycles of a pipeline.
pub proof fn lemma_cycle_starts_with_each_change(pipeline: Pipeline, signal: Signal)
    requires
        pipeline.state is Watching || pipeline.state is Debouncing,
    ensures
        pipeline.after(WatchEvent::Signal(signal)).debouncer == pipeline.debouncer.after(signal),
        pipeline.debouncer.emitted(signal.at()) is Some <==> starts_cycle(
            pipeline.action(WatchEvent::Signal(signal)),
        ),
        starts_cycle(pipeline.action(WatchEvent::Signal(signal))) ==> pipeline.after(
            WatchEvent::Signal(signal),
        ).state.busy(),
{
}

/// Whether an action starts a cycle: it asks for the build, or, without a
/// build step, for the notification.
pub open spec fn starts_cycle(action: WatchActionView) -> bool {
    action is RunBuild || action is Notify
}

/// The pipeline after a run of signals.
pub open spec fn pipeline_after(pipeline: Pipeline, signals: Seq<Signal>) -> Pipeline
    decreases signals.len(),
{
    if signals.len() == 0 {
        pipeline
    } else {
        pipeline_after(pipeline, signals.drop_last()).after(WatchEvent::Signal(signals.last()))
    }
}

/// The number of cycles that a run of signals starts.
pub open spec fn cycles_started(pipeline: Pipeline, signals: Seq<Signal>) -> nat
    decreases signals.len(),
{
    if signals.len() == 0 {
        0
    } else {
        let before = cycles_started(pipeline, signals.drop_last());
        let action = pipeline_after(pipeline, signals.drop_last()).action(
            WatchEvent::Signal(signals.last()),
        );
        if starts_cycle(action) {
            before + 1
        } else {
            before
        }
    }
}

/// What holds after every run of signals of a pipeline that waited for a
/// first event, where time does not run backwards: until the debouncer
/// sets a change free the pipeline waits with it and has started nothing;
/// from then on one cycle is under way, and a burst waits for its end only
/// where the raw events make up two bursts or more.
proof fn lemma_pipeline_run(pipeline: Pipeline, signals: Seq<Signal>)
    requires
        pipeline.state is Watching,
        pipeline.debouncer.idle(),
        in_time_order(signals),
    ensures
        ({
            let after = pipeline_after(pipeline, signals);
            let changes = emissions(pipeline.debouncer, signals);
            &&& after.has_build_step == pipeline.has_build_step
            &&& after.debouncer.cooldown_ms == pipeline.debouncer.cooldown_ms
            &&& changes.len() == 0 ==> after.debouncer == state_after(pipeline.debouncer, signals)
                && after.state == Pipeline::waiting_state(after.debouncer) && cycles_started(
                pipeline,
                signals,
            ) == 0
            &&& changes.len() > 0 ==> cycles_started(pipeline, signals) == 1 && after.state == (
            if pipeline.has_build_step {
                PipelineState::Building
            } else {
                PipelineState::Notifying
            }) && (!after.debouncer.idle() ==> bursts(
                raw_times(signals),
                pipeline.debouncer.cooldown_ms,
            ) >= 2)
        }),
    decreases signals.len(),
{
    if signals.len() > 0 {
        let front = signals.drop_last();
        lemma_pipeline_run(pipeline, front);
        lemma_run(pipeline.debouncer.cooldown_ms, front);
        lemma_run(pipeline.debouncer.cooldown_ms, signals);
    }
}

/// Any number of edits within one cooldown window starts exactly one
/// cycle: a pipeline that waits for a first event takes a run of signals
/// in which time does not run backwards, whose raw events lie less than a
/// cooldown apart from first to last, and which has come to rest. It has
/// started one cycle then, with the build where there is a build step.
pub proof fn lemma_window_starts_one_cycle(pipeline: Pipeline, signals: Seq<Signal>)
    requires
        pipeline.state is Watching,
        pipeline.debouncer.idle(),
        in_time_order(signals),
        raw_times(signals).len() > 0,
        raw_times(signals).last() - raw_times(signals)[0] < pipeline.debouncer.cooldown_ms,
        settled(signals, pipeline.debouncer.cooldown_ms),
        signals.last() is Tick,
    ensures
        cycles_started(pipeline, signals) == 1,
        pipeline_after(pipeline, signals).has_build_step == pipeline.has_build_step,
        pipeline_after(pipeline, signals).state == (if pipeline.has_build_step {
            PipelineState::Building
        } else {
            PipelineState::Notifying
        }),
{
    lemma_window_emits_once(pipeline.debouncer.cooldown_ms, signals);
    lemma_pipeline_run(pipeline, signals);
}

/// The pipeline after a cycle that ran to its end with no raw event in
/// between: the build succeeded, the bundle was assembled, the consumer was
/// told; without a build step the consumer was told at once.
pub open spec fn after_whole_cycle(started: Pipeline, outcome: BuildOutcome) -> Pipeline {
    if started.has_build_step {
        started.after(WatchEvent::BuildFinished(outcome)).after(WatchEvent::Assembled).after(
            WatchEvent::Delivered,
        )
    } else {
        started.after(WatchEvent::Delivered)
    }
}

/// Two bursts that lie more than a cooldown apart start exactly two
/// cycles: the first burst, come to rest, starts one cycle; when that has
/// run to its end the pipeline waits for a first event again, and the
/// second burst, come to rest, starts one more.
pub proof fn lemma_two_bursts_start_two_cycles(
    pipeline: Pipeline,
    first: Seq<Signal>,
    outcome: BuildOutcome,
    second: Seq<Signal>,
)
    requires
        pipeline.state is Watching,
        pipeline.debouncer.idle(),
        outcome is Success,
        in_time_order(first),
        in_time_order(second),
        raw_times(first).len() > 0,
        raw_times(second).len() > 0,
        raw_times(first).last() - raw_times(first)[0] < pipeline.debouncer.cooldown_ms,
        raw_times(second).last() - raw_times(second)[0] < pipeline.debouncer.cooldown_ms,
        raw_times(second)[0] - raw_times(first).last() > pipeline.debouncer.cooldown_ms,
        settled(first, pipeline.debouncer.cooldown_ms),
        settled(second, pipeline.debouncer.cooldown_ms),
        first.last() is Tick,
        second.last() is Tick,
    ensures
        ({
            let resumed = after_whole_cycle(pipeline_after(pipeline, first), outcome);
            &&& cycles_started(pipeline, first) == 1
            &&& resumed.state is Watching
            &&& resumed.debouncer == pipeline.debouncer
            &&& cycles_started(resumed, second) == 1
        }),
{
    lemma_window_starts_one_cycle(pipeline, first);
    lemma_window_rests_idle(pipeline, first);
    lemma_window_starts_one_cycle(
        after_whole_cycle(pipeline_after(pipeline, first), outcome),
        second,
    );
}

/// A burst within one window that has come to rest leaves no burst open
/// in the pipeline: nothing waits for the end of the cycle that it started.
proof fn lemma_window_rests_idle(pipeline: Pipeline, signals: Seq<Signal>)
    requires
        pipeline.state is Watching,
        pipeline.debouncer.idle(),
        in_time_order(signals),
        raw_times(signals).len() > 0,
        raw_times(signals).last() - raw_times(signals)[0] < pipeline.debouncer.cooldown_ms,
        settled(signals, pipeline.debouncer.cooldown_ms),
        signals.last() is Tick,
    ensures
        pipeline_after(pipeline, signals).debouncer == pipeline.debouncer,
{
    lemma_window_emits_once(pipeline.debouncer.cooldown_ms, signals);
    lemma_one_change_per_burst(pipeline.debouncer.cooldown_ms, signals);
    lemma_pipeline_run(pipeline, signals);
}

/// No two cycles overlap: a build or a notification is only ever started
/// while the pipeline waits, never while a cycle is under way.
pub proof fn lemma_cycles_do_not_overlap(pipeline: Pipeline, event: WatchEvent)
    requires
        pipeline.state.busy(),
    ensures
        pipeline.action(event) != WatchActionView::RunBuild,
        pipeline.action(event) is Notify ==> pipeline.state is Assembling && event is Assembled,
        pipeline.action(event) is Assemble ==> pipeline.state is Building,
{
}

/// A pipeline that has started does not stop: whatever happens, it does
/// not go back to idle, and it is never told to give up.
pub proof fn lemma_keeps_running(pipeline: Pipeline, event: WatchEvent)
    requires
        pipeline.state != PipelineState::Idle,
    ensures
        pipeline.after(event).state != PipelineState::Idle,
        !(pipeline.action(event) is Abandon),
{
}

/// A failed build or assembly is reported, and once the report is
/// delivered the pipeline waits again.
pub proof fn lemma_failure_returns_to_waiting(pipeline: Pipeline, outcome: BuildOutcome)
    requires
        pipeline.state is Building,
        outcome is Failure,
    ensures
        pipeline.after(WatchEvent::BuildFinished(outcome)).state is Failed,
        pipeline.action(WatchEvent::BuildFinished(outcome)) == WatchActionView::Report(
            outcome->Failure_0@,
        ),
        ({
            let resumed = pipeline.after(WatchEvent::BuildFinished(outcome)).after(
                WatchEvent::Delivered,
            );
            resumed.state is Watching || resumed.state is Debouncing
        }),
{
}

/// Raw events that arrive while a cycle is under way do not disturb it,
/// and together they ask for one more cycle: the pipeline stays in its
/// state, and a burst is open when the cycle ends.
pub proof fn lemma_events_during_a_cycle_wait(pipeline: Pipeline, now: u64)
    requires
        pipeline.state.busy(),
    ensures
        pipeline.after(WatchEvent::Signal(Signal::Raw(now))).state == pipeline.state,
        pipeline.action(WatchEvent::Signal(Signal::Raw(now))) == WatchActionView::Continue,
        !pipeline.after(WatchEvent::Signal(Signal::Raw(now))).debouncer.idle(),
{
}

/// What arrived during a cycle starts the next one, and one only: once
/// the cycle has ended the pipeline waits for the open burst, the tick
/// that finds it at rest starts a cycle, and no burst is open then.
pub proof fn lemma_waiting_events_start_one_cycle(pipeline: Pipeline, due: u64)
    requires
        pipeline.state is Notifying || pipeline.state is Failed,
        pipeline.debouncer.due(due),
    ensures
        ({
            let resumed = pipeline.after(WatchEvent::Delivered);
            let tick = WatchEvent::Signal(Signal::Tick(due));
            &&& resumed.state is Debouncing
            &&& resumed.action(tick) == if pipeline.has_build_step {
                WatchActionView::RunBuild
            } else {
                WatchActionView::Notify
            }
            &&& resumed.after(tick).debouncer.idle()
        }),
{
}

/// Without a build step a change goes to the consumer as it is: the
/// pipeline never builds and never assembles.
pub proof fn lemma_no_build_step_only_notifies(pipeline: Pipeline, event: WatchEvent)
    requires
        !pipeline.has_build_step,
        !(pipeline.state is Building),
        !(pipeline.state is Assembling),
    ensures
        !(pipeline.after(event).state is Building),
        !(pipeline.after(event).state is Assembling),
        pipeline.action(event) != WatchActionView::RunBuild,
        pipeline.action(event) != WatchActionView::Assemble,
{
}

} // verus!
