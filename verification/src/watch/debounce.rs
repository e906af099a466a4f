//! Coalescing bursts of raw filesystem events into one change each.
//!
//! The debouncer keeps one timer of fixed length, the cooldown. Every raw
//! event starts it anew. When it runs out with no event since it was
//! started, one [`ChangeEvent`] is emitted and the debouncer is idle again.
//! Only time counts, never the number of events.
//!
//! The debouncer does not read a clock: the caller says what time it is, in
//! milliseconds, with each signal. An event that arrives once the cooldown
//! has run out belongs to a new burst, also where no tick was seen in
//! between; the burst before it is emitted then.

use vstd::prelude::*;

verus! {

/// The cooldown that is used where none is asked for, in milliseconds.
pub const COOLDOWN_PERIOD_MS: u64 = 2000;

/// Something under the watched root changed.
#[derive(Clone, Copy, Debug, PartialEq, Eq, Structural)]
pub struct ChangeEvent {
    /// When the last raw event of the burst arrived.
    pub last_raw_ms: u64,
}

/// What the caller tells the debouncer, with the time at which it happened.
#[derive(Clone, Copy, Debug, PartialEq, Eq, Structural)]
pub enum Signal {
    /// A raw filesystem event arrived.
    Raw(u64),
    /// Time has passed.
    Tick(u64),
}

impl Signal {
    pub open spec fn at(self) -> u64 {
        match self {
            Signal::Raw(t) => t,
            Signal::Tick(t) => t,
        }
    }
}

/// The debouncer: its cooldown, and the time of the last raw event of the
/// burst that is open, if one is.
#[derive(Clone, Copy, Debug, PartialEq, Eq, Structural)]
pub struct Debouncer {
    pub cooldown_ms: u64,
    pub pending_since_ms: Option<u64>,
}

impl Debouncer {
    /// Whether no burst is open.
    pub open spec fn idle(self) -> bool {
        self.pending_since_ms is None
    }

    /// Whether the timer has run out at `now`: a burst is open, and its last
    /// event is at least a cooldown back.
    pub open spec fn due(self, now: u64) -> bool {
        self.pending_since_ms matches Some(last) && now - last >= self.cooldown_ms
    }

    /// What is emitted at `now`, by a tick or by an event alike: the open
    /// burst, where the timer has run out.
    pub open spec fn emitted(self, now: u64) -> Option<ChangeEvent> {
        if self.due(now) {
            Some(ChangeEvent { last_raw_ms: self.pending_since_ms.unwrap() })
        } else {
            None
        }
    }

    /// The debouncer after `signal`. A raw event opens a burst or goes on
    /// with the open one, and starts the timer anew. A tick closes the burst
    /// where the timer has run out, and changes nothing otherwise.
    pub open spec fn after(self, signal: Signal) -> Debouncer {
        match signal {
            Signal::Raw(now) => Debouncer { pending_since_ms: Some(now), ..self },
            Signal::Tick(now) => if self.due(now) {
                Debouncer { pending_since_ms: None, ..self }
            } else {
                self
            },
        }
    }

    /// How long the caller may wait for a raw event before it has to send
    /// a tick: `None` without a limit, as no burst is open.
    pub open spec fn wait(self, now: u64) -> Option<u64> {
        match self.pending_since_ms {
            None => None,
            Some(last) => if self.due(now) {
                Some(0)
            } else if now < last {
                Some(self.cooldown_ms)
            } else {
                Some((self.cooldown_ms - (now - last)) as u64)
            },
        }
    }

    /// An idle debouncer with this cooldown.
    pub fn new(cooldown_ms: u64) -> (d: Debouncer)
        ensures
            d.cooldown_ms == cooldown_ms,
            d.idle(),
    {
        Debouncer { cooldown_ms, pending_since_ms: None }
    }

    fn is_due(&self, now: u64) -> (due: bool)
        ensures
            due == self.due(now),
    {
        match self.pending_since_ms {
            Some(last) => now >= last && now - last >= self.cooldown_ms,
            None => false,
        }
    }

    /// Takes one signal, and hands out the change that it sets free, if it
    /// does.
    pub fn step(&mut self, signal: Signal) -> (event: Option<ChangeEvent>)
        ensures
            event == old(self).emitted(signal.at()),
            *final(self) == old(self).after(signal),
    {
        match signal {
            Signal::Raw(now) => self.record_event(now),
            Signal::Tick(now) => self.poll(now),
        }
    }

    /// A raw event arrived at `now`: the timer starts anew. Where it had
    /// run out before, the burst that it closed is emitted.
    pub fn record_event(&mut self, now: u64) -> (event: Option<ChangeEvent>)
        ensures
            event == old(self).emitted(now),
            *final(self) == old(self).after(Signal::Raw(now)),
    {
        let event = if self.is_due(now) {
            Some(ChangeEvent { last_raw_ms: self.pending_since_ms.unwrap() })
        } else {
            None
        };
        self.pending_since_ms = Some(now);
        event
    }

    /// Time has passed. Where the timer has run out, the open burst is
    /// emitted and the debouncer is idle.
    pub fn poll(&mut self, now: u64) -> (event: Option<ChangeEvent>)
        ensures
            event == old(self).emitted(now),
            *final(self) == old(self).after(Signal::Tick(now)),
    {
        if self.is_due(now) {
            let event = ChangeEvent { last_raw_ms: self.pending_since_ms.unwrap() };
            self.pending_since_ms = None;
            Some(event)
        } else {
            None
        }
    }

    /// How long the caller may wait for a raw event before it has to send
    /// a tick.
    pub fn time_to_wait(&self, now: u64) -> (wait: Option<u64>)
        ensures
            wait == self.wait(now),
            wait matches Some(ms) ==> ms <= self.cooldown_ms,
    {
        match self.pending_since_ms {
            None => None,
            Some(last) => {
                if now < last {
                    Some(self.cooldown_ms)
                } else if now - last >= self.cooldown_ms {
                    Some(0)
                } else {
                    Some(self.cooldown_ms - (now - last))
                }
            },
        }
    }
}

/// The wait that is asked for ends when the timer runs out, and not
/// before: of the ticks that come after `now`, those that come once the
/// wait is over close the burst, and no other does.
pub proof fn lemma_wait_ends_at_the_deadline(debouncer: Debouncer, now: u64, later: u64)
    requires
        debouncer.pending_since_ms matches Some(last) && last <= now,
        now <= later,
    ensures
        debouncer.wait(now) matches Some(ms) && (debouncer.due(later) <==> later - now >= ms),
{
}

/// The debouncer after a run of signals.
pub open spec fn state_after(start: Debouncer, signals: Seq<Signal>) -> Debouncer
    decreases signals.len(),
{
    if signals.len() == 0 {
        start
    } else {
        state_after(start, signals.drop_last()).after(signals.last())
    }
}

/// The changes that a run of signals emits, in order.
pub open spec fn emissions(start: Debouncer, signals: Seq<Signal>) -> Seq<ChangeEvent>
    decreases signals.len(),
{
    if signals.len() == 0 {
        Seq::empty()
    } else {
        let before = emissions(start, signals.drop_last());
        match state_after(start, signals.drop_last()).emitted(signals.last().at()) {
            Some(event) => before.push(event),
            None => before,
        }
    }
}

/// The times of the raw events of a run, in order.
pub open spec fn raw_times(signals: Seq<Signal>) -> Seq<u64>
    decreases signals.len(),
{
    if signals.len() == 0 {
        Seq::empty()
    } else {
        match signals.last() {
            Signal::Raw(t) => raw_times(signals.drop_last()).push(t),
            Signal::Tick(_) => raw_times(signals.drop_last()),
        }
    }
}

/// Time does not run backwards in a run of signals.
pub open spec fn in_time_order(signals: Seq<Signal>) -> bool {
    forall|i: int, j: int| 0 <= i <= j < signals.len() ==> signals[i].at() <= signals[j].at()
}

/// The number of bursts among raw events at these times: a burst ends
/// where the next event is at least a cooldown away, and at the last event.
pub open spec fn bursts(times: Seq<u64>, cooldown: u64) -> nat
    decreases times.len(),
{
    if times.len() == 0 {
        0
    } else if times.len() == 1 {
        1
    } else {
        let before = bursts(times.drop_last(), cooldown);
        if times.last() - times[times.len() - 2] >= cooldown {
            before + 1
        } else {
            before
        }
    }
}

/// Each event comes less than a cooldown after the one before it.
pub open spec fn close_together(times: Seq<u64>, cooldown: u64) -> bool {
    forall|i: int, j: int|
        0 <= i && j == i + 1 && j < times.len() ==> #[trigger] times[j] - #[trigger] times[i]
            < cooldown
}

/// The run has come to rest: at its end, the cooldown after its last raw
/// event has run out.
pub open spec fn settled(signals: Seq<Signal>, cooldown: u64) -> bool {
    raw_times(signals).len() > 0 ==> signals.len() > 0 && signals.last().at() - raw_times(
        signals,
    ).last() >= cooldown
}

proof fn lemma_raw_times_bounded(signals: Seq<Signal>)
    requires
        in_time_order(signals),
    ensures
        raw_times(signals).len() > 0 ==> signals.len() > 0 && raw_times(signals).last()
            <= signals.last().at(),
    decreases signals.len(),
{
    if signals.len() > 0 {
        lemma_raw_times_bounded(signals.drop_last());
    }
}

/// What holds after every run from an idle debouncer in which time does
/// not run backwards: an open burst is the one of the last raw event and
/// is not counted yet; without an open burst every burst has been emitted,
/// and the cooldown of the last one has run out.
pub proof fn lemma_run(cooldown: u64, signals: Seq<Signal>)
    requires
        in_time_order(signals),
    ensures
        ({
            let start = Debouncer { cooldown_ms: cooldown, pending_since_ms: None };
            let state = state_after(start, signals);
            let emitted = emissions(start, signals);
            let raws = raw_times(signals);
            &&& state.cooldown_ms == cooldown
            &&& state.pending_since_ms matches Some(last) ==> raws.len() > 0 && last == raws.last()
                && emitted.len() + 1 == bursts(raws, cooldown)
            &&& state.pending_since_ms is None ==> emitted.len() == bursts(raws, cooldown) && (
            raws.len() > 0 ==> signals.len() > 0 && signals.last().at() - raws.last() >= cooldown
                && emitted.len() > 0 && emitted.last().last_raw_ms == raws.last())
        }),
    decreases signals.len(),
{
    if signals.len() > 0 {
        let front = signals.drop_last();
        lemma_run(cooldown, front);
        lemma_raw_times_bounded(front);
        if let Signal::Raw(t) = signals.last() {
            // The raw events before this one are those of the run before it.
            assert(raw_times(front).push(t).drop_last() =~= raw_times(front));
        }
    }
}

/// A run from an idle debouncer that has come to rest has emitted one
/// change for each burst of raw events, the last of them for the burst of
/// the last raw event, and has left the debouncer idle.
pub proof fn lemma_one_change_per_burst(cooldown: u64, signals: Seq<Signal>)
    requires
        in_time_order(signals),
        settled(signals, cooldown),
        signals.len() > 0 ==> signals.last() is Tick,
    ensures
        emissions(Debouncer { cooldown_ms: cooldown, pending_since_ms: None }, signals).len()
            == bursts(raw_times(signals), cooldown),
        state_after(Debouncer { cooldown_ms: cooldown, pending_since_ms: None }, signals).idle(),
        raw_times(signals).len() > 0 ==> emissions(
            Debouncer { cooldown_ms: cooldown, pending_since_ms: None },
            signals,
        ).last().last_raw_ms == raw_times(signals).last(),
{
    lemma_run(cooldown, signals);
    if signals.len() > 0 {
        lemma_run(cooldown, signals.drop_last());
    }
}

/// Raw events of which each comes less than a cooldown after the one
/// before are one burst.
pub proof fn lemma_close_events_are_one_burst(times: Seq<u64>, cooldown: u64)
    requires
        times.len() > 0,
        close_together(times, cooldown),
    ensures
        bursts(times, cooldown) == 1,
    decreases times.len(),
{
    if times.len() > 1 {
        lemma_close_events_are_one_burst(times.drop_last(), cooldown);
    }
}

/// The bursts of a run of events behind another, where the first event of
/// the second run comes at least a cooldown after the last of the first:
/// those of both runs together.
pub proof fn lemma_bursts_add_up(first: Seq<u64>, second: Seq<u64>, cooldown: u64)
    requires
        first.len() > 0,
        second.len() > 0,
        second[0] - first.last() >= cooldown,
    ensures
        bursts(first + second, cooldown) == bursts(first, cooldown) + bursts(second, cooldown),
    decreases second.len(),
{
    let all = first + second;
    if second.len() == 1 {
        assert(all.drop_last() =~= first);
    } else {
        let front = second.drop_last();
        assert(all.drop_last() =~= first + front);
        lemma_bursts_add_up(first, front, cooldown);
    }
}

/// Any number of raw events within one cooldown window gives exactly one
/// change: where time does not run backwards, the raw events of a run lie
/// less than a cooldown apart from first to last, and the run has come to
/// rest, the run has emitted one change, which is that of the last raw
/// event, and the debouncer is idle.
pub proof fn lemma_window_emits_once(cooldown: u64, signals: Seq<Signal>)
    requires
        in_time_order(signals),
        raw_times(signals).len() > 0,
        raw_times(signals).last() - raw_times(signals)[0] < cooldown,
        settled(signals, cooldown),
        signals.last() is Tick,
    ensures
        emissions(Debouncer { cooldown_ms: cooldown, pending_since_ms: None }, signals) == seq![
            ChangeEvent { last_raw_ms: raw_times(signals).last() },
        ],
        state_after(Debouncer { cooldown_ms: cooldown, pending_since_ms: None }, signals).idle(),
{
    lemma_raw_times_ordered(signals);
    lemma_close_events_are_one_burst(raw_times(signals), cooldown);
    lemma_one_change_per_burst(cooldown, signals);
}

/// Two bursts that lie more than a cooldown apart give exactly two
/// changes: where time does not run backwards, the raw events of a run are
/// those of one burst and then those of another, the second burst starts
/// more than a cooldown after the first ends, and the run has come to rest,
/// the run has emitted two changes.
pub proof fn lemma_two_bursts_emit_twice(
    cooldown: u64,
    signals: Seq<Signal>,
    first: Seq<u64>,
    second: Seq<u64>,
)
    requires
        in_time_order(signals),
        raw_times(signals) == first + second,
        first.len() > 0,
        second.len() > 0,
        close_together(first, cooldown),
        close_together(second, cooldown),
        second[0] - first.last() > cooldown,
        settled(signals, cooldown),
        signals.last() is Tick,
    ensures
        emissions(Debouncer { cooldown_ms: cooldown, pending_since_ms: None }, signals).len() == 2,
{
    lemma_close_events_are_one_burst(first, cooldown);
    lemma_close_events_are_one_burst(second, cooldown);
    lemma_bursts_add_up(first, second, cooldown);
    lemma_one_change_per_burst(cooldown, signals);
}

/// The raw events of a run in which time does not run backwards come in
/// the order of their times.
pub proof fn lemma_raw_times_ordered(signals: Seq<Signal>)
    requires
        in_time_order(signals),
    ensures
        forall|i: int, j: int|
            0 <= i <= j < raw_times(signals).len() ==> raw_times(signals)[i] <= raw_times(
                signals,
            )[j],
    decreases signals.len(),
{
    if signals.len() > 0 {
        lemma_raw_times_ordered(signals.drop_last());
        lemma_raw_times_bounded(signals.drop_last());
    }
}

} // verus!
