//! The decisions of a resettable timer: a timer that fires each time its
//! period has elapsed, which can be reset, and whose period can be changed.
use vstd::prelude::*;

verus! {

/// A command to a resettable timer.
#[derive(Debug, PartialEq, Eq, Structural, Clone, Copy)]
pub enum TimerCommand {
    /// Start the period anew from now.
    Reset,
    /// Change the period, in milliseconds, and start it anew from now.
    ChangePeriod(u64),
}

/// What can happen to a waiting timer.
#[derive(Debug, PartialEq, Eq, Structural, Clone, Copy)]
pub enum TimerEvent {
    /// The period has elapsed since the timer last started it.
    Elapsed,
    /// A command arrived.
    Command(TimerCommand),
    /// No more commands can arrive.
    CommandsClosed,
}

/// What a timer waits for.
#[derive(Debug, PartialEq, Eq, Structural, Clone, Copy)]
pub struct TimerWait {
    /// How long to sleep before firing; `None` when the timer never fires.
    pub sleep_millis: Option<u64>,
    /// Whether to wait for commands.
    pub listen: bool,
}

/// The state of a resettable timer: its period in milliseconds, and whether
/// it still receives commands. A period of zero means the timer does not fire
/// until a command gives it a period.
#[derive(Debug, PartialEq, Eq, Structural, Clone, Copy)]
pub struct TimerState {
    pub period_millis: u64,
    pub listening: bool,
}

/// What a timer in a state waits for: it sleeps for its period, unless that
/// is zero, and it listens for commands while they can arrive.
pub open spec fn spec_wait(s: TimerState) -> TimerWait {
    TimerWait {
        sleep_millis: if s.period_millis > 0 { Some(s.period_millis) } else { None },
        listen: s.listening,
    }
}

/// The state after an event: a new period is taken on, a closed command
/// channel is no longer listened to; nothing else changes.
pub open spec fn spec_timer_next(s: TimerState, e: TimerEvent) -> TimerState {
    match e {
        TimerEvent::Command(TimerCommand::ChangePeriod(p)) => TimerState { period_millis: p, ..s },
        TimerEvent::CommandsClosed => TimerState { listening: false, ..s },
        _ => s,
    }
}

impl TimerState {
    /// A timer with the given period that listens for commands.
    pub fn create(period_millis: u64) -> (s: TimerState)
        ensures
            s == (TimerState { period_millis, listening: true }),
    {
        TimerState { period_millis, listening: true }
    }

    /// A timer that does not fire until a command gives it a period.
    pub fn default() -> (s: TimerState)
        ensures
            s == (TimerState { period_millis: 0, listening: true }),
    {
        TimerState::create(0)
    }

    /// What the timer waits for; after every event the sleep starts anew.
    pub fn wait(&self) -> (w: TimerWait)
        ensures
            w == spec_wait(*self),
    {
        TimerWait { sleep_millis: if self.period_millis > 0 { Some(self.period_millis) } else { None }, listen: self.listening }
    }

    /// Takes an event; returns whether the timer fires: exactly when its period elapsed.
    pub fn on_event(&mut self, event: TimerEvent) -> (fired: bool)
        ensures
            *final(self) == spec_timer_next(*old(self), event),
            fired == (event == TimerEvent::Elapsed),
    {
        match event {
            TimerEvent::Elapsed => true,
            TimerEvent::Command(TimerCommand::Reset) => false,
            TimerEvent::Command(TimerCommand::ChangePeriod(p)) => {
                self.period_millis = p;
                false
            },
            TimerEvent::CommandsClosed => {
                self.listening = false;
                false
            },
        }
    }
}

/// Changing the period of a timer that still listens makes it sleep for the
/// new period next, or, for a period of zero, stop firing; the timer keeps
/// listening.
pub proof fn law_change_period_takes_effect(s: TimerState, p: u64)
    requires
        s.listening,
    ensures
        spec_wait(spec_timer_next(s, TimerEvent::Command(TimerCommand::ChangePeriod(p)))) == (TimerWait {
            sleep_millis: if p > 0 { Some(p) } else { None },
            listen: true,
        }),
{
}

/// A reset does not fire the timer and keeps its period: the next firing is
/// one full period after the reset.
pub proof fn law_reset_keeps_period(s: TimerState)
    ensures
        spec_timer_next(s, TimerEvent::Command(TimerCommand::Reset)) == s,
        spec_wait(spec_timer_next(s, TimerEvent::Command(TimerCommand::Reset))) == spec_wait(s),
{
}

/// Once commands can no longer arrive, the timer keeps firing at its period
/// for ever (or never, for a period of zero).
pub proof fn law_closed_timer_keeps_period(s: TimerState, e: TimerEvent)
    requires
        !s.listening,
        !(e is Command),
    ensures
        spec_timer_next(s, e).period_millis == s.period_millis,
        !spec_timer_next(s, e).listening,
{
}

/// The state of a timer, and the time at which its current sleep started,
/// after a sequence of events, each with the time at which it happened. The
/// timer starts at `start`; every event starts the sleep anew.
pub open spec fn timer_after(s: TimerState, start: int, events: Seq<(int, TimerEvent)>) -> (TimerState, int)
    decreases events.len(),
{
    if events.len() == 0 {
        (s, start)
    } else {
        (spec_timer_next(timer_after(s, start, events.drop_last()).0, events.last().1), events.last().0)
    }
}

/// When a timer whose sleep started at `since` fires, if ever: one period later.
pub open spec fn next_firing(s: TimerState, since: int) -> Option<int> {
    match spec_wait(s).sleep_millis {
        Some(p) => Some(since + p),
        None => None,
    }
}

/// Whether a sequence of timed events can happen to a timer started at
/// `start`: they come in order of time; the timer fires exactly when its
/// sleep ends; commands, and the end of commands, come only while it
/// listens and no later than it would fire.
pub open spec fn can_happen(s: TimerState, start: int, events: Seq<(int, TimerEvent)>) -> bool
    decreases events.len(),
{
    if events.len() == 0 {
        true
    } else {
        let prior = timer_after(s, start, events.drop_last());
        let t = events.last().0;
        &&& can_happen(s, start, events.drop_last())
        &&& prior.1 <= t
        &&& if events.last().1 == TimerEvent::Elapsed {
            next_firing(prior.0, prior.1) == Some(t)
        } else {
            prior.0.listening && (next_firing(prior.0, prior.1) matches Some(f) ==> t <= f)
        }
    }
}

/// Whether every event of a sequence is the timer firing.
pub open spec fn only_firings(events: Seq<(int, TimerEvent)>) -> bool {
    forall|i: int| 0 <= i < events.len() ==> #[trigger] events[i].1 == TimerEvent::Elapsed
}

/// Events that follow others: the timer goes on from where the first ones
/// left it.
proof fn lemma_timer_after_concat(s: TimerState, start: int, a: Seq<(int, TimerEvent)>, b: Seq<(int, TimerEvent)>)
    ensures
        timer_after(s, start, a + b) == timer_after(timer_after(s, start, a).0, timer_after(s, start, a).1, b),
        can_happen(s, start, a + b) == (can_happen(s, start, a) && can_happen(
            timer_after(s, start, a).0,
            timer_after(s, start, a).1,
            b,
        )),
    decreases b.len(),
{
    if b.len() == 0 {
        assert(a + b =~= a);
    } else {
        lemma_timer_after_concat(s, start, a, b.drop_last());
        assert((a + b).drop_last() =~= a + b.drop_last());
    }
}

/// Left alone, a timer with a period fires every period from its start, for
/// ever, and nothing changes it: the `i`-th firing comes `i + 1` periods after
/// the start.
pub proof fn law_fires_every_period(s: TimerState, start: int, events: Seq<(int, TimerEvent)>)
    requires
        s.period_millis > 0,
        only_firings(events),
        can_happen(s, start, events),
    ensures
        forall|i: int| 0 <= i < events.len() ==> #[trigger] events[i].0 == start + (i + 1) * s.period_millis,
        timer_after(s, start, events) == (s, start + events.len() * s.period_millis),
    decreases events.len(),
{
    if events.len() > 0 {
        let init = events.drop_last();
        assert(only_firings(init)) by {
            assert forall|i: int| 0 <= i < init.len() implies #[trigger] init[i].1 == TimerEvent::Elapsed by {
                assert(init[i] == events[i]);
            }
        }
        law_fires_every_period(s, start, init);
        assert(events.last().1 == TimerEvent::Elapsed) by {
            assert(events[events.len() - 1].1 == TimerEvent::Elapsed);
        }
        assert(start + (init.len() as int) * s.period_millis + s.period_millis == start + (events.len() as int)
            * s.period_millis) by (nonlinear_arith)
            requires
                events.len() == init.len() + 1,
        ;
        assert forall|i: int| 0 <= i < events.len() implies #[trigger] events[i].0 == start + (i + 1)
            * s.period_millis by {
            if i < init.len() {
                assert(events[i] == init[i]);
            }
        }
    }
}

/// A reset starts the period anew: after a reset at `at`, a timer with a
/// period fires one period later, then every period.
pub proof fn law_reset_restarts_period(
    s: TimerState,
    start: int,
    before: Seq<(int, TimerEvent)>,
    at: int,
    after: Seq<(int, TimerEvent)>,
)
    requires
        timer_after(s, start, before).0.period_millis > 0,
        only_firings(after),
        can_happen(s, start, before.push((at, TimerEvent::Command(TimerCommand::Reset))) + after),
    ensures
        forall|i: int| 0 <= i < after.len() ==> #[trigger] after[i].0 == at + (i + 1) * timer_after(
            s,
            start,
            before,
        ).0.period_millis,
{
    let head = before.push((at, TimerEvent::Command(TimerCommand::Reset)));
    lemma_timer_after_concat(s, start, head, after);
    assert(head.drop_last() =~= before);
    law_fires_every_period(timer_after(s, start, head).0, timer_after(s, start, head).1, after);
}

/// A new period takes effect at once: after the period is changed to `q` at
/// `at`, the timer fires `q` later, then every `q`; a period of zero stops it.
pub proof fn law_change_period_restarts(
    s: TimerState,
    start: int,
    before: Seq<(int, TimerEvent)>,
    at: int,
    q: u64,
    after: Seq<(int, TimerEvent)>,
)
    requires
        only_firings(after),
        can_happen(s, start, before.push((at, TimerEvent::Command(TimerCommand::ChangePeriod(q)))) + after),
    ensures
        q > 0 ==> forall|i: int| 0 <= i < after.len() ==> #[trigger] after[i].0 == at + (i + 1) * q,
        q == 0 ==> after.len() == 0,
{
    let head = before.push((at, TimerEvent::Command(TimerCommand::ChangePeriod(q))));
    lemma_timer_after_concat(s, start, head, after);
    assert(head.drop_last() =~= before);
    if q > 0 {
        law_fires_every_period(timer_after(s, start, head).0, timer_after(s, start, head).1, after);
    } else if after.len() > 0 {
        let st = timer_after(s, start, head);
        let first = after.take(1);
        assert(after =~= first + after.skip(1));
        lemma_timer_after_concat(st.0, st.1, first, after.skip(1));
        assert(first[0] == after[0]);
        assert(first[0].1 == TimerEvent::Elapsed);
        assert(first.drop_last() =~= Seq::<(int, TimerEvent)>::empty());
        assert(!can_happen(st.0, st.1, first));
    }
}

/// Whether no event of a sequence gives the timer a period.
pub open spec fn gives_no_period(events: Seq<(int, TimerEvent)>) -> bool {
    forall|i: int| 0 <= i < events.len() ==> !(#[trigger] events[i].1 matches TimerEvent::Command(
        TimerCommand::ChangePeriod(q),
    ) && q > 0)
}

/// A timer without a period (as the default one) never fires until a
/// command gives it one.
pub proof fn law_never_fires_without_period(s: TimerState, start: int, events: Seq<(int, TimerEvent)>)
    requires
        s.period_millis == 0,
        gives_no_period(events),
        can_happen(s, start, events),
    ensures
        forall|i: int| 0 <= i < events.len() ==> #[trigger] events[i].1 != TimerEvent::Elapsed,
        timer_after(s, start, events).0.period_millis == 0,
    decreases events.len(),
{
    if events.len() > 0 {
        let init = events.drop_last();
        assert(gives_no_period(init)) by {
            assert forall|i: int| 0 <= i < init.len() implies !(#[trigger] init[i].1 matches TimerEvent::Command(
                TimerCommand::ChangePeriod(q),
            ) && q > 0) by {
                assert(init[i] == events[i]);
            }
        }
        law_never_fires_without_period(s, start, init);
        assert(events[events.len() - 1] == events.last());
        assert forall|i: int| 0 <= i < events.len() implies #[trigger] events[i].1 != TimerEvent::Elapsed by {
            if i < init.len() {
                assert(events[i] == init[i]);
            }
        }
    }
}

} // verus!
