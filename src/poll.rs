//! The polling loop's decisions: wait out the interval while watching for a
//! new one, then fetch and publish current weather and the forecast, whatever
//! becomes of each fetch and publish, and start over from a fresh snapshot.
use vstd::prelude::*;
use crate::config::ConfigReader;
use crate::config::Configuration;
use crate::config::Coordinate;

verus! {

/// The topic that receives the current weather.
pub const CURRENT_TOPIC: &'static str = "weather/current";

/// The topic that receives the five-day forecast.
pub const ESTIMATION_TOPIC: &'static str = "weather/estimation";

/// A wait toward the interval of `current`, counted in whole seconds.
#[derive(Clone, Copy, Debug, PartialEq, Eq, Structural)]
pub struct WaitState {
    pub current: Configuration,
    pub elapsed: u64,
}

impl WaitState {
    pub open spec fn wf(&self) -> bool {
        self.elapsed <= self.current.interval_seconds
    }

    pub open spec fn done(&self) -> bool {
        self.elapsed >= self.current.interval_seconds
    }

    /// A wait that begins at `snapshot`.
    pub fn start(snapshot: Configuration) -> (r: WaitState)
        ensures
            r.current == snapshot,
            r.elapsed == 0,
            r.wf(),
    {
        WaitState { current: snapshot, elapsed: 0 }
    }

    /// Whether the interval has been waited out.
    pub fn is_done(&self) -> (r: bool)
        ensures
            r == self.done(),
    {
        self.elapsed >= self.current.interval_seconds
    }

    /// One second has passed and `latest` is the configuration now held. A new
    /// interval restarts the wait under `latest`; otherwise the second counts,
    /// and a change of coordinate alone waits for the next snapshot.
    pub fn tick(&mut self, latest: Configuration) -> (restarted: bool)
        requires
            old(self).wf(),
            !old(self).done(),
        ensures
            *final(self) == tick_spec(*old(self), latest),
            restarted == (latest.interval_seconds != old(self).current.interval_seconds),
            final(self).wf(),
    {
        if latest.interval_seconds != self.current.interval_seconds {
            self.current = latest;
            self.elapsed = 0;
            true
        } else {
            self.elapsed = self.elapsed + 1;
            false
        }
    }
}

/// The wait after one tick that observed `latest`.
pub open spec fn tick_spec(s: WaitState, latest: Configuration) -> WaitState {
    if latest.interval_seconds != s.current.interval_seconds {
        WaitState { current: latest, elapsed: 0 }
    } else {
        WaitState { current: s.current, elapsed: (s.elapsed + 1) as u64 }
    }
}

/// The wait after ticks that observed `obs` in turn, and how many of them
/// restarted it.
pub open spec fn run_ticks(s: WaitState, obs: Seq<Configuration>) -> (WaitState, nat)
    decreases obs.len(),
{
    if obs.len() == 0 {
        (s, 0)
    } else {
        let (t, n) = run_ticks(s, obs.drop_last());
        let restart: nat = if obs.last().interval_seconds != t.current.interval_seconds {
            1
        } else {
            0
        };
        (tick_spec(t, obs.last()), n + restart)
    }
}

/// How many observations carry an interval other than the one observed just
/// before them (`start` before the first).
pub open spec fn interval_changes(start: u64, obs: Seq<Configuration>) -> nat
    decreases obs.len(),
{
    if obs.len() == 0 {
        0
    } else {
        let before = if obs.len() == 1 {
            start
        } else {
            obs[obs.len() - 2].interval_seconds
        };
        let change: nat = if obs.last().interval_seconds != before {
            1
        } else {
            0
        };
        interval_changes(start, obs.drop_last()) + change
    }
}

/// After ticks that observed `obs`, the wait runs under the interval observed
/// last, and it restarted exactly once for each observation whose interval
/// differs from the one before it: a changed interval that stays in place over
/// later ticks restarts the wait once, not at every tick.
pub proof fn lemma_restart_once_per_change(s: WaitState, obs: Seq<Configuration>)
    ensures
        run_ticks(s, obs).0.current.interval_seconds == (if obs.len() == 0 {
            s.current.interval_seconds
        } else {
            obs.last().interval_seconds
        }),
        run_ticks(s, obs).1 == interval_changes(s.current.interval_seconds, obs),
    decreases obs.len(),
{
    if obs.len() > 0 {
        lemma_restart_once_per_change(s, obs.drop_last());
        let p = obs.drop_last();
        if obs.len() > 1 {
            assert(p.last() == obs[obs.len() - 2]);
        }
    }
}

/// Where the loop stands.
#[derive(Clone, Copy, Debug, PartialEq, Eq, Structural)]
pub enum Phase {
    /// About to take a snapshot of the configuration.
    Snapshot,
    /// Waiting out the interval.
    Waiting(WaitState),
    /// Fetching the current weather for the snapshot.
    FetchingCurrent(Configuration),
    /// Publishing the current weather just fetched.
    PublishingCurrent(Configuration),
    /// Fetching the forecast for the snapshot.
    FetchingForecast(Configuration),
    /// Publishing the forecast just fetched.
    PublishingForecast,
}

/// What the loop learns from the work it asked for.
#[derive(Clone, Copy, Debug, PartialEq, Eq, Structural)]
pub enum PollEvent {
    /// The configuration held by the cell when it was read.
    Config(Configuration),
    /// A fetch ended, successfully or not.
    Fetched(bool),
    /// A publish ended, successfully or not.
    Published(bool),
}

/// Where a payload is published.
#[derive(Clone, Copy, Debug, PartialEq, Eq, Structural)]
pub enum Topic {
    Current,
    Estimation,
}

impl Topic {
    /// The topic's name on the broker.
    pub fn name(&self) -> (r: &'static str)
        ensures
            r@ == topic_name(*self),
    {
        match self {
            Topic::Current => CURRENT_TOPIC,
            Topic::Estimation => ESTIMATION_TOPIC,
        }
    }
}

pub open spec fn topic_name(t: Topic) -> Seq<char> {
    match t {
        Topic::Current => CURRENT_TOPIC@,
        Topic::Estimation => ESTIMATION_TOPIC@,
    }
}

/// The work the loop asks for next.
#[derive(Clone, Copy, Debug, PartialEq, Eq, Structural)]
pub enum PollAction {
    /// Read the configuration cell now.
    ReadConfig,
    /// Sleep one second, then read the configuration cell.
    Sleep,
    /// Fetch the current weather at the coordinate.
    FetchCurrent(Coordinate),
    /// Fetch the five-day forecast at the coordinate.
    FetchForecast(Coordinate),
    /// Publish what was just fetched, retained, at least once, on the topic.
    Publish(Topic),
}

/// The phase that follows a snapshot, or a tick, that leaves the wait at `w`.
pub open spec fn after_wait(w: WaitState) -> Phase {
    if w.done() {
        Phase::FetchingCurrent(w.current)
    } else {
        Phase::Waiting(w)
    }
}

/// The phase after an event; an event that the phase does not expect changes
/// nothing.
pub open spec fn next_phase(p: Phase, ev: PollEvent) -> Phase {
    match (p, ev) {
        (Phase::Snapshot, PollEvent::Config(c)) => after_wait(WaitState { current: c, elapsed: 0 }),
        (Phase::Waiting(w), PollEvent::Config(c)) => after_wait(tick_spec(w, c)),
        (Phase::FetchingCurrent(c), PollEvent::Fetched(ok)) => if ok {
            Phase::PublishingCurrent(c)
        } else {
            Phase::FetchingForecast(c)
        },
        (Phase::PublishingCurrent(c), PollEvent::Published(_)) => Phase::FetchingForecast(c),
        (Phase::FetchingForecast(_), PollEvent::Fetched(ok)) => if ok {
            Phase::PublishingForecast
        } else {
            Phase::Snapshot
        },
        (Phase::PublishingForecast, PollEvent::Published(_)) => Phase::Snapshot,
        _ => p,
    }
}

/// The work that a phase asks for.
pub open spec fn action_of(p: Phase) -> PollAction {
    match p {
        Phase::Snapshot => PollAction::ReadConfig,
        Phase::Waiting(_) => PollAction::Sleep,
        Phase::FetchingCurrent(c) => PollAction::FetchCurrent(c.coordinate),
        Phase::PublishingCurrent(_) => PollAction::Publish(Topic::Current),
        Phase::FetchingForecast(c) => PollAction::FetchForecast(c.coordinate),
        Phase::PublishingForecast => PollAction::Publish(Topic::Estimation),
    }
}

/// The phase after events `evs` in turn.
pub open spec fn run_events(p: Phase, evs: Seq<PollEvent>) -> Phase
    decreases evs.len(),
{
    if evs.len() == 0 {
        p
    } else {
        run_events(next_phase(p, evs[0]), evs.drop_first())
    }
}

/// The scheduler of fetch-and-publish cycles.
#[derive(Clone, Copy, Debug, PartialEq, Eq, Structural)]
pub struct PollLoop {
    pub phase: Phase,
}

impl PollLoop {
    /// A wait in progress is never already over.
    pub open spec fn wf(&self) -> bool {
        match self.phase {
            Phase::Waiting(w) => w.wf() && !w.done(),
            _ => true,
        }
    }

    /// A loop about to take its first snapshot.
    pub fn new() -> (r: PollLoop)
        ensures
            r.phase == Phase::Snapshot,
            r.wf(),
    {
        PollLoop { phase: Phase::Snapshot }
    }

    /// The work the loop asks for now.
    pub fn next_action(&self) -> (r: PollAction)
        ensures
            r == action_of(self.phase),
    {
        match self.phase {
            Phase::Snapshot => PollAction::ReadConfig,
            Phase::Waiting(_) => PollAction::Sleep,
            Phase::FetchingCurrent(c) => PollAction::FetchCurrent(c.coordinate),
            Phase::PublishingCurrent(_) => PollAction::Publish(Topic::Current),
            Phase::FetchingForecast(c) => PollAction::FetchForecast(c.coordinate),
            Phase::PublishingForecast => PollAction::Publish(Topic::Estimation),
        }
    }

    fn enter_wait(w: WaitState) -> (r: Phase)
        requires
            w.wf(),
        ensures
            r == after_wait(w),
    {
        if w.is_done() {
            Phase::FetchingCurrent(w.current)
        } else {
            Phase::Waiting(w)
        }
    }

    /// Takes in the outcome of the work asked for, and asks for the next.
    pub fn step(&mut self, ev: PollEvent) -> (r: PollAction)
        requires
            old(self).wf(),
        ensures
            final(self).phase == next_phase(old(self).phase, ev),
            final(self).wf(),
            r == action_of(final(self).phase),
    {
        let next = match (self.phase, ev) {
            (Phase::Snapshot, PollEvent::Config(c)) => Self::enter_wait(WaitState::start(c)),
            (Phase::Waiting(w), PollEvent::Config(c)) => {
                let mut w2 = w;
                w2.tick(c);
                Self::enter_wait(w2)
            },
            (Phase::FetchingCurrent(c), PollEvent::Fetched(ok)) => if ok {
                Phase::PublishingCurrent(c)
            } else {
                Phase::FetchingForecast(c)
            },
            (Phase::PublishingCurrent(c), PollEvent::Published(_)) => Phase::FetchingForecast(c),
            (Phase::FetchingForecast(_), PollEvent::Fetched(ok)) => if ok {
                Phase::PublishingForecast
            } else {
                Phase::Snapshot
            },
            (Phase::PublishingForecast, PollEvent::Published(_)) => Phase::Snapshot,
            _ => self.phase,
        };
        self.phase = next;
        self.next_action()
    }

    /// Reads the configuration cell and takes in what it held, for a snapshot
    /// or for the tick after a second's sleep.
    pub fn observe(&mut self, reader: &ConfigReader) -> (r: PollAction)
        requires
            old(self).wf(),
        ensures
            exists|c: Configuration| final(self).phase == next_phase(old(self).phase, PollEvent::Config(c)),
            final(self).wf(),
            r == action_of(final(self).phase),
    {
        let c = reader.latest();
        self.step(PollEvent::Config(c))
    }
}

/// The events of one fetch-and-publish cycle: each fetch is followed by a
/// publish only where it succeeded.
pub open spec fn cycle_events(
    current_fetched: bool,
    current_published: bool,
    forecast_fetched: bool,
    forecast_published: bool,
) -> Seq<PollEvent> {
    let first = if current_fetched {
        seq![PollEvent::Fetched(true), PollEvent::Published(current_published)]
    } else {
        seq![PollEvent::Fetched(false)]
    };
    let second = if forecast_fetched {
        seq![PollEvent::Fetched(true), PollEvent::Published(forecast_published)]
    } else {
        seq![PollEvent::Fetched(false)]
    };
    first + second
}

/// Whatever becomes of the two fetches and the two publishes of a cycle, the
/// forecast is still fetched for the snapshot's coordinate, and the loop then
/// returns to take a new snapshot and wait for the next cycle.
pub proof fn lemma_cycle_always_continues(
    snapshot: Configuration,
    current_fetched: bool,
    current_published: bool,
    forecast_fetched: bool,
    forecast_published: bool,
)
    ensures
        ({
            let first: nat = if current_fetched { 2 } else { 1 };
            let evs = cycle_events(current_fetched, current_published, forecast_fetched, forecast_published);
            &&& action_of(run_events(Phase::FetchingCurrent(snapshot), evs.take(first as int)))
                == PollAction::FetchForecast(snapshot.coordinate)
            &&& run_events(Phase::FetchingCurrent(snapshot), evs) == Phase::Snapshot
            &&& action_of(run_events(Phase::FetchingCurrent(snapshot), evs)) == PollAction::ReadConfig
        }),
{
    let first = if current_fetched {
        seq![PollEvent::Fetched(true), PollEvent::Published(current_published)]
    } else {
        seq![PollEvent::Fetched(false)]
    };
    let second = if forecast_fetched {
        seq![PollEvent::Fetched(true), PollEvent::Published(forecast_published)]
    } else {
        seq![PollEvent::Fetched(false)]
    };
    let evs = cycle_events(current_fetched, current_published, forecast_fetched, forecast_published);
    let p0 = Phase::FetchingCurrent(snapshot);
    let n: int = if current_fetched { 2 } else { 1 };
    assert(evs =~= first + second);
    assert(evs.take(n) =~= first);
    lemma_run_concat(p0, first, second);
    reveal_with_fuel(run_events, 3);
    let mid = run_events(p0, first);
    if current_fetched {
        assert(first.drop_first() =~= seq![PollEvent::Published(current_published)]);
        assert(first.drop_first().drop_first() =~= Seq::<PollEvent>::empty());
    } else {
        assert(first.drop_first() =~= Seq::<PollEvent>::empty());
    }
    assert(mid == Phase::FetchingForecast(snapshot));
    if forecast_fetched {
        assert(second.drop_first() =~= seq![PollEvent::Published(forecast_published)]);
        assert(second.drop_first().drop_first() =~= Seq::<PollEvent>::empty());
    } else {
        assert(second.drop_first() =~= Seq::<PollEvent>::empty());
    }
}

/// Running two event sequences in turn is running their concatenation.
pub proof fn lemma_run_concat(p: Phase, a: Seq<PollEvent>, b: Seq<PollEvent>)
    ensures
        run_events(p, a + b) == run_events(run_events(p, a), b),
    decreases a.len(),
{
    if a.len() > 0 {
        assert((a + b).drop_first() =~= a.drop_first() + b);
        assert((a + b)[0] == a[0]);
        lemma_run_concat(next_phase(p, a[0]), a.drop_first(), b);
    } else {
        assert(a + b =~= b);
    }
}

} // verus!
