//! The refresh scheduler: a state machine that decides, at each tick and
//! after each location's fetch, what the worker does next.
use vstd::prelude::*;
use crate::cache::{covers, BasicWeekendForecast, RefreshCache};
use crate::config::Location;
use crate::provider::FetchError;
use crate::weekend::BasicWeather;

verus! {

/// Minutes between two successful fetches.
pub const FETCH_EVERY_MINUTES: i64 = 60;

/// Whole minutes in a span of seconds, rounded toward zero.
pub open spec fn whole_minutes(seconds: int) -> int {
    if seconds >= 0 {
        seconds / 60
    } else {
        -((-seconds) / 60)
    }
}

/// A fetch is due when none has succeeded yet, or when at least the interval
/// has passed, in whole minutes, since the last one.
pub open spec fn due(last_fetch: Option<i64>, now: i64, interval_minutes: i64) -> bool {
    match last_fetch {
        None => true,
        Some(t) => whole_minutes(now - t) >= interval_minutes,
    }
}

/// Whole minutes from `since` to `now`, rounded toward zero.
pub fn whole_minutes_between(since: i64, now: i64) -> (r: i64)
    ensures
        r == whole_minutes(now - since),
{
    let d: i128 = now as i128 - since as i128;
    if d >= 0 {
        (d / 60) as i64
    } else {
        let m: i128 = (-d) / 60;
        (-m) as i64
    }
}

/// With the default interval, a fetch 59 minutes before `now` is not yet
/// due, and one 60 minutes before `now` is.
pub proof fn lemma_due_boundary(now: i64)
    requires
        now >= i64::MIN + 3600,
    ensures
        !due(Some((now - 59 * 60) as i64), now, FETCH_EVERY_MINUTES),
        due(Some((now - 60 * 60) as i64), now, FETCH_EVERY_MINUTES),
{
}

/// Whether a fetch is due at `now`.
pub fn is_due(last_fetch: Option<i64>, now: i64, interval_minutes: i64) -> (r: bool)
    ensures
        r == due(last_fetch, now, interval_minutes),
{
    match last_fetch {
        None => true,
        Some(t) => whole_minutes_between(t, now) >= interval_minutes,
    }
}

/// Where the worker stands.
pub enum Phase {
    /// Waiting for the next tick.
    Idle,
    /// Going through the locations of a batch.
    Fetching,
    /// Stopped for good.
    Stopped,
}

/// What the worker does next.
pub enum Action {
    /// Sleep one tick, then report the next tick.
    Sleep,
    /// Fetch the location at this index, then report the result.
    Fetch(usize),
    /// Leave the loop.
    Exit,
}

/// The scheduler's state: the configured locations, the refresh interval,
/// the time of the last successful fetch and the batch in progress.
pub struct Scheduler {
    locations: Vec<Location>,
    interval_minutes: i64,
    last_fetch: Option<i64>,
    phase: Phase,
    next: usize,
    batch: Vec<BasicWeekendForecast>,
}

impl Scheduler {
    pub closed spec fn spec_locations(&self) -> Seq<Location> {
        self.locations@
    }

    pub closed spec fn spec_interval(&self) -> i64 {
        self.interval_minutes
    }

    pub closed spec fn spec_last_fetch(&self) -> Option<i64> {
        self.last_fetch
    }

    pub closed spec fn spec_phase(&self) -> Phase {
        self.phase
    }

    /// Index of the location being fetched.
    pub closed spec fn spec_next(&self) -> int {
        self.next as int
    }

    /// The part of the batch fetched so far, not visible to readers.
    pub closed spec fn spec_batch(&self) -> Seq<BasicWeekendForecast> {
        self.batch@
    }

    /// At least one location, a positive interval, and while fetching a batch
    /// that covers exactly the locations before the one being fetched.
    pub closed spec fn wf(&self) -> bool {
        &&& self.locations@.len() > 0
        &&& self.interval_minutes >= 1
        &&& (self.phase is Fetching ==> {
            &&& self.next < self.locations@.len()
            &&& covers(self.batch@, self.locations@.subrange(0, self.next as int))
        })
    }

    /// A scheduler that has never fetched.
    pub fn new(locations: Vec<Location>, interval_minutes: i64) -> (r: Scheduler)
        requires
            locations@.len() > 0,
            interval_minutes >= 1,
        ensures
            r.wf(),
            r.spec_locations() == locations@,
            r.spec_interval() == interval_minutes,
            r.spec_last_fetch() is None,
            r.spec_phase() is Idle,
    {
        Scheduler {
            locations,
            interval_minutes,
            last_fetch: None,
            phase: Phase::Idle,
            next: 0,
            batch: Vec::new(),
        }
    }

    /// The configured locations.
    pub fn locations(&self) -> (r: &Vec<Location>)
        ensures
            r@ == self.spec_locations(),
    {
        &self.locations
    }

    /// The time of the last successful fetch, if any.
    pub fn last_fetch(&self) -> (r: Option<i64>)
        ensures
            r == self.spec_last_fetch(),
    {
        self.last_fetch
    }

    /// Whether the scheduler has stopped.
    pub fn is_stopped(&self) -> (r: bool)
        ensures
            r == self.spec_phase() is Stopped,
    {
        match self.phase {
            Phase::Stopped => true,
            _ => false,
        }
    }

    /// A tick at `now`. A requested stop ends the worker; otherwise a due
    /// fetch starts a batch with the first location, and else the worker
    /// sleeps.
    pub fn on_tick(&mut self, now: i64, stop_requested: bool) -> (a: Action)
        requires
            old(self).wf(),
            old(self).spec_phase() is Idle,
        ensures
            final(self).wf(),
            final(self).spec_locations() == old(self).spec_locations(),
            final(self).spec_interval() == old(self).spec_interval(),
            final(self).spec_last_fetch() == old(self).spec_last_fetch(),
            stop_requested ==> a is Exit && final(self).spec_phase() is Stopped,
            !stop_requested && due(old(self).spec_last_fetch(), now, old(self).spec_interval())
                ==> {
                &&& a == Action::Fetch(0)
                &&& final(self).spec_phase() is Fetching
                &&& final(self).spec_next() == 0
                &&& final(self).spec_batch().len() == 0
            },
            !stop_requested && !due(old(self).spec_last_fetch(), now, old(self).spec_interval())
                ==> a is Sleep && final(self).spec_phase() is Idle,
    {
        if stop_requested {
            self.phase = Phase::Stopped;
            Action::Exit
        } else if is_due(self.last_fetch, now, self.interval_minutes) {
            self.phase = Phase::Fetching;
            self.next = 0;
            self.batch = Vec::new();
            proof {
                assert(self.batch@ =~= Seq::<BasicWeekendForecast>::empty());
            }
            Action::Fetch(0)
        } else {
            Action::Sleep
        }
    }

    /// The entry that a successful fetch of the current location adds.
    pub open spec fn entry(&self, days: Vec<BasicWeather>) -> BasicWeekendForecast {
        BasicWeekendForecast { location: self.spec_locations()[self.spec_next()], days }
    }

    /// The result of fetching the current location. A failure drops the
    /// batch and leaves the cache and the last fetch time as they were. A
    /// success adds the location's entry to the batch; then a requested stop
    /// ends the worker without committing, a remaining location is fetched
    /// next, and after the last location the whole batch is committed with
    /// `now` as its fetch time.
    pub fn on_fetched(
        &mut self,
        cache: &mut RefreshCache,
        result: Result<Vec<BasicWeather>, FetchError>,
        now: i64,
        stop_requested: bool,
    ) -> (a: Action)
        requires
            old(self).wf(),
            old(self).spec_phase() is Fetching,
        ensures
            final(self).wf(),
            final(self).spec_locations() == old(self).spec_locations(),
            final(self).spec_interval() == old(self).spec_interval(),
            old(cache).consistent(old(self).spec_locations()) ==> final(cache).consistent(
                final(self).spec_locations(),
            ),
            result is Err ==> {
                &&& a is Sleep
                &&& final(self).spec_phase() is Idle
                &&& final(self).spec_last_fetch() == old(self).spec_last_fetch()
                &&& *final(cache) == *old(cache)
            },
            result is Ok && stop_requested ==> {
                &&& a is Exit
                &&& final(self).spec_phase() is Stopped
                &&& final(self).spec_last_fetch() == old(self).spec_last_fetch()
                &&& *final(cache) == *old(cache)
            },
            result is Ok && !stop_requested && old(self).spec_next() + 1 < old(
                self,
            ).spec_locations().len() ==> {
                &&& a == Action::Fetch((old(self).spec_next() + 1) as usize)
                &&& final(self).spec_phase() is Fetching
                &&& final(self).spec_next() == old(self).spec_next() + 1
                &&& final(self).spec_batch() == old(self).spec_batch().push(
                    old(self).entry(result->Ok_0),
                )
                &&& final(self).spec_last_fetch() == old(self).spec_last_fetch()
                &&& *final(cache) == *old(cache)
            },
            result is Ok && !stop_requested && old(self).spec_next() + 1 == old(
                self,
            ).spec_locations().len() ==> {
                &&& a is Sleep
                &&& final(self).spec_phase() is Idle
                &&& final(self).spec_last_fetch() == Some(now)
                &&& final(cache).spec_forecasts() == old(self).spec_batch().push(
                    old(self).entry(result->Ok_0),
                )
                &&& final(cache).spec_last_fetch() == Some(now)
                &&& covers(final(cache).spec_forecasts(), final(self).spec_locations())
            },
    {
        match result {
            Err(_) => {
                self.phase = Phase::Idle;
                self.batch = Vec::new();
                Action::Sleep
            },
            Ok(days) => {
                let len = self.locations.len();
                assert(self.next < len);
                let n = self.next + 1;
                let location = self.locations[self.next].duplicate();
                self.batch.push(BasicWeekendForecast { location, days });
                proof {
                    let locs = self.locations@;
                    assert(locs.subrange(0, n as int) =~= locs.subrange(0, n - 1).push(
                        locs[n - 1],
                    ));
                    assert(covers(self.batch@, locs.subrange(0, n as int)));
                }
                if stop_requested {
                    self.phase = Phase::Stopped;
                    self.batch = Vec::new();
                    Action::Exit
                } else if n < len {
                    self.next = n;
                    Action::Fetch(n)
                } else {
                    let mut batch: Vec<BasicWeekendForecast> = Vec::new();
                    std::mem::swap(&mut batch, &mut self.batch);
                    proof {
                        assert(self.locations@.subrange(0, n as int) =~= self.locations@);
                    }
                    cache.commit(batch, now);
                    self.last_fetch = Some(now);
                    self.phase = Phase::Idle;
                    Action::Sleep
                }
            },
        }
    }
}

} // verus!
