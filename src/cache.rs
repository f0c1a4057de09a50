//! The refresh cache: the last complete batch of forecasts and when it was
//! fetched, replaced only as a whole.
use vstd::prelude::*;
use crate::config::Location;
use crate::weekend::BasicWeather;

verus! {

/// The forecasts of one location from one batch.
pub struct BasicWeekendForecast {
    pub location: Location,
    pub days: Vec<BasicWeather>,
}

/// The batch covers the given locations, one entry each, in their order.
pub open spec fn covers(batch: Seq<BasicWeekendForecast>, locations: Seq<Location>) -> bool {
    &&& batch.len() == locations.len()
    &&& forall|i: int| 0 <= i < batch.len() ==> #[trigger] batch[i].location == locations[i]
}

/// Holds the last committed batch and its fetch time (seconds since the Unix
/// epoch). Readers see either the empty start state or one whole batch.
pub struct RefreshCache {
    forecasts: Vec<BasicWeekendForecast>,
    last_fetch: Option<i64>,
}

/// The state shared between the worker and the request handlers.
pub type AppState = RefreshCache;

impl RefreshCache {
    /// The forecasts held now.
    pub closed spec fn spec_forecasts(&self) -> Seq<BasicWeekendForecast> {
        self.forecasts@
    }

    /// The fetch time held now.
    pub closed spec fn spec_last_fetch(&self) -> Option<i64> {
        self.last_fetch
    }

    /// The cache is empty with no time, or holds one complete batch for the
    /// given locations together with its time.
    pub open spec fn consistent(&self, locations: Seq<Location>) -> bool {
        ||| (self.spec_forecasts().len() == 0 && self.spec_last_fetch() is None)
        ||| (self.spec_last_fetch() is Some && covers(self.spec_forecasts(), locations))
    }

    /// An empty cache with no fetch time.
    pub fn new() -> (r: RefreshCache)
        ensures
            r.spec_forecasts().len() == 0,
            r.spec_last_fetch() is None,
    {
        RefreshCache { forecasts: Vec::new(), last_fetch: None }
    }

    /// A snapshot: the forecasts and the fetch time of the last commit,
    /// taken together.
    pub fn read(&self) -> (r: (&Vec<BasicWeekendForecast>, Option<i64>))
        ensures
            r.0@ == self.spec_forecasts(),
            r.1 == self.spec_last_fetch(),
    {
        (&self.forecasts, self.last_fetch)
    }

    /// The forecasts of the last committed batch.
    pub fn forecasts(&self) -> (r: &Vec<BasicWeekendForecast>)
        ensures
            r@ == self.spec_forecasts(),
    {
        &self.forecasts
    }

    /// The fetch time of the last committed batch, if any.
    pub fn last_fetch(&self) -> (r: Option<i64>)
        ensures
            r == self.spec_last_fetch(),
    {
        self.last_fetch
    }

    /// Replaces the forecasts and the fetch time together.
    pub fn commit(&mut self, batch: Vec<BasicWeekendForecast>, fetched_at: i64)
        ensures
            final(self).spec_forecasts() == batch@,
            final(self).spec_last_fetch() == Some(fetched_at),
    {
        self.forecasts = batch;
        self.last_fetch = Some(fetched_at);
    }
}

} // verus!
