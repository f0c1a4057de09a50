//! The provider's answer for one location, and the errors of a fetch.
use vstd::prelude::*;
use vstd::string::*;
use crate::weekend::{day_views, times_in_range, weekend_days, weekend_filter, BasicWeather, RawDay};

verus! {

/// The day series of a provider answer.
pub struct DailyBlock {
    pub data: Option<Vec<RawDay>>,
}

/// A provider answer, reduced to what the engine reads.
pub struct ForecastResponse {
    pub daily: Option<DailyBlock>,
}

/// Why fetching one location failed.
pub enum FetchError {
    /// The transport could not be built; holds the transport's error text.
    ClientBuild(String),
    /// The request failed; holds the provider's error text.
    Request(String),
    /// The answer has no day series.
    MissingDaily,
    /// The day series has no data.
    MissingData,
}

/// The text that describes a fetch error.
pub open spec fn message_of(e: FetchError) -> Seq<char> {
    match e {
        FetchError::ClientBuild(t) => "Failed to build client ("@ + t@ + ")"@,
        FetchError::Request(t) => "Request failed ("@ + t@ + ")"@,
        FetchError::MissingDaily => "No daily forecast"@,
        FetchError::MissingData => "No Data"@,
    }
}

impl FetchError {
    /// The text that describes this error.
    pub fn message(&self) -> (r: String)
        ensures
            r@ == message_of(*self),
    {
        match self {
            FetchError::ClientBuild(t) => {
                let mut s = String::from_str("Failed to build client (");
                s.append(t.as_str());
                s.append(")");
                s
            },
            FetchError::Request(t) => {
                let mut s = String::from_str("Request failed (");
                s.append(t.as_str());
                s.append(")");
                s
            },
            FetchError::MissingDaily => String::from_str("No daily forecast"),
            FetchError::MissingData => String::from_str("No Data"),
        }
    }
}

/// The records of an answer can all be converted to calendar days.
pub open spec fn response_in_range(resp: ForecastResponse) -> bool {
    match resp.daily {
        Some(b) => match b.data {
            Some(v) => times_in_range(v@),
            None => true,
        },
        None => true,
    }
}

/// Turns a provider answer into the weekend forecasts of its day series, or
/// fails when the answer lacks the day series or its data.
pub fn days_from_response(resp: &ForecastResponse) -> (r: Result<Vec<BasicWeather>, FetchError>)
    requires
        response_in_range(*resp),
    ensures
        resp.daily is None ==> r is Err && r->Err_0 is MissingDaily,
        resp.daily is Some && resp.daily->Some_0.data is None ==> r is Err
            && r->Err_0 is MissingData,
        resp.daily is Some && resp.daily->Some_0.data is Some ==> r is Ok
            && day_views(r->Ok_0@) == weekend_filter(resp.daily->Some_0.data->Some_0@),
{
    match &resp.daily {
        None => Err(FetchError::MissingDaily),
        Some(b) => match &b.data {
            None => Err(FetchError::MissingData),
            Some(v) => Ok(weekend_days(v)),
        },
    }
}

} // verus!
