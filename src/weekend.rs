//! The weekend filter: from a provider's day-records to the Friday, Saturday
//! and Sunday forecasts with complete data.
use vstd::prelude::*;
use chrono::{Datelike, TimeZone, Utc};

verus! {

/// Seconds in a day.
pub const SECONDS_PER_DAY: u64 = 86400;

/// Largest record timestamp that the library turns into a calendar day: a
/// date early in the year 252000, well inside chrono's calendar, which ends
/// with the year 262142.
pub const MAX_TIMESTAMP: u64 = 7_900_000_000_000;

/// One day-record as the provider sends it. Temperatures are the bit
/// patterns of IEEE-754 doubles and are carried through unread.
pub struct RawDay {
    pub time: u64,
    pub temperature_low: Option<u64>,
    pub temperature_high: Option<u64>,
    pub summary: Option<String>,
}

/// A weekend day with complete data, ready for display.
pub struct BasicWeather {
    pub time: String,
    pub temperature_low: u64,
    pub temperature_high: u64,
    pub summary: String,
}

/// Day of the week of a Unix timestamp in UTC, counted from Monday as 0.
/// The Unix epoch fell on a Thursday.
pub open spec fn weekday_of(t: u64) -> int {
    ((t as int / SECONDS_PER_DAY as int) + 3) % 7
}

/// Friday, Saturday or Sunday.
pub open spec fn is_weekend_day(w: int) -> bool {
    4 <= w <= 6
}

/// The display label of a timestamp: abbreviated weekday, abbreviated month
/// and day of month, as the calendar library formats "%a %h %e".
pub uninterp spec fn day_label_of(t: u64) -> Seq<char>;

/// A record that the filter keeps.
pub open spec fn keeps(d: RawDay) -> bool {
    &&& is_weekend_day(weekday_of(d.time))
    &&& d.temperature_low.is_some()
    &&& d.temperature_high.is_some()
    &&& d.summary.is_some()
}

/// What a day forecast holds, as plain values.
pub struct DayView {
    pub time: Seq<char>,
    pub temperature_low: u64,
    pub temperature_high: u64,
    pub summary: Seq<char>,
}

impl View for BasicWeather {
    type V = DayView;

    open spec fn view(&self) -> DayView {
        DayView {
            time: self.time@,
            temperature_low: self.temperature_low,
            temperature_high: self.temperature_high,
            summary: self.summary@,
        }
    }
}

/// The forecast made from a kept record.
pub open spec fn forecast_of(d: RawDay) -> DayView {
    DayView {
        time: day_label_of(d.time),
        temperature_low: d.temperature_low.unwrap(),
        temperature_high: d.temperature_high.unwrap(),
        summary: d.summary.unwrap()@,
    }
}

/// The weekend filter over a sequence of records: the forecasts of the kept
/// records, in the order of the records.
pub open spec fn weekend_filter(s: Seq<RawDay>) -> Seq<DayView>
    decreases s.len(),
{
    if s.len() == 0 {
        Seq::empty()
    } else {
        let prev = weekend_filter(s.drop_last());
        if keeps(s.last()) {
            prev.push(forecast_of(s.last()))
        } else {
            prev
        }
    }
}

/// The views of a sequence of forecasts.
pub open spec fn day_views(v: Seq<BasicWeather>) -> Seq<DayView> {
    v.map_values(|d: BasicWeather| d@)
}

/// Every record carries a timestamp that the calendar conversion accepts.
pub open spec fn times_in_range(s: Seq<RawDay>) -> bool {
    forall|i: int| 0 <= i < s.len() ==> #[trigger] s[i].time <= MAX_TIMESTAMP
}

/// Relies on chrono's `TimeZone::timestamp_opt` for `Utc` and
/// `Weekday::num_days_from_monday`: the day of the week of a Unix timestamp
/// in UTC, Monday being 0.
#[verifier::external_body]
fn weekday_index(t: u64) -> (r: u32)
    requires
        t <= MAX_TIMESTAMP,
    ensures
        r as int == weekday_of(t),
{
    Utc.timestamp_opt(t as i64, 0).unwrap().weekday().num_days_from_monday()
}

/// Relies on chrono's `TimeZone::timestamp_opt` for `Utc` and
/// `DateTime::format` with "%a %h %e": the display label of a timestamp.
#[verifier::external_body]
fn day_label(t: u64) -> (r: String)
    requires
        t <= MAX_TIMESTAMP,
    ensures
        r@ == day_label_of(t),
{
    Utc.timestamp_opt(t as i64, 0).unwrap().format("%a %h %e").to_string()
}

/// Keeps the Friday, Saturday and Sunday records that carry a low and a high
/// temperature and a summary, in their order, and labels each with its day.
pub fn weekend_days(days: &Vec<RawDay>) -> (r: Vec<BasicWeather>)
    requires
        times_in_range(days@),
    ensures
        day_views(r@) == weekend_filter(days@),
{
    let mut r: Vec<BasicWeather> = Vec::new();
    let mut i: usize = 0;
    while i < days.len()
        invariant
            i <= days@.len(),
            times_in_range(days@),
            day_views(r@) == weekend_filter(days@.subrange(0, i as int)),
        decreases days@.len() - i,
    {
        let d = &days[i];
        assert(days@.subrange(0, i as int + 1).drop_last() == days@.subrange(0, i as int));
        assert(d.time <= MAX_TIMESTAMP);
        let w = weekday_index(d.time);
        let complete = d.temperature_low.is_some() && d.temperature_high.is_some()
            && d.summary.is_some();
        if 4 <= w && w <= 6 && complete {
            let summary = match &d.summary {
                Some(s) => s.clone(),
                None => String::new(),
            };
            let f = BasicWeather {
                time: day_label(d.time),
                temperature_low: match d.temperature_low {
                    Some(v) => v,
                    None => 0,
                },
                temperature_high: match d.temperature_high {
                    Some(v) => v,
                    None => 0,
                },
                summary,
            };
            r.push(f);
            assert(day_views(r@) == day_views(r@.drop_last()).push(f@));
        }
        i = i + 1;
    }
    assert(days@.subrange(0, days@.len() as int) == days@);
    r
}

/// Positions of the records that the weekend filter keeps, in ascending
/// order.
pub open spec fn kept_indices(s: Seq<RawDay>) -> Seq<int>
    decreases s.len(),
{
    if s.len() == 0 {
        Seq::empty()
    } else {
        let prev = kept_indices(s.drop_last());
        if keeps(s.last()) {
            prev.push(s.len() - 1)
        } else {
            prev
        }
    }
}

/// The weekend filter yields only forecasts made from Friday, Saturday and
/// Sunday records that carry a low and a high temperature and a summary, one
/// for each such record, in the records' order.
pub proof fn lemma_weekend_filter_selects(s: Seq<RawDay>)
    ensures
        kept_indices(s).len() == weekend_filter(s).len(),
        forall|i: int|
            0 <= i < kept_indices(s).len() ==> {
                &&& 0 <= #[trigger] kept_indices(s)[i] < s.len()
                &&& keeps(s[kept_indices(s)[i]])
                &&& is_weekend_day(weekday_of(s[kept_indices(s)[i]].time))
                &&& weekend_filter(s)[i] == forecast_of(s[kept_indices(s)[i]])
            },
        forall|i: int, j: int|
            0 <= i < j < kept_indices(s).len() ==> kept_indices(s)[i] < kept_indices(s)[j],
        forall|k: int|
            0 <= k < s.len() && keeps(#[trigger] s[k]) ==> kept_indices(s).contains(k),
    decreases s.len(),
{
    if s.len() > 0 {
        let t = s.drop_last();
        lemma_weekend_filter_selects(t);
        let p = kept_indices(t);
        assert forall|i: int| 0 <= i < p.len() implies t[p[i]] == s[p[i]] by {}
        assert forall|k: int| 0 <= k < s.len() && keeps(#[trigger] s[k]) implies kept_indices(
            s,
        ).contains(k) by {
            if k < s.len() - 1 {
                assert(t[k] == s[k]);
                let w = choose|w: int| 0 <= w < p.len() && p[w] == k;
                assert(kept_indices(s)[w] == k);
            } else {
                assert(kept_indices(s)[p.len() as int] == k);
            }
        }
    }
}

} // verus!
