//! Background refresh engine for weekend weather forecasts.
//!
//! The library holds the logic of the engine: the weekend filter over a
//! provider's day-records, the refresh cache with its all-or-nothing commit,
//! and the scheduler that decides, tick by tick, when to fetch, what to fetch
//! next, when to commit and when to stop. The program around it performs the
//! network calls, sleeps between ticks and shares the cache between threads.
pub mod config;
pub mod weekend;
pub mod provider;
pub mod cache;
pub mod scheduler;
pub mod elapsed;
