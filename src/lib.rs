//! Periodic weather republishing: the verified decisions behind a poller that
//! fetches weather data for a configurable coordinate and republishes it over
//! MQTT, at an interval that can be changed while it runs.
use vstd::prelude::*;

pub mod config;
pub mod poll;
pub mod weather;
pub mod weather_code;

verus! {

} // verus!
