//! What a weather fetch yields, and how a fetch can fail.
use vstd::prelude::*;

verus! {

/// The current weather at a coordinate. Each measurement is the IEEE-754 bit
/// pattern of its value, carried through exactly as it was decoded.
#[derive(Debug)]
pub struct CurrentWeather {
    pub temperature_bits: u64,
    pub windspeed_bits: u64,
    pub winddirection_bits: u64,
    pub time: String,
}

/// How fetching weather data can fail.
#[derive(Clone, Copy, Debug, PartialEq, Eq, Structural)]
pub enum WeatherError {
    /// The request did not complete: network or transport failure.
    FetchError,
    /// The response was not the JSON that was expected.
    DecodeError,
    /// The response left out the current weather.
    MissingDataError,
}

/// The current weather out of a decoded response, whose `current_weather`
/// field the service may leave out.
pub fn current_from_envelope(current_weather: Option<CurrentWeather>) -> (r: Result<CurrentWeather, WeatherError>)
    ensures
        match current_weather {
            Some(w) => r == Ok::<CurrentWeather, WeatherError>(w),
            None => r == Err::<CurrentWeather, WeatherError>(WeatherError::MissingDataError),
        },
{
    match current_weather {
        Some(w) => Ok(w),
        None => Err(WeatherError::MissingDataError),
    }
}

} // verus!
