//! Human-facing labels for the WMO weather codes reported by the forecast API.
use vstd::prelude::*;

verus! {

/// The label of a weather code, as a character sequence.
pub open spec fn weather_label(code: u8) -> Seq<char> {
    if code == 0 {
        "Clear sky"@
    } else if code == 1 {
        "Mainly clear"@
    } else if code == 2 {
        "Partly cloudy"@
    } else if code == 3 {
        "Overcast"@
    } else if code == 45 || code == 48 {
        "Fog"@
    } else if 51 <= code <= 57 {
        "Drizzle"@
    } else if 61 <= code <= 67 {
        "Rain"@
    } else if 71 <= code <= 77 {
        "Snow"@
    } else if 80 <= code <= 82 {
        "Showers"@
    } else if code == 95 {
        "Thunderstorm"@
    } else {
        "Unknown"@
    }
}

/// Describes a weather code in words; codes outside the known groups are
/// described as "Unknown".
pub fn describe_weather_code(code: u8) -> (r: &'static str)
    ensures
        r@ == weather_label(code),
        r@.len() > 0,
{
    proof {
        reveal_strlit("Clear sky");
        reveal_strlit("Mainly clear");
        reveal_strlit("Partly cloudy");
        reveal_strlit("Overcast");
        reveal_strlit("Fog");
        reveal_strlit("Drizzle");
        reveal_strlit("Rain");
        reveal_strlit("Snow");
        reveal_strlit("Showers");
        reveal_strlit("Thunderstorm");
        reveal_strlit("Unknown");
    }
    match code {
        0 => "Clear sky",
        1 => "Mainly clear",
        2 => "Partly cloudy",
        3 => "Overcast",
        45 | 48 => "Fog",
        51..=57 => "Drizzle",
        61..=67 => "Rain",
        71..=77 => "Snow",
        80..=82 => "Showers",
        95 => "Thunderstorm",
        _ => "Unknown",
    }
}

} // verus!
