//! Weather-facing decisions: the condition wording for a weather code and
//! the choice of which hourly forecast entries a widget shows.

use vstd::prelude::*;

verus! {

/// The condition wording for a numeric weather code.
pub open spec fn spec_weather_description(code: int) -> Seq<char> {
    if code == 0 {
        "Clear sky"@
    } else if code == 1 || code == 2 {
        "Mostly clear"@
    } else if code == 3 {
        "Overcast"@
    } else if code == 45 || code == 48 {
        "Fog"@
    } else if code == 51 || code == 53 || code == 55 {
        "Drizzle"@
    } else if code == 56 || code == 57 {
        "Freezing drizzle"@
    } else if code == 61 || code == 63 || code == 65 {
        "Rain"@
    } else if code == 66 || code == 67 {
        "Freezing rain"@
    } else if code == 71 || code == 73 || code == 75 {
        "Snowfall"@
    } else if code == 77 {
        "Snow grains"@
    } else if code == 80 || code == 81 || code == 82 {
        "Rain showers"@
    } else if code == 85 || code == 86 {
        "Snow showers"@
    } else if code == 95 {
        "Thunderstorm"@
    } else if code == 96 || code == 99 {
        "Thunderstorm with hail"@
    } else {
        "Unknown"@
    }
}

/// Human wording for a numeric weather code.
pub fn weather_description(code: &i32) -> (r: &'static str)
    ensures
        r@ == spec_weather_description(*code as int),
{
    match code {
        0 => "Clear sky",
        1 | 2 => "Mostly clear",
        3 => "Overcast",
        45 | 48 => "Fog",
        51 | 53 | 55 => "Drizzle",
        56 | 57 => "Freezing drizzle",
        61 | 63 | 65 => "Rain",
        66 | 67 => "Freezing rain",
        71 | 73 | 75 => "Snowfall",
        77 => "Snow grains",
        80 | 81 | 82 => "Rain showers",
        85 | 86 => "Snow showers",
        95 => "Thunderstorm",
        96 | 99 => "Thunderstorm with hail",
        _ => "Unknown",
    }
}

/// Whether a forecast instant is shown: it must not lie in the past, and it
/// must come at least two hours after the previously shown instant.
pub open spec fn spec_keep(t: i64, now: i64, last: Option<i64>) -> bool {
    &&& t >= now
    &&& match last {
        Some(l) => t - l >= 7200,
        None => true,
    }
}

/// The positions of the forecast instants a widget shows: walking the
/// instants in order, keep each one that lies at or after `now` and at least
/// two hours past the last kept one, stopping after `left` of them.
pub open spec fn spec_select(
    times: Seq<i64>,
    now: i64,
    i: int,
    last: Option<i64>,
    left: nat,
) -> Seq<int>
    decreases times.len() - i,
    when 0 <= i <= times.len()
{
    if i >= times.len() || left == 0 {
        Seq::empty()
    } else if spec_keep(times[i], now, last) {
        seq![i] + spec_select(times, now, i + 1, Some(times[i]), (left - 1) as nat)
    } else {
        spec_select(times, now, i + 1, last, left)
    }
}

/// Choose which forecast instants to show: at most four, none in the past,
/// spaced at least two hours apart, earliest first.
pub fn select_forecast_indices(times: &Vec<i64>, now: i64) -> (r: Vec<usize>)
    ensures
        r@.map_values(|u: usize| u as int) == spec_select(times@, now, 0, None, 4),
{
    let mut out: Vec<usize> = Vec::new();
    let mut last: Option<i64> = None;
    let mut i: usize = 0;
    assert(out@.map_values(|u: usize| u as int) =~= Seq::<int>::empty());
    while i < times.len() && out.len() < 4
        invariant
            i <= times.len(),
            out.len() <= 4,
            out@.map_values(|u: usize| u as int) + spec_select(
                times@,
                now,
                i as int,
                last,
                (4 - out.len()) as nat,
            ) =~= spec_select(times@, now, 0, None, 4),
        decreases times.len() - i,
    {
        let t = times[i];
        let keep = t >= now && (match last {
            Some(l) => (t as i128) - (l as i128) >= 7200,
            None => true,
        });
        if keep {
            assert(spec_keep(times@[i as int], now, last));
            out.push(i);
            last = Some(t);
            proof {
                assert(out@.map_values(|u: usize| u as int) =~= out@.drop_last().map_values(
                    |u: usize| u as int,
                ).push(i as int));
            }
        } else {
            assert(!spec_keep(times@[i as int], now, last));
        }
        i = i + 1;
    }
    assert(spec_select(times@, now, i as int, last, (4 - out.len()) as nat)
        =~= Seq::<int>::empty());
    assert(out@.map_values(|u: usize| u as int) + Seq::<int>::empty() =~= out@.map_values(
        |u: usize| u as int,
    ));
    out
}

} // verus!
