//! Widget document construction: instantiating the compiled-in template with
//! the values of one render.
//!
//! Every placeholder key is replaced in a fixed order; the hourly section is
//! always exactly four cards, padded with dashes when fewer forecast entries
//! are available.

use vstd::prelude::*;
use vstd::string::*;

use crate::text::replace_all;
use crate::text::spec_digits;
use crate::text::spec_replace;
use crate::text::u64_to_string;
use crate::weather::spec_weather_description;
use crate::weather::weather_description;

verus! {

/// One hourly forecast entry, with its values already rendered as text.
pub struct ForecastEntry {
    pub time_label: String,
    pub temperature_label: String,
    pub precipitation_label: String,
}

/// The view of an optional borrowed string.
pub open spec fn opt_view(o: Option<&str>) -> Option<Seq<char>> {
    match o {
        Some(s) => Some(s@),
        None => None,
    }
}

/// The day heading: the observation day's name, or a generic heading when no
/// observation instant is known.
pub open spec fn spec_day_label(day: Option<Seq<char>>) -> Seq<char> {
    match day {
        Some(d) => d,
        None => "Today"@,
    }
}

/// The observation timestamp line, or dashes when none is known.
pub open spec fn spec_datetime_label(obs: Option<Seq<char>>) -> Seq<char> {
    match obs {
        Some(o) => o,
        None => "--"@,
    }
}

/// The refresh line derived from the observation timestamp.
pub open spec fn spec_updated_label(obs: Option<Seq<char>>) -> Seq<char> {
    match obs {
        Some(o) => "Updated "@ + o,
        None => "Updated --"@,
    }
}

/// The battery line: level plus charging marker, or a fallback when the
/// caller did not report a level.
pub open spec fn spec_battery_label(level: Option<u8>, charging: Option<bool>) -> Seq<char> {
    match level {
        Some(l) => if charging == Some(true) {
            "Battery "@ + spec_digits(l as nat) + "% (charging)"@
        } else {
            "Battery "@ + spec_digits(l as nat) + "%"@
        },
        None => "Battery status unavailable"@,
    }
}

/// One hourly card line.
pub open spec fn spec_card(e: ForecastEntry) -> Seq<char> {
    "    hour-card(\""@ + e.time_label@ + "\", \""@ + e.temperature_label@ + "\", \""@
        + e.precipitation_label@ + "\"),\n"@
}

/// The padding card shown when fewer than four entries are available.
pub open spec fn spec_placeholder_card() -> Seq<char> {
    "    hour-card(\"--\", \"--\", \"--\"),\n"@
}

/// The hourly card block from slot `k` on: a real card while entries last,
/// the padding card after, four slots in all.
pub open spec fn spec_cards_from(entries: Seq<ForecastEntry>, k: int) -> Seq<char>
    decreases 4 - k,
    when 0 <= k <= 4
{
    if k >= 4 {
        Seq::empty()
    } else if k < entries.len() {
        spec_card(entries[k]) + spec_cards_from(entries, k + 1)
    } else {
        spec_placeholder_card() + spec_cards_from(entries, k + 1)
    }
}

/// The whole hourly card block.
pub open spec fn spec_cards(entries: Seq<ForecastEntry>) -> Seq<char> {
    spec_cards_from(entries, 0)
}

/// The instantiated widget document: every placeholder of the template
/// replaced by its value, in a fixed order.
pub open spec fn spec_document(
    template: Seq<char>,
    width: u32,
    height: u32,
    day: Option<Seq<char>>,
    obs: Option<Seq<char>>,
    code: int,
    temperature: Seq<char>,
    feels_like: Seq<char>,
    humidity: Seq<char>,
    level: Option<u8>,
    charging: Option<bool>,
    entries: Seq<ForecastEntry>,
) -> Seq<char> {
    let d1 = spec_replace(template, "{width}"@, spec_digits(width as nat));
    let d2 = spec_replace(d1, "{height}"@, spec_digits(height as nat));
    let d3 = spec_replace(d2, "{day_label}"@, spec_day_label(day));
    let d4 = spec_replace(d3, "{datetime_label}"@, spec_datetime_label(obs));
    let d5 = spec_replace(d4, "{condition}"@, spec_weather_description(code));
    let d6 = spec_replace(d5, "{temperature}"@, temperature);
    let d7 = spec_replace(d6, "{feels_like}"@, feels_like);
    let d8 = spec_replace(d7, "{humidity}"@, humidity);
    let d9 = spec_replace(d8, "{battery}"@, spec_battery_label(level, charging));
    let d10 = spec_replace(d9, "{updated}"@, spec_updated_label(obs));
    spec_replace(d10, "{hourly_cards}"@, spec_cards(entries))
}

/// Determinism of template instantiation: two documents built from the same
/// template and values are identical, character for character.
pub proof fn lemma_document_deterministic(
    d1: Seq<char>,
    d2: Seq<char>,
    template: Seq<char>,
    width: u32,
    height: u32,
    day: Option<Seq<char>>,
    obs: Option<Seq<char>>,
    code: int,
    temperature: Seq<char>,
    feels_like: Seq<char>,
    humidity: Seq<char>,
    level: Option<u8>,
    charging: Option<bool>,
    entries: Seq<ForecastEntry>,
)
    requires
        d1 == spec_document(
            template,
            width,
            height,
            day,
            obs,
            code,
            temperature,
            feels_like,
            humidity,
            level,
            charging,
            entries,
        ),
        d2 == spec_document(
            template,
            width,
            height,
            day,
            obs,
            code,
            temperature,
            feels_like,
            humidity,
            level,
            charging,
            entries,
        ),
    ensures
        d1 == d2,
{
}

/// Render the battery line.
pub fn battery_label(level: Option<u8>, charging: Option<bool>) -> (r: String)
    ensures
        r@ == spec_battery_label(level, charging),
{
    match level {
        Some(l) => {
            let is_charging = match charging {
                Some(c) => c,
                None => false,
            };
            let mut out = String::from_str("Battery ");
            let digits = u64_to_string(l as u64);
            out.append(digits.as_str());
            if is_charging {
                out.append("% (charging)");
            } else {
                out.append("%");
            }
            out
        },
        None => String::from_str("Battery status unavailable"),
    }
}

fn append_card(out: &mut String, e: &ForecastEntry)
    ensures
        final(out)@ == old(out)@ + spec_card(*e),
{
    out.append("    hour-card(\"");
    out.append(e.time_label.as_str());
    out.append("\", \"");
    out.append(e.temperature_label.as_str());
    out.append("\", \"");
    out.append(e.precipitation_label.as_str());
    out.append("\"),\n");
}

/// Render the hourly card block: the first four entries, padded with dash
/// cards to exactly four lines.
pub fn hourly_cards(entries: &Vec<ForecastEntry>) -> (r: String)
    ensures
        r@ == spec_cards(entries@),
{
    let mut out = String::new();
    let mut k: usize = 0;
    assert(out@ + spec_cards_from(entries@, 0) =~= spec_cards_from(entries@, 0));
    while k < 4
        invariant
            k <= 4,
            out@ + spec_cards_from(entries@, k as int) =~= spec_cards(entries@),
        decreases 4 - k,
    {
        if k < entries.len() {
            append_card(&mut out, &entries[k]);
        } else {
            out.append("    hour-card(\"--\", \"--\", \"--\"),\n");
        }
        k = k + 1;
    }
    out
}

/// Instantiate the widget template for one render.
pub fn build_widget_document(
    template: &str,
    width: u32,
    height: u32,
    day_label: Option<&str>,
    observation_label: Option<&str>,
    weather_code: i32,
    temperature: &str,
    feels_like: &str,
    humidity: &str,
    battery_level: Option<u8>,
    is_charging: Option<bool>,
    forecast: &Vec<ForecastEntry>,
) -> (r: String)
    ensures
        r@ == spec_document(
            template@,
            width,
            height,
            opt_view(day_label),
            opt_view(observation_label),
            weather_code as int,
            temperature@,
            feels_like@,
            humidity@,
            battery_level,
            is_charging,
            forecast@,
        ),
{
    proof {
        reveal_strlit("{width}");
        reveal_strlit("{height}");
        reveal_strlit("{day_label}");
        reveal_strlit("{datetime_label}");
        reveal_strlit("{condition}");
        reveal_strlit("{temperature}");
        reveal_strlit("{feels_like}");
        reveal_strlit("{humidity}");
        reveal_strlit("{battery}");
        reveal_strlit("{updated}");
        reveal_strlit("{hourly_cards}");
    }
    let w = u64_to_string(width as u64);
    let h = u64_to_string(height as u64);
    let day = match day_label {
        Some(d) => String::from_str(d),
        None => String::from_str("Today"),
    };
    let datetime = match observation_label {
        Some(o) => String::from_str(o),
        None => String::from_str("--"),
    };
    let updated = match observation_label {
        Some(o) => {
            let mut u = String::from_str("Updated ");
            u.append(o);
            u
        },
        None => String::from_str("Updated --"),
    };
    let condition = weather_description(&weather_code);
    let battery = battery_label(battery_level, is_charging);
    let cards = hourly_cards(forecast);

    let d1 = replace_all(template, "{width}", w.as_str());
    let d2 = replace_all(d1.as_str(), "{height}", h.as_str());
    let d3 = replace_all(d2.as_str(), "{day_label}", day.as_str());
    let d4 = replace_all(d3.as_str(), "{datetime_label}", datetime.as_str());
    let d5 = replace_all(d4.as_str(), "{condition}", condition);
    let d6 = replace_all(d5.as_str(), "{temperature}", temperature);
    let d7 = replace_all(d6.as_str(), "{feels_like}", feels_like);
    let d8 = replace_all(d7.as_str(), "{humidity}", humidity);
    let d9 = replace_all(d8.as_str(), "{battery}", battery.as_str());
    let d10 = replace_all(d9.as_str(), "{updated}", updated.as_str());
    replace_all(d10.as_str(), "{hourly_cards}", cards.as_str())
}

} // verus!
