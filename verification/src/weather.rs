//! WMO weather codes and the short labels shown next to forecast rows.

use vstd::prelude::*;
use vstd::string::*;

verus! {

/// Whether `code` is one of the WMO present-weather codes the forecast tables describe.
pub open spec fn wmo_known(code: i32) -> bool {
    code == 0 || code == 1 || code == 2 || code == 3 || code == 45 || code == 48
        || code == 51 || code == 53 || code == 55 || code == 56 || code == 57
        || code == 61 || code == 63 || code == 65 || code == 66 || code == 67
        || code == 71 || code == 73 || code == 75 || code == 77
        || code == 80 || code == 81 || code == 82 || code == 85 || code == 86
        || code == 95 || code == 96 || code == 99
}

/// The emoji shown for a WMO code.
pub open spec fn wmo_icon_spec(code: i32) -> Seq<char> {
    if code == 0 { "☀️"@ }
    else if code == 1 { "🌤️"@ }
    else if code == 2 { "⛅"@ }
    else if code == 3 { "☁️"@ }
    else if code == 45 || code == 48 { "🌫️"@ }
    else if code == 51 || code == 53 || code == 55 || code == 80 || code == 81 { "🌦️"@ }
    else if code == 56 || code == 57 || code == 61 || code == 63 || code == 65
        || code == 66 || code == 67 { "🌧️"@ }
    else if code == 71 || code == 73 || code == 75 || code == 77 || code == 85 || code == 86 { "🌨️"@ }
    else if code == 82 || code == 95 || code == 96 || code == 99 { "⛈️"@ }
    else { "❓"@ }
}

/// The emoji of a WMO weather code; "❓" for a code outside the table.
pub fn wmo_icon(code: i32) -> (r: &'static str)
    ensures
        r@ == wmo_icon_spec(code),
{
    match code {
        0 => "☀️",
        1 => "🌤️",
        2 => "⛅",
        3 => "☁️",
        45 | 48 => "🌫️",
        51 | 53 | 55 => "🌦️",
        56 | 57 => "🌧️",
        61 | 63 | 65 => "🌧️",
        66 | 67 => "🌧️",
        71 | 73 | 75 | 77 => "🌨️",
        80 | 81 => "🌦️",
        82 => "⛈️",
        85 | 86 => "🌨️",
        95 | 96 | 99 => "⛈️",
        _ => "❓",
    }
}


/// The description shown for a WMO code.
pub open spec fn wmo_text_spec(code: i32) -> Seq<char> {
    if code == 0 { "Clear sky"@ }
    else if code == 1 { "Mostly clear"@ }
    else if code == 2 { "Partly cloudy"@ }
    else if code == 3 { "Overcast"@ }
    else if code == 45 { "Fog"@ }
    else if code == 48 { "Rime fog"@ }
    else if code == 51 { "Light drizzle"@ }
    else if code == 53 { "Drizzle"@ }
    else if code == 55 { "Heavy drizzle"@ }
    else if code == 56 || code == 57 { "Freezing drizzle"@ }
    else if code == 61 { "Light rain"@ }
    else if code == 63 { "Rain"@ }
    else if code == 65 { "Heavy rain"@ }
    else if code == 66 || code == 67 { "Freezing rain"@ }
    else if code == 71 { "Light snow"@ }
    else if code == 73 { "Snow"@ }
    else if code == 75 { "Heavy snow"@ }
    else if code == 77 { "Snow grains"@ }
    else if code == 80 || code == 81 { "Rain showers"@ }
    else if code == 82 { "Violent showers"@ }
    else if code == 85 { "Snow showers"@ }
    else if code == 86 { "Heavy snow showers"@ }
    else if code == 95 { "Thunderstorm"@ }
    else if code == 96 { "Thunderstorm + hail"@ }
    else if code == 99 { "Severe thunderstorm"@ }
    else { "Unknown"@ }
}

/// The description of a WMO weather code; "Unknown" for a code outside the table.
pub fn wmo_text(code: i32) -> (r: &'static str)
    ensures
        r@ == wmo_text_spec(code),
{
    match code {
        0 => "Clear sky",
        1 => "Mostly clear",
        2 => "Partly cloudy",
        3 => "Overcast",
        45 => "Fog",
        48 => "Rime fog",
        51 => "Light drizzle",
        53 => "Drizzle",
        55 => "Heavy drizzle",
        56 | 57 => "Freezing drizzle",
        61 => "Light rain",
        63 => "Rain",
        65 => "Heavy rain",
        66 | 67 => "Freezing rain",
        71 => "Light snow",
        73 => "Snow",
        75 => "Heavy snow",
        77 => "Snow grains",
        80 | 81 => "Rain showers",
        82 => "Violent showers",
        85 => "Snow showers",
        86 => "Heavy snow showers",
        95 => "Thunderstorm",
        96 => "Thunderstorm + hail",
        99 => "Severe thunderstorm",
        _ => "Unknown",
    }
}

/// The icon table and the description table recognise the same codes: a code gets the
/// unknown icon exactly when it gets the "Unknown" description, and that happens exactly
/// for the codes outside the WMO set.
pub proof fn lemma_icon_and_text_agree(code: i32)
    ensures
        (wmo_icon_spec(code) == "❓"@) == !wmo_known(code),
        (wmo_text_spec(code) == "Unknown"@) == !wmo_known(code),
{
    reveal_strlit("❓");
    reveal_strlit("☀️");
    reveal_strlit("🌤️");
    reveal_strlit("⛅");
    reveal_strlit("☁️");
    reveal_strlit("🌫️");
    reveal_strlit("🌦️");
    reveal_strlit("🌧️");
    reveal_strlit("🌨️");
    reveal_strlit("⛈️");
    reveal_strlit("Unknown");
    reveal_strlit("Clear sky");
    reveal_strlit("Mostly clear");
    reveal_strlit("Partly cloudy");
    reveal_strlit("Overcast");
    reveal_strlit("Fog");
    reveal_strlit("Rime fog");
    reveal_strlit("Light drizzle");
    reveal_strlit("Drizzle");
    reveal_strlit("Heavy drizzle");
    reveal_strlit("Freezing drizzle");
    reveal_strlit("Light rain");
    reveal_strlit("Rain");
    reveal_strlit("Heavy rain");
    reveal_strlit("Freezing rain");
    reveal_strlit("Light snow");
    reveal_strlit("Snow");
    reveal_strlit("Heavy snow");
    reveal_strlit("Snow grains");
    reveal_strlit("Rain showers");
    reveal_strlit("Violent showers");
    reveal_strlit("Snow showers");
    reveal_strlit("Heavy snow showers");
    reveal_strlit("Thunderstorm");
    reveal_strlit("Thunderstorm + hail");
    reveal_strlit("Severe thunderstorm");
    if wmo_known(code) {
        assert(wmo_icon_spec(code).len() != "❓"@.len() || wmo_icon_spec(code)[0] != "❓"@[0]);
        assert(wmo_text_spec(code).len() != "Unknown"@.len()
            || wmo_text_spec(code)[0] != "Unknown"@[0]);
    }
}


/// The icon follows the WMO code groups: fog (the forties) shows fog; drizzle (51–55)
/// and slight or moderate rain showers (80, 81) show sun behind rain; freezing drizzle
/// (56, 57) and every code of the rain decade (the sixties) show rain; every code of the
/// snow decade (the seventies) and the snow showers (85, 86) show snow; the
/// thunderstorm decade (the nineties) and violent showers (82) show a thunder cloud; the
/// rain, snow and thunder icons differ; and the four sky-cover codes (0–3) each have an
/// icon of their own, unlike those of any weather.
pub proof fn lemma_icon_groups(code: i32)
    requires
        wmo_known(code),
    ensures
        40 <= code <= 49 ==> wmo_icon_spec(code) == "🌫️"@,
        51 <= code <= 55 ==> wmo_icon_spec(code) == "🌦️"@,
        80 <= code <= 81 ==> wmo_icon_spec(code) == "🌦️"@,
        56 <= code <= 69 ==> wmo_icon_spec(code) == "🌧️"@,
        70 <= code <= 79 || 85 <= code <= 86 ==> wmo_icon_spec(code) == "🌨️"@,
        90 <= code <= 99 || code == 82 ==> wmo_icon_spec(code) == "⛈️"@,
        "🌧️"@ != "🌨️"@ && "🌧️"@ != "⛈️"@ && "🌨️"@ != "⛈️"@,
        0 <= code <= 3 ==> wmo_icon_spec(code) != wmo_icon_spec(((code + 1) % 4) as i32),
        0 <= code <= 3 ==> wmo_icon_spec(code) != "🌧️"@ && wmo_icon_spec(code) != "🌨️"@
            && wmo_icon_spec(code) != "⛈️"@ && wmo_icon_spec(code) != "🌫️"@
            && wmo_icon_spec(code) != "🌦️"@,
{
    reveal_strlit("☀️");
    reveal_strlit("🌤️");
    reveal_strlit("⛅");
    reveal_strlit("☁️");
    reveal_strlit("🌫️");
    reveal_strlit("🌦️");
    reveal_strlit("🌧️");
    reveal_strlit("🌨️");
    reveal_strlit("⛈️");
    reveal_strlit("❓");
    assert("🌧️"@[0] != "🌨️"@[0]);
    assert("🌧️"@[0] != "⛈️"@[0]);
    assert("🌨️"@[0] != "⛈️"@[0]);
    if 0 <= code <= 3 {
        assert(wmo_icon_spec(code)[0] != wmo_icon_spec(((code + 1) % 4) as i32)[0]);
        assert(wmo_icon_spec(code)[0] != "🌧️"@[0]);
        assert(wmo_icon_spec(code)[0] != "🌨️"@[0]);
        assert(wmo_icon_spec(code)[0] != "⛈️"@[0]);
        assert(wmo_icon_spec(code)[0] != "🌫️"@[0]);
        assert(wmo_icon_spec(code)[0] != "🌦️"@[0]);
    }
}

/// A text with its upper-case ASCII letters in lower case.
pub open spec fn ascii_lower(s: Seq<char>) -> Seq<char> {
    s.map_values(|c: char| if 'A' <= c && c <= 'Z' { ((c as int) + 32) as char } else { c })
}

/// The descriptions follow the WMO intensity scheme: in the drizzle, rain and snow
/// decades (base 50, 60, 70) the code one above the base is the "Light" form and the
/// code five above the "Heavy" form of the moderate code three above; the moderate codes
/// are Drizzle, Rain and Snow; the heavy snow showers (86) are the "Heavy" form of the
/// snow showers (85); each freezing pair (56/57, 66/67) and the slight/moderate rain
/// showers (80/81) share one description; and the rime fog, freezing, grain, shower,
/// hail and severe forms are built from the plain fog, drizzle, rain, snow and
/// thunderstorm descriptions.
pub proof fn lemma_text_intensity(base: i32)
    requires
        base == 50 || base == 60 || base == 70,
    ensures
        wmo_text_spec((base + 1) as i32) == "Light "@ + ascii_lower(wmo_text_spec((base + 3) as i32)),
        wmo_text_spec((base + 5) as i32) == "Heavy "@ + ascii_lower(wmo_text_spec((base + 3) as i32)),
        wmo_text_spec((base + 3) as i32) == (if base == 50 { "Drizzle"@ } else if base == 60 { "Rain"@ } else {
            "Snow"@
        }),
        wmo_text_spec(86) == "Heavy "@ + ascii_lower(wmo_text_spec(85)),
        wmo_text_spec(56) == wmo_text_spec(57),
        wmo_text_spec(66) == wmo_text_spec(67),
        wmo_text_spec(80) == wmo_text_spec(81),
        wmo_text_spec(48) == "Rime "@ + ascii_lower(wmo_text_spec(45)),
        wmo_text_spec(56) == "Freezing "@ + ascii_lower(wmo_text_spec(53)),
        wmo_text_spec(66) == "Freezing "@ + ascii_lower(wmo_text_spec(63)),
        wmo_text_spec(77) == wmo_text_spec(73) + " grains"@,
        wmo_text_spec(80) == wmo_text_spec(63) + " showers"@,
        wmo_text_spec(85) == wmo_text_spec(73) + " showers"@,
        wmo_text_spec(96) == wmo_text_spec(95) + " + hail"@,
        wmo_text_spec(99) == "Severe "@ + ascii_lower(wmo_text_spec(95)),
{
    reveal_strlit("Clear sky");
    reveal_strlit("Mostly clear");
    reveal_strlit("Partly cloudy");
    reveal_strlit("Overcast");
    reveal_strlit("Fog");
    reveal_strlit("Rime fog");
    reveal_strlit("Light drizzle");
    reveal_strlit("Drizzle");
    reveal_strlit("Heavy drizzle");
    reveal_strlit("Freezing drizzle");
    reveal_strlit("Light rain");
    reveal_strlit("Rain");
    reveal_strlit("Heavy rain");
    reveal_strlit("Freezing rain");
    reveal_strlit("Light snow");
    reveal_strlit("Snow");
    reveal_strlit("Heavy snow");
    reveal_strlit("Snow grains");
    reveal_strlit("Rain showers");
    reveal_strlit("Violent showers");
    reveal_strlit("Snow showers");
    reveal_strlit("Heavy snow showers");
    reveal_strlit("Thunderstorm");
    reveal_strlit("Thunderstorm + hail");
    reveal_strlit("Severe thunderstorm");
    reveal_strlit("Unknown");
    reveal_strlit("Light ");
    reveal_strlit("Heavy ");
    reveal_strlit("drizzle");
    reveal_strlit("rain");
    reveal_strlit("snow");
    reveal_strlit("snow showers");
    assert(wmo_text_spec((base + 1) as i32) =~= "Light "@ + ascii_lower(wmo_text_spec((base + 3) as i32)));
    assert(wmo_text_spec((base + 5) as i32) =~= "Heavy "@ + ascii_lower(wmo_text_spec((base + 3) as i32)));
    assert(wmo_text_spec(86) =~= "Heavy "@ + ascii_lower(wmo_text_spec(85)));
    reveal_strlit("Rime ");
    reveal_strlit("Freezing ");
    reveal_strlit(" grains");
    reveal_strlit(" showers");
    reveal_strlit(" + hail");
    reveal_strlit("Severe ");
    reveal_strlit("fog");
    reveal_strlit("thunderstorm");
    assert(wmo_text_spec(48) =~= "Rime "@ + ascii_lower(wmo_text_spec(45)));
    assert(wmo_text_spec(56) =~= "Freezing "@ + ascii_lower(wmo_text_spec(53)));
    assert(wmo_text_spec(66) =~= "Freezing "@ + ascii_lower(wmo_text_spec(63)));
    assert(wmo_text_spec(77) =~= wmo_text_spec(73) + " grains"@);
    assert(wmo_text_spec(80) =~= wmo_text_spec(63) + " showers"@);
    assert(wmo_text_spec(85) =~= wmo_text_spec(73) + " showers"@);
    assert(wmo_text_spec(96) =~= wmo_text_spec(95) + " + hail"@);
    assert(wmo_text_spec(99) =~= "Severe "@ + ascii_lower(wmo_text_spec(95)));
}

/// The compass point of one of the sixteen 22.5° sectors, counted clockwise from north.
pub open spec fn compass_point(i: int) -> Seq<char> {
    if i == 0 { "N"@ }
    else if i == 1 { "NNE"@ }
    else if i == 2 { "NE"@ }
    else if i == 3 { "ENE"@ }
    else if i == 4 { "E"@ }
    else if i == 5 { "ESE"@ }
    else if i == 6 { "SE"@ }
    else if i == 7 { "SSE"@ }
    else if i == 8 { "S"@ }
    else if i == 9 { "SSW"@ }
    else if i == 10 { "SW"@ }
    else if i == 11 { "WSW"@ }
    else if i == 12 { "W"@ }
    else if i == 13 { "WNW"@ }
    else if i == 14 { "NW"@ }
    else { "NNW"@ }
}

/// Of the two sectors next to an intercardinal sector `i` (two sectors away on either
/// side), the one on the north–south axis.
pub open spec fn north_south_side(i: int) -> int {
    if (i - 2) % 8 == 0 { i - 2 } else { (i + 2) % 16 }
}

/// Of the two sectors next to an intercardinal sector `i`, the one on the east–west axis.
pub open spec fn east_west_side(i: int) -> int {
    if (i - 2) % 8 == 0 { (i + 2) % 16 } else { i - 2 }
}

/// The cardinal sector (a multiple of four) next to an odd sector `i`.
pub open spec fn nearest_cardinal(i: int) -> int {
    if (i - 1) % 4 == 0 { i - 1 } else { (i + 1) % 16 }
}

/// The intercardinal sector (two more than a multiple of four) next to an odd sector `i`.
pub open spec fn nearest_intercardinal(i: int) -> int {
    if (i - 1) % 4 == 0 { i + 1 } else { i - 1 }
}

/// The direction opposite a compass letter.
pub open spec fn opposite_letter(c: char) -> char {
    if c == 'N' { 'S' } else if c == 'S' { 'N' } else if c == 'E' { 'W' } else if c == 'W' { 'E' } else { c }
}

/// The compass point opposite a compass point: each letter reversed.
pub open spec fn opposite_point(p: Seq<char>) -> Seq<char> {
    p.map_values(|c: char| opposite_letter(c))
}

/// The sixteen-point compass rose: the four cardinal sectors 0, 4, 8 and 12 are N, E, S
/// and W clockwise; an intercardinal sector joins its north–south neighbour to its
/// east–west neighbour (N and E make NE); an odd sector joins its nearest cardinal to
/// its nearest intercardinal (N and NE make NNE); and the sector eight steps on is the
/// opposite point.
pub proof fn lemma_compass_rose(i: int)
    requires
        0 <= i < 16,
    ensures
        compass_point(0) == "N"@,
        compass_point(4) == "E"@,
        compass_point(8) == "S"@,
        compass_point(12) == "W"@,
        i % 4 == 2 ==> compass_point(i)
            == compass_point(north_south_side(i)) + compass_point(east_west_side(i)),
        i % 2 == 1 ==> compass_point(i)
            == compass_point(nearest_cardinal(i)) + compass_point(nearest_intercardinal(i)),
        compass_point((i + 8) % 16) == opposite_point(compass_point(i)),
{
    reveal_strlit("N");
    reveal_strlit("NNE");
    reveal_strlit("NE");
    reveal_strlit("ENE");
    reveal_strlit("E");
    reveal_strlit("ESE");
    reveal_strlit("SE");
    reveal_strlit("SSE");
    reveal_strlit("S");
    reveal_strlit("SSW");
    reveal_strlit("SW");
    reveal_strlit("WSW");
    reveal_strlit("W");
    reveal_strlit("WNW");
    reveal_strlit("NW");
    reveal_strlit("NNW");
    if i % 4 == 2 {
        assert(compass_point(i) =~= compass_point(north_south_side(i)) + compass_point(east_west_side(i)));
    }
    if i % 2 == 1 {
        assert(compass_point(i)
            =~= compass_point(nearest_cardinal(i)) + compass_point(nearest_intercardinal(i)));
    }
    assert(compass_point((i + 8) % 16) =~= opposite_point(compass_point(i)));
}

/// The compass point of a wind-direction sector: sector 0 is north, and sectors are
/// counted clockwise in steps of 22.5°, modulo 16.
pub fn cardinal_point(sector: usize) -> (r: &'static str)
    ensures
        r@ == compass_point(sector as int % 16),
{
    match sector % 16 {
        0 => "N",
        1 => "NNE",
        2 => "NE",
        3 => "ENE",
        4 => "E",
        5 => "ESE",
        6 => "SE",
        7 => "SSE",
        8 => "S",
        9 => "SSW",
        10 => "SW",
        11 => "WSW",
        12 => "W",
        13 => "WNW",
        14 => "NW",
        _ => "NNW",
    }
}

// ---------------------------------------------------------------------------
// Time and date labels
// ---------------------------------------------------------------------------

/// The text before the first 'T' of `s` (all of `s` when it holds none).
pub open spec fn before_t(s: Seq<char>) -> Seq<char>
    decreases s.len(),
{
    if s.len() == 0 {
        s
    } else if s[0] == 'T' {
        Seq::empty()
    } else {
        seq![s[0]] + before_t(s.drop_first())
    }
}

/// The text after the first 'T' of `s`, or `None` when `s` holds no 'T'.
pub open spec fn after_t(s: Seq<char>) -> Option<Seq<char>>
    decreases s.len(),
{
    if s.len() == 0 {
        None
    } else if s[0] == 'T' {
        Some(s.drop_first())
    } else {
        after_t(s.drop_first())
    }
}

/// The second 'T'-separated field of `s`, or `s` itself when it has a single field:
/// the time part of an ISO timestamp such as "2024-04-17T14:00".
pub open spec fn time_field(s: Seq<char>) -> Seq<char> {
    match after_t(s) {
        Some(rest) => before_t(rest),
        None => s,
    }
}

/// The short time label: the RFC 3339 reading of `iso` when there is one, else the
/// plain "date T hour:minute" reading, else the time field of the text.
pub open spec fn time_short_spec(
    iso: Seq<char>,
    rfc3339: Option<Seq<char>>,
    naive: Option<Seq<char>>,
) -> Seq<char> {
    match rfc3339 {
        Some(t) => t,
        None => match naive {
            Some(t) => t,
            None => time_field(iso),
        },
    }
}

/// The weekday label of the `i`-th day of the daily table.
pub open spec fn day_dow_spec(iso: Seq<char>, i: int, weekday: Option<Seq<char>>) -> Seq<char> {
    if i == 0 {
        "Today"@
    } else {
        match weekday {
            Some(w) => w,
            None => iso,
        }
    }
}

/// The "month day" label of a daily-table date.
pub open spec fn day_date_spec(iso: Seq<char>, month_day: Option<Seq<char>>) -> Seq<char> {
    match month_day {
        Some(d) => d,
        None => iso,
    }
}

/// The rendering patterns a parsed date-and-time value is known to render with: each
/// names only fields such a value has, so rendering cannot fail.
pub open spec fn datetime_render_pattern(f: Seq<char>) -> bool {
    f == "%a, %b %e, %H:%M"@
}

/// The rendering patterns a parsed date is known to render with: each names only
/// fields a date has, so rendering cannot fail.
pub open spec fn date_render_pattern(f: Seq<char>) -> bool {
    f == "%a"@ || f == "%b %e"@
}

/// What `chrono::DateTime::parse_from_rfc3339` of a text, rendered by `format` with
/// a pattern, yields: `None` where the parse fails.
pub uninterp spec fn rfc3339_rendered(iso: Seq<char>, out_fmt: Seq<char>) -> Option<Seq<char>>;

/// What `chrono::NaiveDateTime::parse_from_str` of a text with a parse pattern, rendered
/// by `format` with a pattern, yields: `None` where the parse fails.
pub uninterp spec fn naive_datetime_rendered(
    iso: Seq<char>,
    parse_fmt: Seq<char>,
    out_fmt: Seq<char>,
) -> Option<Seq<char>>;

/// What `chrono::NaiveDate::parse_from_str` of a text with a parse pattern, rendered by
/// `format` with a pattern, yields: `None` where the parse fails.
pub uninterp spec fn naive_date_rendered(
    iso: Seq<char>,
    parse_fmt: Seq<char>,
    out_fmt: Seq<char>,
) -> Option<Seq<char>>;

/// Calls `chrono::DateTime::parse_from_rfc3339` and renders a parsed value with
/// `format(out_fmt)`. The contract claims only that the outcome is a function of the
/// text and the pattern (named `rfc3339_rendered`); chrono's grammar, calendar and
/// rendering are not restated. Rendering fails, and `to_string` panics, on patterns
/// naming fields the value lacks or unknown specifiers, so the pattern is limited to
/// one known to render.
#[verifier::external_body]
fn chrono_rfc3339_rendered(iso: &str, out_fmt: &str) -> (r: Option<String>)
    requires
        datetime_render_pattern(out_fmt@),
    ensures
        r.deep_view() == rfc3339_rendered(iso@, out_fmt@),
{
    match chrono::DateTime::parse_from_rfc3339(iso) {
        Ok(t) => Some(t.format(out_fmt).to_string()),
        Err(_) => None,
    }
}

/// Calls `chrono::NaiveDateTime::parse_from_str(iso, parse_fmt)` and renders a parsed
/// value with `format(out_fmt)`. The contract claims only that the outcome is a
/// function of the text and the two patterns (named `naive_datetime_rendered`).
/// An unusable parse pattern makes the parse fail, not panic; the rendering pattern is
/// limited to one known to render.
#[verifier::external_body]
fn chrono_naive_datetime_rendered(iso: &str, parse_fmt: &str, out_fmt: &str) -> (r: Option<String>)
    requires
        datetime_render_pattern(out_fmt@),
    ensures
        r.deep_view() == naive_datetime_rendered(iso@, parse_fmt@, out_fmt@),
{
    match chrono::NaiveDateTime::parse_from_str(iso, parse_fmt) {
        Ok(t) => Some(t.format(out_fmt).to_string()),
        Err(_) => None,
    }
}

/// Calls `chrono::NaiveDate::parse_from_str(iso, parse_fmt)` and renders a parsed date
/// with `format(out_fmt)`. The contract claims only that the outcome is a function of
/// the text and the two patterns (named `naive_date_rendered`). An unusable parse
/// pattern makes the parse fail, not panic; the rendering pattern is limited to ones
/// known to render a date.
#[verifier::external_body]
fn chrono_naive_date_rendered(iso: &str, parse_fmt: &str, out_fmt: &str) -> (r: Option<String>)
    requires
        date_render_pattern(out_fmt@),
    ensures
        r.deep_view() == naive_date_rendered(iso@, parse_fmt@, out_fmt@),
{
    match chrono::NaiveDate::parse_from_str(iso, parse_fmt) {
        Ok(t) => Some(t.format(out_fmt).to_string()),
        Err(_) => None,
    }
}

/// Position of the first 'T' of `s` at or after `from`, or the length of `s`.
fn find_t_from(s: &str, from: usize) -> (r: usize)
    requires
        from <= s@.len(),
    ensures
        from <= r <= s@.len(),
        r < s@.len() ==> s@[r as int] == 'T',
        forall|j: int| from <= j < r ==> s@[j] != 'T',
{
    let n: usize = s.unicode_len();
    let mut i = from;
    while i < n
        invariant
            n == s@.len(),
            from <= i <= n,
            forall|j: int| from <= j < i ==> s@[j] != 'T',
        decreases n - i,
    {
        if s.get_char(i) == 'T' {
            return i;
        }
        i = i + 1;
    }
    i
}

proof fn lemma_before_t(s: Seq<char>, from: int, to: int)
    requires
        0 <= from <= to <= s.len(),
        to < s.len() ==> s[to] == 'T',
        forall|j: int| from <= j < to ==> s[j] != 'T',
    ensures
        before_t(s.skip(from)) == s.subrange(from, to),
    decreases to - from,
{
    if from == to {
        if to < s.len() {
            assert(s.skip(from)[0] == 'T');
        }
        assert(s.subrange(from, to) =~= Seq::<char>::empty());
    } else {
        lemma_before_t(s, from + 1, to);
        assert(s.skip(from).drop_first() =~= s.skip(from + 1));
        assert(s.subrange(from, to) =~= seq![s[from]] + s.subrange(from + 1, to));
    }
}

proof fn lemma_after_t(s: Seq<char>, from: int, to: int)
    requires
        0 <= from <= to <= s.len(),
        to < s.len() ==> s[to] == 'T',
        forall|j: int| from <= j < to ==> s[j] != 'T',
    ensures
        after_t(s.skip(from)) == (if to < s.len() { Some(s.skip(to + 1)) } else { None }),
    decreases to - from,
{
    if from == to {
        if to < s.len() {
            assert(s.skip(from).drop_first() =~= s.skip(to + 1));
        }
    } else {
        lemma_after_t(s, from + 1, to);
        assert(s.skip(from).drop_first() =~= s.skip(from + 1));
    }
}

/// The time field of a timestamp text: what follows the first 'T' up to the next 'T'.
fn time_field_of(iso: &str) -> (r: &str)
    ensures
        r@ == time_field(iso@),
{
    let n: usize = iso.unicode_len();
    let p: usize = find_t_from(iso, 0);
    proof {
        lemma_after_t(iso@, 0, p as int);
        assert(iso@.skip(0) =~= iso@);
    }
    if p == n {
        return iso;
    }
    let q: usize = find_t_from(iso, p + 1);
    proof {
        lemma_before_t(iso@, p + 1, q as int);
    }
    iso.substring_char(p + 1, q)
}

/// The short time label from the two chrono readings of `iso`: the RFC 3339 reading
/// first, then the "date T hour:minute" reading, else the time field of the text.
pub fn time_short_from(iso: &str, rfc3339: Option<String>, naive: Option<String>) -> (r: String)
    ensures
        r@ == time_short_spec(iso@, rfc3339.deep_view(), naive.deep_view()),
        rfc3339 is None && naive is None && !iso@.contains('T') ==> r@ == iso@,
{
    proof {
        if !iso@.contains('T') {
            lemma_after_t(iso@, 0, iso@.len() as int);
            assert(iso@.skip(0) =~= iso@);
        }
    }
    match rfc3339 {
        Some(t) => t,
        None => match naive {
            Some(t) => t,
            None => String::from_str(time_field_of(iso)),
        },
    }
}

/// "Thu, Apr 17, 14:00" for "2025-04-17T14:00": weekday, month, day, hour and minute of
/// a forecast timestamp, read as RFC 3339 or as "date T hour:minute"; the time field of
/// the text when it is neither.
pub fn format_time_short(iso: &str) -> (r: String)
    ensures
        r@ == time_short_spec(
            iso@,
            rfc3339_rendered(iso@, "%a, %b %e, %H:%M"@),
            naive_datetime_rendered(iso@, "%Y-%m-%dT%H:%M"@, "%a, %b %e, %H:%M"@),
        ),
        rfc3339_rendered(iso@, "%a, %b %e, %H:%M"@) is None
            && naive_datetime_rendered(iso@, "%Y-%m-%dT%H:%M"@, "%a, %b %e, %H:%M"@) is None
            && !iso@.contains('T') ==> r@ == iso@,
{
    let rfc3339 = chrono_rfc3339_rendered(iso, "%a, %b %e, %H:%M");
    let naive = chrono_naive_datetime_rendered(iso, "%Y-%m-%dT%H:%M", "%a, %b %e, %H:%M");
    time_short_from(iso, rfc3339, naive)
}

/// The weekday label of the `i`-th daily row from the chrono reading of its date.
pub fn day_dow_from(iso: &str, i: usize, weekday: Option<String>) -> (r: String)
    ensures
        r@ == day_dow_spec(iso@, i as int, weekday.deep_view()),
{
    if i == 0 {
        return String::from_str("Today");
    }
    match weekday {
        Some(w) => w,
        None => String::from_str(iso),
    }
}

/// "Today" for the first daily row, else the weekday abbreviation of its date, else
/// the date text unchanged.
pub fn format_day_dow(iso: &str, i: usize) -> (r: String)
    ensures
        r@ == day_dow_spec(iso@, i as int, naive_date_rendered(iso@, "%Y-%m-%d"@, "%a"@)),
        i == 0 ==> r@ == "Today"@,
{
    if i == 0 {
        return String::from_str("Today");
    }
    let weekday = chrono_naive_date_rendered(iso, "%Y-%m-%d", "%a");
    day_dow_from(iso, i, weekday)
}

/// The "month day" label of a daily row from the chrono reading of its date.
pub fn day_date_from(iso: &str, month_day: Option<String>) -> (r: String)
    ensures
        r@ == day_date_spec(iso@, month_day.deep_view()),
{
    match month_day {
        Some(d) => d,
        None => String::from_str(iso),
    }
}

/// "Apr 17" for "2024-04-17"; the text unchanged when it is no such date.
pub fn format_day_date(iso: &str) -> (r: String)
    ensures
        r@ == day_date_spec(iso@, naive_date_rendered(iso@, "%Y-%m-%d"@, "%b %e"@)),
        naive_date_rendered(iso@, "%Y-%m-%d"@, "%b %e"@) is None ==> r@ == iso@,
{
    let parsed = chrono_naive_date_rendered(iso, "%Y-%m-%d", "%b %e");
    day_date_from(iso, parsed)
}

} // verus!
