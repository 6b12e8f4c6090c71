use aurora_cast::weather::{
    cardinal_point, day_date_from, day_dow_from, format_day_date, format_day_dow,
    format_time_short, time_short_from, wmo_icon, wmo_text,
};

#[test]
fn wmo_icon_known_codes() {
    assert_eq!(wmo_icon(0), "☀️");
    assert_eq!(wmo_icon(1), "🌤️");
    assert_eq!(wmo_icon(2), "⛅");
    assert_eq!(wmo_icon(3), "☁️");
    assert_eq!(wmo_icon(48), "🌫️");
    assert_eq!(wmo_icon(55), "🌦️");
    assert_eq!(wmo_icon(57), "🌧️");
    assert_eq!(wmo_icon(66), "🌧️");
    assert_eq!(wmo_icon(77), "🌨️");
    assert_eq!(wmo_icon(81), "🌦️");
    assert_eq!(wmo_icon(82), "⛈️");
    assert_eq!(wmo_icon(86), "🌨️");
    assert_eq!(wmo_icon(99), "⛈️");
}

#[test]
fn wmo_icon_unknown_codes() {
    assert_eq!(wmo_icon(4), "❓");
    assert_eq!(wmo_icon(-1), "❓");
    assert_eq!(wmo_icon(100), "❓");
}

#[test]
fn wmo_text_known_and_unknown() {
    assert_eq!(wmo_text(0), "Clear sky");
    assert_eq!(wmo_text(45), "Fog");
    assert_eq!(wmo_text(48), "Rime fog");
    assert_eq!(wmo_text(56), "Freezing drizzle");
    assert_eq!(wmo_text(67), "Freezing rain");
    assert_eq!(wmo_text(80), "Rain showers");
    assert_eq!(wmo_text(86), "Heavy snow showers");
    assert_eq!(wmo_text(96), "Thunderstorm + hail");
    assert_eq!(wmo_text(99), "Severe thunderstorm");
    assert_eq!(wmo_text(98), "Unknown");
    assert_eq!(wmo_text(i32::MIN), "Unknown");
}

#[test]
fn icon_and_text_recognise_the_same_codes() {
    for code in -10..200 {
        assert_eq!(wmo_icon(code) == "❓", wmo_text(code) == "Unknown", "code {}", code);
    }
}

#[test]
fn cardinal_points_by_sector() {
    assert_eq!(cardinal_point(0), "N");
    assert_eq!(cardinal_point(1), "NNE");
    assert_eq!(cardinal_point(4), "E");
    assert_eq!(cardinal_point(8), "S");
    assert_eq!(cardinal_point(12), "W");
    assert_eq!(cardinal_point(15), "NNW");
    assert_eq!(cardinal_point(16), "N");
    assert_eq!(cardinal_point(20), "E");
}

#[test]
fn time_short_of_naive_timestamp() {
    assert_eq!(format_time_short("2025-04-17T14:00"), "Thu, Apr 17, 14:00");
    assert_eq!(format_time_short("2024-04-17T07:45"), "Wed, Apr 17, 07:45");
    assert_eq!(format_time_short("2024-04-05T00:00"), "Fri, Apr  5, 00:00");
}

#[test]
fn time_short_of_rfc3339_timestamp() {
    assert_eq!(format_time_short("2024-04-17T14:05:00+02:00"), "Wed, Apr 17, 14:05");
    assert_eq!(format_time_short("2024-12-31T23:59:59Z"), "Tue, Dec 31, 23:59");
}

#[test]
fn time_short_falls_back_to_time_field() {
    assert_eq!(format_time_short("junk"), "junk");
    assert_eq!(format_time_short("dayTnightTmore"), "night");
    assert_eq!(format_time_short("2024-13-45T25:00"), "25:00");
    assert_eq!(format_time_short("xT"), "");
    assert_eq!(format_time_short(""), "");
}

#[test]
fn time_short_from_prefers_rfc3339_then_naive() {
    assert_eq!(time_short_from("aTb", Some("09:30".to_string()), Some("10:00".to_string())), "09:30");
    assert_eq!(time_short_from("aTb", None, Some("10:00".to_string())), "10:00");
    assert_eq!(time_short_from("aTb", None, None), "b");
}

#[test]
fn day_dow_first_row_is_today() {
    assert_eq!(format_day_dow("2024-04-17", 0), "Today");
    assert_eq!(format_day_dow("not a date", 0), "Today");
}

#[test]
fn day_dow_weekday_and_fallback() {
    assert_eq!(format_day_dow("2024-04-17", 1), "Wed");
    assert_eq!(format_day_dow("2024-04-21", 5), "Sun");
    assert_eq!(format_day_dow("2024-02-30", 3), "2024-02-30");
    assert_eq!(day_dow_from("x", 2, Some("Mon".to_string())), "Mon");
    assert_eq!(day_dow_from("x", 2, None), "x");
    assert_eq!(day_dow_from("x", 0, Some("Mon".to_string())), "Today");
}

#[test]
fn day_date_label_and_fallback() {
    assert_eq!(format_day_date("2024-04-17"), "Apr 17");
    assert_eq!(format_day_date("2024-04-05"), "Apr  5");
    assert_eq!(format_day_date("2024-12-31"), "Dec 31");
    assert_eq!(format_day_date("nope"), "nope");
    assert_eq!(day_date_from("x", Some("Jan  1".to_string())), "Jan  1");
    assert_eq!(day_date_from("x", None), "x");
}
