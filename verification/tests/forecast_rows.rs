use aurora_cast::forecast::{hourly_rows, HOURLY_ROWS};
use aurora_cast::text::{str_equal, str_less};

fn hours(day: u32, from: u32, to: u32) -> Vec<String> {
    (from..to).map(|h| format!("2024-04-{:02}T{:02}:00", day, h)).collect()
}

#[test]
fn hourly_rows_skip_past_hours() {
    let times = hours(17, 0, 24);
    let rows = hourly_rows(&times, "2024-04-17T10:00");
    assert_eq!(rows, (10..24).collect::<Vec<usize>>());
}

#[test]
fn hourly_rows_at_most_forty_eight() {
    let mut times = hours(17, 0, 24);
    times.extend(hours(18, 0, 24));
    times.extend(hours(19, 0, 24));
    let rows = hourly_rows(&times, "2024-04-17T05:00");
    assert_eq!(HOURLY_ROWS, 48);
    assert_eq!(rows.len(), 48);
    assert_eq!(rows[0], 5);
    assert_eq!(rows[47], 52);
}

#[test]
fn hourly_rows_empty_when_all_past() {
    let times = hours(17, 0, 5);
    assert!(hourly_rows(&times, "2024-04-18T00:00").is_empty());
    assert!(hourly_rows(&Vec::new(), "").is_empty());
}

#[test]
fn hourly_rows_keep_order_with_gaps() {
    let times = vec![
        "2024-04-17T12:00".to_string(),
        "2024-04-17T08:00".to_string(),
        "2024-04-17T09:00".to_string(),
        "2024-04-16T23:00".to_string(),
        "2024-04-17T09:00".to_string(),
    ];
    assert_eq!(hourly_rows(&times, "2024-04-17T09:00"), vec![0, 2, 4]);
}

#[test]
fn text_order_matches_str_order() {
    let samples = ["", "a", "ab", "b", "abc", "é", "Z", "2024-04-17T09:00", "2024-04-17T10:00"];
    for a in samples.iter() {
        for b in samples.iter() {
            assert_eq!(str_less(a, b), a < b, "{:?} {:?}", a, b);
            assert_eq!(str_equal(a, b), a == b, "{:?} {:?}", a, b);
        }
    }
}
