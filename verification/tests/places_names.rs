use aurora_cast::places::{place_name, search_display_name};

#[test]
fn search_name_with_and_without_country() {
    assert_eq!(search_display_name("Bern", "Switzerland"), "Bern, Switzerland");
    assert_eq!(search_display_name("Bern", ""), "Bern");
    assert_eq!(search_display_name("", "Chile"), ", Chile");
}

#[test]
fn place_name_from_geocoding() {
    assert_eq!(place_name("Oslo", "Norway"), Some("Oslo, Norway".to_string()));
    assert_eq!(place_name("Oslo", ""), Some("Oslo".to_string()));
    assert_eq!(place_name("", "Norway"), None);
    assert_eq!(place_name("", ""), None);
}
