use aurora_cast::state::{
    altitude_label, clamp_hour, is_day_tick, tick_class, TICK_HOURS, AppState, Layer, Model, Tab, TempUnit, WindUnit, RANGE_HOURS,
};

const LAYERS: [Layer; 8] = [
    Layer::Wind, Layer::Temp, Layer::Rain, Layer::Clouds,
    Layer::Pressure, Layer::Waves, Layer::Snow, Layer::Satellite,
];
const MODELS: [Model; 4] = [Model::Ecmwf, Model::Gfs, Model::Icon, Model::Ukmo];

#[test]
fn layer_keys_and_labels() {
    assert_eq!(Layer::Wind.key(), "wind");
    assert_eq!(Layer::Satellite.key(), "satellite");
    assert_eq!(Layer::Pressure.label(), "MSL pressure");
    assert_eq!(Layer::Satellite.label(), "Infrared");
    assert_eq!(Layer::Rain.menu_entry(), ("🌧️", "Rain & Radar"));
    assert_eq!(Layer::Snow.legend_range(), ("0", "1m+"));
    assert_eq!(Layer::Satellite.legend_range(), ("warm", "cold cloud tops"));
    assert_eq!(Layer::Waves.bar_class(), "bar waves");
}

#[test]
fn keys_are_distinct() {
    for (i, a) in LAYERS.iter().enumerate() {
        for (j, b) in LAYERS.iter().enumerate() {
            assert_eq!(a.key() == b.key(), i == j);
        }
    }
    for (i, a) in MODELS.iter().enumerate() {
        for (j, b) in MODELS.iter().enumerate() {
            assert_eq!(a.key() == b.key(), i == j);
        }
    }
}

#[test]
fn model_keys_and_labels() {
    assert_eq!(Model::Ecmwf.key(), "ecmwf");
    assert_eq!(Model::Ukmo.key(), "ukmo");
    assert_eq!(Model::Gfs.label(), "GFS");
    assert_eq!(Model::Icon.label(), "ICON");
}

#[test]
fn unit_labels_and_cycles() {
    assert_eq!(TempUnit::C.label(), "°C");
    assert_eq!(TempUnit::F.label(), "°F");
    assert_eq!(TempUnit::C.next(), TempUnit::F);
    assert_eq!(TempUnit::F.next().next(), TempUnit::F);
    assert_eq!(WindUnit::Kt.label(), "kt");
    assert_eq!(WindUnit::Kmh.next(), WindUnit::Mph);
    assert_eq!(WindUnit::Mph.next(), WindUnit::Ms);
    assert_eq!(WindUnit::Ms.next(), WindUnit::Kt);
    assert_eq!(WindUnit::Kt.next(), WindUnit::Kmh);
    for w in [WindUnit::Kmh, WindUnit::Mph, WindUnit::Ms, WindUnit::Kt] {
        assert_eq!(w.next().next().next().next(), w);
        assert_ne!(w.next(), w);
    }
}

#[test]
fn new_state_defaults() {
    let s = AppState::new();
    assert_eq!(s.layer, Layer::Wind);
    assert_eq!(s.model, Model::Ecmwf);
    assert_eq!(s.altitude, "surface");
    assert_eq!(s.temp_unit, TempUnit::C);
    assert_eq!(s.wind_unit, WindUnit::Kmh);
    assert_eq!(s.time_hours, 0);
    assert!(!s.playing);
    assert!(!s.layer_menu_open);
    assert!(!s.premium_open);
    assert!(!s.downloads_open);
    assert!(s.detail_open);
    assert_eq!(s.tab, Tab::Hourly);
    assert_eq!(s.toast, None);
    assert_eq!(s.model_run, "");
    assert_eq!(s.toast_class(), "toast");
}

#[test]
fn cycle_units_announces_new_units() {
    let mut s = AppState::new();
    s.cycle_units();
    assert_eq!(s.temp_unit, TempUnit::F);
    assert_eq!(s.wind_unit, WindUnit::Mph);
    assert_eq!(s.toast.as_deref(), Some("Units: °F · mph"));
    assert_eq!(s.toast_class(), "toast show");
    s.cycle_units();
    s.cycle_units();
    s.cycle_units();
    assert_eq!(s.temp_unit, TempUnit::C);
    assert_eq!(s.wind_unit, WindUnit::Kmh);
    assert_eq!(s.toast.as_deref(), Some("Units: °C · km/h"));
}

#[test]
fn choosing_layer_model_altitude() {
    let mut s = AppState::new();
    s.choose_layer(Layer::Temp);
    assert_eq!(s.layer, Layer::Temp);
    assert_eq!(s.toast.as_deref(), Some("Layer: Temperature"));
    s.choose_model(Model::Gfs);
    assert_eq!(s.model, Model::Gfs);
    assert_eq!(s.toast.as_deref(), Some("Model: GFS"));
    s.choose_altitude("850");
    assert_eq!(s.altitude, "850");
    assert_eq!(s.toast.as_deref(), Some("Altitude: 850 hPa"));
    s.choose_altitude("surface");
    assert_eq!(s.toast.as_deref(), Some("Altitude: Surface"));
}

#[test]
fn altitude_labels() {
    assert_eq!(altitude_label("surface"), "Surface");
    assert_eq!(altitude_label("300"), "300 hPa");
    assert_eq!(altitude_label("Surface"), "Surface hPa");
}

#[test]
fn bottom_navigation() {
    let mut s = AppState::new();
    assert!(!s.map_nav_active());
    s.nav_toggle_layers();
    assert!(s.layer_menu_open);
    assert!(!s.detail_open);
    s.nav_toggle_forecast();
    assert!(s.detail_open);
    assert!(!s.layer_menu_open);
    s.nav_toggle_forecast();
    assert!(!s.detail_open);
    assert!(s.map_nav_active());
    s.toggle_layer_menu();
    s.detail_open = true;
    assert!(s.layer_menu_open && s.detail_open);
    s.nav_map();
    assert!(!s.layer_menu_open && !s.detail_open);
    assert!(s.map_nav_active());
}

#[test]
fn closing_layers_keeps_forecast_panel() {
    let mut s = AppState::new();
    s.toggle_layer_menu();
    assert!(s.layer_menu_open && s.detail_open);
    s.nav_toggle_layers();
    assert!(!s.layer_menu_open);
    assert!(s.detail_open);
}

#[test]
fn playback_wraps_around() {
    let mut s = AppState::new();
    s.advance_playback();
    assert_eq!(s.time_hours, 1);
    s.scrub_to_hour(RANGE_HOURS - 1);
    s.advance_playback();
    assert_eq!(s.time_hours, 0);
    for _ in 0..RANGE_HOURS {
        s.advance_playback();
    }
    assert_eq!(s.time_hours, 0);
}

#[test]
fn scrubbing_clamps_to_range() {
    let mut s = AppState::new();
    s.scrub_to_hour(-3);
    assert_eq!(s.time_hours, 0);
    s.scrub_to_hour(500);
    assert_eq!(s.time_hours, 239);
    s.scrub_to_hour(17);
    assert_eq!(s.time_hours, 17);
    assert_eq!(clamp_hour(i32::MIN), 0);
    assert_eq!(clamp_hour(i32::MAX), 239);
}

#[test]
fn selecting_a_day_moves_to_noon() {
    let mut s = AppState::new();
    s.select_day(0);
    assert_eq!(s.time_hours, 12);
    s.select_day(3);
    assert_eq!(s.time_hours, 84);
    s.select_day(9);
    assert_eq!(s.time_hours, 228);
    s.select_day(10);
    assert_eq!(s.time_hours, 239);
    s.select_day(-1);
    assert_eq!(s.time_hours, -12);
    s.advance_playback();
    assert_eq!(s.time_hours, -11);
}

#[test]
fn panel_flags_tab_playback_and_messages() {
    let mut s = AppState::new();
    s.set_detail_open(false);
    assert!(!s.detail_open);
    s.set_premium_open(true);
    assert!(s.premium_open);
    s.set_downloads_open(true);
    assert!(s.downloads_open);
    s.set_downloads_open(false);
    assert!(!s.downloads_open);
    s.select_tab(Tab::Daily);
    assert_eq!(s.tab, Tab::Daily);
    s.toggle_playing();
    assert!(s.playing);
    s.toggle_playing();
    assert!(!s.playing);
    s.show_toast("Location unavailable".to_string());
    assert_eq!(s.toast.as_deref(), Some("Location unavailable"));
    assert_eq!(s.toast_class(), "toast show");
    s.clear_toast();
    assert_eq!(s.toast, None);
    s.set_model_run("Apr 17, 14:00".to_string());
    assert_eq!(s.model_run, "Apr 17, 14:00");
    assert_eq!(s.layer, Layer::Wind);
}

#[test]
fn timeline_ticks() {
    assert_eq!(RANGE_HOURS / TICK_HOURS, 40);
    assert!(is_day_tick("00"));
    assert!(!is_day_tick("06"));
    assert!(!is_day_tick("0"));
    assert_eq!(tick_class(true), "tick day");
    assert_eq!(tick_class(false), "tick");
}
