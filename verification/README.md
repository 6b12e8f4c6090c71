# aurora_cast

The display logic of the AuroraCast weather viewer, verified with Verus.

- `src/weather.rs` — WMO weather-code icons and descriptions, compass points, and the
  time and date labels of forecast rows (parsing and rendering of dates by `chrono`).
- `src/forecast.rs` — which hourly rows the forecast panel lists.
- `src/state.rs` — map layers, forecast models, display units, and the interface state
  with the transitions made by its controls.
- `src/places.rs` — display names of searched and picked places.
- `src/text.rs` — character-wise comparison of texts.
- `app/` — the Dioxus component tree, the bridge to the map controller, forecast
  deserialisation and the floating-point unit conversions.
