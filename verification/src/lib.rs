//! Forecast-display logic of the AuroraCast weather viewer: WMO code tables,
//! date/time labels, unit and layer tables, and the user-interface state and its
//! transitions.

pub mod text;
pub mod forecast;
pub mod places;
pub mod state;
pub mod weather;
