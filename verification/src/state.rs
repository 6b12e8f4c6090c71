//! The map layers, forecast models and display units, and the state of the user
//! interface with the transitions its controls make.

use vstd::prelude::*;
use vstd::string::*;
use crate::text::str_equal;

verus! {

/// Hours covered by the timeline: ten days of hourly steps.
pub const RANGE_HOURS: i32 = 240;

#[derive(Clone, Copy, PartialEq, Eq, Debug, Structural)]
pub enum Layer {
    Wind,
    Temp,
    Rain,
    Clouds,
    Pressure,
    Waves,
    Snow,
    Satellite,
}

impl Layer {
    /// The identifier the map controller knows the layer by.
    pub open spec fn key_spec(self) -> Seq<char> {
        match self {
            Layer::Wind => "wind"@,
            Layer::Temp => "temp"@,
            Layer::Rain => "rain"@,
            Layer::Clouds => "clouds"@,
            Layer::Pressure => "pressure"@,
            Layer::Waves => "waves"@,
            Layer::Snow => "snow"@,
            Layer::Satellite => "satellite"@,
        }
    }

    /// The name of the layer in the legend and in messages.
    pub open spec fn label_spec(self) -> Seq<char> {
        match self {
            Layer::Wind => "Wind speed"@,
            Layer::Temp => "Temperature"@,
            Layer::Rain => "Precipitation"@,
            Layer::Clouds => "Cloud cover"@,
            Layer::Pressure => "MSL pressure"@,
            Layer::Waves => "Wave height"@,
            Layer::Snow => "Snow depth"@,
            Layer::Satellite => "Infrared"@,
        }
    }

    /// The texts at the low and the high end of the layer's legend bar.
    pub open spec fn legend_spec(self) -> (Seq<char>, Seq<char>) {
        match self {
            Layer::Wind => ("0"@, "80+ km/h"@),
            Layer::Temp => ("-40°"@, "+45°"@),
            Layer::Rain => ("drizzle"@, "storm"@),
            Layer::Clouds => ("clear"@, "overcast"@),
            Layer::Pressure => ("970"@, "1040 hPa"@),
            Layer::Waves => ("calm"@, "10m+"@),
            Layer::Snow => ("0"@, "1m+"@),
            Layer::Satellite => ("warm"@, "cold cloud tops"@),
        }
    }

    pub fn key(self) -> (r: &'static str)
        ensures
            r@ == self.key_spec(),
    {
        match self {
            Layer::Wind => "wind",
            Layer::Temp => "temp",
            Layer::Rain => "rain",
            Layer::Clouds => "clouds",
            Layer::Pressure => "pressure",
            Layer::Waves => "waves",
            Layer::Snow => "snow",
            Layer::Satellite => "satellite",
        }
    }

    pub fn label(self) -> (r: &'static str)
        ensures
            r@ == self.label_spec(),
    {
        match self {
            Layer::Wind => "Wind speed",
            Layer::Temp => "Temperature",
            Layer::Rain => "Precipitation",
            Layer::Clouds => "Cloud cover",
            Layer::Pressure => "MSL pressure",
            Layer::Waves => "Wave height",
            Layer::Snow => "Snow depth",
            Layer::Satellite => "Infrared",
        }
    }

    /// The texts at the two ends of the legend bar.
    pub fn legend_range(self) -> (r: (&'static str, &'static str))
        ensures
            (r.0@, r.1@) == self.legend_spec(),
    {
        match self {
            Layer::Wind => ("0", "80+ km/h"),
            Layer::Temp => ("-40°", "+45°"),
            Layer::Rain => ("drizzle", "storm"),
            Layer::Clouds => ("clear", "overcast"),
            Layer::Pressure => ("970", "1040 hPa"),
            Layer::Waves => ("calm", "10m+"),
            Layer::Snow => ("0", "1m+"),
            Layer::Satellite => ("warm", "cold cloud tops"),
        }
    }

    /// The icon and the name of the layer's button in the layer menu.
    pub open spec fn menu_spec(self) -> (Seq<char>, Seq<char>) {
        match self {
            Layer::Wind => ("🌬️"@, "Wind"@),
            Layer::Temp => ("🌡️"@, "Temperature"@),
            Layer::Rain => ("🌧️"@, "Rain & Radar"@),
            Layer::Clouds => ("☁️"@, "Clouds"@),
            Layer::Pressure => ("📊"@, "Pressure"@),
            Layer::Waves => ("🌊"@, "Waves"@),
            Layer::Snow => ("❄️"@, "Snow"@),
            Layer::Satellite => ("🛰️"@, "Satellite"@),
        }
    }

    /// The icon and the name of the layer's button in the layer menu.
    pub fn menu_entry(self) -> (r: (&'static str, &'static str))
        ensures
            (r.0@, r.1@) == self.menu_spec(),
    {
        match self {
            Layer::Wind => ("🌬️", "Wind"),
            Layer::Temp => ("🌡️", "Temperature"),
            Layer::Rain => ("🌧️", "Rain & Radar"),
            Layer::Clouds => ("☁️", "Clouds"),
            Layer::Pressure => ("📊", "Pressure"),
            Layer::Waves => ("🌊", "Waves"),
            Layer::Snow => ("❄️", "Snow"),
            Layer::Satellite => ("🛰️", "Satellite"),
        }
    }

    /// The style class of the legend bar: "bar " followed by the layer's key.
    pub fn bar_class(self) -> (r: String)
        ensures
            r@ == "bar "@ + self.key_spec(),
    {
        let mut s = String::from_str("bar ");
        s.append(self.key());
        s
    }
}

#[derive(Clone, Copy, PartialEq, Eq, Debug, Structural)]
pub enum Model {
    Ecmwf,
    Gfs,
    Icon,
    Ukmo,
}

impl Model {
    /// The identifier the forecast service knows the model by.
    pub open spec fn key_spec(self) -> Seq<char> {
        match self {
            Model::Ecmwf => "ecmwf"@,
            Model::Gfs => "gfs"@,
            Model::Icon => "icon"@,
            Model::Ukmo => "ukmo"@,
        }
    }

    pub open spec fn label_spec(self) -> Seq<char> {
        match self {
            Model::Ecmwf => "ECMWF"@,
            Model::Gfs => "GFS"@,
            Model::Icon => "ICON"@,
            Model::Ukmo => "UKMO"@,
        }
    }

    pub fn key(self) -> (r: &'static str)
        ensures
            r@ == self.key_spec(),
    {
        match self {
            Model::Ecmwf => "ecmwf",
            Model::Gfs => "gfs",
            Model::Icon => "icon",
            Model::Ukmo => "ukmo",
        }
    }

    pub fn label(self) -> (r: &'static str)
        ensures
            r@ == self.label_spec(),
    {
        match self {
            Model::Ecmwf => "ECMWF",
            Model::Gfs => "GFS",
            Model::Icon => "ICON",
            Model::Ukmo => "UKMO",
        }
    }
}

#[derive(Clone, Copy, PartialEq, Eq, Debug, Structural)]
pub enum TempUnit {
    C,
    F,
}

impl TempUnit {
    pub open spec fn label_spec(self) -> Seq<char> {
        match self {
            TempUnit::C => "°C"@,
            TempUnit::F => "°F"@,
        }
    }

    /// The unit the units button switches to.
    pub open spec fn next_spec(self) -> TempUnit {
        match self {
            TempUnit::C => TempUnit::F,
            TempUnit::F => TempUnit::C,
        }
    }

    pub fn label(self) -> (r: &'static str)
        ensures
            r@ == self.label_spec(),
    {
        match self {
            TempUnit::C => "°C",
            TempUnit::F => "°F",
        }
    }

    pub fn next(self) -> (r: Self)
        ensures
            r == self.next_spec(),
    {
        match self {
            TempUnit::C => TempUnit::F,
            TempUnit::F => TempUnit::C,
        }
    }
}

#[derive(Clone, Copy, PartialEq, Eq, Debug, Structural)]
pub enum WindUnit {
    Kmh,
    Mph,
    Ms,
    Kt,
}

impl WindUnit {
    pub open spec fn label_spec(self) -> Seq<char> {
        match self {
            WindUnit::Kmh => "km/h"@,
            WindUnit::Mph => "mph"@,
            WindUnit::Ms => "m/s"@,
            WindUnit::Kt => "kt"@,
        }
    }

    /// The unit the units button switches to.
    pub open spec fn next_spec(self) -> WindUnit {
        match self {
            WindUnit::Kmh => WindUnit::Mph,
            WindUnit::Mph => WindUnit::Ms,
            WindUnit::Ms => WindUnit::Kt,
            WindUnit::Kt => WindUnit::Kmh,
        }
    }

    pub fn label(self) -> (r: &'static str)
        ensures
            r@ == self.label_spec(),
    {
        match self {
            WindUnit::Kmh => "km/h",
            WindUnit::Mph => "mph",
            WindUnit::Ms => "m/s",
            WindUnit::Kt => "kt",
        }
    }

    pub fn next(self) -> (r: Self)
        ensures
            r == self.next_spec(),
    {
        match self {
            WindUnit::Kmh => WindUnit::Mph,
            WindUnit::Mph => WindUnit::Ms,
            WindUnit::Ms => WindUnit::Kt,
            WindUnit::Kt => WindUnit::Kmh,
        }
    }
}

#[derive(Clone, Copy, PartialEq, Eq, Debug, Structural)]
pub enum Tab {
    Hourly,
    Daily,
}


/// The cycle of the units button returns to its start: the temperature unit after two
/// presses, the wind unit after four, and no press leaves a unit unchanged.
pub proof fn lemma_unit_cycles(t: TempUnit, w: WindUnit)
    ensures
        t.next_spec() != t,
        t.next_spec().next_spec() == t,
        w.next_spec() != w,
        w.next_spec().next_spec() != w,
        w.next_spec().next_spec().next_spec() != w,
        w.next_spec().next_spec().next_spec().next_spec() == w,
{
}

/// Distinct layers have distinct keys, and distinct models have distinct keys, so the
/// map controller and the forecast service can tell them apart.
pub proof fn lemma_keys_distinct(a: Layer, b: Layer, m: Model, n: Model)
    ensures
        a.key_spec() == b.key_spec() ==> a == b,
        m.key_spec() == n.key_spec() ==> m == n,
{
    reveal_strlit("wind");
    reveal_strlit("temp");
    reveal_strlit("rain");
    reveal_strlit("clouds");
    reveal_strlit("pressure");
    reveal_strlit("waves");
    reveal_strlit("snow");
    reveal_strlit("satellite");
    reveal_strlit("ecmwf");
    reveal_strlit("gfs");
    reveal_strlit("icon");
    reveal_strlit("ukmo");
    if a != b {
        assert(a.key_spec().len() != b.key_spec().len() || a.key_spec()[0] != b.key_spec()[0]);
    }
    if m != n {
        assert(m.key_spec().len() != n.key_spec().len() || m.key_spec()[0] != n.key_spec()[0]);
    }
}

/// The hour of the timeline that clicking the `idx`-th daily row moves to: noon of that
/// day, at most the last hour of the range.
pub open spec fn day_hour(idx: int) -> int {
    if idx * 24 + 12 < RANGE_HOURS - 1 { idx * 24 + 12 } else { RANGE_HOURS - 1 }
}

/// The remainder of `a` by a positive `m` with the sign of `a`, as `%` on integers
/// computes it.
pub open spec fn truncated_rem(a: int, m: int) -> int {
    if a >= 0 { a % m } else { -((-a) % m) }
}

/// The hour after `h` during playback, wrapping from the last hour to the first.
pub open spec fn next_hour(h: int) -> int {
    truncated_rem(h + 1, RANGE_HOURS as int)
}

/// The hour reached after `n` steps of playback from `h`.
pub open spec fn playback_steps(h: int, n: nat) -> int
    decreases n,
{
    if n == 0 { h } else { next_hour(playback_steps(h, (n - 1) as nat)) }
}

/// Playback runs through the timeline and comes round: `n` steps from an hour of the
/// range land `n` hours later modulo the range, so a full round of `RANGE_HOURS` steps
/// returns to the starting hour.
pub proof fn lemma_playback_period(h: int, n: nat)
    requires
        0 <= h < RANGE_HOURS,
    ensures
        playback_steps(h, n) == (h + n) % (RANGE_HOURS as int),
        playback_steps(h, RANGE_HOURS as nat) == h,
{
    lemma_playback_steps(h, n);
    lemma_playback_steps(h, RANGE_HOURS as nat);
    vstd::arithmetic::div_mod::lemma_mod_self_0(RANGE_HOURS as int);
    vstd::arithmetic::div_mod::lemma_add_mod_noop(h, RANGE_HOURS as int, RANGE_HOURS as int);
    vstd::arithmetic::div_mod::lemma_small_mod(h as nat, RANGE_HOURS as nat);
}

proof fn lemma_playback_steps(h: int, n: nat)
    requires
        0 <= h < RANGE_HOURS,
    ensures
        playback_steps(h, n) == (h + n) % (RANGE_HOURS as int),
    decreases n,
{
    if n == 0 {
        vstd::arithmetic::div_mod::lemma_small_mod(h as nat, RANGE_HOURS as nat);
    } else {
        lemma_playback_steps(h, (n - 1) as nat);
        vstd::arithmetic::div_mod::lemma_add_mod_noop(h + n - 1, 1, RANGE_HOURS as int);
        vstd::arithmetic::div_mod::lemma_small_mod(1, RANGE_HOURS as nat);
    }
}

/// An hour clamped to the timeline.
pub open spec fn clamp_hour_spec(h: int) -> int {
    if h < 0 { 0 } else if h > RANGE_HOURS - 1 { (RANGE_HOURS - 1) as int } else { h }
}

/// Clamping to the timeline: an hour on the timeline stays as it is, an hour before it
/// goes to the first hour and one after it to the last, the result is always on the
/// timeline, and clamping keeps the order of hours.
pub proof fn lemma_clamp_hour(h: int, g: int)
    ensures
        0 <= clamp_hour_spec(h) < RANGE_HOURS,
        0 <= h < RANGE_HOURS ==> clamp_hour_spec(h) == h,
        h < 0 ==> clamp_hour_spec(h) == 0,
        h >= RANGE_HOURS ==> clamp_hour_spec(h) == RANGE_HOURS - 1,
        h <= g ==> clamp_hour_spec(h) <= clamp_hour_spec(g),
{
}

/// The wind-speed unit symbols in the order the units button steps through them.
pub open spec fn following_wind_symbol(s: Seq<char>) -> Seq<char> {
    if s == "km/h"@ { "mph"@ }
    else if s == "mph"@ { "m/s"@ }
    else if s == "m/s"@ { "kt"@ }
    else { "km/h"@ }
}

/// Unit labels name the units: distinct units have distinct labels; the units button
/// moves each wind unit to the one whose symbol follows in km/h, mph, m/s, kt (and back
/// to km/h), and switches between °C and °F; the start-up units are km/h and °C.
pub proof fn lemma_unit_labels(t: TempUnit, u: TempUnit, w: WindUnit, v: WindUnit)
    ensures
        t.label_spec() == u.label_spec() ==> t == u,
        w.label_spec() == v.label_spec() ==> w == v,
        w.next_spec().label_spec() == following_wind_symbol(w.label_spec()),
        WindUnit::Kmh.label_spec() == "km/h"@,
        TempUnit::C.label_spec() == "°C"@,
        t.next_spec().label_spec() != t.label_spec(),
        (t.label_spec() == "°C"@) || (t.label_spec() == "°F"@),
{
    reveal_strlit("°C");
    reveal_strlit("°F");
    reveal_strlit("km/h");
    reveal_strlit("mph");
    reveal_strlit("m/s");
    reveal_strlit("kt");
    if t != u {
        assert(t.label_spec()[1] != u.label_spec()[1]);
    }
    assert("mph"@[1] != "m/s"@[1]);
    assert("m/s"@[1] != "mph"@[1]);
    assert(WindUnit::Kmh.label_spec().len() == 4);
    assert(WindUnit::Mph.label_spec().len() == 3);
    assert(WindUnit::Ms.label_spec().len() == 3);
    assert(WindUnit::Kt.label_spec().len() == 2);
    assert(WindUnit::Mph.label_spec()[1] != WindUnit::Ms.label_spec()[1]);
    if t.next_spec() != t {
        assert(t.next_spec().label_spec()[1] != t.label_spec()[1]);
    }
}

/// The quantity a map layer shows, by the key the map controller knows it by.
pub open spec fn quantity_of_key(key: Seq<char>) -> Seq<char> {
    if key == "wind"@ { "Wind speed"@ }
    else if key == "temp"@ { "Temperature"@ }
    else if key == "rain"@ { "Precipitation"@ }
    else if key == "clouds"@ { "Cloud cover"@ }
    else if key == "pressure"@ { "MSL pressure"@ }
    else if key == "waves"@ { "Wave height"@ }
    else if key == "snow"@ { "Snow depth"@ }
    else { "Infrared"@ }
}

/// A text with its first letter in upper case.
pub open spec fn capitalised(s: Seq<char>) -> Seq<char> {
    if s.len() == 0 { s } else { ascii_upper(s.take(1)) + s.skip(1) }
}

/// A text with its lower-case ASCII letters in upper case.
pub open spec fn ascii_upper(s: Seq<char>) -> Seq<char> {
    s.map_values(|c: char| if 'a' <= c && c <= 'z' { ((c as int) - 32) as char } else { c })
}

/// Labels name what they label: each layer's label is the quantity its key shows,
/// distinct layers have distinct labels, and the layer's menu button begins with its key
/// capitalised; each model's label is its key in capitals, and
/// distinct models have distinct labels.
pub proof fn lemma_layer_and_model_labels(a: Layer, b: Layer, m: Model, n: Model)
    ensures
        a.label_spec() == quantity_of_key(a.key_spec()),
        a.label_spec() == b.label_spec() ==> a == b,
        m.label_spec() == ascii_upper(m.key_spec()),
        m.label_spec() == n.label_spec() ==> m == n,
        a.menu_spec().1.len() >= a.key_spec().len(),
        a.menu_spec().1.take(a.key_spec().len() as int) == capitalised(a.key_spec()),
{
    reveal_strlit("wind");
    reveal_strlit("temp");
    reveal_strlit("rain");
    reveal_strlit("clouds");
    reveal_strlit("pressure");
    reveal_strlit("waves");
    reveal_strlit("snow");
    reveal_strlit("satellite");
    reveal_strlit("Wind speed");
    reveal_strlit("Temperature");
    reveal_strlit("Precipitation");
    reveal_strlit("Cloud cover");
    reveal_strlit("MSL pressure");
    reveal_strlit("Wave height");
    reveal_strlit("Snow depth");
    reveal_strlit("Infrared");
    reveal_strlit("ecmwf");
    reveal_strlit("gfs");
    reveal_strlit("icon");
    reveal_strlit("ukmo");
    reveal_strlit("ECMWF");
    reveal_strlit("GFS");
    reveal_strlit("ICON");
    reveal_strlit("UKMO");
    assert(Layer::Wind.key_spec().len() == 4);
    assert(Layer::Temp.key_spec().len() == 4);
    assert(Layer::Rain.key_spec().len() == 4);
    assert(Layer::Clouds.key_spec().len() == 6);
    assert(Layer::Pressure.key_spec().len() == 8);
    assert(Layer::Waves.key_spec().len() == 5);
    assert(Layer::Snow.key_spec().len() == 4);
    assert(Layer::Satellite.key_spec().len() == 9);
    assert("temp"@[0] != "wind"@[0]);
    assert("rain"@[0] != "wind"@[0]);
    assert("rain"@[0] != "temp"@[0]);
    assert("snow"@[0] != "wind"@[0]);
    assert("snow"@[0] != "temp"@[0]);
    assert("snow"@[0] != "rain"@[0]);
    assert(Layer::Wind.label_spec().len() == 10);
    assert(Layer::Temp.label_spec().len() == 11);
    assert(Layer::Rain.label_spec().len() == 13);
    assert(Layer::Clouds.label_spec().len() == 11);
    assert(Layer::Pressure.label_spec().len() == 12);
    assert(Layer::Waves.label_spec().len() == 11);
    assert(Layer::Snow.label_spec().len() == 10);
    assert(Layer::Satellite.label_spec().len() == 8);
    assert(Layer::Wind.label_spec()[0] != Layer::Snow.label_spec()[0]);
    assert(Layer::Temp.label_spec()[0] != Layer::Clouds.label_spec()[0]);
    assert(Layer::Temp.label_spec()[0] != Layer::Waves.label_spec()[0]);
    assert(Layer::Clouds.label_spec()[0] != Layer::Waves.label_spec()[0]);
    reveal_strlit("Wind");
    reveal_strlit("Temperature");
    reveal_strlit("Rain & Radar");
    reveal_strlit("Clouds");
    reveal_strlit("Pressure");
    reveal_strlit("Waves");
    reveal_strlit("Snow");
    reveal_strlit("Satellite");
    assert(a.menu_spec().1.take(a.key_spec().len() as int) =~= capitalised(a.key_spec()));
    assert(m.label_spec() =~= ascii_upper(m.key_spec()));
    if m != n {
        assert(m.label_spec().len() != n.label_spec().len()
            || m.label_spec()[0] != n.label_spec()[0]);
    }
}

/// The label of an altitude level: "Surface", or the pressure level in hPa.
pub open spec fn altitude_label_spec(a: Seq<char>) -> Seq<char> {
    if a == "surface"@ { "Surface"@ } else { a + " hPa"@ }
}

/// The label of an altitude level: "Surface" for "surface", else the level followed by
/// " hPa".
pub fn altitude_label(a: &str) -> (r: String)
    ensures
        r@ == altitude_label_spec(a@),
{
    if str_equal(a, "surface") {
        String::from_str("Surface")
    } else {
        let mut s = String::from_str(a);
        s.append(" hPa");
        s
    }
}

/// The values of the interface state that the contracts speak of, with texts as
/// character sequences.
pub ghost struct UiView {
    pub layer: Layer,
    pub model: Model,
    pub altitude: Seq<char>,
    pub temp_unit: TempUnit,
    pub wind_unit: WindUnit,
    pub time_hours: int,
    pub playing: bool,
    pub layer_menu_open: bool,
    pub premium_open: bool,
    pub downloads_open: bool,
    pub detail_open: bool,
    pub tab: Tab,
    pub toast: Option<Seq<char>>,
    pub model_run: Seq<char>,
}

/// The state of the user interface: selections, display units, timeline position and
/// which panels are open.
pub struct AppState {
    pub layer: Layer,
    pub model: Model,
    pub altitude: &'static str,
    pub temp_unit: TempUnit,
    pub wind_unit: WindUnit,
    pub time_hours: i32,
    pub playing: bool,
    pub layer_menu_open: bool,
    pub premium_open: bool,
    pub downloads_open: bool,
    pub detail_open: bool,
    pub tab: Tab,
    pub toast: Option<String>,
    pub model_run: String,
}

impl View for AppState {
    type V = UiView;

    open spec fn view(&self) -> UiView {
        UiView {
            layer: self.layer,
            model: self.model,
            altitude: self.altitude@,
            temp_unit: self.temp_unit,
            wind_unit: self.wind_unit,
            time_hours: self.time_hours as int,
            playing: self.playing,
            layer_menu_open: self.layer_menu_open,
            premium_open: self.premium_open,
            downloads_open: self.downloads_open,
            detail_open: self.detail_open,
            tab: self.tab,
            toast: self.toast.deep_view(),
            model_run: self.model_run@,
        }
    }
}

impl AppState {
    /// The timeline position lies within the range.
    pub open spec fn wf(&self) -> bool {
        0 <= self.time_hours < RANGE_HOURS
    }

    /// The state at start-up: the wind layer of the ECMWF model at the surface, in °C
    /// and km/h, at the first hour, paused, with only the forecast panel open on the
    /// hourly tab.
    pub fn new() -> (s: Self)
        ensures
            s.wf(),
            s@ == (UiView {
                layer: Layer::Wind,
                model: Model::Ecmwf,
                altitude: "surface"@,
                temp_unit: TempUnit::C,
                wind_unit: WindUnit::Kmh,
                time_hours: 0,
                playing: false,
                layer_menu_open: false,
                premium_open: false,
                downloads_open: false,
                detail_open: true,
                tab: Tab::Hourly,
                toast: None,
                model_run: Seq::empty(),
            }),
    {
        AppState {
            layer: Layer::Wind,
            model: Model::Ecmwf,
            altitude: "surface",
            temp_unit: TempUnit::C,
            wind_unit: WindUnit::Kmh,
            time_hours: 0,
            playing: false,
            layer_menu_open: false,
            premium_open: false,
            downloads_open: false,
            detail_open: true,
            tab: Tab::Hourly,
            toast: None,
            model_run: String::new(),
        }
    }

    /// The units button: both units move to the next one and the new pair is announced.
    pub fn cycle_units(&mut self)
        ensures
            old(self).wf() ==> final(self).wf(),
            final(self)@ == (UiView {
                temp_unit: old(self).temp_unit.next_spec(),
                wind_unit: old(self).wind_unit.next_spec(),
                toast: Some("Units: "@ + old(self).temp_unit.next_spec().label_spec() + " · "@
                    + old(self).wind_unit.next_spec().label_spec()),
                ..old(self)@
            }),
    {
        self.temp_unit = self.temp_unit.next();
        self.wind_unit = self.wind_unit.next();
        let mut msg = String::from_str("Units: ");
        msg.append(self.temp_unit.label());
        msg.append(" · ");
        msg.append(self.wind_unit.label());
        self.toast = Some(msg);
    }

    /// Picking a layer in the layer menu.
    pub fn choose_layer(&mut self, l: Layer)
        ensures
            old(self).wf() ==> final(self).wf(),
            final(self)@ == (UiView {
                layer: l,
                toast: Some("Layer: "@ + l.label_spec()),
                ..old(self)@
            }),
    {
        self.layer = l;
        let mut msg = String::from_str("Layer: ");
        msg.append(l.label());
        self.toast = Some(msg);
    }

    /// Picking a forecast model in the layer menu.
    pub fn choose_model(&mut self, m: Model)
        ensures
            old(self).wf() ==> final(self).wf(),
            final(self)@ == (UiView {
                model: m,
                toast: Some("Model: "@ + m.label_spec()),
                ..old(self)@
            }),
    {
        self.model = m;
        let mut msg = String::from_str("Model: ");
        msg.append(m.label());
        self.toast = Some(msg);
    }

    /// Picking an altitude level in the layer menu.
    pub fn choose_altitude(&mut self, a: &'static str)
        ensures
            old(self).wf() ==> final(self).wf(),
            final(self)@ == (UiView {
                altitude: a@,
                toast: Some("Altitude: "@ + altitude_label_spec(a@)),
                ..old(self)@
            }),
    {
        self.altitude = a;
        let mut msg = String::from_str("Altitude: ");
        let label = altitude_label(a);
        msg.append(label.as_str());
        self.toast = Some(msg);
    }

    /// The layers button of the side rail: opens or closes the layer menu.
    pub fn toggle_layer_menu(&mut self)
        ensures
            old(self).wf() ==> final(self).wf(),
            final(self)@ == (UiView { layer_menu_open: !old(self).layer_menu_open, ..old(self)@ }),
    {
        self.layer_menu_open = !self.layer_menu_open;
    }

    /// Opening or closing the forecast panel: a picked place opens it, its close button
    /// and a narrow screen at start-up close it.
    pub fn set_detail_open(&mut self, open: bool)
        ensures
            old(self).wf() ==> final(self).wf(),
            final(self)@ == (UiView { detail_open: open, ..old(self)@ }),
    {
        self.detail_open = open;
    }

    /// Opening or closing the premium dialog.
    pub fn set_premium_open(&mut self, open: bool)
        ensures
            old(self).wf() ==> final(self).wf(),
            final(self)@ == (UiView { premium_open: open, ..old(self)@ }),
    {
        self.premium_open = open;
    }

    /// Opening or closing the downloads dialog.
    pub fn set_downloads_open(&mut self, open: bool)
        ensures
            old(self).wf() ==> final(self).wf(),
            final(self)@ == (UiView { downloads_open: open, ..old(self)@ }),
    {
        self.downloads_open = open;
    }

    /// Switching the forecast panel between its hourly and daily tabs.
    pub fn select_tab(&mut self, tab: Tab)
        ensures
            old(self).wf() ==> final(self).wf(),
            final(self)@ == (UiView { tab: tab, ..old(self)@ }),
    {
        self.tab = tab;
    }

    /// The play/pause button of the timeline.
    pub fn toggle_playing(&mut self)
        ensures
            old(self).wf() ==> final(self).wf(),
            final(self)@ == (UiView { playing: !old(self).playing, ..old(self)@ }),
    {
        self.playing = !self.playing;
    }

    /// Showing a message in the message bar.
    pub fn show_toast(&mut self, msg: String)
        ensures
            old(self).wf() ==> final(self).wf(),
            final(self)@ == (UiView { toast: Some(msg@), ..old(self)@ }),
    {
        self.toast = Some(msg);
    }

    /// Hiding the message bar once its display time is over.
    pub fn clear_toast(&mut self)
        ensures
            old(self).wf() ==> final(self).wf(),
            final(self)@ == (UiView { toast: None, ..old(self)@ }),
    {
        self.toast = None;
    }

    /// Recording when the forecast model last ran.
    pub fn set_model_run(&mut self, run: String)
        ensures
            old(self).wf() ==> final(self).wf(),
            final(self)@ == (UiView { model_run: run@, ..old(self)@ }),
    {
        self.model_run = run;
    }

    /// The "Map" button of the bottom navigation: closes both panels.
    pub fn nav_map(&mut self)
        ensures
            old(self).wf() ==> final(self).wf(),
            final(self)@ == (UiView { detail_open: false, layer_menu_open: false, ..old(self)@ }),
            final(self).map_nav_active(),
    {
        self.detail_open = false;
        self.layer_menu_open = false;
    }

    /// The "Layers" button of the bottom navigation: toggles the layer menu, closing
    /// the forecast panel when the menu opens.
    pub fn nav_toggle_layers(&mut self)
        ensures
            old(self).wf() ==> final(self).wf(),
            final(self)@ == (UiView {
                layer_menu_open: !old(self).layer_menu_open,
                detail_open: if old(self).layer_menu_open { old(self).detail_open } else { false },
                ..old(self)@
            }),
            !(final(self).layer_menu_open && final(self).detail_open),
    {
        let was_open = self.layer_menu_open;
        self.layer_menu_open = !was_open;
        if !was_open {
            self.detail_open = false;
        }
    }

    /// The "Forecast" button of the bottom navigation: toggles the forecast panel,
    /// closing the layer menu when the panel opens.
    pub fn nav_toggle_forecast(&mut self)
        ensures
            old(self).wf() ==> final(self).wf(),
            final(self)@ == (UiView {
                detail_open: !old(self).detail_open,
                layer_menu_open: if old(self).detail_open { old(self).layer_menu_open } else { false },
                ..old(self)@
            }),
            !(final(self).layer_menu_open && final(self).detail_open),
    {
        let was_open = self.detail_open;
        self.detail_open = !was_open;
        if !was_open {
            self.layer_menu_open = false;
        }
    }

    /// Whether the "Map" button of the bottom navigation shows as active: no panel open.
    pub open spec fn map_nav_active_spec(&self) -> bool {
        !self.detail_open && !self.layer_menu_open
    }

    #[verifier::when_used_as_spec(map_nav_active_spec)]
    pub fn map_nav_active(&self) -> (r: bool)
        ensures
            r == self.map_nav_active_spec(),
    {
        !self.detail_open && !self.layer_menu_open
    }

    /// The style class of the message bar: shown while a message is pending.
    pub fn toast_class(&self) -> (r: &'static str)
        ensures
            r@ == (if self.toast.is_some() { "toast show"@ } else { "toast"@ }),
    {
        if self.toast.is_some() {
            "toast show"
        } else {
            "toast"
        }
    }

    /// One step of playback: the next hour, wrapping from the last hour to the first.
    pub fn advance_playback(&mut self)
        requires
            old(self).time_hours < i32::MAX,
        ensures
            old(self).wf() ==> final(self).wf(),
            final(self)@ == (UiView {
                time_hours: next_hour(old(self).time_hours as int),
                ..old(self)@
            }),
    {
        self.time_hours = (self.time_hours + 1) % RANGE_HOURS;
    }

    /// Moving the timeline to an hour, clamped to the range.
    pub fn scrub_to_hour(&mut self, h: i32)
        ensures
            final(self).wf(),
            final(self)@ == (UiView { time_hours: clamp_hour_spec(h as int), ..old(self)@ }),
            0 <= h < RANGE_HOURS ==> final(self).time_hours == h,
    {
        self.time_hours = clamp_hour(h);
    }

    /// Clicking the `idx`-th row of the daily table: the timeline moves to noon of that
    /// day, or to the last hour when that lies beyond the range.
    pub fn select_day(&mut self, idx: i32)
        requires
            i32::MIN <= idx * 24 + 12 <= i32::MAX,
        ensures
            final(self)@ == (UiView { time_hours: day_hour(idx as int), ..old(self)@ }),
            idx >= 0 ==> final(self).wf(),
    {
        let h: i32 = idx * 24 + 12;
        self.time_hours = if h < RANGE_HOURS - 1 { h } else { RANGE_HOURS - 1 };
    }
}

/// Hours between two tick marks of the timeline track.
pub const TICK_HOURS: i32 = 6;

/// Whether a tick of the timeline, at a local hour written as two digits, marks the
/// start of a day.
pub fn is_day_tick(hour: &str) -> (r: bool)
    ensures
        r == (hour@ == "00"@),
{
    str_equal(hour, "00")
}

/// The style class of a tick of the timeline track: day starts stand out.
pub fn tick_class(day_start: bool) -> (r: &'static str)
    ensures
        r@ == (if day_start { "tick day"@ } else { "tick"@ }),
{
    if day_start {
        "tick day"
    } else {
        "tick"
    }
}

/// An hour clamped to the timeline, from the first to the last hour of the range.
pub fn clamp_hour(h: i32) -> (r: i32)
    ensures
        r == clamp_hour_spec(h as int),
        0 <= r < RANGE_HOURS,
        0 <= h < RANGE_HOURS ==> r == h,
{
    if h < 0 {
        0
    } else if h > RANGE_HOURS - 1 {
        RANGE_HOURS - 1
    } else {
        h
    }
}

} // verus!
