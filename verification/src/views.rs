//! The view state: which page is shown, what each page has open, the latest
//! readings with their bounded history, and the flag that asks for a redraw.

use vstd::prelude::*;
use vstd::string::*;
use vstd::view::View as _;
use crate::config::OrientationMode;
use crate::history::{History, INDOOR_HISTORY_MAX};
use crate::text::{append_number, chars_of, digits, slice, string_of};
use crate::layout::{logical_height, logical_width, screen_h, screen_w, Orientation};
use crate::touch::Gesture;
use crate::weather::{CurrentWeather, Forecast, WeatherAlert};

verus! {

/// The pages, in navigation order.
#[derive(Debug, Clone, Copy, PartialEq, Eq, Structural)]
pub enum View {
    Indoor,
    Now,
    Forecast,
    I2cScan,
    WifiScan,
    About,
}

impl View {
    /// The page after this one; the last page is followed by the first.
    pub open spec fn successor(self) -> View {
        match self {
            View::Indoor => View::Now,
            View::Now => View::Forecast,
            View::Forecast => View::I2cScan,
            View::I2cScan => View::WifiScan,
            View::WifiScan => View::About,
            View::About => View::Indoor,
        }
    }

    /// The page before this one; the first page is preceded by the last.
    pub open spec fn predecessor(self) -> View {
        match self {
            View::Indoor => View::About,
            View::Now => View::Indoor,
            View::Forecast => View::Now,
            View::I2cScan => View::Forecast,
            View::WifiScan => View::I2cScan,
            View::About => View::WifiScan,
        }
    }

    #[verifier::when_used_as_spec(successor)]
    pub fn next(self) -> (v: View)
        ensures
            v == self.successor(),
    {
        match self {
            View::Indoor => View::Now,
            View::Now => View::Forecast,
            View::Forecast => View::I2cScan,
            View::I2cScan => View::WifiScan,
            View::WifiScan => View::About,
            View::About => View::Indoor,
        }
    }

    #[verifier::when_used_as_spec(predecessor)]
    pub fn prev(self) -> (v: View)
        ensures
            v == self.predecessor(),
    {
        match self {
            View::Indoor => View::About,
            View::Now => View::Indoor,
            View::Forecast => View::Now,
            View::I2cScan => View::Forecast,
            View::WifiScan => View::I2cScan,
            View::About => View::WifiScan,
        }
    }
}

/// `n` steps forward from `v`.
pub open spec fn advance(v: View, n: nat) -> View
    decreases n,
{
    if n == 0 {
        v
    } else {
        advance(v, (n - 1) as nat).successor()
    }
}

/// Forward and backward undo each other, and six steps forward lead back to
/// the start: the pages form one closed ring.
pub proof fn lemma_views_form_a_ring(v: View)
    ensures
        v.successor().predecessor() == v,
        v.predecessor().successor() == v,
        advance(v, 6) == v,
        forall|n: nat| 0 < n < 6 ==> advance(v, n) != v,
{
    reveal_with_fuel(advance, 7);
}

/// The name of the device that is known to answer at a bus address; empty
/// for an address that is not known.
pub open spec fn device_name_text(addr: u8) -> Seq<char> {
    if addr == 0x18 || addr == 0x6B {
        "QMI8658 IMU"@
    } else if addr == 0x20 {
        "PCF8574 GPIO Exp"@
    } else if addr == 0x34 {
        "AXP2101 PMIC"@
    } else if addr == 0x3B {
        "FT6x36 Touch"@
    } else if addr == 0x51 {
        "EEPROM"@
    } else if addr == 0x76 || addr == 0x77 {
        "BME280 Sensor"@
    } else {
        ""@
    }
}

pub fn device_name(addr: u8) -> (name: &'static str)
    ensures
        name@ == device_name_text(addr),
{
    if addr == 0x18 || addr == 0x6B {
        "QMI8658 IMU"
    } else if addr == 0x20 {
        "PCF8574 GPIO Exp"
    } else if addr == 0x34 {
        "AXP2101 PMIC"
    } else if addr == 0x3B {
        "FT6x36 Touch"
    } else if addr == 0x51 {
        "EEPROM"
    } else if addr == 0x76 || addr == 0x77 {
        "BME280 Sensor"
    } else {
        ""
    }
}

/// Minutes covered by a history of `samples` samples taken five seconds
/// apart.
pub fn history_minutes(samples: usize) -> (minutes: usize)
    ensures
        minutes == samples * 5 / 60,
{
    samples / 12
}

/// A text cut for display: as it is up to `max` characters, else its first
/// `keep` characters followed by three dots.
pub open spec fn ellipsized(text: Seq<char>, max: int, keep: int) -> Seq<char> {
    if text.len() <= max {
        text
    } else {
        text.take(keep) + "..."@
    }
}

/// Cuts a text for display.
pub fn ellipsize(text: &str, max: usize, keep: usize) -> (shown: String)
    requires
        keep <= max,
    ensures
        shown@ == ellipsized(text@, max as int, keep as int),
{
    let chars: Vec<char> = chars_of(text);
    if chars.len() <= max {
        String::from_str(text)
    } else {
        let mut shown: String = string_of(&slice(&chars, 0, keep));
        proof {
            assert(chars@.subrange(0, keep as int) =~= text@.take(keep as int));
        }
        shown.append("...");
        shown
    }
}

/// A network name as the scan page shows it.
pub fn shown_ssid(ssid: &str) -> (shown: String)
    ensures
        shown@ == ellipsized(ssid@, 22, 19),
{
    ellipsize(ssid, 22, 19)
}

/// An alert headline as the overlay shows it.
pub fn shown_headline(headline: &str) -> (shown: String)
    ensures
        shown@ == ellipsized(headline@, 46, 43),
{
    ellipsize(headline, 46, 43)
}

/// The count in a page title: the number and the noun, with an `s` unless
/// the number is one.
pub open spec fn counted_text(count: nat, noun: Seq<char>) -> Seq<char> {
    digits(count) + " "@ + noun + if count == 1 {
        ""@
    } else {
        "s"@
    }
}

/// The title of the bus scan page.
pub fn i2c_title(count: usize) -> (title: String)
    ensures
        title@ == "I2C Bus  ("@ + counted_text(count as nat, "device"@) + ")"@,
{
    let mut title: String = String::from_str("I2C Bus  (");
    append_number(&mut title, count as u64);
    title.append(" ");
    title.append("device");
    title.append(if count == 1 {
        ""
    } else {
        "s"
    });
    title.append(")");
    proof {
        assert(title@ =~= "I2C Bus  ("@ + counted_text(count as nat, "device"@) + ")"@);
    }
    title
}

/// The title of the network scan page.
pub fn wifi_title(count: usize) -> (title: String)
    ensures
        title@ == "WiFi  ("@ + counted_text(count as nat, "network"@) + ")"@,
{
    let mut title: String = String::from_str("WiFi  (");
    append_number(&mut title, count as u64);
    title.append(" ");
    title.append("network");
    title.append(if count == 1 {
        ""
    } else {
        "s"
    });
    title.append(")");
    proof {
        assert(title@ =~= "WiFi  ("@ + counted_text(count as nat, "network"@) + ")"@);
    }
    title
}

/// The label under the history graph.
pub fn history_label(samples: usize) -> (label: String)
    ensures
        label@ == if samples * 5 / 60 > 0 {
            "Last "@ + digits((samples * 5 / 60) as nat) + " min"@
        } else {
            "Collecting..."@
        },
{
    let minutes: usize = history_minutes(samples);
    if minutes > 0 {
        let mut label: String = String::from_str("Last ");
        append_number(&mut label, minutes as u64);
        label.append(" min");
        label
    } else {
        String::from_str("Collecting...")
    }
}

/// Height of the header band that carries the navigation taps.
pub const HEADER_TAP_HEIGHT: i16 = 30;

/// Width of the navigation zone at each end of the header band.
pub const HEADER_TAP_WIDTH: i16 = 120;

/// Top of the first daily row of the forecast page.
pub const FORECAST_ROW_TOP: i16 = 38;

/// Distance from one daily row to the next.
pub const FORECAST_ROW_STRIDE: i16 = 66;

/// Number of hourly entries that one vertical swipe scrolls.
pub const HOURLY_SCROLL_STEP: usize = 4;

/// Everything the pages show and everything the gestures change.
pub struct AppState {
    pub current_view: View,
    pub current_weather: Option<CurrentWeather>,
    pub forecast: Option<Forecast>,
    /// Indoor temperature in hundredths of a degree Celsius.
    pub indoor_temp: Option<i64>,
    /// Indoor relative humidity in 1024ths of a percent.
    pub indoor_humidity: Option<i64>,
    /// Indoor pressure in 256ths of a pascal.
    pub indoor_pressure: Option<i64>,
    pub indoor_temp_history: History<i64>,
    pub indoor_hum_history: History<i64>,
    pub time_text: String,
    pub status_text: String,
    pub bottom_text: String,
    pub i2c_devices: Vec<u8>,
    pub wifi_networks: Vec<(String, i8)>,
    pub wifi_ssid: String,
    pub ip_address: String,
    pub forecast_hourly_open: bool,
    pub forecast_hourly_day: usize,
    pub forecast_hourly_scroll: usize,
    pub weather_alerts: Vec<WeatherAlert>,
    pub now_alerts_open: bool,
    pub use_celsius: bool,
    pub weather_stale: bool,
    pub save_celsius_pref: bool,
    pub force_weather_refresh: bool,
    pub orientation: Orientation,
    pub orientation_mode: OrientationMode,
    pub orientation_flip: bool,
    pub dirty: bool,
}

/// An axis-aligned region of the screen; both corners belong to it.
pub struct Region {
    pub x0: int,
    pub x1: int,
    pub y0: int,
    pub y1: int,
}

impl Region {
    pub open spec fn has(self, x: int, y: int) -> bool {
        self.x0 <= x <= self.x1 && self.y0 <= y <= self.y1
    }
}

/// The temperature read-out of the current-weather page.
pub open spec fn temp_region(orientation: Orientation) -> Region {
    if orientation.landscape() {
        Region { x0: 100, x1: 280, y0: 36, y1: 110 }
    } else {
        Region { x0: 100, x1: 310, y0: 36, y1: 126 }
    }
}

/// The weather icon of the current-weather page.
pub open spec fn icon_region(orientation: Orientation) -> Region {
    if orientation.landscape() {
        Region { x0: 10, x1: 105, y0: 36, y1: 130 }
    } else {
        Region { x0: 10, x1: 120, y0: 36, y1: 150 }
    }
}

/// Top of the forecast card at the bottom of the current-weather page.
pub open spec fn forecast_card_top(orientation: Orientation) -> int {
    if orientation.landscape() {
        208
    } else {
        250
    }
}

/// What a tap hits.
#[derive(Debug, Clone, Copy, PartialEq, Eq, Structural)]
pub enum TapTarget {
    /// The right end of the header band: go to the next page.
    NextView,
    /// The left end of the header band: go to the previous page.
    PrevView,
    /// The temperature read-out: switch between Fahrenheit and Celsius.
    ToggleUnit,
    /// The weather icon: open or close the alerts, or ask for fresh data
    /// when there are no alerts.
    Icon,
    /// The forecast card of the current-weather page.
    ForecastCard,
    /// A daily row of the forecast page that has hourly entries.
    DailyRow(usize),
    /// Nothing.
    Miss,
}

impl AppState {
    /// The state of a device that has just started.
    pub open spec fn is_initial(self) -> bool {
        &&& self.current_view == View::Now
        &&& self.current_weather is None
        &&& self.forecast is None
        &&& self.indoor_temp is None
        &&& self.indoor_humidity is None
        &&& self.indoor_pressure is None
        &&& self.indoor_temp_history@.len() == 0
        &&& self.indoor_temp_history.capacity() == INDOOR_HISTORY_MAX
        &&& self.indoor_hum_history@.len() == 0
        &&& self.indoor_hum_history.capacity() == INDOOR_HISTORY_MAX
        &&& self.time_text@.len() == 0
        &&& self.status_text@ == "Starting..."@
        &&& self.bottom_text@.len() == 0
        &&& self.i2c_devices@.len() == 0
        &&& self.wifi_networks@.len() == 0
        &&& self.wifi_ssid@.len() == 0
        &&& self.ip_address@.len() == 0
        &&& !self.forecast_hourly_open
        &&& self.forecast_hourly_day == 0
        &&& self.forecast_hourly_scroll == 0
        &&& self.weather_alerts@.len() == 0
        &&& !self.now_alerts_open
        &&& !self.use_celsius
        &&& !self.weather_stale
        &&& !self.save_celsius_pref
        &&& !self.force_weather_refresh
        &&& self.orientation == Orientation::Landscape
        &&& self.orientation_mode == OrientationMode::Auto
        &&& !self.orientation_flip
        &&& self.dirty
    }

    /// The histories keep their bounds.
    pub open spec fn wf(self) -> bool {
        self.indoor_temp_history.wf() && self.indoor_hum_history.wf()
    }

    /// The daily row of the forecast page under the height `y`, if that row
    /// can be opened: the hourly list is closed, a forecast is present and
    /// the row's day has hourly entries.
    pub open spec fn openable_row(self, y: int) -> Option<usize> {
        let row = (y - FORECAST_ROW_TOP) / (FORECAST_ROW_STRIDE as int);
        if !self.forecast_hourly_open && FORECAST_ROW_TOP <= y < FORECAST_ROW_TOP + 4
            * FORECAST_ROW_STRIDE && self.forecast is Some && row < self.forecast->0.days@.len()
            && self.forecast->0.days@[row].entries@.len() > 0 {
            Some(row as usize)
        } else {
            None
        }
    }

    /// What a tap at `(x, y)` hits. The header band is tested first, then
    /// the regions of the page that is shown.
    pub open spec fn tap_target(self, x: int, y: int) -> TapTarget {
        let w = logical_width(self.orientation);
        let h = logical_height(self.orientation);
        if y < HEADER_TAP_HEIGHT && x >= w - HEADER_TAP_WIDTH {
            TapTarget::NextView
        } else if y < HEADER_TAP_HEIGHT && x < HEADER_TAP_WIDTH {
            TapTarget::PrevView
        } else if self.current_view == View::Now {
            if temp_region(self.orientation).has(x, y) {
                TapTarget::ToggleUnit
            } else if icon_region(self.orientation).has(x, y) {
                TapTarget::Icon
            } else if forecast_card_top(self.orientation) <= y < h {
                TapTarget::ForecastCard
            } else {
                TapTarget::Miss
            }
        } else if self.current_view == View::Forecast {
            match self.openable_row(y) {
                Some(row) => TapTarget::DailyRow(row),
                None => TapTarget::Miss,
            }
        } else {
            TapTarget::Miss
        }
    }

    /// The state after a tap on `target`.
    pub open spec fn after_target(self, target: TapTarget) -> AppState {
        match target {
            TapTarget::NextView => AppState {
                current_view: self.current_view.successor(),
                forecast_hourly_open: false,
                dirty: true,
                ..self
            },
            TapTarget::PrevView => AppState {
                current_view: self.current_view.predecessor(),
                forecast_hourly_open: false,
                dirty: true,
                ..self
            },
            TapTarget::ToggleUnit => AppState {
                use_celsius: !self.use_celsius,
                save_celsius_pref: true,
                dirty: true,
                ..self
            },
            TapTarget::Icon => if self.weather_alerts@.len() == 0 {
                AppState { force_weather_refresh: true, dirty: true, ..self }
            } else {
                AppState { now_alerts_open: !self.now_alerts_open, dirty: true, ..self }
            },
            TapTarget::ForecastCard => AppState {
                current_view: View::Forecast,
                dirty: true,
                ..self
            },
            TapTarget::DailyRow(row) => AppState {
                forecast_hourly_open: true,
                forecast_hourly_day: row,
                forecast_hourly_scroll: 0,
                dirty: true,
                ..self
            },
            TapTarget::Miss => self,
        }
    }

    /// The hourly list of the forecast page is open, so that vertical swipes
    /// scroll it.
    pub open spec fn hourly_shown(self) -> bool {
        self.current_view == View::Forecast && self.forecast_hourly_open
    }

    /// The state after a gesture.
    pub open spec fn after_gesture(self, gesture: Gesture) -> AppState {
        match gesture {
            Gesture::Nothing => self,
            Gesture::SwipeLeft => self.after_target(TapTarget::NextView),
            Gesture::SwipeRight => self.after_target(TapTarget::PrevView),
            Gesture::SwipeUp => if self.hourly_shown() {
                AppState {
                    forecast_hourly_scroll: if self.forecast_hourly_scroll + HOURLY_SCROLL_STEP
                        > usize::MAX {
                        usize::MAX
                    } else {
                        (self.forecast_hourly_scroll + HOURLY_SCROLL_STEP) as usize
                    },
                    dirty: true,
                    ..self
                }
            } else {
                self
            },
            Gesture::SwipeDown => if self.hourly_shown() {
                AppState {
                    forecast_hourly_scroll: if self.forecast_hourly_scroll < HOURLY_SCROLL_STEP {
                        0
                    } else {
                        (self.forecast_hourly_scroll - HOURLY_SCROLL_STEP) as usize
                    },
                    dirty: true,
                    ..self
                }
            } else {
                self
            },
            Gesture::Tap { x, y } => self.after_target(self.tap_target(x as int, y as int)),
        }
    }

    /// The gesture asks for a redraw: it is a horizontal swipe, a vertical
    /// swipe over the open hourly list, or a tap that hits something.
    pub open spec fn gesture_redraws(self, gesture: Gesture) -> bool {
        match gesture {
            Gesture::Nothing => false,
            Gesture::SwipeLeft | Gesture::SwipeRight => true,
            Gesture::SwipeUp | Gesture::SwipeDown => self.hourly_shown(),
            Gesture::Tap { x, y } => !(self.tap_target(x as int, y as int) is Miss),
        }
    }

    pub fn new() -> (s: AppState)
        ensures
            s.is_initial(),
            s.wf(),
    {
        proof {
            reveal_strlit("");
        }
        AppState {
            current_view: View::Now,
            current_weather: None,
            forecast: None,
            indoor_temp: None,
            indoor_humidity: None,
            indoor_pressure: None,
            indoor_temp_history: History::new(INDOOR_HISTORY_MAX),
            indoor_hum_history: History::new(INDOOR_HISTORY_MAX),
            time_text: String::new(),
            status_text: String::from_str("Starting..."),
            bottom_text: String::new(),
            i2c_devices: Vec::new(),
            wifi_networks: Vec::new(),
            wifi_ssid: String::new(),
            ip_address: String::new(),
            forecast_hourly_open: false,
            forecast_hourly_day: 0,
            forecast_hourly_scroll: 0,
            weather_alerts: Vec::new(),
            now_alerts_open: false,
            use_celsius: false,
            weather_stale: false,
            save_celsius_pref: false,
            force_weather_refresh: false,
            orientation: Orientation::Landscape,
            orientation_mode: OrientationMode::Auto,
            orientation_flip: false,
            dirty: true,
        }
    }

    pub fn screen_w(&self) -> (w: i32)
        ensures
            w == logical_width(self.orientation),
    {
        screen_w(self.orientation)
    }

    pub fn screen_h(&self) -> (h: i32)
        ensures
            h == logical_height(self.orientation),
    {
        screen_h(self.orientation)
    }

    /// Applies a gesture and tells whether the display needs a redraw.
    pub fn handle_gesture(&mut self, gesture: Gesture) -> (redraw: bool)
        ensures
            *final(self) == old(self).after_gesture(gesture),
            redraw == old(self).gesture_redraws(gesture),
    {
        match gesture {
            Gesture::Nothing => false,
            Gesture::SwipeLeft => {
                self.apply_target(TapTarget::NextView);
                true
            },
            Gesture::SwipeRight => {
                self.apply_target(TapTarget::PrevView);
                true
            },
            Gesture::SwipeUp => {
                if self.current_view == View::Forecast && self.forecast_hourly_open {
                    self.forecast_hourly_scroll = self.forecast_hourly_scroll.saturating_add(
                        HOURLY_SCROLL_STEP,
                    );
                    self.dirty = true;
                    true
                } else {
                    false
                }
            },
            Gesture::SwipeDown => {
                if self.current_view == View::Forecast && self.forecast_hourly_open {
                    self.forecast_hourly_scroll = self.forecast_hourly_scroll.saturating_sub(
                        HOURLY_SCROLL_STEP,
                    );
                    self.dirty = true;
                    true
                } else {
                    false
                }
            },
            Gesture::Tap { x, y } => self.handle_tap(x, y),
        }
    }

    /// Finds what a tap at `(x, y)` hits.
    pub fn hit_test(&self, x: i16, y: i16) -> (target: TapTarget)
        ensures
            target == self.tap_target(x as int, y as int),
    {
        let screen_w: i16 = self.screen_w() as i16;
        let screen_h: i16 = self.screen_h() as i16;
        let landscape: bool = self.orientation.is_landscape();

        if y < HEADER_TAP_HEIGHT {
            if x >= screen_w - HEADER_TAP_WIDTH {
                return TapTarget::NextView;
            }
            if x < HEADER_TAP_WIDTH {
                return TapTarget::PrevView;
            }
        }
        if self.current_view == View::Now {
            let (temp_x0, temp_x1, temp_y0, temp_y1): (i16, i16, i16, i16) = if landscape {
                (100, 280, 36, 110)
            } else {
                (100, 310, 36, 126)
            };
            if temp_x0 <= x && x <= temp_x1 && temp_y0 <= y && y <= temp_y1 {
                return TapTarget::ToggleUnit;
            }
            let (icon_x0, icon_x1, icon_y0, icon_y1): (i16, i16, i16, i16) = if landscape {
                (10, 105, 36, 130)
            } else {
                (10, 120, 36, 150)
            };
            if icon_x0 <= x && x <= icon_x1 && icon_y0 <= y && y <= icon_y1 {
                return TapTarget::Icon;
            }
            let forecast_tap_top: i16 = if landscape {
                208
            } else {
                250
            };
            if y >= forecast_tap_top && y < screen_h {
                return TapTarget::ForecastCard;
            }
            return TapTarget::Miss;
        }
        if self.current_view == View::Forecast {
            if !self.forecast_hourly_open {
                if y >= FORECAST_ROW_TOP && y < FORECAST_ROW_TOP + 4 * FORECAST_ROW_STRIDE {
                    let row: usize = ((y - FORECAST_ROW_TOP) / FORECAST_ROW_STRIDE) as usize;
                    let openable: bool = match &self.forecast {
                        Some(fc) => row < fc.days.len() && fc.days[row].entries.len() > 0,
                        None => false,
                    };
                    if openable {
                        return TapTarget::DailyRow(row);
                    }
                }
            }
        }
        TapTarget::Miss
    }

    /// Applies a tap on `target`.
    pub fn apply_target(&mut self, target: TapTarget)
        ensures
            *final(self) == old(self).after_target(target),
    {
        match target {
            TapTarget::NextView => {
                self.current_view = self.current_view.next();
                self.forecast_hourly_open = false;
                self.dirty = true;
            },
            TapTarget::PrevView => {
                self.current_view = self.current_view.prev();
                self.forecast_hourly_open = false;
                self.dirty = true;
            },
            TapTarget::ToggleUnit => {
                self.use_celsius = !self.use_celsius;
                self.save_celsius_pref = true;
                self.dirty = true;
            },
            TapTarget::Icon => {
                if self.weather_alerts.len() == 0 {
                    self.force_weather_refresh = true;
                } else {
                    self.now_alerts_open = !self.now_alerts_open;
                }
                self.dirty = true;
            },
            TapTarget::ForecastCard => {
                self.current_view = View::Forecast;
                self.dirty = true;
            },
            TapTarget::DailyRow(row) => {
                self.forecast_hourly_open = true;
                self.forecast_hourly_day = row;
                self.forecast_hourly_scroll = 0;
                self.dirty = true;
            },
            TapTarget::Miss => {},
        }
    }

    /// Applies a tap at `(x, y)` and tells whether it hit anything.
    pub fn handle_tap(&mut self, x: i16, y: i16) -> (hit: bool)
        ensures
            *final(self) == old(self).after_target(old(self).tap_target(x as int, y as int)),
            hit == !(old(self).tap_target(x as int, y as int) is Miss),
    {
        let target: TapTarget = self.hit_test(x, y);
        self.apply_target(target);
        match target {
            TapTarget::Miss => false,
            _ => true,
        }
    }
}

/// A gesture that changes anything raises the redraw flag, and no gesture
/// lowers it.
pub proof fn lemma_gesture_change_sets_dirty(s: AppState, gesture: Gesture)
    ensures
        s.after_gesture(gesture) != s ==> s.after_gesture(gesture).dirty,
        s.dirty ==> s.after_gesture(gesture).dirty,
        s.gesture_redraws(gesture) ==> s.after_gesture(gesture).dirty,
{
}

/// A tap at either end of the header band navigates exactly as the
/// matching horizontal swipe does, on every page.
pub proof fn lemma_header_tap_is_swipe(s: AppState, x: i16, y: i16)
    requires
        y < HEADER_TAP_HEIGHT,
    ensures
        x >= logical_width(s.orientation) - HEADER_TAP_WIDTH ==> s.after_gesture(
            Gesture::Tap { x, y },
        ) == s.after_gesture(Gesture::SwipeLeft),
        x < HEADER_TAP_WIDTH && x < logical_width(s.orientation) - HEADER_TAP_WIDTH
            ==> s.after_gesture(Gesture::Tap { x, y }) == s.after_gesture(Gesture::SwipeRight),
{
}

/// A horizontal swipe closes the hourly list of the forecast page.
pub proof fn lemma_swipe_closes_hourly(s: AppState)
    ensures
        !s.after_gesture(Gesture::SwipeLeft).forecast_hourly_open,
        !s.after_gesture(Gesture::SwipeRight).forecast_hourly_open,
        s.after_gesture(Gesture::SwipeLeft).current_view == s.current_view.successor(),
        s.after_gesture(Gesture::SwipeRight).current_view == s.current_view.predecessor(),
{
}

} // verus!
