//! The rules of the fixed-period main loop.
//!
//! The caller owns the loop and the hardware. Once per tick it walks the
//! steps in order, performs each step's read, and hands the result to the
//! matching function here, which updates the view state and tells what to do
//! next. Nothing here waits or blocks.

use vstd::prelude::*;
use vstd::string::*;
use vstd::view::View as _;
use crate::bme280_sensor::Bme280Reading;
use crate::config::OrientationMode;
use crate::fetch::WEATHER_INTERVAL_SECS;
use crate::framebuffer::{Framebuffer, FramebufferView};
use crate::layout::{logical_height, logical_width, Orientation};
use crate::orientation::{
    apply_orientation,
    auto_step,
    detect_orientation_from_imu,
    locked_orientation,
    locked_target,
    tilt_of,
    AutoState,
    Classified,
    DetectorModel,
    OrientationDetector,
};
use crate::qmi8658::ImuReading;
use crate::history::pushed;
use crate::touch::elapsed_ms;
use crate::views::AppState;
use crate::weather::{CurrentWeather, Forecast, WeatherAlert};

verus! {

/// Length of one tick of the main loop.
pub const TICK_MS: u64 = 100;

/// Time between two samples of the environmental sensor.
pub const BME280_INTERVAL_MS: u32 = 5_000;

/// Ticks between two updates of the clock text.
pub const TIME_UPDATE_TICKS: u32 = 10;

/// Ticks between two lines of network diagnostics.
pub const WIFI_DEBUG_TICKS: u32 = 100;

/// Ticks between two inertial samples in automatic mode.
pub const ORIENTATION_POLL_TICKS: u32 = 2;

/// Time between two attempts to join the network while disconnected.
pub const WIFI_RETRY_INTERVAL_MS: u32 = 300_000;

/// How much longer than the nominal interval the last successful fetch may
/// lie back before the weather counts as stale.
pub const WEATHER_STALE_MARGIN_SECS: u64 = 120;

/// Age of the last successful fetch beyond which the weather is stale.
pub const WEATHER_STALE_AFTER_SECS: u64 = WEATHER_INTERVAL_SECS + WEATHER_STALE_MARGIN_SECS;

/// The same age in milliseconds.
pub const WEATHER_STALE_AFTER_MS: u32 = 720_000;

/// The steps of one tick.
#[derive(Debug, Clone, Copy, PartialEq, Eq, Structural)]
pub enum TickStep {
    /// Poll the touch controller and apply the gesture.
    Touch,
    /// Sample the environmental sensor when it is due.
    Indoor,
    /// Try to take the latest weather and forecast, without waiting.
    Weather,
    /// Try to take the latest alerts, without waiting.
    Alerts,
    /// Apply pending orientation mode and flip requests.
    OrientationRequests,
    /// Sample the inertial sensor when automatic orientation is due.
    AutoOrientation,
    /// Serve pending diagnostic requests.
    Diagnostics,
    /// Retry joining the network when disconnected and due.
    WifiRetry,
    /// Redraw and flush if the state is dirty, then clear the flag.
    Redraw,
}

impl TickStep {
    /// The position of the step within a tick.
    pub open spec fn position(self) -> int {
        match self {
            TickStep::Touch => 0,
            TickStep::Indoor => 1,
            TickStep::Weather => 2,
            TickStep::Alerts => 3,
            TickStep::OrientationRequests => 4,
            TickStep::AutoOrientation => 5,
            TickStep::Diagnostics => 6,
            TickStep::WifiRetry => 7,
            TickStep::Redraw => 8,
        }
    }

    /// The step that opens a tick.
    pub fn first() -> (s: TickStep)
        ensures
            s.position() == 0,
    {
        TickStep::Touch
    }

    /// The step that follows, or `None` after the last one.
    pub fn next(self) -> (s: Option<TickStep>)
        ensures
            match s {
                Some(n) => n.position() == self.position() + 1,
                None => self == TickStep::Redraw,
            },
    {
        match self {
            TickStep::Touch => Some(TickStep::Indoor),
            TickStep::Indoor => Some(TickStep::Weather),
            TickStep::Weather => Some(TickStep::Alerts),
            TickStep::Alerts => Some(TickStep::OrientationRequests),
            TickStep::OrientationRequests => Some(TickStep::AutoOrientation),
            TickStep::AutoOrientation => Some(TickStep::Diagnostics),
            TickStep::Diagnostics => Some(TickStep::WifiRetry),
            TickStep::WifiRetry => Some(TickStep::Redraw),
            TickStep::Redraw => None,
        }
    }
}

/// The weather is stale when the last successful publish lies back more
/// than the stale age; before the first publish it is not.
pub open spec fn is_stale(last_success_ms: Option<int>, now_ms: int) -> bool {
    match last_success_ms {
        Some(ts) => elapsed_ms(now_ms, ts) > WEATHER_STALE_AFTER_MS,
        None => false,
    }
}

/// The scheduler's own state as a mathematical value.
pub struct SchedulerModel {
    pub last_bme_ms: int,
    pub tick_count: int,
    pub last_wifi_retry_ms: int,
    pub last_weather_success_ms: Option<int>,
    pub detector: DetectorModel,
}

/// The timers and counters of the main loop.
pub struct Scheduler {
    last_bme_ms: u32,
    tick_count: u32,
    last_wifi_retry_ms: u32,
    last_weather_success_ms: Option<u32>,
    detector: OrientationDetector,
}

impl vstd::view::View for Scheduler {
    type V = SchedulerModel;

    closed spec fn view(&self) -> SchedulerModel {
        SchedulerModel {
            last_bme_ms: self.last_bme_ms as int,
            tick_count: self.tick_count as int,
            last_wifi_retry_ms: self.last_wifi_retry_ms as int,
            last_weather_success_ms: match self.last_weather_success_ms {
                Some(ts) => Some(ts as int),
                None => None,
            },
            detector: self.detector@,
        }
    }
}

/// The line under the pages: city, country and condition.
pub open spec fn bottom_line(current: CurrentWeather) -> Seq<char> {
    current.city@ + ", "@ + current.country@ + " | "@ + current.condition@
}

impl Scheduler {
    /// The scheduler of a loop that starts at `now_ms` with the confirmed
    /// orientation `orientation`.
    pub fn new(orientation: Orientation, now_ms: u32) -> (s: Scheduler)
        ensures
            s@ == (SchedulerModel {
                last_bme_ms: 0,
                tick_count: 0,
                last_wifi_retry_ms: now_ms as int,
                last_weather_success_ms: None,
                detector: DetectorModel {
                    candidate: orientation,
                    count: 0,
                    last_change_ms: now_ms as int,
                },
            }),
    {
        Scheduler {
            last_bme_ms: 0,
            tick_count: 0,
            last_wifi_retry_ms: now_ms,
            last_weather_success_ms: None,
            detector: OrientationDetector::new(orientation, now_ms),
        }
    }

    /// Tells whether the environmental sensor is due, and restarts its
    /// period if it is.
    pub fn indoor_due(&mut self, now_ms: u32) -> (due: bool)
        ensures
            due == (elapsed_ms(now_ms as int, old(self)@.last_bme_ms) >= BME280_INTERVAL_MS),
            final(self)@ == if due {
                SchedulerModel { last_bme_ms: now_ms as int, ..old(self)@ }
            } else {
                old(self)@
            },
    {
        let since: u32 = now_ms.wrapping_sub(self.last_bme_ms);
        assert(since == elapsed_ms(now_ms as int, self.last_bme_ms as int));
        if since >= BME280_INTERVAL_MS {
            self.last_bme_ms = now_ms;
            true
        } else {
            false
        }
    }

    /// Takes a weather snapshot from the worker: the state shows it, the
    /// status line shows the network address again, the stale flag is
    /// lowered and the stale clock restarts.
    pub fn accept_weather(
        &mut self,
        state: &mut AppState,
        current: CurrentWeather,
        forecast: Forecast,
        ip_address: &str,
        now_ms: u32,
    )
        ensures
            final(self)@ == (SchedulerModel {
                last_weather_success_ms: Some(now_ms as int),
                ..old(self)@
            }),
            *final(state) == (AppState {
                bottom_text: final(state).bottom_text,
                status_text: final(state).status_text,
                current_weather: Some(current),
                forecast: Some(forecast),
                weather_stale: false,
                dirty: true,
                ..*old(state)
            }),
            final(state).bottom_text@ == bottom_line(current),
            final(state).status_text@ == ip_address@,
    {
        let mut bottom: String = String::from_str(current.city.as_str());
        bottom.append(", ");
        bottom.append(current.country.as_str());
        bottom.append(" | ");
        bottom.append(current.condition.as_str());
        state.bottom_text = bottom;
        state.current_weather = Some(current);
        state.forecast = Some(forecast);
        state.status_text = String::from_str(ip_address);
        state.weather_stale = false;
        self.last_weather_success_ms = Some(now_ms);
        state.dirty = true;
    }

    /// Brings the stale flag up to date; a change of the flag asks for a
    /// redraw.
    pub fn update_stale(&self, state: &mut AppState, now_ms: u32) -> (stale: bool)
        ensures
            stale == is_stale(self@.last_weather_success_ms, now_ms as int),
            *final(state) == if stale != old(state).weather_stale {
                AppState { weather_stale: stale, dirty: true, ..*old(state) }
            } else {
                *old(state)
            },
    {
        let stale: bool = match self.last_weather_success_ms {
            Some(ts) => {
                let since: u32 = now_ms.wrapping_sub(ts);
                assert(since == elapsed_ms(now_ms as int, ts as int));
                since > WEATHER_STALE_AFTER_MS
            },
            None => false,
        };
        if stale != state.weather_stale {
            state.weather_stale = stale;
            state.dirty = true;
        }
        stale
    }

    /// Applies a request for an orientation mode. A locked mode whose
    /// orientation differs from the current one is applied at once, without
    /// debounce or cooldown. Returns whether the orientation changed.
    pub fn on_mode_request(
        &mut self,
        state: &mut AppState,
        fb: &mut Framebuffer,
        mode: OrientationMode,
        now_ms: u32,
    ) -> (changed: bool)
        requires
            old(fb)@.wf(),
        ensures
            changed == (mode != OrientationMode::Auto && locked_target(
                mode,
                old(state).orientation_flip,
            ) != old(state).orientation),
            *final(state) == if changed {
                AppState {
                    orientation_mode: mode,
                    orientation: locked_target(mode, old(state).orientation_flip),
                    dirty: true,
                    ..*old(state)
                }
            } else {
                AppState { orientation_mode: mode, ..*old(state) }
            },
            final(self)@ == if changed {
                SchedulerModel {
                    detector: DetectorModel {
                        last_change_ms: now_ms as int,
                        ..old(self)@.detector
                    },
                    ..old(self)@
                }
            } else {
                old(self)@
            },
            final(fb)@ == if changed && old(state).orientation.landscape()
                != final(state).orientation.landscape() {
                FramebufferView::blank(
                    logical_width(final(state).orientation),
                    logical_height(final(state).orientation),
                )
            } else {
                old(fb)@
            },
            final(fb)@.wf(),
            old(fb)@.fits_panel(old(state).orientation) ==> final(fb)@.fits_panel(
                final(state).orientation,
            ),
    {
        state.orientation_mode = mode;
        self.enforce_locked(state, fb, now_ms)
    }

    /// Applies a request for the flip flag; in automatic mode the flag is
    /// recorded and nothing else happens. Returns whether the orientation
    /// changed.
    pub fn on_flip_request(
        &mut self,
        state: &mut AppState,
        fb: &mut Framebuffer,
        flip: bool,
        now_ms: u32,
    ) -> (changed: bool)
        requires
            old(fb)@.wf(),
        ensures
            changed == (old(state).orientation_mode != OrientationMode::Auto && locked_target(
                old(state).orientation_mode,
                flip,
            ) != old(state).orientation),
            *final(state) == if changed {
                AppState {
                    orientation_flip: flip,
                    orientation: locked_target(old(state).orientation_mode, flip),
                    dirty: true,
                    ..*old(state)
                }
            } else {
                AppState { orientation_flip: flip, ..*old(state) }
            },
            final(self)@ == if changed {
                SchedulerModel {
                    detector: DetectorModel {
                        last_change_ms: now_ms as int,
                        ..old(self)@.detector
                    },
                    ..old(self)@
                }
            } else {
                old(self)@
            },
            final(fb)@ == if changed && old(state).orientation.landscape()
                != final(state).orientation.landscape() {
                FramebufferView::blank(
                    logical_width(final(state).orientation),
                    logical_height(final(state).orientation),
                )
            } else {
                old(fb)@
            },
            final(fb)@.wf(),
            old(fb)@.fits_panel(old(state).orientation) ==> final(fb)@.fits_panel(
                final(state).orientation,
            ),
    {
        state.orientation_flip = flip;
        self.enforce_locked(state, fb, now_ms)
    }

    /// Brings the orientation in line with a locked mode: a locked mode whose
    /// orientation differs from the current one is applied at once, and the
    /// cooldown restarts. In automatic mode, and when the orientation already
    /// fits, nothing happens. Returns whether the orientation changed.
    pub fn enforce_locked(
        &mut self,
        state: &mut AppState,
        fb: &mut Framebuffer,
        now_ms: u32,
    ) -> (changed: bool)
        requires
            old(fb)@.wf(),
        ensures
            changed == (old(state).orientation_mode != OrientationMode::Auto && locked_target(
                old(state).orientation_mode,
                old(state).orientation_flip,
            ) != old(state).orientation),
            *final(state) == if changed {
                AppState {
                    orientation: locked_target(
                        old(state).orientation_mode,
                        old(state).orientation_flip,
                    ),
                    dirty: true,
                    ..*old(state)
                }
            } else {
                *old(state)
            },
            final(self)@ == if changed {
                SchedulerModel {
                    detector: DetectorModel {
                        last_change_ms: now_ms as int,
                        ..old(self)@.detector
                    },
                    ..old(self)@
                }
            } else {
                old(self)@
            },
            final(fb)@ == if changed && old(state).orientation.landscape()
                != final(state).orientation.landscape() {
                FramebufferView::blank(
                    logical_width(final(state).orientation),
                    logical_height(final(state).orientation),
                )
            } else {
                old(fb)@
            },
            final(fb)@.wf(),
            old(fb)@.fits_panel(old(state).orientation) ==> final(fb)@.fits_panel(
                final(state).orientation,
            ),
    {
        if state.orientation_mode != OrientationMode::Auto {
            let target: Orientation = locked_orientation(
                state.orientation_mode,
                state.orientation_flip,
            );
            if state.orientation != target {
                apply_orientation(state, fb, target);
                self.detector.note_change(now_ms);
                return true;
            }
        }
        false
    }

    /// Tells whether this tick samples the inertial sensor. Outside
    /// automatic mode it never does, and the detector forgets its count.
    pub fn auto_orientation_due(&mut self, state: &AppState, imu_ok: bool) -> (due: bool)
        ensures
            due == (state.orientation_mode == OrientationMode::Auto && imu_ok
                && old(self)@.tick_count % (ORIENTATION_POLL_TICKS as int) == 0),
            final(self)@ == if state.orientation_mode != OrientationMode::Auto {
                SchedulerModel {
                    detector: DetectorModel { count: 0, ..old(self)@.detector },
                    ..old(self)@
                }
            } else {
                old(self)@
            },
    {
        if state.orientation_mode != OrientationMode::Auto {
            self.detector.reset();
            return false;
        }
        imu_ok && self.tick_count % ORIENTATION_POLL_TICKS == 0
    }

    /// Takes the inertial sample of this tick, or `None` when the read gave
    /// no value, and applies the orientation that it confirms. Returns
    /// whether the orientation changed.
    pub fn on_imu_sample(
        &mut self,
        state: &mut AppState,
        fb: &mut Framebuffer,
        reading: Option<ImuReading>,
        now_ms: u32,
    ) -> (changed: bool)
        requires
            old(fb)@.wf(),
        ensures
            match sample_class(reading) {
                Some(c) => {
                    &&& changed == (c != old(state).orientation && old(self)@.detector.confirms(
                        old(state).orientation,
                        c,
                        now_ms,
                    ))
                    &&& final(self)@ == (SchedulerModel {
                        detector: old(self)@.detector.observe(old(state).orientation, c, now_ms),
                        ..old(self)@
                    })
                    &&& *final(state) == if changed {
                        AppState { orientation: c, dirty: true, ..*old(state) }
                    } else {
                        *old(state)
                    }
                },
                None => !changed && final(self)@ == old(self)@ && *final(state) == *old(state),
            },
            sample_class(reading) matches Some(c) ==> (AutoState {
                current: final(state).orientation,
                detector: final(self)@.detector,
            }) == auto_step(
                AutoState { current: old(state).orientation, detector: old(self)@.detector },
                Classified { class: c, now_ms },
            ),
            final(fb)@ == if changed && old(state).orientation.landscape()
                != final(state).orientation.landscape() {
                FramebufferView::blank(
                    logical_width(final(state).orientation),
                    logical_height(final(state).orientation),
                )
            } else {
                old(fb)@
            },
            final(fb)@.wf(),
            old(fb)@.fits_panel(old(state).orientation) ==> final(fb)@.fits_panel(
                final(state).orientation,
            ),
    {
        let class: Option<Orientation> = match reading {
            Some(r) => detect_orientation_from_imu(&r),
            None => None,
        };
        match self.detector.observe(state.orientation, class, now_ms) {
            Some(next) => {
                apply_orientation(state, fb, next);
                true
            },
            None => false,
        }
    }

    /// Tells whether a disconnected device should try to join its network
    /// now, and restarts the retry period if so.
    pub fn wifi_retry_due(&mut self, wifi_ok: bool, has_ssid: bool, now_ms: u32) -> (due: bool)
        ensures
            due == (!wifi_ok && has_ssid && elapsed_ms(
                now_ms as int,
                old(self)@.last_wifi_retry_ms,
            ) >= WIFI_RETRY_INTERVAL_MS),
            final(self)@ == if due {
                SchedulerModel { last_wifi_retry_ms: now_ms as int, ..old(self)@ }
            } else {
                old(self)@
            },
    {
        let since: u32 = now_ms.wrapping_sub(self.last_wifi_retry_ms);
        assert(since == elapsed_ms(now_ms as int, self.last_wifi_retry_ms as int));
        if !wifi_ok && has_ssid && since >= WIFI_RETRY_INTERVAL_MS {
            self.last_wifi_retry_ms = now_ms;
            true
        } else {
            false
        }
    }

    /// Tells whether this tick refreshes the clock text.
    pub fn time_update_due(&self) -> (due: bool)
        ensures
            due == (self@.tick_count % (TIME_UPDATE_TICKS as int) == 0),
    {
        self.tick_count % TIME_UPDATE_TICKS == 0
    }

    /// Tells whether this tick logs the network diagnostics.
    pub fn wifi_debug_due(&self, debug_wifi: bool) -> (due: bool)
        ensures
            due == (debug_wifi && self@.tick_count % (WIFI_DEBUG_TICKS as int) == 0),
    {
        debug_wifi && self.tick_count % WIFI_DEBUG_TICKS == 0
    }

    /// Closes the tick: the tick counter advances and wraps around.
    pub fn end_tick(&mut self)
        ensures
            final(self)@ == (SchedulerModel {
                tick_count: if old(self)@.tick_count == u32::MAX {
                    0
                } else {
                    old(self)@.tick_count + 1
                },
                ..old(self)@
            }),
    {
        self.tick_count = self.tick_count.wrapping_add(1);
    }
}

/// The classification of the inertial read of one tick; a read without a
/// value has none.
pub open spec fn sample_class(reading: Option<ImuReading>) -> Option<Orientation> {
    match reading {
        Some(r) => tilt_of(r.accel_x as int, r.accel_y as int, r.accel_z as int),
        None => None,
    }
}

/// Records a sample of the environmental sensor: the latest values are
/// replaced, temperature and humidity enter their histories, and a redraw is
/// asked for.
pub fn record_indoor(state: &mut AppState, reading: &Bme280Reading)
    requires
        old(state).wf(),
    ensures
        *final(state) == (AppState {
            indoor_temp: Some(reading.temperature),
            indoor_humidity: Some(reading.humidity),
            indoor_pressure: Some(reading.pressure),
            indoor_temp_history: final(state).indoor_temp_history,
            indoor_hum_history: final(state).indoor_hum_history,
            dirty: true,
            ..*old(state)
        }),
        final(state).indoor_temp_history@ == pushed(
            old(state).indoor_temp_history@,
            old(state).indoor_temp_history.capacity(),
            reading.temperature,
        ),
        final(state).indoor_hum_history@ == pushed(
            old(state).indoor_hum_history@,
            old(state).indoor_hum_history.capacity(),
            reading.humidity,
        ),
        final(state).indoor_temp_history.capacity() == old(state).indoor_temp_history.capacity(),
        final(state).indoor_hum_history.capacity() == old(state).indoor_hum_history.capacity(),
        final(state).wf(),
{
    state.indoor_temp = Some(reading.temperature);
    state.indoor_humidity = Some(reading.humidity);
    state.indoor_pressure = Some(reading.pressure);
    state.indoor_temp_history.push(reading.temperature);
    state.indoor_hum_history.push(reading.humidity);
    state.dirty = true;
}

/// Takes an alerts snapshot from the worker. The alerts are replaced as a
/// whole, and the overlay closes when none is left.
pub fn accept_alerts(state: &mut AppState, alerts: Vec<WeatherAlert>)
    ensures
        *final(state) == (AppState {
            weather_alerts: alerts,
            now_alerts_open: old(state).now_alerts_open && alerts@.len() > 0,
            dirty: true,
            ..*old(state)
        }),
{
    let none_left: bool = alerts.len() == 0;
    state.weather_alerts = alerts;
    if none_left {
        state.now_alerts_open = false;
    }
    state.dirty = true;
}

/// Takes the result of a bus scan.
pub fn accept_i2c_scan(state: &mut AppState, devices: Vec<u8>)
    ensures
        *final(state) == (AppState { i2c_devices: devices, dirty: true, ..*old(state) }),
{
    state.i2c_devices = devices;
    state.dirty = true;
}

/// Takes the pending wish to store the temperature unit: the unit to store,
/// or `None` when nothing is pending.
pub fn take_celsius_save(state: &mut AppState) -> (unit: Option<bool>)
    ensures
        unit == if old(state).save_celsius_pref {
            Some(old(state).use_celsius)
        } else {
            None
        },
        *final(state) == (AppState { save_celsius_pref: false, ..*old(state) }),
{
    if state.save_celsius_pref {
        state.save_celsius_pref = false;
        Some(state.use_celsius)
    } else {
        None
    }
}

/// Takes the pending wish for fresh weather data. When one is pending the
/// status line says so and a redraw is asked for.
pub fn take_weather_refresh(state: &mut AppState) -> (wanted: bool)
    ensures
        wanted == old(state).force_weather_refresh,
        !wanted ==> *final(state) == *old(state),
        wanted ==> *final(state) == (AppState {
            force_weather_refresh: false,
            status_text: final(state).status_text,
            dirty: true,
            ..*old(state)
        }) && final(state).status_text@ == "Refreshing..."@,
{
    if state.force_weather_refresh {
        state.force_weather_refresh = false;
        state.status_text = String::from_str("Refreshing...");
        state.dirty = true;
        true
    } else {
        false
    }
}

/// Takes the result of a successful network join.
pub fn accept_wifi(state: &mut AppState, ip_address: &str, networks: Vec<(String, i8)>)
    ensures
        *final(state) == (AppState {
            ip_address: final(state).ip_address,
            status_text: final(state).status_text,
            wifi_networks: networks,
            dirty: true,
            ..*old(state)
        }),
        final(state).ip_address@ == ip_address@,
        final(state).status_text@ == ip_address@,
{
    state.ip_address = String::from_str(ip_address);
    state.status_text = String::from_str(ip_address);
    state.wifi_networks = networks;
    state.dirty = true;
}

/// Shows a new clock text; the same text again changes nothing.
pub fn set_time_text(state: &mut AppState, text: String)
    ensures
        text@ == old(state).time_text@ ==> *final(state) == *old(state),
        text@ != old(state).time_text@ ==> *final(state) == (AppState {
            time_text: text,
            dirty: true,
            ..*old(state)
        }),
{
    if text != state.time_text {
        state.time_text = text;
        state.dirty = true;
    }
}

/// Tells whether the state asks for a redraw.
pub fn needs_redraw(state: &AppState) -> (dirty: bool)
    ensures
        dirty == state.dirty,
{
    state.dirty
}

/// Records that the state was drawn and flushed.
pub fn redraw_done(state: &mut AppState)
    ensures
        *final(state) == (AppState { dirty: false, ..*old(state) }),
{
    state.dirty = false;
}

/// The orientation that the device starts with: the locked one in a locked
/// mode; in automatic mode the one that the first inertial sample indicates,
/// or landscape without such a sample.
pub fn boot_orientation(mode: OrientationMode, flip: bool, first_sample: Option<ImuReading>) -> (o:
    Orientation)
    ensures
        o == if mode == OrientationMode::Auto {
            match sample_class(first_sample) {
                Some(c) => c,
                None => Orientation::Landscape,
            }
        } else {
            locked_target(mode, flip)
        },
{
    if mode == OrientationMode::Auto {
        let class: Option<Orientation> = match first_sample {
            Some(r) => detect_orientation_from_imu(&r),
            None => None,
        };
        match class {
            Some(c) => c,
            None => Orientation::Landscape,
        }
    } else {
        locked_orientation(mode, flip)
    }
}

/// The status line right after start: the network address when joined,
/// else what is wrong with the network.
pub fn boot_status_text(wifi_ok: bool, ssid: &str, ip_address: &str) -> (status: String)
    ensures
        status@ == if wifi_ok {
            ip_address@
        } else if ssid@.len() == 0 {
            "No WiFi"@
        } else {
            "WiFi failed"@
        },
{
    if wifi_ok {
        String::from_str(ip_address)
    } else if ssid.unicode_len() == 0 {
        String::from_str("No WiFi")
    } else {
        String::from_str("WiFi failed")
    }
}

/// With the last successful publish 900 seconds back the weather is stale,
/// and it stays fresh up to and including the stale age.
pub proof fn lemma_stale_after_margin(last_ms: u32, now_ms: u32)
    requires
        last_ms <= now_ms,
    ensures
        now_ms - last_ms > 720_000 ==> is_stale(Some(last_ms as int), now_ms as int),
        now_ms - last_ms <= 720_000 ==> !is_stale(Some(last_ms as int), now_ms as int),
        !is_stale(None, now_ms as int),
{
}

} // verus!
