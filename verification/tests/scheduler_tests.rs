use waveshare_s3_3p::bme280_sensor::Bme280Reading;
use waveshare_s3_3p::config::OrientationMode;
use waveshare_s3_3p::framebuffer::Framebuffer;
use waveshare_s3_3p::layout::Orientation;
use waveshare_s3_3p::qmi8658::ImuReading;
use waveshare_s3_3p::scheduler::{
    accept_alerts, accept_i2c_scan, accept_wifi, boot_orientation, boot_status_text,
    needs_redraw, record_indoor, redraw_done,
    set_time_text, take_celsius_save, take_weather_refresh, Scheduler, TickStep,
    WEATHER_STALE_AFTER_MS, WEATHER_STALE_AFTER_SECS,
};
use waveshare_s3_3p::views::AppState;
use waveshare_s3_3p::weather::{CurrentWeather, Forecast, WeatherAlert};
use waveshare_s3_3p::weather_icons::WeatherIcon;

fn clean() -> AppState {
    let mut s = AppState::new();
    s.dirty = false;
    s
}

fn weather(city: &str, country: &str, condition: &str) -> (CurrentWeather, Forecast) {
    (
        CurrentWeather {
            temp_f: 7150,
            feels_f: 7000,
            wind_mph: 450,
            humidity: 40,
            pressure_hpa: 1013,
            icon: WeatherIcon::Clear,
            city: String::from(city),
            country: String::from(country),
            condition: String::from(condition),
        },
        Forecast { rows: Vec::new(), days: Vec::new(), preview_text: String::from("Mon 70°") },
    )
}

fn tilted(x: i16, y: i16) -> Option<ImuReading> {
    Some(ImuReading { accel_x: x, accel_y: y, accel_z: 0, gyro_x: 0, gyro_y: 0, gyro_z: 0, temp: 0 })
}

fn alert(event: &str) -> WeatherAlert {
    WeatherAlert {
        id: String::new(),
        event: String::from(event),
        headline: String::new(),
        expires: String::new(),
        description: String::new(),
        instruction: String::new(),
        severity: String::new(),
        certainty: String::new(),
        urgency: String::new(),
    }
}

#[test]
fn tick_steps_run_in_order() {
    let mut steps = vec![TickStep::first()];
    while let Some(next) = steps[steps.len() - 1].next() {
        steps.push(next);
    }
    assert_eq!(
        steps,
        vec![
            TickStep::Touch,
            TickStep::Indoor,
            TickStep::Weather,
            TickStep::Alerts,
            TickStep::OrientationRequests,
            TickStep::AutoOrientation,
            TickStep::Diagnostics,
            TickStep::WifiRetry,
            TickStep::Redraw,
        ]
    );
}

#[test]
fn stale_threshold_is_the_interval_plus_the_margin() {
    assert_eq!(WEATHER_STALE_AFTER_SECS, 720);
    assert_eq!(WEATHER_STALE_AFTER_MS as u64, WEATHER_STALE_AFTER_SECS * 1000);
}

#[test]
fn weather_is_stale_900_seconds_after_the_last_publish() {
    let mut sched = Scheduler::new(Orientation::Landscape, 0);
    let mut state = clean();
    let (current, forecast) = weather("Springfield", "US", "clear sky");
    sched.accept_weather(&mut state, current, forecast, "10.0.0.7", 50_000);
    state.dirty = false;
    assert!(sched.update_stale(&mut state, 50_000 + 900_000));
    assert!(state.weather_stale);
    assert!(state.dirty);
}

#[test]
fn weather_stays_fresh_up_to_the_stale_age() {
    let mut sched = Scheduler::new(Orientation::Landscape, 0);
    let mut state = clean();
    let (current, forecast) = weather("Springfield", "US", "clear sky");
    sched.accept_weather(&mut state, current, forecast, "10.0.0.7", 50_000);
    state.dirty = false;
    assert!(!sched.update_stale(&mut state, 50_000));
    assert!(!sched.update_stale(&mut state, 50_000 + 720_000));
    assert!(!state.weather_stale);
    assert!(!state.dirty);
    assert!(sched.update_stale(&mut state, 50_000 + 720_001));
    assert!(state.weather_stale);
    assert!(state.dirty);
    state.dirty = false;
    assert!(sched.update_stale(&mut state, 50_000 + 720_002));
    assert!(!state.dirty);
}

#[test]
fn weather_is_not_stale_before_the_first_publish() {
    let sched = Scheduler::new(Orientation::Landscape, 0);
    let mut state = clean();
    assert!(!sched.update_stale(&mut state, u32::MAX));
    assert!(!state.weather_stale);
    assert!(!state.dirty);
}

#[test]
fn stale_age_survives_the_clock_wrapping_around() {
    let mut sched = Scheduler::new(Orientation::Landscape, 0);
    let mut state = clean();
    let (current, forecast) = weather("a", "b", "c");
    sched.accept_weather(&mut state, current, forecast, "", u32::MAX - 1_000);
    assert!(!sched.update_stale(&mut state, 718_999));
    assert!(sched.update_stale(&mut state, 719_000));
}

#[test]
fn new_weather_clears_the_stale_flag() {
    let mut sched = Scheduler::new(Orientation::Landscape, 0);
    let mut state = clean();
    state.weather_stale = true;
    state.status_text = String::from("Refreshing...");
    let (current, forecast) = weather("Springfield", "US", "clear sky");
    sched.accept_weather(&mut state, current, forecast, "10.0.0.7", 1_000);
    assert!(!state.weather_stale);
    assert!(state.dirty);
    assert_eq!(state.bottom_text, "Springfield, US | clear sky");
    assert_eq!(state.status_text, "10.0.0.7");
    assert_eq!(state.current_weather.as_ref().map(|c| c.temp_f), Some(7150));
    assert_eq!(state.forecast.as_ref().map(|f| f.preview_text.as_str()), Some("Mon 70°"));
}

#[test]
fn environmental_sensor_is_sampled_every_five_seconds() {
    let mut sched = Scheduler::new(Orientation::Landscape, 0);
    assert!(!sched.indoor_due(4_999));
    assert!(sched.indoor_due(5_000));
    assert!(!sched.indoor_due(5_001));
    assert!(!sched.indoor_due(9_999));
    assert!(sched.indoor_due(10_050));
    assert!(!sched.indoor_due(15_049));
    assert!(sched.indoor_due(15_050));
}

#[test]
fn recording_a_sample_fills_the_histories() {
    let mut state = clean();
    record_indoor(&mut state, &Bme280Reading { temperature: 2150, humidity: 40_960, pressure: 25_938_560 });
    assert_eq!(state.indoor_temp, Some(2150));
    assert_eq!(state.indoor_humidity, Some(40_960));
    assert_eq!(state.indoor_pressure, Some(25_938_560));
    assert_eq!(state.indoor_temp_history.to_vec(), vec![2150]);
    assert_eq!(state.indoor_hum_history.to_vec(), vec![40_960]);
    assert!(state.dirty);
    for i in 0..720 {
        record_indoor(&mut state, &Bme280Reading { temperature: i, humidity: 7, pressure: 9 });
    }
    assert_eq!(state.indoor_temp_history.len(), 720);
    assert_eq!(state.indoor_hum_history.len(), 720);
    assert_eq!(state.indoor_temp_history.get(0), Some(&0));
    assert_eq!(state.indoor_temp_history.get(719), Some(&719));
}

#[test]
fn alerts_are_replaced_as_a_whole() {
    let mut state = clean();
    state.now_alerts_open = true;
    accept_alerts(&mut state, vec![alert("Flood Watch"), alert("Heat Advisory")]);
    assert_eq!(state.weather_alerts.len(), 2);
    assert!(state.now_alerts_open);
    assert!(state.dirty);
    state.dirty = false;
    accept_alerts(&mut state, vec![alert("Tornado Warning")]);
    assert_eq!(state.weather_alerts.len(), 1);
    assert_eq!(state.weather_alerts[0].event, "Tornado Warning");
    accept_alerts(&mut state, Vec::new());
    assert!(state.weather_alerts.is_empty());
    assert!(!state.now_alerts_open);
    assert!(state.dirty);
}

#[test]
fn locked_mode_request_is_applied_at_once() {
    let mut sched = Scheduler::new(Orientation::Landscape, 0);
    let mut state = clean();
    let mut fb = Framebuffer::new(480, 320);
    assert!(sched.on_mode_request(&mut state, &mut fb, OrientationMode::Portrait, 10));
    assert_eq!(state.orientation_mode, OrientationMode::Portrait);
    assert_eq!(state.orientation, Orientation::Portrait);
    assert_eq!(fb.size(), (320, 480));
    assert!(state.dirty);
    state.dirty = false;
    assert!(!sched.on_mode_request(&mut state, &mut fb, OrientationMode::Portrait, 20));
    assert!(!state.dirty);
    assert!(sched.on_mode_request(&mut state, &mut fb, OrientationMode::Landscape, 30));
    assert_eq!(state.orientation, Orientation::Landscape);
    assert_eq!(fb.size(), (480, 320));
}

#[test]
fn auto_mode_request_keeps_the_orientation() {
    let mut sched = Scheduler::new(Orientation::Portrait, 0);
    let mut state = clean();
    state.orientation = Orientation::Portrait;
    state.orientation_mode = OrientationMode::Portrait;
    let mut fb = Framebuffer::new(320, 480);
    assert!(!sched.on_mode_request(&mut state, &mut fb, OrientationMode::Auto, 10));
    assert_eq!(state.orientation_mode, OrientationMode::Auto);
    assert_eq!(state.orientation, Orientation::Portrait);
    assert!(!state.dirty);
}

#[test]
fn flip_request_in_a_locked_mode() {
    let mut sched = Scheduler::new(Orientation::Landscape, 0);
    let mut state = clean();
    state.orientation_mode = OrientationMode::Landscape;
    let mut fb = Framebuffer::new(480, 320);
    fb.set_pixel(1, 1, 5);
    assert!(sched.on_flip_request(&mut state, &mut fb, true, 10));
    assert!(state.orientation_flip);
    assert_eq!(state.orientation, Orientation::LandscapeFlipped);
    assert_eq!(fb.get_pixel(1, 1), Some(5));
    assert!(state.dirty);
    assert!(sched.on_flip_request(&mut state, &mut fb, false, 20));
    assert_eq!(state.orientation, Orientation::Landscape);
}

#[test]
fn flip_request_in_auto_mode_is_only_recorded() {
    let mut sched = Scheduler::new(Orientation::Landscape, 0);
    let mut state = clean();
    let mut fb = Framebuffer::new(480, 320);
    assert!(!sched.on_flip_request(&mut state, &mut fb, true, 10));
    assert!(state.orientation_flip);
    assert_eq!(state.orientation, Orientation::Landscape);
    assert!(!state.dirty);
}

#[test]
fn inertial_sensor_is_polled_on_even_ticks_in_auto_mode() {
    let mut sched = Scheduler::new(Orientation::Landscape, 0);
    let mut state = clean();
    assert!(sched.auto_orientation_due(&state, true));
    assert!(!sched.auto_orientation_due(&state, false));
    sched.end_tick();
    assert!(!sched.auto_orientation_due(&state, true));
    sched.end_tick();
    assert!(sched.auto_orientation_due(&state, true));
    state.orientation_mode = OrientationMode::Landscape;
    assert!(!sched.auto_orientation_due(&state, true));
}

#[test]
fn auto_orientation_turns_after_four_samples_and_the_cooldown() {
    let mut sched = Scheduler::new(Orientation::Landscape, 0);
    let mut state = clean();
    let mut fb = Framebuffer::new(480, 320);
    let portrait = tilted(-4000, 100);
    assert!(!sched.on_imu_sample(&mut state, &mut fb, portrait, 600));
    assert!(!sched.on_imu_sample(&mut state, &mut fb, portrait, 800));
    assert!(!sched.on_imu_sample(&mut state, &mut fb, portrait, 1_000));
    assert!(!sched.on_imu_sample(&mut state, &mut fb, portrait, 1_199));
    assert_eq!(state.orientation, Orientation::Landscape);
    assert!(!state.dirty);
    assert!(sched.on_imu_sample(&mut state, &mut fb, portrait, 1_200));
    assert_eq!(state.orientation, Orientation::Portrait);
    assert_eq!(fb.size(), (320, 480));
    assert!(state.dirty);
}

#[test]
fn missing_or_flat_samples_are_skipped() {
    let mut sched = Scheduler::new(Orientation::Landscape, 0);
    let mut state = clean();
    let mut fb = Framebuffer::new(480, 320);
    let portrait = tilted(-4000, 100);
    let flat =
        Some(ImuReading { accel_x: 0, accel_y: 0, accel_z: 4096, gyro_x: 0, gyro_y: 0, gyro_z: 0, temp: 0 });
    assert!(!sched.on_imu_sample(&mut state, &mut fb, portrait, 2_000));
    assert!(!sched.on_imu_sample(&mut state, &mut fb, None, 2_200));
    assert!(!sched.on_imu_sample(&mut state, &mut fb, portrait, 2_400));
    assert!(!sched.on_imu_sample(&mut state, &mut fb, flat, 2_600));
    assert!(!sched.on_imu_sample(&mut state, &mut fb, portrait, 2_800));
    assert!(sched.on_imu_sample(&mut state, &mut fb, portrait, 3_000));
}

#[test]
fn locking_the_mode_forgets_pending_samples() {
    let mut sched = Scheduler::new(Orientation::Landscape, 0);
    let mut state = clean();
    let mut fb = Framebuffer::new(480, 320);
    let portrait = tilted(-4000, 100);
    for i in 0..3 {
        assert!(!sched.on_imu_sample(&mut state, &mut fb, portrait, 2_000 + i * 200));
    }
    state.orientation_mode = OrientationMode::Landscape;
    assert!(!sched.auto_orientation_due(&state, true));
    state.orientation_mode = OrientationMode::Auto;
    for i in 0..3 {
        assert!(!sched.on_imu_sample(&mut state, &mut fb, portrait, 3_000 + i * 200));
    }
    assert!(sched.on_imu_sample(&mut state, &mut fb, portrait, 3_600));
}

#[test]
fn locked_change_restarts_the_cooldown() {
    let mut sched = Scheduler::new(Orientation::Landscape, 0);
    let mut state = clean();
    let mut fb = Framebuffer::new(480, 320);
    assert!(sched.on_mode_request(&mut state, &mut fb, OrientationMode::Portrait, 10_000));
    assert!(!sched.on_mode_request(&mut state, &mut fb, OrientationMode::Auto, 10_010));
    let landscape = tilted(0, -4000);
    for i in 0..4 {
        assert!(!sched.on_imu_sample(&mut state, &mut fb, landscape, 10_200 + i * 200));
    }
    assert!(!sched.on_imu_sample(&mut state, &mut fb, landscape, 11_199));
    assert!(sched.on_imu_sample(&mut state, &mut fb, landscape, 11_200));
    assert_eq!(state.orientation, Orientation::Landscape);
}

#[test]
fn network_join_is_retried_every_five_minutes_while_disconnected() {
    let mut sched = Scheduler::new(Orientation::Landscape, 1_000);
    assert!(!sched.wifi_retry_due(false, true, 300_999));
    assert!(sched.wifi_retry_due(false, true, 301_000));
    assert!(!sched.wifi_retry_due(false, true, 301_001));
    assert!(!sched.wifi_retry_due(true, true, 700_000));
    assert!(!sched.wifi_retry_due(false, false, 700_000));
    assert!(sched.wifi_retry_due(false, true, 700_000));
}

#[test]
fn clock_text_is_refreshed_every_tenth_tick() {
    let mut sched = Scheduler::new(Orientation::Landscape, 0);
    let mut due = Vec::new();
    for tick in 0..25 {
        if sched.time_update_due() {
            due.push(tick);
        }
        sched.end_tick();
    }
    assert_eq!(due, vec![0, 10, 20]);
}

#[test]
fn network_diagnostics_are_logged_every_hundredth_tick_when_switched_on() {
    let mut sched = Scheduler::new(Orientation::Landscape, 0);
    assert!(sched.wifi_debug_due(true));
    assert!(!sched.wifi_debug_due(false));
    for _ in 0..99 {
        sched.end_tick();
        assert!(!sched.wifi_debug_due(true));
    }
    sched.end_tick();
    assert!(sched.wifi_debug_due(true));
}

#[test]
fn unit_preference_is_saved_once() {
    let mut state = clean();
    assert_eq!(take_celsius_save(&mut state), None);
    state.use_celsius = true;
    state.save_celsius_pref = true;
    assert_eq!(take_celsius_save(&mut state), Some(true));
    assert!(!state.save_celsius_pref);
    assert_eq!(take_celsius_save(&mut state), None);
    assert!(!state.dirty);
}

#[test]
fn refresh_request_is_taken_once() {
    let mut state = clean();
    assert!(!take_weather_refresh(&mut state));
    assert_eq!(state.status_text, "Starting...");
    assert!(!state.dirty);
    state.force_weather_refresh = true;
    assert!(take_weather_refresh(&mut state));
    assert!(!state.force_weather_refresh);
    assert_eq!(state.status_text, "Refreshing...");
    assert!(state.dirty);
    assert!(!take_weather_refresh(&mut state));
}

#[test]
fn scan_and_join_results_are_shown() {
    let mut state = clean();
    accept_i2c_scan(&mut state, vec![0x3B, 0x6B, 0x76]);
    assert_eq!(state.i2c_devices, vec![0x3B, 0x6B, 0x76]);
    assert!(state.dirty);
    state.dirty = false;
    accept_wifi(&mut state, "192.168.1.20", vec![(String::from("home"), -48)]);
    assert_eq!(state.ip_address, "192.168.1.20");
    assert_eq!(state.status_text, "192.168.1.20");
    assert_eq!(state.wifi_networks, vec![(String::from("home"), -48)]);
    assert!(state.dirty);
}

#[test]
fn clock_text_change_asks_for_a_redraw() {
    let mut state = clean();
    set_time_text(&mut state, String::from("9:05 AM"));
    assert_eq!(state.time_text, "9:05 AM");
    assert!(state.dirty);
    state.dirty = false;
    set_time_text(&mut state, String::from("9:05 AM"));
    assert!(!state.dirty);
    set_time_text(&mut state, String::from("9:06 AM"));
    assert!(state.dirty);
}

#[test]
fn only_a_finished_redraw_clears_the_dirty_flag() {
    let mut state = AppState::new();
    assert!(needs_redraw(&state));
    redraw_done(&mut state);
    assert!(!needs_redraw(&state));
    accept_i2c_scan(&mut state, Vec::new());
    assert!(needs_redraw(&state));
}

#[test]
fn orientation_at_start() {
    assert_eq!(boot_orientation(OrientationMode::Auto, false, None), Orientation::Landscape);
    assert_eq!(boot_orientation(OrientationMode::Auto, true, None), Orientation::Landscape);
    assert_eq!(
        boot_orientation(OrientationMode::Auto, false, tilted(-4000, 0)),
        Orientation::Portrait
    );
    assert_eq!(
        boot_orientation(OrientationMode::Auto, false, tilted(100, 100)),
        Orientation::Landscape
    );
    assert_eq!(
        boot_orientation(OrientationMode::Portrait, true, tilted(0, -4000)),
        Orientation::PortraitFlipped
    );
    assert_eq!(
        boot_orientation(OrientationMode::Landscape, false, tilted(-4000, 0)),
        Orientation::Landscape
    );
}

#[test]
fn status_line_at_start() {
    assert_eq!(boot_status_text(true, "home", "10.0.0.7"), "10.0.0.7");
    assert_eq!(boot_status_text(false, "", "10.0.0.7"), "No WiFi");
    assert_eq!(boot_status_text(false, "home", ""), "WiFi failed");
    assert_eq!(boot_status_text(true, "", ""), "");
}

#[test]
fn locked_orientation_is_enforced_at_once() {
    let mut sched = Scheduler::new(Orientation::Landscape, 0);
    let mut state = clean();
    let mut fb = Framebuffer::new(480, 320);
    assert!(!sched.enforce_locked(&mut state, &mut fb, 5));
    state.orientation_mode = OrientationMode::Portrait;
    state.orientation_flip = true;
    assert!(sched.enforce_locked(&mut state, &mut fb, 10));
    assert_eq!(state.orientation, Orientation::PortraitFlipped);
    assert_eq!(fb.size(), (320, 480));
    assert!(state.dirty);
    state.dirty = false;
    assert!(!sched.enforce_locked(&mut state, &mut fb, 20));
    assert!(!state.dirty);
}
