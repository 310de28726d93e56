//! Runtime core of a small touchscreen weather dashboard.
//!
//! The crate holds the device's decision logic as verified functions on plain
//! values: the logical framebuffer and its rotation into panel chunks, the
//! touch gesture recogniser, the orientation detector, the view state, the
//! per-tick scheduling rules and the retry rules of the background workers,
//! together with the decoding of sensor registers, provider records and
//! console lines. Hardware access, networking and text rendering live with
//! the caller.

pub mod bme280_sensor;
pub mod config;
pub mod console;
pub mod debug_flags;
pub mod fetch;
pub mod forecast;
pub mod framebuffer;
pub mod history;
pub mod http_client;
pub mod layout;
pub mod orientation;
pub mod qmi8658;
pub mod scheduler;
pub mod text;
pub mod time_sync;
pub mod touch;
pub mod views;
pub mod weather;
pub mod weather_icons;
pub mod wifi;
