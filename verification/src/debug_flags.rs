//! Diagnostics switches and the one-shot requests that the console posts
//! for the main loop.
//!
//! Both are plain values that the caller shares as it sees fit. A request
//! slot holds at most one pending request: a newer request replaces an older
//! one that has not been taken yet.

use vstd::prelude::*;
use vstd::string::*;
use crate::config::OrientationMode;

verus! {

/// A part of the device whose diagnostics can be switched on.
#[derive(Debug, Clone, Copy, PartialEq, Eq, Structural)]
pub enum DebugModule {
    Touch,
    Bme280,
    Wifi,
    Weather,
    Imu,
}

/// One switch per module; a module logs verbosely while its switch is on.
#[derive(Debug, Clone, Copy, PartialEq, Eq, Structural)]
pub struct DebugFlags {
    pub touch: bool,
    pub bme280: bool,
    pub wifi: bool,
    pub weather: bool,
    pub imu: bool,
}

impl DebugFlags {
    /// The switch of one module.
    pub open spec fn get(self, module: DebugModule) -> bool {
        match module {
            DebugModule::Touch => self.touch,
            DebugModule::Bme280 => self.bme280,
            DebugModule::Wifi => self.wifi,
            DebugModule::Weather => self.weather,
            DebugModule::Imu => self.imu,
        }
    }

    /// The flags with the switch of one module set to `val`.
    pub open spec fn with(self, module: DebugModule, val: bool) -> DebugFlags {
        match module {
            DebugModule::Touch => DebugFlags { touch: val, ..self },
            DebugModule::Bme280 => DebugFlags { bme280: val, ..self },
            DebugModule::Wifi => DebugFlags { wifi: val, ..self },
            DebugModule::Weather => DebugFlags { weather: val, ..self },
            DebugModule::Imu => DebugFlags { imu: val, ..self },
        }
    }

    /// Every switch set to `val`.
    pub open spec fn all(val: bool) -> DebugFlags {
        DebugFlags { touch: val, bme280: val, wifi: val, weather: val, imu: val }
    }

    /// At least one switch is off.
    pub open spec fn any_off(self) -> bool {
        !self.touch || !self.bme280 || !self.wifi || !self.weather || !self.imu
    }

    /// All switches off.
    pub fn new() -> (flags: DebugFlags)
        ensures
            flags == DebugFlags::all(false),
    {
        DebugFlags { touch: false, bme280: false, wifi: false, weather: false, imu: false }
    }
}

pub fn is_on(flags: &DebugFlags, module: DebugModule) -> (on: bool)
    ensures
        on == flags.get(module),
{
    match module {
        DebugModule::Touch => flags.touch,
        DebugModule::Bme280 => flags.bme280,
        DebugModule::Wifi => flags.wifi,
        DebugModule::Weather => flags.weather,
        DebugModule::Imu => flags.imu,
    }
}

pub fn set(flags: &mut DebugFlags, module: DebugModule, val: bool)
    ensures
        *final(flags) == old(flags).with(module, val),
{
    match module {
        DebugModule::Touch => flags.touch = val,
        DebugModule::Bme280 => flags.bme280 = val,
        DebugModule::Wifi => flags.wifi = val,
        DebugModule::Weather => flags.weather = val,
        DebugModule::Imu => flags.imu = val,
    }
}

/// Flips one switch and returns its new position.
pub fn toggle(flags: &mut DebugFlags, module: DebugModule) -> (on: bool)
    ensures
        on == !old(flags).get(module),
        *final(flags) == old(flags).with(module, on),
{
    let on: bool = !is_on(flags, module);
    set(flags, module, on);
    on
}

/// Switches everything on if anything is off, and everything off
/// otherwise. Returns the position that all switches now have.
pub fn toggle_all(flags: &mut DebugFlags) -> (on: bool)
    ensures
        on == old(flags).any_off(),
        *final(flags) == DebugFlags::all(on),
{
    let any_off: bool = !flags.touch || !flags.bme280 || !flags.wifi || !flags.weather
        || !flags.imu;
    flags.touch = any_off;
    flags.bme280 = any_off;
    flags.wifi = any_off;
    flags.weather = any_off;
    flags.imu = any_off;
    any_off
}

/// How a switch is shown.
pub open spec fn on_off(on: bool) -> Seq<char> {
    if on {
        "ON"@
    } else {
        "off"@
    }
}

/// The one-line summary of all switches.
pub open spec fn status_text(flags: DebugFlags) -> Seq<char> {
    "touch="@ + on_off(flags.touch) + " bme280="@ + on_off(flags.bme280) + " wifi="@ + on_off(
        flags.wifi,
    ) + " weather="@ + on_off(flags.weather) + " imu="@ + on_off(flags.imu)
}

fn on_off_str(on: bool) -> (s: &'static str)
    ensures
        s@ == on_off(on),
{
    if on {
        "ON"
    } else {
        "off"
    }
}

pub fn status_line(flags: &DebugFlags) -> (line: String)
    ensures
        line@ == status_text(*flags),
{
    let mut line: String = String::from_str("touch=");
    line.append(on_off_str(flags.touch));
    line.append(" bme280=");
    line.append(on_off_str(flags.bme280));
    line.append(" wifi=");
    line.append(on_off_str(flags.wifi));
    line.append(" weather=");
    line.append(on_off_str(flags.weather));
    line.append(" imu=");
    line.append(on_off_str(flags.imu));
    line
}

/// A slot for one pending request.
#[derive(Debug, Clone, Copy)]
pub struct Mailbox<T> {
    slot: Option<T>,
}

impl<T> View for Mailbox<T> {
    type V = Option<T>;

    closed spec fn view(&self) -> Option<T> {
        self.slot
    }
}

impl<T> Mailbox<T> {
    /// An empty slot.
    pub fn new() -> (m: Mailbox<T>)
        ensures
            m@ is None,
    {
        Mailbox { slot: None }
    }

    /// Puts a request into the slot; a request still pending is dropped.
    pub fn post(&mut self, request: T)
        ensures
            final(self)@ == Some(request),
    {
        self.slot = Some(request);
    }

    /// Takes the pending request, leaving the slot empty.
    pub fn take(&mut self) -> (request: Option<T>)
        ensures
            request == old(self)@,
            final(self)@ is None,
    {
        self.slot.take()
    }

    pub fn is_pending(&self) -> (p: bool)
        ensures
            p == self@.is_some(),
    {
        self.slot.is_some()
    }
}

/// The requests that the console can leave for the main loop.
pub struct Requests {
    pub i2c_scan: Mailbox<()>,
    pub imu_read: Mailbox<()>,
    pub orientation_mode: Mailbox<OrientationMode>,
    pub orientation_flip: Mailbox<bool>,
}

impl Requests {
    /// No request pending.
    pub fn new() -> (r: Requests)
        ensures
            r.i2c_scan@ is None,
            r.imu_read@ is None,
            r.orientation_mode@ is None,
            r.orientation_flip@ is None,
    {
        Requests {
            i2c_scan: Mailbox::new(),
            imu_read: Mailbox::new(),
            orientation_mode: Mailbox::new(),
            orientation_flip: Mailbox::new(),
        }
    }
}

pub fn request_orientation_mode(requests: &mut Requests, mode: OrientationMode)
    ensures
        final(requests).orientation_mode@ == Some(mode),
        final(requests).orientation_flip == old(requests).orientation_flip,
        final(requests).i2c_scan == old(requests).i2c_scan,
        final(requests).imu_read == old(requests).imu_read,
{
    requests.orientation_mode.post(mode);
}

pub fn take_orientation_mode_request(requests: &mut Requests) -> (mode: Option<OrientationMode>)
    ensures
        mode == old(requests).orientation_mode@,
        final(requests).orientation_mode@ is None,
        final(requests).orientation_flip == old(requests).orientation_flip,
        final(requests).i2c_scan == old(requests).i2c_scan,
        final(requests).imu_read == old(requests).imu_read,
{
    requests.orientation_mode.take()
}

pub fn request_orientation_flip(requests: &mut Requests, flip: bool)
    ensures
        final(requests).orientation_flip@ == Some(flip),
        final(requests).orientation_mode == old(requests).orientation_mode,
        final(requests).i2c_scan == old(requests).i2c_scan,
        final(requests).imu_read == old(requests).imu_read,
{
    requests.orientation_flip.post(flip);
}

pub fn take_orientation_flip_request(requests: &mut Requests) -> (flip: Option<bool>)
    ensures
        flip == old(requests).orientation_flip@,
        final(requests).orientation_flip@ is None,
        final(requests).orientation_mode == old(requests).orientation_mode,
        final(requests).i2c_scan == old(requests).i2c_scan,
        final(requests).imu_read == old(requests).imu_read,
{
    requests.orientation_flip.take()
}

} // verus!
