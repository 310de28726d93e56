//! The rules for joining the wireless network.

use vstd::prelude::*;

verus! {

/// Number of attempts to join before giving up until the next retry window.
pub const CONNECT_ATTEMPTS: u32 = 5;

/// Pause after the radio was stopped between two attempts.
pub const RADIO_STOP_PAUSE_MS: u64 = 500;

/// Pause after the radio was started again between two attempts.
pub const RADIO_START_PAUSE_MS: u64 = 300;

/// Largest length of a network name, in bytes.
pub const SSID_MAX_BYTES: usize = 32;

/// Largest length of a password, in bytes.
pub const PASSWORD_MAX_BYTES: usize = 64;

/// How the device authenticates.
#[derive(Debug, Clone, Copy, PartialEq, Eq, Structural)]
pub enum AuthChoice {
    /// An open network.
    Open,
    /// A network protected by a personal WPA2 password.
    Wpa2Personal,
}

/// What follows a failed attempt to join.
#[derive(Debug, Clone, Copy, PartialEq, Eq, Structural)]
pub enum RetryStep {
    /// Disconnect, stop the radio, pause, start it, pause, and try again.
    ResetRadio,
    /// The last attempt failed: keep the radio as it is and give up for now.
    GiveUp,
}

/// An empty password means an open network.
pub fn auth_for(password_is_empty: bool) -> (auth: AuthChoice)
    ensures
        auth == if password_is_empty {
            AuthChoice::Open
        } else {
            AuthChoice::Wpa2Personal
        },
{
    if password_is_empty {
        AuthChoice::Open
    } else {
        AuthChoice::Wpa2Personal
    }
}

/// Decides what follows the failure of attempt number `attempt`, counting
/// from one.
pub fn after_failed_attempt(attempt: u32) -> (step: RetryStep)
    ensures
        step == if attempt < CONNECT_ATTEMPTS {
            RetryStep::ResetRadio
        } else {
            RetryStep::GiveUp
        },
{
    if attempt < CONNECT_ATTEMPTS {
        RetryStep::ResetRadio
    } else {
        RetryStep::GiveUp
    }
}

} // verus!
