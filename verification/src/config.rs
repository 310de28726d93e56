//! The device configuration: its fields, their defaults, and how a snapshot
//! is assembled from what the persistent store and the build hold.

use vstd::prelude::*;
use vstd::string::*;
use crate::text::{chars_of, lower, lowered, same_text, slice, string_of, trim, trimmed};

verus! {

/// Namespace of the configuration in the persistent store.
pub const NS: &'static str = "app_cfg";

pub const KEY_WIFI_SSID: &'static str = "wifi_ssid";

pub const KEY_WIFI_PASS: &'static str = "wifi_pass";

pub const KEY_WX_API_KEY: &'static str = "wx_api_key";

pub const KEY_WX_QUERY: &'static str = "wx_query";

pub const KEY_TIMEZONE: &'static str = "timezone";

pub const KEY_USE_CELSIUS: &'static str = "use_celsius";

pub const KEY_ORIENTATION: &'static str = "orientation";

pub const KEY_ORIENTATION_FLIP: &'static str = "ori_flip";

pub const KEY_FLASH_TIME: &'static str = "flash_time";

pub const KEY_ALERTS_ENABLED: &'static str = "alerts_en";

pub const KEY_ALERTS_AUTO_SCOPE: &'static str = "al_auto";

pub const KEY_NWS_USER_AGENT: &'static str = "nws_ua";

pub const KEY_NWS_SCOPE: &'static str = "nws_scope";

pub const KEY_NWS_ZONE: &'static str = "nws_zone";

pub const DEFAULT_WIFI_SSID: &'static str = "";

pub const DEFAULT_WIFI_PASS: &'static str = "";

pub const DEFAULT_WX_API_KEY: &'static str = "";

pub const DEFAULT_WEATHER_QUERY: &'static str = "zip=00000,US";

pub const DEFAULT_TIMEZONE: &'static str = "CST6CDT,M3.2.0,M11.1.0";

pub const DEFAULT_USE_CELSIUS: bool = false;

pub const DEFAULT_ALERTS_ENABLED: bool = true;

pub const DEFAULT_ALERTS_AUTO_SCOPE: bool = true;

pub const DEFAULT_FLASH_TIME: &'static str = "unknown";

pub const DEFAULT_NWS_USER_AGENT: &'static str = "waveshare_s3_3p/0.1.0 (contact: unset)";

pub const DEFAULT_NWS_SCOPE: &'static str = "area=MO";

/// The user's orientation policy: follow the inertial sensor, or stay on one
/// axis.
#[derive(Debug, Clone, Copy, PartialEq, Eq, Structural)]
pub enum OrientationMode {
    Auto,
    Landscape,
    Portrait,
}

/// The mode that a text names, ignoring surrounding white space and ASCII
/// case.
pub open spec fn mode_of_text(s: Seq<char>) -> Option<OrientationMode> {
    let t = lower(trim(s));
    if t == "auto"@ {
        Some(OrientationMode::Auto)
    } else if t == "landscape"@ {
        Some(OrientationMode::Landscape)
    } else if t == "portrait"@ {
        Some(OrientationMode::Portrait)
    } else {
        None
    }
}

impl OrientationMode {
    /// The name under which the mode is stored and shown.
    pub open spec fn name(self) -> Seq<char> {
        match self {
            OrientationMode::Auto => "auto"@,
            OrientationMode::Landscape => "landscape"@,
            OrientationMode::Portrait => "portrait"@,
        }
    }

    pub fn as_str(self) -> (s: &'static str)
        ensures
            s@ == self.name(),
    {
        match self {
            OrientationMode::Auto => "auto",
            OrientationMode::Landscape => "landscape",
            OrientationMode::Portrait => "portrait",
        }
    }

    pub fn parse(s: &str) -> (mode: Option<OrientationMode>)
        ensures
            mode == mode_of_text(s@),
    {
        let text: Vec<char> = lowered(&trimmed(&chars_of(s)));
        if same_text(&text, "auto") {
            Some(OrientationMode::Auto)
        } else if same_text(&text, "landscape") {
            Some(OrientationMode::Landscape)
        } else if same_text(&text, "portrait") {
            Some(OrientationMode::Portrait)
        } else {
            None
        }
    }
}

/// Every mode is read back from its own name.
pub proof fn lemma_mode_name_round_trip(mode: OrientationMode)
    ensures
        mode_of_text(mode.name()) == Some(mode),
{
    reveal_strlit("auto");
    reveal_strlit("landscape");
    reveal_strlit("portrait");
    let s = mode.name();
    assert(s.len() > 0);
    assert(!crate::text::is_space(s[0]));
    assert(!crate::text::is_space(s.last()));
    assert(crate::text::trim_start(s) == s);
    assert(crate::text::trim_end(s) == s);
    assert(lower(s) =~= s);
    assert("auto"@.len() == 4);
    assert("landscape"@.len() == 9);
    assert("portrait"@.len() == 8);
}

/// A snapshot of the configuration.
pub struct Config {
    pub wifi_ssid: String,
    pub wifi_pass: String,
    pub weather_api_key: String,
    pub weather_query: String,
    pub timezone: String,
    pub use_celsius: bool,
    pub orientation_mode: OrientationMode,
    pub orientation_flip: bool,
    pub flash_time: String,
    pub alerts_enabled: bool,
    pub alerts_auto_scope: bool,
    pub nws_user_agent: String,
    pub nws_scope: String,
    pub nws_zone: String,
}

/// What the persistent store returned for each key; `None` where the key is
/// absent or could not be read.
pub struct StoredConfig {
    pub wifi_ssid: Option<String>,
    pub wifi_pass: Option<String>,
    pub weather_api_key: Option<String>,
    pub weather_query: Option<String>,
    pub timezone: Option<String>,
    pub use_celsius: Option<u8>,
    pub orientation: Option<String>,
    pub orientation_flip: Option<u8>,
    pub flash_time: Option<String>,
    pub alerts_enabled: Option<u8>,
    pub alerts_auto_scope: Option<u8>,
    pub nws_user_agent: Option<String>,
    pub nws_scope: Option<String>,
    pub nws_zone: Option<String>,
}

/// `s` without the NUL characters at its end.
pub open spec fn strip_nuls(s: Seq<char>) -> Seq<char>
    decreases s.len(),
{
    if s.len() > 0 && s.last() == '\0' {
        strip_nuls(s.drop_last())
    } else {
        s
    }
}

/// The text of a stored value: its characters without trailing NULs, and
/// nothing at all where the key is absent or the text is empty.
pub open spec fn stored_text(raw: Option<String>) -> Option<Seq<char>> {
    match raw {
        Some(s) => if strip_nuls(s@).len() == 0 {
            None
        } else {
            Some(strip_nuls(s@))
        },
        None => None,
    }
}

/// The text of a build-time value: trimmed, and nothing where it is absent
/// or blank.
pub open spec fn env_text(v: Option<&str>) -> Option<Seq<char>> {
    match v {
        Some(s) => if trim(s@).len() == 0 {
            None
        } else {
            Some(trim(s@))
        },
        None => None,
    }
}

/// The characters of an optional string.
pub open spec fn text_of(v: Option<String>) -> Option<Seq<char>> {
    match v {
        Some(s) => Some(s@),
        None => None,
    }
}

/// The first of the three that is present.
pub open spec fn pick(first: Option<Seq<char>>, second: Option<Seq<char>>, last: Seq<char>) -> Seq<
    char,
> {
    match first {
        Some(s) => s,
        None => match second {
            Some(s) => s,
            None => last,
        },
    }
}

/// A stored flag: any byte but zero means true, an absent key means the
/// default.
pub open spec fn stored_flag(raw: Option<u8>, default: bool) -> bool {
    match raw {
        Some(v) => v != 0,
        None => default,
    }
}

/// Cleans one value read from the store.
pub fn nvs_get_str(raw: &Option<String>) -> (text: Option<String>)
    ensures
        text_of(text) == stored_text(*raw),
{
    match raw {
        None => None,
        Some(s) => {
            let v: Vec<char> = chars_of(s.as_str());
            let mut end: usize = v.len();
            assert(v@.subrange(0, end as int) =~= v@);
            while end > 0 && v[end - 1] == '\0'
                invariant
                    end <= v@.len(),
                    strip_nuls(v@) == strip_nuls(v@.subrange(0, end as int)),
                decreases end,
            {
                assert(v@.subrange(0, end as int).drop_last() =~= v@.subrange(0, end - 1));
                end -= 1;
            }
            if end == 0 {
                None
            } else {
                Some(string_of(&slice(&v, 0, end)))
            }
        },
    }
}

/// Cleans one value that the build may have left for the device.
pub fn env_nonempty(v: Option<&str>) -> (text: Option<String>)
    ensures
        text_of(text) == env_text(v),
{
    match v {
        None => None,
        Some(s) => {
            let t: Vec<char> = trimmed(&chars_of(s));
            if t.len() == 0 {
                None
            } else {
                Some(string_of(&t))
            }
        },
    }
}

/// The network name, the network password and the weather key that the
/// build left for a device whose store holds none.
pub fn local_secret_fallbacks(
    wifi_ssid: Option<&str>,
    wifi_pass: Option<&str>,
    api_key: Option<&str>,
) -> (secrets: (Option<String>, Option<String>, Option<String>))
    ensures
        text_of(secrets.0) == env_text(wifi_ssid),
        text_of(secrets.1) == env_text(wifi_pass),
        text_of(secrets.2) == env_text(api_key),
{
    (env_nonempty(wifi_ssid), env_nonempty(wifi_pass), env_nonempty(api_key))
}

/// The stored text, else the fallback, else the default.
fn choose_text(stored: &Option<String>, fallback: &Option<String>, default: &str) -> (s: String)
    ensures
        s@ == pick(stored_text(*stored), text_of(*fallback), default@),
{
    match nvs_get_str(stored) {
        Some(s) => s,
        None => match fallback {
            Some(s) => s.clone(),
            None => String::from_str(default),
        },
    }
}

fn choose_flag(raw: Option<u8>, default: bool) -> (b: bool)
    ensures
        b == stored_flag(raw, default),
{
    match raw {
        Some(v) => v != 0,
        None => default,
    }
}

impl Config {
    /// The snapshot that `stored` and the build-time fallbacks give.
    pub open spec fn loaded_from(
        self,
        stored: StoredConfig,
        local: (Option<String>, Option<String>, Option<String>),
    ) -> bool {
        &&& self.wifi_ssid@ == pick(
            stored_text(stored.wifi_ssid),
            text_of(local.0),
            DEFAULT_WIFI_SSID@,
        )
        &&& self.wifi_pass@ == pick(
            stored_text(stored.wifi_pass),
            text_of(local.1),
            DEFAULT_WIFI_PASS@,
        )
        &&& self.weather_api_key@ == pick(
            stored_text(stored.weather_api_key),
            text_of(local.2),
            DEFAULT_WX_API_KEY@,
        )
        &&& self.weather_query@ == pick(
            stored_text(stored.weather_query),
            None,
            DEFAULT_WEATHER_QUERY@,
        )
        &&& self.timezone@ == pick(stored_text(stored.timezone), None, DEFAULT_TIMEZONE@)
        &&& self.use_celsius == stored_flag(stored.use_celsius, DEFAULT_USE_CELSIUS)
        &&& self.orientation_mode == match stored_text(stored.orientation) {
            Some(t) => match mode_of_text(t) {
                Some(m) => m,
                None => OrientationMode::Auto,
            },
            None => OrientationMode::Auto,
        }
        &&& self.orientation_flip == stored_flag(stored.orientation_flip, false)
        &&& self.flash_time@ == pick(stored_text(stored.flash_time), None, DEFAULT_FLASH_TIME@)
        &&& self.alerts_enabled == stored_flag(stored.alerts_enabled, DEFAULT_ALERTS_ENABLED)
        &&& self.alerts_auto_scope == stored_flag(
            stored.alerts_auto_scope,
            DEFAULT_ALERTS_AUTO_SCOPE,
        )
        &&& self.nws_user_agent@ == pick(
            stored_text(stored.nws_user_agent),
            None,
            DEFAULT_NWS_USER_AGENT@,
        )
        &&& self.nws_scope@ == pick(stored_text(stored.nws_scope), None, DEFAULT_NWS_SCOPE@)
        &&& self.nws_zone@ == pick(stored_text(stored.nws_zone), None, Seq::<char>::empty())
    }

    /// Assembles the configuration from what the store returned, falling
    /// back to the build-time secrets and then to the defaults.
    pub fn load(
        stored: &StoredConfig,
        local: &(Option<String>, Option<String>, Option<String>),
    ) -> (cfg: Config)
        ensures
            cfg.loaded_from(*stored, *local),
    {
        let none: Option<String> = None;
        proof {
            reveal_strlit("");
            assert(""@ =~= Seq::<char>::empty());
        }
        let orientation_mode: OrientationMode = match nvs_get_str(&stored.orientation) {
            Some(s) => match OrientationMode::parse(s.as_str()) {
                Some(m) => m,
                None => OrientationMode::Auto,
            },
            None => OrientationMode::Auto,
        };
        Config {
            wifi_ssid: choose_text(&stored.wifi_ssid, &local.0, DEFAULT_WIFI_SSID),
            wifi_pass: choose_text(&stored.wifi_pass, &local.1, DEFAULT_WIFI_PASS),
            weather_api_key: choose_text(&stored.weather_api_key, &local.2, DEFAULT_WX_API_KEY),
            weather_query: choose_text(&stored.weather_query, &none, DEFAULT_WEATHER_QUERY),
            timezone: choose_text(&stored.timezone, &none, DEFAULT_TIMEZONE),
            use_celsius: choose_flag(stored.use_celsius, DEFAULT_USE_CELSIUS),
            orientation_mode,
            orientation_flip: choose_flag(stored.orientation_flip, false),
            flash_time: choose_text(&stored.flash_time, &none, DEFAULT_FLASH_TIME),
            alerts_enabled: choose_flag(stored.alerts_enabled, DEFAULT_ALERTS_ENABLED),
            alerts_auto_scope: choose_flag(stored.alerts_auto_scope, DEFAULT_ALERTS_AUTO_SCOPE),
            nws_user_agent: choose_text(&stored.nws_user_agent, &none, DEFAULT_NWS_USER_AGENT),
            nws_scope: choose_text(&stored.nws_scope, &none, DEFAULT_NWS_SCOPE),
            nws_zone: choose_text(&stored.nws_zone, &none, ""),
        }
    }
}

} // verus!
