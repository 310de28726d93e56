//! The retry rules of the background fetch workers.
//!
//! A worker fetches, publishes on success and sleeps for its refresh
//! interval; on failure it counts, logs and sleeps for the retry delay. It
//! never gives up. The first failure of a run and every tenth one are logged
//! loudly, the others quietly.

use vstd::prelude::*;
use vstd::string::*;
use crate::text::{chars_of, has_prefix, slice, starts_with, string_of, trim, trimmed};

verus! {

/// Delay before the next attempt after a failed fetch.
pub const WEATHER_RETRY_SECS: u64 = 30;

/// Nominal time between two weather fetches.
pub const WEATHER_INTERVAL_SECS: u64 = 600;

/// Nominal time between two alert fetches.
pub const ALERTS_INTERVAL_SECS: u64 = 180;

/// How often the alerts worker looks again while alerts are switched off.
pub const ALERTS_DISABLED_POLL_SECS: u64 = 5;

/// Delay before the next attempt after a failed zone discovery.
pub const ZONE_DISCOVERY_RETRY_SECS: u64 = 60;

/// A failure is logged loudly when its number in the run is a multiple of
/// this.
pub const FAILURE_WARN_EVERY: u32 = 10;

/// The number of consecutive failures after one more, held at the largest
/// 32-bit number.
pub open spec fn failures_after(n: int) -> int {
    if n >= u32::MAX {
        u32::MAX as int
    } else {
        n + 1
    }
}

/// The failure that brings the count to `count` is logged loudly.
pub open spec fn is_loud(count: int) -> bool {
    count == 1 || count % (FAILURE_WARN_EVERY as int) == 0
}

/// What a worker does after an attempt.
#[derive(Debug, Clone, Copy, PartialEq, Eq, Structural)]
pub struct NextAttempt {
    /// Log the outcome at warning level rather than at information level.
    pub loud: bool,
    /// Seconds to sleep before the next attempt.
    pub sleep_secs: u64,
    /// A request for fresh data may cut the sleep short.
    pub wake_on_refresh: bool,
}

/// The worker's state as a mathematical value.
pub struct FetchModel {
    pub consecutive_failures: int,
    pub first: bool,
    pub last_success_ms: Option<int>,
    pub retry_secs: int,
    pub refresh_secs: int,
    /// A request for fresh data cuts the sleep after a success short.
    pub wakes_on_refresh: bool,
}

/// The state of one background worker.
#[derive(Debug, Clone, Copy)]
pub struct FetchState {
    consecutive_failures: u32,
    first: bool,
    last_success_ms: Option<u32>,
    retry_secs: u64,
    refresh_secs: u64,
    wakes_on_refresh: bool,
}

impl View for FetchState {
    type V = FetchModel;

    closed spec fn view(&self) -> FetchModel {
        FetchModel {
            consecutive_failures: self.consecutive_failures as int,
            first: self.first,
            last_success_ms: match self.last_success_ms {
                Some(t) => Some(t as int),
                None => None,
            },
            retry_secs: self.retry_secs as int,
            refresh_secs: self.refresh_secs as int,
            wakes_on_refresh: self.wakes_on_refresh,
        }
    }
}

impl FetchState {
    /// A worker that has not fetched yet.
    pub fn new(refresh_secs: u64, retry_secs: u64, wakes_on_refresh: bool) -> (s: FetchState)
        ensures
            s@ == (FetchModel {
                consecutive_failures: 0,
                first: true,
                last_success_ms: None,
                retry_secs: retry_secs as int,
                refresh_secs: refresh_secs as int,
                wakes_on_refresh,
            }),
    {
        FetchState {
            consecutive_failures: 0,
            first: true,
            last_success_ms: None,
            retry_secs,
            refresh_secs,
            wakes_on_refresh,
        }
    }

    /// The weather worker's state: a request for fresh data wakes it.
    pub fn weather() -> (s: FetchState)
        ensures
            s@ == (FetchModel {
                consecutive_failures: 0,
                first: true,
                last_success_ms: None,
                retry_secs: WEATHER_RETRY_SECS as int,
                refresh_secs: WEATHER_INTERVAL_SECS as int,
                wakes_on_refresh: true,
            }),
    {
        FetchState::new(WEATHER_INTERVAL_SECS, WEATHER_RETRY_SECS, true)
    }

    /// The alerts worker's state: it sleeps through requests for fresh data.
    pub fn alerts() -> (s: FetchState)
        ensures
            s@ == (FetchModel {
                consecutive_failures: 0,
                first: true,
                last_success_ms: None,
                retry_secs: WEATHER_RETRY_SECS as int,
                refresh_secs: ALERTS_INTERVAL_SECS as int,
                wakes_on_refresh: false,
            }),
    {
        FetchState::new(ALERTS_INTERVAL_SECS, WEATHER_RETRY_SECS, false)
    }

    pub fn consecutive_failures(&self) -> (n: u32)
        ensures
            n == self@.consecutive_failures,
    {
        self.consecutive_failures
    }

    /// Tells whether the coming attempt is narrated: the first one always
    /// is, later ones only while the worker's diagnostics are on.
    pub fn verbose(&self, debug_on: bool) -> (v: bool)
        ensures
            v == (self@.first || debug_on),
    {
        self.first || debug_on
    }

    /// The time of the last successful fetch, if there was one.
    pub fn last_success_ms(&self) -> (t: Option<u32>)
        ensures
            match t {
                Some(ms) => self@.last_success_ms == Some(ms as int),
                None => self@.last_success_ms is None,
            },
    {
        self.last_success_ms
    }

    /// Records a fetch that succeeded at `now_ms`. The failure count starts
    /// over, and the worker sleeps for its refresh interval; whether a
    /// request for fresh data wakes it is the worker's own setting.
    pub fn on_success(&mut self, now_ms: u32) -> (next: NextAttempt)
        ensures
            final(self)@ == (FetchModel {
                consecutive_failures: 0,
                first: false,
                last_success_ms: Some(now_ms as int),
                ..old(self)@
            }),
            next == (NextAttempt {
                loud: false,
                sleep_secs: old(self)@.refresh_secs as u64,
                wake_on_refresh: old(self)@.wakes_on_refresh,
            }),
    {
        self.first = false;
        self.consecutive_failures = 0;
        self.last_success_ms = Some(now_ms);
        NextAttempt {
            loud: false,
            sleep_secs: self.refresh_secs,
            wake_on_refresh: self.wakes_on_refresh,
        }
    }

    /// Records a failed fetch. The failure is counted, logged loudly if it
    /// is the first of its run or a tenth one, and the worker sleeps for the
    /// retry delay.
    pub fn on_failure(&mut self) -> (next: NextAttempt)
        ensures
            final(self)@ == (FetchModel {
                consecutive_failures: failures_after(old(self)@.consecutive_failures),
                ..old(self)@
            }),
            next == (NextAttempt {
                loud: is_loud(final(self)@.consecutive_failures),
                sleep_secs: old(self)@.retry_secs as u64,
                wake_on_refresh: false,
            }),
    {
        self.consecutive_failures = self.consecutive_failures.saturating_add(1);
        let loud: bool = self.consecutive_failures == 1 || self.consecutive_failures
            % FAILURE_WARN_EVERY == 0;
        NextAttempt { loud, sleep_secs: self.retry_secs, wake_on_refresh: false }
    }

    /// Records that the zone was discovered. The failure count starts over;
    /// the worker goes on to fetch at once, so nothing else changes.
    pub fn on_zone_discovered(&mut self)
        ensures
            final(self)@ == (FetchModel { consecutive_failures: 0, ..old(self)@ }),
    {
        self.consecutive_failures = 0;
    }

    /// Records a failed zone discovery. The failure is counted and logged
    /// like a failed fetch, and the worker sleeps for the discovery's own,
    /// longer delay before it tries again.
    pub fn on_zone_discovery_failure(&mut self) -> (next: NextAttempt)
        ensures
            final(self)@ == (FetchModel {
                consecutive_failures: failures_after(old(self)@.consecutive_failures),
                ..old(self)@
            }),
            next == (NextAttempt {
                loud: is_loud(final(self)@.consecutive_failures),
                sleep_secs: ZONE_DISCOVERY_RETRY_SECS,
                wake_on_refresh: false,
            }),
    {
        let counted: NextAttempt = self.on_failure();
        NextAttempt {
            loud: counted.loud,
            sleep_secs: ZONE_DISCOVERY_RETRY_SECS,
            wake_on_refresh: false,
        }
    }
}

/// What the alerts worker does while alerts are switched off: it sleeps
/// for a short while, quietly, and then looks at the configuration again.
pub fn alerts_disabled_pause() -> (next: NextAttempt)
    ensures
        next == (NextAttempt {
            loud: false,
            sleep_secs: ALERTS_DISABLED_POLL_SECS,
            wake_on_refresh: false,
        }),
{
    NextAttempt { loud: false, sleep_secs: ALERTS_DISABLED_POLL_SECS, wake_on_refresh: false }
}

/// The worker's state after `n` failures in a row.
pub open spec fn after_failures(s: FetchModel, n: nat) -> FetchModel
    decreases n,
{
    if n == 0 {
        s
    } else {
        let prev = after_failures(s, (n - 1) as nat);
        FetchModel { consecutive_failures: failures_after(prev.consecutive_failures), ..prev }
    }
}

/// After a success, the `n`-th failure in a row brings the count to `n`, is
/// logged loudly exactly when `n` is one or a multiple of ten, and changes
/// nothing else in the worker's state, for every run that a 32-bit counter
/// can count.
pub proof fn lemma_failure_run(s: FetchModel, n: nat)
    requires
        s.consecutive_failures == 0,
        n <= u32::MAX,
    ensures
        after_failures(s, n) == (FetchModel { consecutive_failures: n as int, ..s }),
        n >= 1 ==> (is_loud(after_failures(s, n).consecutive_failures) <==> (n == 1 || n % 10
            == 0)),
    decreases n,
{
    if n > 0 {
        lemma_failure_run(s, (n - 1) as nat);
    }
}

/// What the alerts worker does next.
#[derive(Debug, Clone, PartialEq, Eq)]
pub enum AlertsPlan {
    /// Alerts are switched off: look again after a short sleep.
    Disabled,
    /// Automatic scope without a cached zone: discover the zone first.
    DiscoverZone,
    /// Fetch the alerts for this scope.
    Fetch(String),
}

/// The scope text to fetch with, if the worker fetches now.
pub open spec fn alerts_scope(
    enabled: bool,
    auto_scope: bool,
    scope: Seq<char>,
    cached_zone: Seq<char>,
) -> Option<Seq<char>> {
    if !enabled {
        None
    } else if auto_scope {
        if cached_zone.len() == 0 {
            None
        } else {
            Some("zone="@ + cached_zone)
        }
    } else {
        Some(scope)
    }
}

/// Decides the next move of the alerts worker from the configuration.
pub fn alerts_plan(enabled: bool, auto_scope: bool, scope: &str, cached_zone: &str) -> (plan:
    AlertsPlan)
    ensures
        !enabled ==> plan == AlertsPlan::Disabled,
        enabled && auto_scope && cached_zone@.len() == 0 ==> plan == AlertsPlan::DiscoverZone,
        match alerts_scope(enabled, auto_scope, scope@, cached_zone@) {
            Some(text) => plan matches AlertsPlan::Fetch(s) && s@ == text,
            None => !(plan is Fetch),
        },
{
    if !enabled {
        AlertsPlan::Disabled
    } else if auto_scope {
        if cached_zone.unicode_len() == 0 {
            AlertsPlan::DiscoverZone
        } else {
            let mut s: String = String::from_str("zone=");
            s.append(cached_zone);
            AlertsPlan::Fetch(s)
        }
    } else {
        AlertsPlan::Fetch(String::from_str(scope))
    }
}

/// The scope text for a zone that was just discovered.
pub fn zone_scope(zone: &str) -> (scope: String)
    ensures
        scope@ == "zone="@ + zone@,
{
    let mut s: String = String::from_str("zone=");
    s.append(zone);
    s
}

/// The query of an alerts request: the scope trimmed, with a leading
/// `state=` rewritten to `area=`.
pub open spec fn alerts_query(scope: Seq<char>) -> Seq<char> {
    let t = trim(scope);
    if has_prefix(t, "state="@) {
        "area="@ + t.subrange("state="@.len() as int, t.len() as int)
    } else {
        t
    }
}

/// The address of an alerts request for a scope.
pub open spec fn alerts_url(scope: Seq<char>) -> Seq<char> {
    if alerts_query(scope).len() == 0 {
        "https://api.weather.gov/alerts/active"@
    } else {
        "https://api.weather.gov/alerts/active?"@ + alerts_query(scope)
    }
}

/// Builds the address from which the active alerts of a scope are fetched.
pub fn nws_alerts_url(scope: &str) -> (url: String)
    ensures
        url@ == alerts_url(scope@),
{
    let t: Vec<char> = trimmed(&chars_of(scope));
    let prefix: Vec<char> = chars_of("state=");
    let query: String = if starts_with(&t, &prefix) {
        let rest: Vec<char> = slice(&t, prefix.len(), t.len());
        let mut q: String = String::from_str("area=");
        q.append(string_of(&rest).as_str());
        q
    } else {
        string_of(&t)
    };
    if query.as_str().unicode_len() == 0 {
        String::from_str("https://api.weather.gov/alerts/active")
    } else {
        let mut url: String = String::from_str("https://api.weather.gov/alerts/active?");
        url.append(query.as_str());
        url
    }
}

/// The two addresses of a weather request: current conditions and forecast.
pub fn weather_urls(query: &str, api_key: &str) -> (urls: (String, String))
    ensures
        urls.0@ == "https://api.openweathermap.org/data/2.5/weather?"@ + query@
            + "&units=imperial&appid="@ + api_key@,
        urls.1@ == "https://api.openweathermap.org/data/2.5/forecast?"@ + query@
            + "&units=imperial&appid="@ + api_key@,
{
    let mut weather: String = String::from_str("https://api.openweathermap.org/data/2.5/weather?");
    weather.append(query);
    weather.append("&units=imperial&appid=");
    weather.append(api_key);
    let mut forecast: String = String::from_str(
        "https://api.openweathermap.org/data/2.5/forecast?",
    );
    forecast.append(query);
    forecast.append("&units=imperial&appid=");
    forecast.append(api_key);
    (weather, forecast)
}

} // verus!
