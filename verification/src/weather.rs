//! Weather data as the views show it, and the rules that turn provider
//! records into it.

use vstd::prelude::*;
use vstd::string::*;
use crate::text::{append_decimal, chars_of, contains, contains_text, decimal, lower, lowered};
use crate::weather_icons::WeatherIcon;

verus! {

/// Largest number of days that a forecast keeps.
pub const FORECAST_MAX_DAYS: usize = 8;

/// Largest number of hourly entries kept for one day.
pub const FORECAST_HOURLY_MAX: usize = 12;

/// Current conditions. Temperatures and the wind speed are in hundredths of
/// their unit.
#[derive(Debug, Clone)]
pub struct CurrentWeather {
    pub temp_f: i32,
    pub feels_f: i32,
    pub wind_mph: i32,
    pub humidity: i32,
    pub pressure_hpa: i32,
    pub icon: WeatherIcon,
    pub city: String,
    pub country: String,
    pub condition: String,
}

/// One day of the forecast list.
#[derive(Debug, Clone)]
pub struct ForecastRow {
    pub temp_f: i32,
    pub low_f: i32,
    pub wind_mph: i32,
    pub icon: WeatherIcon,
    pub title: String,
    pub detail: String,
    pub temp_text: String,
}

/// One three-hour step of a day.
#[derive(Debug, Clone)]
pub struct HourlyEntry {
    pub temp_f: i32,
    pub feels_f: i32,
    pub wind_mph: i32,
    pub icon: WeatherIcon,
    pub time_text: String,
    pub detail: String,
    pub temp_text: String,
}

/// The hourly steps of one day.
#[derive(Debug, Clone)]
pub struct ForecastDay {
    pub entries: Vec<HourlyEntry>,
}

/// A forecast: one row and one list of hourly steps per day.
#[derive(Debug, Clone)]
pub struct Forecast {
    pub rows: Vec<ForecastRow>,
    pub days: Vec<ForecastDay>,
    pub preview_text: String,
}

/// How serious an alert is, by the wording of its event.
#[derive(Debug, Clone, Copy, PartialEq, Eq, Structural)]
pub enum AlertKind {
    Warning,
    Watch,
    Advisory,
    Other,
}

impl AlertKind {
    pub open spec fn name(self) -> Seq<char> {
        match self {
            AlertKind::Warning => "Warning"@,
            AlertKind::Watch => "Watch"@,
            AlertKind::Advisory => "Advisory"@,
            AlertKind::Other => "Alert"@,
        }
    }

    /// The order in which alerts are listed: warnings first.
    pub open spec fn rank(self) -> int {
        match self {
            AlertKind::Warning => 0,
            AlertKind::Watch => 1,
            AlertKind::Advisory => 2,
            AlertKind::Other => 3,
        }
    }

    pub fn as_str(self) -> (s: &'static str)
        ensures
            s@ == self.name(),
    {
        match self {
            AlertKind::Warning => "Warning",
            AlertKind::Watch => "Watch",
            AlertKind::Advisory => "Advisory",
            AlertKind::Other => "Alert",
        }
    }
}

/// One active weather alert.
#[derive(Debug, Clone)]
pub struct WeatherAlert {
    pub id: String,
    pub event: String,
    pub headline: String,
    pub expires: String,
    pub description: String,
    pub instruction: String,
    pub severity: String,
    pub certainty: String,
    pub urgency: String,
}

/// The kind that an event text names: the first of "warning", "watch" and
/// "advisory" that occurs in it, in any ASCII case.
pub open spec fn alert_kind_of(event: Seq<char>) -> AlertKind {
    let e = lower(event);
    if contains_text(e, "warning"@) {
        AlertKind::Warning
    } else if contains_text(e, "watch"@) {
        AlertKind::Watch
    } else if contains_text(e, "advisory"@) {
        AlertKind::Advisory
    } else {
        AlertKind::Other
    }
}

pub fn classify_alert_kind(event: &str) -> (kind: AlertKind)
    ensures
        kind == alert_kind_of(event@),
{
    let e: Vec<char> = lowered(&chars_of(event));
    if contains(&e, &chars_of("warning")) {
        AlertKind::Warning
    } else if contains(&e, &chars_of("watch")) {
        AlertKind::Watch
    } else if contains(&e, &chars_of("advisory")) {
        AlertKind::Advisory
    } else {
        AlertKind::Other
    }
}

impl WeatherAlert {
    pub fn kind(&self) -> (kind: AlertKind)
        ensures
            kind == alert_kind_of(self.event@),
    {
        classify_alert_kind(self.event.as_str())
    }
}

/// The icon for a provider condition code.
pub open spec fn icon_of(weather_id: int) -> WeatherIcon {
    if 200 <= weather_id <= 299 {
        WeatherIcon::Thunderstorm
    } else if 300 <= weather_id <= 399 {
        WeatherIcon::Drizzle
    } else if 500 <= weather_id <= 504 {
        WeatherIcon::Rain
    } else if weather_id == 511 {
        WeatherIcon::Snow
    } else if 520 <= weather_id <= 599 {
        WeatherIcon::ShowerRain
    } else if 600 <= weather_id <= 699 {
        WeatherIcon::Snow
    } else if weather_id == 701 {
        WeatherIcon::Mist
    } else if 711 <= weather_id <= 762 {
        WeatherIcon::Atmosphere
    } else if 771 <= weather_id <= 799 {
        WeatherIcon::Fog
    } else if weather_id == 800 {
        WeatherIcon::Clear
    } else if weather_id == 801 {
        WeatherIcon::FewClouds
    } else if weather_id == 802 {
        WeatherIcon::ScatteredClouds
    } else if weather_id == 803 {
        WeatherIcon::BrokenClouds
    } else if weather_id == 804 {
        WeatherIcon::Overcast
    } else {
        WeatherIcon::ScatteredClouds
    }
}

pub fn map_condition_to_icon(weather_id: i32, _icon_code: &str) -> (icon: WeatherIcon)
    ensures
        icon == icon_of(weather_id as int),
{
    if 200 <= weather_id && weather_id <= 299 {
        WeatherIcon::Thunderstorm
    } else if 300 <= weather_id && weather_id <= 399 {
        WeatherIcon::Drizzle
    } else if 500 <= weather_id && weather_id <= 504 {
        WeatherIcon::Rain
    } else if weather_id == 511 {
        WeatherIcon::Snow
    } else if 520 <= weather_id && weather_id <= 599 {
        WeatherIcon::ShowerRain
    } else if 600 <= weather_id && weather_id <= 699 {
        WeatherIcon::Snow
    } else if weather_id == 701 {
        WeatherIcon::Mist
    } else if 711 <= weather_id && weather_id <= 762 {
        WeatherIcon::Atmosphere
    } else if 771 <= weather_id && weather_id <= 799 {
        WeatherIcon::Fog
    } else if weather_id == 800 {
        WeatherIcon::Clear
    } else if weather_id == 801 {
        WeatherIcon::FewClouds
    } else if weather_id == 802 {
        WeatherIcon::ScatteredClouds
    } else if weather_id == 803 {
        WeatherIcon::BrokenClouds
    } else if weather_id == 804 {
        WeatherIcon::Overcast
    } else {
        WeatherIcon::ScatteredClouds
    }
}

/// The one-word description of a provider condition code.
pub open spec fn short_condition(weather_id: int) -> Seq<char> {
    if 200 <= weather_id <= 299 {
        "Storm"@
    } else if 300 <= weather_id <= 399 {
        "Drizzle"@
    } else if weather_id == 511 {
        "Sleet"@
    } else if 500 <= weather_id <= 599 {
        "Rain"@
    } else if 600 <= weather_id <= 699 {
        "Snow"@
    } else if weather_id == 741 {
        "Fog"@
    } else if 700 <= weather_id <= 799 {
        "Mist"@
    } else if weather_id == 800 {
        "Clear"@
    } else if weather_id == 801 {
        "Partly Cloudy"@
    } else if weather_id == 802 {
        "Cloudy"@
    } else if 803 <= weather_id <= 804 {
        "Overcast"@
    } else {
        "Cloudy"@
    }
}

pub fn condition_short(weather_id: i32) -> (s: &'static str)
    ensures
        s@ == short_condition(weather_id as int),
{
    if 200 <= weather_id && weather_id <= 299 {
        "Storm"
    } else if 300 <= weather_id && weather_id <= 399 {
        "Drizzle"
    } else if weather_id == 511 {
        "Sleet"
    } else if 500 <= weather_id && weather_id <= 599 {
        "Rain"
    } else if 600 <= weather_id && weather_id <= 699 {
        "Snow"
    } else if weather_id == 741 {
        "Fog"
    } else if 700 <= weather_id && weather_id <= 799 {
        "Mist"
    } else if weather_id == 800 {
        "Clear"
    } else if weather_id == 801 {
        "Partly Cloudy"
    } else if weather_id == 802 {
        "Cloudy"
    } else if 803 <= weather_id && weather_id <= 804 {
        "Overcast"
    } else {
        "Cloudy"
    }
}

/// The remainder of a division that rounds toward zero.
pub open spec fn rem_toward_zero(a: int, b: int) -> int {
    if a >= 0 {
        a % b
    } else {
        -((-a) % b)
    }
}

/// The number shown for an hour on a twelve-hour dial.
pub open spec fn hour_number(hour24: int) -> int {
    if rem_toward_zero(hour24, 12) == 0 {
        12
    } else {
        rem_toward_zero(hour24, 12)
    }
}

/// The label of an hour: its number on a twelve-hour dial, then AM or PM.
pub open spec fn hour_label(hour24: int) -> Seq<char> {
    decimal(hour_number(hour24)) + if hour24 >= 12 {
        "PM"@
    } else {
        "AM"@
    }
}

pub fn format_hour_label(hour24: i32) -> (label: String)
    ensures
        label@ == hour_label(hour24 as int),
{
    let rem: i64 = if hour24 >= 0 {
        (hour24 % 12) as i64
    } else {
        -(((-(hour24 as i64)) as u64 % 12) as i64)
    };
    let number: i64 = if rem == 0 {
        12
    } else {
        rem
    };
    let mut label: String = String::new();
    append_decimal(&mut label, number);
    if hour24 >= 12 {
        label.append("PM");
    } else {
        label.append("AM");
    }
    proof {
        assert(label@ =~= hour_label(hour24 as int));
    }
    label
}

/// The text of an optional string, or `default` where it is absent.
pub open spec fn text_or(v: Option<String>, default: Seq<char>) -> Seq<char> {
    match v {
        Some(s) => s@,
        None => default,
    }
}

fn string_or(v: Option<String>, default: &str) -> (s: String)
    ensures
        s@ == text_or(v, default@),
{
    match v {
        Some(s) => s,
        None => String::from_str(default),
    }
}

/// Current conditions as the weather provider reports them. Each value may
/// be missing. Temperatures and the wind speed are in hundredths of their
/// unit.
pub struct OwmCurrentRoot {
    pub temp: Option<i32>,
    pub feels_like: Option<i32>,
    pub humidity: Option<i32>,
    pub pressure: Option<i32>,
    pub wind_speed: Option<i32>,
    /// The first entry of the report's condition list, if it has one: the
    /// condition code, the icon code and the description.
    pub weather: Option<OwmWeather>,
    pub name: Option<String>,
    pub country: Option<String>,
}

/// One entry of a condition list.
pub struct OwmWeather {
    pub id: Option<i32>,
    pub icon: Option<String>,
    pub description: Option<String>,
}

/// The condition code of a report; zero where the report has none.
pub open spec fn condition_id(weather: Option<OwmWeather>) -> int {
    match weather {
        Some(w) => match w.id {
            Some(id) => id as int,
            None => 0,
        },
        None => 0,
    }
}

/// The description of a report.
pub open spec fn condition_text(weather: Option<OwmWeather>) -> Seq<char> {
    match weather {
        Some(w) => text_or(w.description, "(unknown)"@),
        None => "(unknown)"@,
    }
}

/// Fills in what a report of current conditions leaves out: no temperature
/// reads as zero, no felt temperature as the temperature, no humidity or
/// pressure as minus one, no wind as calm, no description as unknown, no
/// city as a question mark and no country as empty.
pub fn parse_current_weather(root: OwmCurrentRoot) -> (cw: CurrentWeather)
    ensures
        cw.temp_f == match root.temp {
            Some(t) => t,
            None => 0,
        },
        cw.feels_f == match root.feels_like {
            Some(t) => t,
            None => cw.temp_f,
        },
        cw.wind_mph == match root.wind_speed {
            Some(w) => w,
            None => 0,
        },
        cw.humidity == match root.humidity {
            Some(h) => h,
            None => -1i32,
        },
        cw.pressure_hpa == match root.pressure {
            Some(p) => p,
            None => -1i32,
        },
        cw.icon == icon_of(condition_id(root.weather)),
        cw.condition@ == condition_text(root.weather),
        cw.city@ == text_or(root.name, "?"@),
        cw.country@ == text_or(root.country, Seq::<char>::empty()),
{
    proof {
        reveal_strlit("");
        assert(""@ =~= Seq::<char>::empty());
    }
    let temp: i32 = match root.temp {
        Some(t) => t,
        None => 0,
    };
    let feels: i32 = match root.feels_like {
        Some(t) => t,
        None => temp,
    };
    let (weather_id, description): (i32, String) = match root.weather {
        Some(w) => (
            match w.id {
                Some(id) => id,
                None => 0,
            },
            string_or(w.description, "(unknown)"),
        ),
        None => (0, String::from_str("(unknown)")),
    };
    CurrentWeather {
        temp_f: temp,
        feels_f: feels,
        wind_mph: match root.wind_speed {
            Some(w) => w,
            None => 0,
        },
        humidity: match root.humidity {
            Some(h) => h,
            None => -1,
        },
        pressure_hpa: match root.pressure {
            Some(p) => p,
            None => -1,
        },
        icon: map_condition_to_icon(weather_id, ""),
        city: string_or(root.name, "?"),
        country: string_or(root.country, ""),
        condition: description,
    }
}

/// The properties of one alert as the alert service reports them.
pub struct NwsProperties {
    pub event: Option<String>,
    pub headline: Option<String>,
    pub expires: Option<String>,
    pub ends: Option<String>,
    pub description: Option<String>,
    pub instruction: Option<String>,
    pub severity: Option<String>,
    pub certainty: Option<String>,
    pub urgency: Option<String>,
}

/// One entry of the alert service's answer.
pub struct NwsFeature {
    pub id: Option<String>,
    pub properties: Option<NwsProperties>,
}

/// The texts of an alert.
pub struct AlertModel {
    pub id: Seq<char>,
    pub event: Seq<char>,
    pub headline: Seq<char>,
    pub expires: Seq<char>,
    pub description: Seq<char>,
    pub instruction: Seq<char>,
    pub severity: Seq<char>,
    pub certainty: Seq<char>,
    pub urgency: Seq<char>,
}

impl WeatherAlert {
    pub open spec fn model(self) -> AlertModel {
        AlertModel {
            id: self.id@,
            event: self.event@,
            headline: self.headline@,
            expires: self.expires@,
            description: self.description@,
            instruction: self.instruction@,
            severity: self.severity@,
            certainty: self.certainty@,
            urgency: self.urgency@,
        }
    }
}

/// The texts of the alerts of a list.
pub open spec fn models(alerts: Seq<WeatherAlert>) -> Seq<AlertModel> {
    alerts.map_values(|a: WeatherAlert| a.model())
}

/// The alert that an entry describes; an entry without properties describes
/// none. A missing event reads "Unknown Alert", a missing headline repeats
/// the event, a missing expiry falls back to the end time and then to
/// "unknown", and every other missing text is empty.
pub open spec fn feature_alert(f: NwsFeature) -> Option<AlertModel> {
    match f.properties {
        Some(p) => {
            let event = text_or(p.event, "Unknown Alert"@);
            Some(
                AlertModel {
                    id: text_or(f.id, Seq::empty()),
                    event,
                    headline: text_or(p.headline, event),
                    expires: match p.expires {
                        Some(e) => e@,
                        None => text_or(p.ends, "unknown"@),
                    },
                    description: text_or(p.description, Seq::empty()),
                    instruction: text_or(p.instruction, Seq::empty()),
                    severity: text_or(p.severity, Seq::empty()),
                    certainty: text_or(p.certainty, Seq::empty()),
                    urgency: text_or(p.urgency, Seq::empty()),
                },
            )
        },
        None => None,
    }
}

/// The alerts that the entries of an answer describe, in the answer's order.
pub open spec fn alerts_built(features: Seq<NwsFeature>) -> Seq<AlertModel>
    decreases features.len(),
{
    if features.len() == 0 {
        Seq::empty()
    } else {
        match feature_alert(features.last()) {
            Some(a) => alerts_built(features.drop_last()).push(a),
            None => alerts_built(features.drop_last()),
        }
    }
}

/// The alerts of one rank, in the order in which they stand in `alerts`.
pub open spec fn of_rank(alerts: Seq<AlertModel>, rank: int) -> Seq<AlertModel>
    decreases alerts.len(),
{
    if alerts.len() == 0 {
        Seq::empty()
    } else if alert_kind_of(alerts[0].event).rank() == rank {
        seq![alerts[0]] + of_rank(alerts.drop_first(), rank)
    } else {
        of_rank(alerts.drop_first(), rank)
    }
}

/// The alerts ordered for display: warnings, then watches, then advisories,
/// then the rest, each group in the order in which it came.
pub open spec fn by_severity(alerts: Seq<AlertModel>) -> Seq<AlertModel> {
    of_rank(alerts, 0) + of_rank(alerts, 1) + of_rank(alerts, 2) + of_rank(alerts, 3)
}

/// Builds the alert that one entry describes.
pub fn alert_from_feature(feature: NwsFeature) -> (alert: Option<WeatherAlert>)
    ensures
        match alert {
            Some(a) => feature_alert(feature) == Some(a.model()),
            None => feature_alert(feature) is None,
        },
{
    proof {
        reveal_strlit("");
        assert(""@ =~= Seq::<char>::empty());
    }
    match feature.properties {
        None => None,
        Some(props) => {
            let event: String = string_or(props.event, "Unknown Alert");
            let headline: String = match props.headline {
                Some(h) => h,
                None => event.clone(),
            };
            let expires: String = match props.expires {
                Some(e) => e,
                None => string_or(props.ends, "unknown"),
            };
            Some(
                WeatherAlert {
                    id: string_or(feature.id, ""),
                    event,
                    headline,
                    expires,
                    description: string_or(props.description, ""),
                    instruction: string_or(props.instruction, ""),
                    severity: string_or(props.severity, ""),
                    certainty: string_or(props.certainty, ""),
                    urgency: string_or(props.urgency, ""),
                },
            )
        },
    }
}

/// Builds the alerts of an answer and orders them for display.
pub fn parse_nws_alerts(features: Vec<NwsFeature>) -> (alerts: Vec<WeatherAlert>)
    ensures
        models(alerts@) == by_severity(alerts_built(features@)),
{
    let mut features = features;
    let ghost all = alerts_built(features@);
    let mut newest_first: Vec<WeatherAlert> = Vec::new();
    loop
        invariant
            all == alerts_built(features@) + models(newest_first@).reverse(),
        ensures
            all == models(newest_first@).reverse(),
        decreases features@.len(),
    {
        let ghost rest = features@;
        let ghost built = models(newest_first@);
        match features.pop() {
            None => {
                assert(alerts_built(features@) =~= Seq::<AlertModel>::empty());
                assert(all =~= models(newest_first@).reverse());
                break ;
            },
            Some(f) => {
                assert(features@ =~= rest.drop_last());
                assert(f == rest.last());
                match alert_from_feature(f) {
                    Some(a) => {
                        newest_first.push(a);
                        assert(models(newest_first@) =~= built.push(a.model()));
                        assert(built.push(a.model()).reverse() =~= seq![a.model()]
                            + built.reverse());
                        assert(alerts_built(rest.drop_last()).push(a.model()) + built.reverse()
                            =~= alerts_built(rest.drop_last()) + (seq![a.model()]
                            + built.reverse()));
                    },
                    None => {},
                }
            },
        }
    }
    let mut warnings: Vec<WeatherAlert> = Vec::new();
    let mut watches: Vec<WeatherAlert> = Vec::new();
    let mut advisories: Vec<WeatherAlert> = Vec::new();
    let mut others: Vec<WeatherAlert> = Vec::new();
    proof {
        let empty = Seq::<AlertModel>::empty();
        assert(models(warnings@) =~= empty);
        assert(models(watches@) =~= empty);
        assert(models(advisories@) =~= empty);
        assert(models(others@) =~= empty);
        assert forall|k: int| empty + of_rank(all, k) == #[trigger] of_rank(all, k) by {
            assert(empty + of_rank(all, k) =~= of_rank(all, k));
        }
    }
    loop
        invariant
            of_rank(all, 0) == models(warnings@) + of_rank(models(newest_first@).reverse(), 0),
            of_rank(all, 1) == models(watches@) + of_rank(models(newest_first@).reverse(), 1),
            of_rank(all, 2) == models(advisories@) + of_rank(
                models(newest_first@).reverse(),
                2,
            ),
            of_rank(all, 3) == models(others@) + of_rank(models(newest_first@).reverse(), 3),
        ensures
            of_rank(all, 0) == models(warnings@),
            of_rank(all, 1) == models(watches@),
            of_rank(all, 2) == models(advisories@),
            of_rank(all, 3) == models(others@),
        decreases newest_first@.len(),
    {
        let ghost before = models(newest_first@);
        let ghost w0 = models(warnings@);
        let ghost w1 = models(watches@);
        let ghost w2 = models(advisories@);
        let ghost w3 = models(others@);
        match newest_first.pop() {
            None => {
                assert(before.reverse() =~= Seq::<AlertModel>::empty());
                assert(w0 + Seq::<AlertModel>::empty() =~= w0);
                assert(w1 + Seq::<AlertModel>::empty() =~= w1);
                assert(w2 + Seq::<AlertModel>::empty() =~= w2);
                assert(w3 + Seq::<AlertModel>::empty() =~= w3);
                break ;
            },
            Some(a) => {
                let ghost after = models(newest_first@);
                proof {
                    assert(after =~= before.drop_last());
                    assert(before.reverse()[0] == a.model());
                    assert(before.reverse().drop_first() =~= after.reverse());
                }
                match a.kind() {
                    AlertKind::Warning => {
                        warnings.push(a);
                        assert(models(warnings@) =~= w0.push(a.model()));
                        assert(w0 + (seq![a.model()] + of_rank(after.reverse(), 0)) =~= w0.push(
                            a.model(),
                        ) + of_rank(after.reverse(), 0));
                    },
                    AlertKind::Watch => {
                        watches.push(a);
                        assert(models(watches@) =~= w1.push(a.model()));
                        assert(w1 + (seq![a.model()] + of_rank(after.reverse(), 1)) =~= w1.push(
                            a.model(),
                        ) + of_rank(after.reverse(), 1));
                    },
                    AlertKind::Advisory => {
                        advisories.push(a);
                        assert(models(advisories@) =~= w2.push(a.model()));
                        assert(w2 + (seq![a.model()] + of_rank(after.reverse(), 2)) =~= w2.push(
                            a.model(),
                        ) + of_rank(after.reverse(), 2));
                    },
                    AlertKind::Other => {
                        others.push(a);
                        assert(models(others@) =~= w3.push(a.model()));
                        assert(w3 + (seq![a.model()] + of_rank(after.reverse(), 3)) =~= w3.push(
                            a.model(),
                        ) + of_rank(after.reverse(), 3));
                    },
                }
            },
        }
    }
    let ghost m0 = models(warnings@);
    let ghost m1 = models(watches@);
    let ghost m2 = models(advisories@);
    let ghost m3 = models(others@);
    warnings.append(&mut watches);
    warnings.append(&mut advisories);
    warnings.append(&mut others);
    assert(models(warnings@) =~= m0 + m1 + m2 + m3);
    warnings
}

} // verus!
