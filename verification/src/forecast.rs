//! Building the forecast pages from the provider's three-hour steps.
//!
//! Steps are grouped by local calendar day, in the order in which the days
//! first appear. Each day gets its highest and lowest temperature, its
//! strongest wind, the icon of its step nearest to noon and up to twelve
//! hourly entries. A first day that starts after midnight is left out when
//! other days follow.

use vstd::prelude::*;
use vstd::string::*;
use crate::text::{append_decimal, decimal};
use crate::weather::{
    condition_short, format_hour_label, hour_label, icon_of, map_condition_to_icon,
    short_condition, Forecast, ForecastDay, ForecastRow, HourlyEntry, FORECAST_HOURLY_MAX,
    FORECAST_MAX_DAYS,
};
use crate::weather_icons::WeatherIcon;

verus! {

/// Largest number of days shown.
pub const FORECAST_ROWS_SHOWN: usize = 4;

/// Largest number of days named in the preview line.
pub const FORECAST_PREVIEW_DAYS: usize = 3;

/// The local calendar fields of a moment.
#[derive(Debug, Clone, Copy, PartialEq, Eq, Structural)]
pub struct LocalTime {
    /// Years since 1900.
    pub year: i32,
    /// Day of the year, from zero.
    pub yday: i32,
    /// Day of the week, Sunday being zero.
    pub wday: u8,
    /// Hour of the day.
    pub hour: i32,
}

/// One step of the provider's forecast list. Each value may be missing.
/// Temperatures and the wind speed are rounded to whole units.
#[derive(Debug, Clone, Copy, PartialEq, Eq, Structural)]
pub struct OwmForecastEntry {
    pub time: Option<LocalTime>,
    /// True when the step carries its block of main values.
    pub has_main: bool,
    pub temp: Option<i32>,
    pub feels_like: Option<i32>,
    pub wind_speed: Option<i32>,
    pub weather_id: Option<i32>,
}

/// One usable step.
#[derive(Debug, Clone, Copy, PartialEq, Eq, Structural)]
pub struct ForecastSample {
    pub time: LocalTime,
    pub temp: i32,
    pub feels: i32,
    pub wind: i32,
    pub weather_id: i32,
}

/// The usable step of a list entry: none without a time or without main
/// values; a missing temperature reads as zero, a missing felt temperature
/// as the temperature, missing wind as calm and a missing condition as zero.
pub open spec fn sample_of(e: OwmForecastEntry) -> Option<ForecastSample> {
    if e.time is Some && e.has_main {
        let temp = match e.temp {
            Some(t) => t,
            None => 0i32,
        };
        Some(
            ForecastSample {
                time: e.time->0,
                temp,
                feels: match e.feels_like {
                    Some(f) => f,
                    None => temp,
                },
                wind: match e.wind_speed {
                    Some(w) => w,
                    None => 0i32,
                },
                weather_id: match e.weather_id {
                    Some(id) => id,
                    None => 0i32,
                },
            },
        )
    } else {
        None
    }
}

/// The usable steps of a list, in order.
pub open spec fn samples_of(entries: Seq<OwmForecastEntry>) -> Seq<ForecastSample>
    decreases entries.len(),
{
    if entries.len() == 0 {
        Seq::empty()
    } else {
        match sample_of(entries.last()) {
            Some(s) => samples_of(entries.drop_last()).push(s),
            None => samples_of(entries.drop_last()),
        }
    }
}

/// The calendar day of a step.
pub open spec fn day_key(s: ForecastSample) -> (i32, i32) {
    (s.time.year, s.time.yday)
}

/// The days of a list in the order of their first step, at most eight.
pub open spec fn day_keys(samples: Seq<ForecastSample>) -> Seq<(i32, i32)>
    decreases samples.len(),
{
    if samples.len() == 0 {
        Seq::empty()
    } else {
        let keys = day_keys(samples.drop_last());
        if keys.contains(day_key(samples.last())) || keys.len() >= FORECAST_MAX_DAYS {
            keys
        } else {
            keys.push(day_key(samples.last()))
        }
    }
}

/// The steps of one day, in order.
pub open spec fn steps_of_day(samples: Seq<ForecastSample>, key: (i32, i32)) -> Seq<ForecastSample>
    decreases samples.len(),
{
    if samples.len() == 0 {
        Seq::empty()
    } else if day_key(samples.last()) == key {
        steps_of_day(samples.drop_last(), key).push(samples.last())
    } else {
        steps_of_day(samples.drop_last(), key)
    }
}

/// The highest temperature of the steps.
pub open spec fn high_of(steps: Seq<ForecastSample>) -> int
    decreases steps.len(),
{
    if steps.len() <= 1 {
        steps[0].temp as int
    } else if steps.last().temp > high_of(steps.drop_last()) {
        steps.last().temp as int
    } else {
        high_of(steps.drop_last())
    }
}

/// The lowest temperature of the steps.
pub open spec fn low_of(steps: Seq<ForecastSample>) -> int
    decreases steps.len(),
{
    if steps.len() <= 1 {
        steps[0].temp as int
    } else if steps.last().temp < low_of(steps.drop_last()) {
        steps.last().temp as int
    } else {
        low_of(steps.drop_last())
    }
}

/// The strongest wind of the steps.
pub open spec fn wind_peak_of(steps: Seq<ForecastSample>) -> int
    decreases steps.len(),
{
    if steps.len() <= 1 {
        steps[0].wind as int
    } else if steps.last().wind > wind_peak_of(steps.drop_last()) {
        steps.last().wind as int
    } else {
        wind_peak_of(steps.drop_last())
    }
}

/// How well a step stands for its day: noon best, then nine and three
/// o'clock, then any other hour.
pub open spec fn hour_score(hour: int) -> int {
    if hour == 12 {
        3
    } else if hour == 9 || hour == 15 {
        2
    } else {
        1
    }
}

/// The condition code that stands for the day: that of the first step with
/// the best score.
pub open spec fn day_condition(steps: Seq<ForecastSample>) -> ForecastSample
    decreases steps.len(),
{
    if steps.len() <= 1 {
        steps[0]
    } else if hour_score(steps.last().time.hour as int) > hour_score(
        day_condition(steps.drop_last()).time.hour as int,
    ) {
        steps.last()
    } else {
        day_condition(steps.drop_last())
    }
}

/// The short name of a day of the week.
pub open spec fn weekday_name(wday: int) -> Seq<char> {
    let d = wday % 7;
    if d == 0 {
        "Sun"@
    } else if d == 1 {
        "Mon"@
    } else if d == 2 {
        "Tue"@
    } else if d == 3 {
        "Wed"@
    } else if d == 4 {
        "Thu"@
    } else if d == 5 {
        "Fri"@
    } else {
        "Sat"@
    }
}

pub fn weekday_short(wday: u8) -> (name: &'static str)
    ensures
        name@ == weekday_name(wday as int),
{
    let d: u8 = wday % 7;
    if d == 0 {
        "Sun"
    } else if d == 1 {
        "Mon"
    } else if d == 2 {
        "Tue"
    } else if d == 3 {
        "Wed"
    } else if d == 4 {
        "Thu"
    } else if d == 5 {
        "Fri"
    } else {
        "Sat"
    }
}

/// The texts and numbers of an hourly entry.
pub struct HourlyModel {
    pub temp_f: int,
    pub feels_f: int,
    pub wind_mph: int,
    pub icon: WeatherIcon,
    pub time_text: Seq<char>,
    pub detail: Seq<char>,
    pub temp_text: Seq<char>,
}

/// The texts and numbers of a daily row.
pub struct RowModel {
    pub temp_f: int,
    pub low_f: int,
    pub wind_mph: int,
    pub icon: WeatherIcon,
    pub title: Seq<char>,
    pub detail: Seq<char>,
    pub temp_text: Seq<char>,
}

pub open spec fn hourly_model(e: HourlyEntry) -> HourlyModel {
    HourlyModel {
        temp_f: e.temp_f as int,
        feels_f: e.feels_f as int,
        wind_mph: e.wind_mph as int,
        icon: e.icon,
        time_text: e.time_text@,
        detail: e.detail@,
        temp_text: e.temp_text@,
    }
}

pub open spec fn row_model(r: ForecastRow) -> RowModel {
    RowModel {
        temp_f: r.temp_f as int,
        low_f: r.low_f as int,
        wind_mph: r.wind_mph as int,
        icon: r.icon,
        title: r.title@,
        detail: r.detail@,
        temp_text: r.temp_text@,
    }
}

/// A temperature as shown: the number and a degree sign.
pub open spec fn degrees(v: int) -> Seq<char> {
    decimal(v) + "°"@
}

/// The hourly entry of a step.
pub open spec fn hourly_of(s: ForecastSample) -> HourlyModel {
    HourlyModel {
        temp_f: s.temp as int,
        feels_f: s.feels as int,
        wind_mph: s.wind as int,
        icon: icon_of(s.weather_id as int),
        time_text: hour_label(s.time.hour as int),
        detail: "Feels "@ + decimal(s.feels as int) + "° Wind "@ + decimal(s.wind as int),
        temp_text: degrees(s.temp as int),
    }
}

/// The hourly entries of a day: those of its first twelve steps.
pub open spec fn hourlies_of(steps: Seq<ForecastSample>) -> Seq<HourlyModel> {
    Seq::new(
        if steps.len() <= FORECAST_HOURLY_MAX {
            steps.len()
        } else {
            FORECAST_HOURLY_MAX as nat
        },
        |i: int| hourly_of(steps[i]),
    )
}

/// The row of a day, given its steps.
pub open spec fn row_of(steps: Seq<ForecastSample>) -> RowModel {
    RowModel {
        temp_f: high_of(steps),
        low_f: low_of(steps),
        wind_mph: wind_peak_of(steps),
        icon: icon_of(day_condition(steps).weather_id as int),
        title: weekday_name(steps[0].time.wday as int),
        detail: short_condition(day_condition(steps).weather_id as int) + " Low "@ + decimal(
            low_of(steps),
        ) + "° Wind "@ + decimal(wind_peak_of(steps)),
        temp_text: degrees(high_of(steps)),
    }
}

/// The index of the first day shown: the second day when the list starts
/// after midnight and holds more than one day, else the first.
pub open spec fn first_shown(samples: Seq<ForecastSample>) -> int {
    if day_keys(samples).len() > 1 && samples[0].time.hour > 0 {
        1
    } else {
        0
    }
}

/// The number of days shown.
pub open spec fn shown_count(samples: Seq<ForecastSample>) -> int {
    let available = day_keys(samples).len() - first_shown(samples);
    if available < FORECAST_ROWS_SHOWN {
        available
    } else {
        FORECAST_ROWS_SHOWN as int
    }
}

/// The steps of the `i`-th day shown.
pub open spec fn shown_steps(samples: Seq<ForecastSample>, i: int) -> Seq<ForecastSample> {
    steps_of_day(samples, day_keys(samples)[first_shown(samples) + i])
}

/// One part of the preview line: weekday and highest temperature.
pub open spec fn preview_part(steps: Seq<ForecastSample>) -> Seq<char> {
    weekday_name(steps[0].time.wday as int) + " "@ + degrees(high_of(steps))
}

/// The preview line of the first `n` days shown, the parts three spaces
/// apart.
pub open spec fn preview_of(samples: Seq<ForecastSample>, n: int) -> Seq<char>
    decreases n,
{
    if n <= 0 {
        Seq::empty()
    } else if n == 1 {
        preview_part(shown_steps(samples, 0))
    } else {
        preview_of(samples, n - 1) + "   "@ + preview_part(shown_steps(samples, n - 1))
    }
}

/// The forecast built from `samples` has the given rows, hourly lists and
/// preview line.
pub open spec fn is_forecast_of(f: Forecast, samples: Seq<ForecastSample>) -> bool {
    &&& f.rows@.len() == shown_count(samples)
    &&& f.days@.len() == shown_count(samples)
    &&& forall|i: int|
        0 <= i < shown_count(samples) ==> row_model(#[trigger] f.rows@[i]) == row_of(
            shown_steps(samples, i),
        )
    &&& forall|i: int|
        0 <= i < shown_count(samples) ==> (#[trigger] f.days@[i]).entries@.map_values(
            |e: HourlyEntry| hourly_model(e),
        ) == hourlies_of(shown_steps(samples, i))
    &&& f.preview_text@ == preview_of(
        samples,
        if shown_count(samples) < FORECAST_PREVIEW_DAYS {
            shown_count(samples)
        } else {
            FORECAST_PREVIEW_DAYS as int
        },
    )
}

/// Picks the usable steps of a list.
pub fn usable_samples(entries: &Vec<OwmForecastEntry>) -> (samples: Vec<ForecastSample>)
    ensures
        samples@ == samples_of(entries@),
{
    let mut samples: Vec<ForecastSample> = Vec::new();
    let n: usize = entries.len();
    let mut i: usize = 0;
    while i < n
        invariant
            i <= n,
            n == entries@.len(),
            samples@ == samples_of(entries@.take(i as int)),
        decreases n - i,
    {
        let e: OwmForecastEntry = entries[i];
        proof {
            assert(entries@.take(i + 1).drop_last() =~= entries@.take(i as int));
            assert(entries@.take(i + 1).last() == e);
        }
        match e.time {
            Some(time) => {
                if e.has_main {
                    let temp: i32 = match e.temp {
                        Some(t) => t,
                        None => 0,
                    };
                    samples.push(
                        ForecastSample {
                            time,
                            temp,
                            feels: match e.feels_like {
                                Some(f) => f,
                                None => temp,
                            },
                            wind: match e.wind_speed {
                                Some(w) => w,
                                None => 0,
                            },
                            weather_id: match e.weather_id {
                                Some(id) => id,
                                None => 0,
                            },
                        },
                    );
                }
            },
            None => {},
        }
        i += 1;
    }
    assert(entries@.take(n as int) =~= entries@);
    samples
}

/// Tells whether `key` is among `keys`.
fn has_key(keys: &Vec<(i32, i32)>, key: (i32, i32)) -> (found: bool)
    ensures
        found == keys@.contains(key),
{
    let n: usize = keys.len();
    let mut i: usize = 0;
    while i < n
        invariant
            i <= n,
            n == keys@.len(),
            forall|j: int| 0 <= j < i ==> keys@[j] != key,
        decreases n - i,
    {
        let k: (i32, i32) = keys[i];
        if k.0 == key.0 && k.1 == key.1 {
            return true;
        }
        i += 1;
    }
    false
}

/// Finds the days of a list.
pub fn forecast_days(samples: &Vec<ForecastSample>) -> (keys: Vec<(i32, i32)>)
    ensures
        keys@ == day_keys(samples@),
        keys@.len() <= FORECAST_MAX_DAYS,
{
    let mut keys: Vec<(i32, i32)> = Vec::new();
    let n: usize = samples.len();
    let mut i: usize = 0;
    while i < n
        invariant
            i <= n,
            n == samples@.len(),
            keys@ == day_keys(samples@.take(i as int)),
            keys@.len() <= FORECAST_MAX_DAYS,
        decreases n - i,
    {
        let s: ForecastSample = samples[i];
        proof {
            assert(samples@.take(i + 1).drop_last() =~= samples@.take(i as int));
            assert(samples@.take(i + 1).last() == s);
        }
        let key: (i32, i32) = (s.time.year, s.time.yday);
        if !has_key(&keys, key) && keys.len() < FORECAST_MAX_DAYS {
            keys.push(key);
        }
        i += 1;
    }
    assert(samples@.take(n as int) =~= samples@);
    keys
}

/// Every day found in a list has at least one step.
pub proof fn lemma_day_has_steps(samples: Seq<ForecastSample>, k: int)
    requires
        0 <= k < day_keys(samples).len(),
    ensures
        steps_of_day(samples, day_keys(samples)[k]).len() >= 1,
    decreases samples.len(),
{
    if samples.len() > 0 {
        let init = samples.drop_last();
        let keys = day_keys(init);
        if k < keys.len() {
            lemma_day_has_steps(init, k);
        }
    }
}

/// The summary of one day while its steps are being read.
struct DaySummary {
    count: usize,
    wday: u8,
    high: i32,
    low: i32,
    wind_peak: i32,
    best_hour: i32,
    best_id: i32,
    hourly: Vec<HourlyEntry>,
}

fn degrees_text(v: i32) -> (s: String)
    ensures
        s@ == degrees(v as int),
{
    let mut s: String = String::new();
    append_decimal(&mut s, v as i64);
    s.append("°");
    s
}

fn hour_score_of(hour: i32) -> (score: u8)
    ensures
        score == hour_score(hour as int),
{
    if hour == 12 {
        3
    } else if hour == 9 || hour == 15 {
        2
    } else {
        1
    }
}

fn hourly_entry(s: &ForecastSample) -> (e: HourlyEntry)
    ensures
        hourly_model(e) == hourly_of(*s),
{
    let mut detail: String = String::from_str("Feels ");
    append_decimal(&mut detail, s.feels as i64);
    detail.append("° Wind ");
    append_decimal(&mut detail, s.wind as i64);
    HourlyEntry {
        temp_f: s.temp,
        feels_f: s.feels,
        wind_mph: s.wind,
        icon: map_condition_to_icon(s.weather_id, ""),
        time_text: format_hour_label(s.time.hour),
        detail,
        temp_text: degrees_text(s.temp),
    }
}

/// Reads the steps of one day out of the list.
fn summarize_day(samples: &Vec<ForecastSample>, key: (i32, i32)) -> (day: DaySummary)
    requires
        steps_of_day(samples@, key).len() >= 1,
    ensures
        day.count == steps_of_day(samples@, key).len(),
        day.wday == steps_of_day(samples@, key)[0].time.wday,
        day.high == high_of(steps_of_day(samples@, key)),
        day.low == low_of(steps_of_day(samples@, key)),
        day.wind_peak == wind_peak_of(steps_of_day(samples@, key)),
        day.best_id == day_condition(steps_of_day(samples@, key)).weather_id,
        day.hourly@.map_values(|e: HourlyEntry| hourly_model(e)) == hourlies_of(
            steps_of_day(samples@, key),
        ),
{
    let mut day = DaySummary {
        count: 0,
        wday: 0,
        high: 0,
        low: 0,
        wind_peak: 0,
        best_hour: 0,
        best_id: 0,
        hourly: Vec::new(),
    };
    let n: usize = samples.len();
    let mut i: usize = 0;
    while i < n
        invariant
            i <= n,
            n == samples@.len(),
            day.count == steps_of_day(samples@.take(i as int), key).len(),
            day.count <= i,
            day.count >= 1 ==> {
                let steps = steps_of_day(samples@.take(i as int), key);
                &&& day.wday == steps[0].time.wday
                &&& day.high == high_of(steps)
                &&& day.low == low_of(steps)
                &&& day.wind_peak == wind_peak_of(steps)
                &&& day.best_id == day_condition(steps).weather_id
                &&& day.best_hour == day_condition(steps).time.hour
            },
            day.hourly@.map_values(|e: HourlyEntry| hourly_model(e)) == hourlies_of(
                steps_of_day(samples@.take(i as int), key),
            ),
        decreases n - i,
    {
        let s: ForecastSample = samples[i];
        let ghost before = steps_of_day(samples@.take(i as int), key);
        let ghost models = day.hourly@.map_values(|e: HourlyEntry| hourly_model(e));
        proof {
            assert(samples@.take(i + 1).drop_last() =~= samples@.take(i as int));
            assert(samples@.take(i + 1).last() == s);
        }
        if s.time.year == key.0 && s.time.yday == key.1 {
            let ghost after = before.push(s);
            proof {
                assert(steps_of_day(samples@.take(i + 1), key) == after);
                assert(after.drop_last() =~= before);
                assert(after.last() == s);
                if before.len() >= 1 {
                    assert(after[0] == before[0]);
                }
            }
            if day.count == 0 {
                day.wday = s.time.wday;
                day.high = s.temp;
                day.low = s.temp;
                day.wind_peak = s.wind;
                day.best_hour = s.time.hour;
                day.best_id = s.weather_id;
            } else {
                if s.temp > day.high {
                    day.high = s.temp;
                }
                if s.temp < day.low {
                    day.low = s.temp;
                }
                if s.wind > day.wind_peak {
                    day.wind_peak = s.wind;
                }
                if hour_score_of(s.time.hour) > hour_score_of(day.best_hour) {
                    day.best_hour = s.time.hour;
                    day.best_id = s.weather_id;
                }
            }
            if day.hourly.len() < FORECAST_HOURLY_MAX {
                let e: HourlyEntry = hourly_entry(&s);
                day.hourly.push(e);
                proof {
                    assert(day.hourly@.map_values(|e: HourlyEntry| hourly_model(e)) =~= models.push(
                        hourly_model(e),
                    ));
                    assert(models.push(hourly_of(s)) =~= hourlies_of(after));
                }
            } else {
                proof {
                    assert(day.hourly@.map_values(|e: HourlyEntry| hourly_model(e)) =~= hourlies_of(
                        after,
                    ));
                }
            }
            day.count = day.count + 1;
        } else {
            proof {
                assert(steps_of_day(samples@.take(i + 1), key) == before);
            }
        }
        i += 1;
    }
    assert(samples@.take(n as int) =~= samples@);
    day
}

/// Builds the forecast pages from the provider's list.
pub fn parse_forecast(entries: &Vec<OwmForecastEntry>) -> (forecast: Forecast)
    ensures
        is_forecast_of(forecast, samples_of(entries@)),
{
    let samples: Vec<ForecastSample> = usable_samples(entries);
    let keys: Vec<(i32, i32)> = forecast_days(&samples);
    let start: usize = if keys.len() > 1 && samples.len() > 0 && samples[0].time.hour > 0 {
        1
    } else {
        0
    };
    proof {
        if keys@.len() > 1 {
            lemma_day_has_steps(samples@, 0);
            lemma_steps_bounded(samples@, keys@[0]);
        }
    }
    let available: usize = keys.len() - start;
    let row_count: usize = if available < FORECAST_ROWS_SHOWN {
        available
    } else {
        FORECAST_ROWS_SHOWN
    };
    let preview_count: usize = if row_count < FORECAST_PREVIEW_DAYS {
        row_count
    } else {
        FORECAST_PREVIEW_DAYS
    };
    let mut rows: Vec<ForecastRow> = Vec::new();
    let mut days: Vec<ForecastDay> = Vec::new();
    let mut preview: String = String::new();
    proof {
        reveal_strlit("");
        assert(preview@ =~= preview_of(samples@, 0));
    }
    let mut k: usize = 0;
    while k < row_count
        invariant
            k <= row_count,
            start == first_shown(samples@),
            row_count == shown_count(samples@),
            keys@ == day_keys(samples@),
            start + row_count <= keys@.len(),
            preview_count <= FORECAST_PREVIEW_DAYS,
            preview_count <= row_count,
            rows@.len() == k,
            days@.len() == k,
            forall|i: int|
                0 <= i < k ==> row_model(#[trigger] rows@[i]) == row_of(
                    shown_steps(samples@, i),
                ),
            forall|i: int|
                0 <= i < k ==> (#[trigger] days@[i]).entries@.map_values(
                    |e: HourlyEntry| hourly_model(e),
                ) == hourlies_of(shown_steps(samples@, i)),
            preview@ == preview_of(
                samples@,
                if k < preview_count {
                    k as int
                } else {
                    preview_count as int
                },
            ),
        decreases row_count - k,
    {
        let key: (i32, i32) = keys[start + k];
        proof {
            lemma_day_has_steps(samples@, start + k);
        }
        let day: DaySummary = summarize_day(&samples, key);
        let title: &'static str = weekday_short(day.wday);
        let mut detail: String = String::from_str(condition_short(day.best_id));
        detail.append(" Low ");
        append_decimal(&mut detail, day.low as i64);
        detail.append("° Wind ");
        append_decimal(&mut detail, day.wind_peak as i64);
        if k < preview_count {
            if k > 0 {
                preview.append("   ");
            }
            preview.append(title);
            preview.append(" ");
            preview.append(degrees_text(day.high).as_str());
            proof {
                let part = preview_part(shown_steps(samples@, k as int));
                assert(weekday_name(day.wday as int) + " "@ + degrees(day.high as int) == part);
                if k == 0 {
                    assert(preview@ =~= part);
                } else {
                    assert(preview@ =~= preview_of(samples@, k as int) + "   "@ + part);
                }
            }
        }
        rows.push(
            ForecastRow {
                temp_f: day.high,
                low_f: day.low,
                wind_mph: day.wind_peak,
                icon: map_condition_to_icon(day.best_id, ""),
                title: String::from_str(title),
                detail,
                temp_text: degrees_text(day.high),
            },
        );
        days.push(ForecastDay { entries: day.hourly });
        k += 1;
    }
    Forecast { rows, days, preview_text: preview }
}

/// A day has no more steps than the list.
pub proof fn lemma_steps_bounded(samples: Seq<ForecastSample>, key: (i32, i32))
    ensures
        steps_of_day(samples, key).len() <= samples.len(),
    decreases samples.len(),
{
    if samples.len() > 0 {
        lemma_steps_bounded(samples.drop_last(), key);
    }
}

} // verus!
