use waveshare_s3_3p::forecast::{
    forecast_days, parse_forecast, usable_samples, weekday_short, ForecastSample, LocalTime,
    OwmForecastEntry,
};
use waveshare_s3_3p::weather_icons::WeatherIcon;

fn at(yday: i32, wday: u8, hour: i32) -> LocalTime {
    LocalTime { year: 124, yday, wday, hour }
}

fn step(time: LocalTime, temp: i32, wind: i32, id: i32) -> OwmForecastEntry {
    OwmForecastEntry {
        time: Some(time),
        has_main: true,
        temp: Some(temp),
        feels_like: Some(temp - 2),
        wind_speed: Some(wind),
        weather_id: Some(id),
    }
}

fn day_of_steps(yday: i32, wday: u8, first_hour: i32, base: i32) -> Vec<OwmForecastEntry> {
    let mut v = Vec::new();
    let mut hour = first_hour;
    while hour < 24 {
        v.push(step(at(yday, wday, hour), base + hour, hour / 3, 800 + (hour / 3) % 5));
        hour += 3;
    }
    v
}

#[test]
fn weekday_names() {
    let names = ["Sun", "Mon", "Tue", "Wed", "Thu", "Fri", "Sat"];
    for d in 0..7u8 {
        assert_eq!(weekday_short(d), names[d as usize]);
        assert_eq!(weekday_short(d + 7), names[d as usize]);
    }
    assert_eq!(weekday_short(255), "Wed");
}

#[test]
fn unusable_steps_are_left_out() {
    let mut no_time = step(at(10, 1, 0), 50, 3, 800);
    no_time.time = None;
    let mut no_main = step(at(10, 1, 3), 50, 3, 800);
    no_main.has_main = false;
    let bare = OwmForecastEntry {
        time: Some(at(10, 1, 6)),
        has_main: true,
        temp: None,
        feels_like: None,
        wind_speed: None,
        weather_id: None,
    };
    let mut warm = step(at(10, 1, 9), 61, 4, 500);
    warm.feels_like = None;
    let samples = usable_samples(&vec![no_time, no_main, bare, warm]);
    assert_eq!(
        samples,
        vec![
            ForecastSample { time: at(10, 1, 6), temp: 0, feels: 0, wind: 0, weather_id: 0 },
            ForecastSample { time: at(10, 1, 9), temp: 61, feels: 61, wind: 4, weather_id: 500 },
        ]
    );
}

#[test]
fn empty_list_gives_an_empty_forecast() {
    let f = parse_forecast(&Vec::new());
    assert!(f.rows.is_empty());
    assert!(f.days.is_empty());
    assert_eq!(f.preview_text, "");
}

#[test]
fn single_day_is_shown_even_when_it_starts_late() {
    let f = parse_forecast(&day_of_steps(10, 3, 15, 40));
    assert_eq!(f.rows.len(), 1);
    assert_eq!(f.rows[0].title, "Wed");
    assert_eq!(f.rows[0].temp_f, 61);
    assert_eq!(f.rows[0].low_f, 55);
    assert_eq!(f.rows[0].wind_mph, 7);
    assert_eq!(f.rows[0].temp_text, "61°");
    assert_eq!(f.rows[0].icon, WeatherIcon::Clear);
    assert_eq!(f.rows[0].detail, "Clear Low 55° Wind 7");
    assert_eq!(f.days[0].entries.len(), 3);
    assert_eq!(f.preview_text, "Wed 61°");
}

#[test]
fn late_first_day_is_skipped_when_more_days_follow() {
    let mut entries = day_of_steps(10, 3, 15, 40);
    entries.extend(day_of_steps(11, 4, 0, 30));
    entries.extend(day_of_steps(12, 5, 0, 20));
    let f = parse_forecast(&entries);
    assert_eq!(f.rows.len(), 2);
    assert_eq!(f.rows[0].title, "Thu");
    assert_eq!(f.rows[1].title, "Fri");
    assert_eq!(f.rows[0].temp_f, 51);
    assert_eq!(f.rows[0].low_f, 30);
    assert_eq!(f.rows[0].wind_mph, 7);
    assert_eq!(f.rows[0].icon, WeatherIcon::Overcast);
    assert_eq!(f.rows[0].detail, "Overcast Low 30° Wind 7");
    assert_eq!(f.rows[1].temp_text, "41°");
    assert_eq!(f.preview_text, "Thu 51°   Fri 41°");
    assert_eq!(f.days.len(), 2);
    assert_eq!(f.days[0].entries.len(), 8);
}

#[test]
fn list_that_starts_at_midnight_keeps_its_first_day() {
    let mut entries = day_of_steps(11, 4, 0, 30);
    entries.extend(day_of_steps(12, 5, 0, 20));
    let f = parse_forecast(&entries);
    assert_eq!(f.rows.len(), 2);
    assert_eq!(f.rows[0].title, "Thu");
    assert_eq!(f.preview_text, "Thu 51°   Fri 41°");
}

#[test]
fn at_most_four_days_are_shown_and_three_previewed() {
    let mut entries = Vec::new();
    for d in 0..6 {
        entries.extend(day_of_steps(20 + d, (d % 7) as u8, 0, 10 * d));
    }
    let f = parse_forecast(&entries);
    assert_eq!(f.rows.len(), 4);
    assert_eq!(f.days.len(), 4);
    let titles: Vec<&str> = f.rows.iter().map(|r| r.title.as_str()).collect();
    assert_eq!(titles, vec!["Sun", "Mon", "Tue", "Wed"]);
    assert_eq!(f.preview_text, "Sun 21°   Mon 31°   Tue 41°");
}

#[test]
fn hourly_entries_carry_the_step() {
    let entries = vec![
        step(at(10, 1, 0), 50, 3, 800),
        step(at(10, 1, 13), -4, 12, 601),
    ];
    let f = parse_forecast(&entries);
    let e = &f.days[0].entries;
    assert_eq!(e.len(), 2);
    assert_eq!(e[0].temp_f, 50);
    assert_eq!(e[0].feels_f, 48);
    assert_eq!(e[0].wind_mph, 3);
    assert_eq!(e[0].icon, WeatherIcon::Clear);
    assert_eq!(e[0].time_text, "12AM");
    assert_eq!(e[0].detail, "Feels 48° Wind 3");
    assert_eq!(e[0].temp_text, "50°");
    assert_eq!(e[1].time_text, "1PM");
    assert_eq!(e[1].detail, "Feels -6° Wind 12");
    assert_eq!(e[1].temp_text, "-4°");
    assert_eq!(e[1].icon, WeatherIcon::Snow);
    assert_eq!(f.rows[0].temp_f, 50);
    assert_eq!(f.rows[0].low_f, -4);
    assert_eq!(f.rows[0].wind_mph, 12);
}

#[test]
fn a_day_keeps_twelve_hourly_entries() {
    let mut entries = Vec::new();
    for hour in 0..20 {
        entries.push(step(at(10, 1, hour), 50 + hour, 1, 800));
    }
    let f = parse_forecast(&entries);
    assert_eq!(f.days[0].entries.len(), 12);
    assert_eq!(f.days[0].entries[11].temp_f, 61);
    assert_eq!(f.rows[0].temp_f, 69);
}

#[test]
fn noon_step_gives_the_icon() {
    let entries = vec![
        step(at(10, 1, 0), 50, 1, 800),
        step(at(10, 1, 9), 50, 1, 500),
        step(at(10, 1, 12), 50, 1, 601),
        step(at(10, 1, 15), 50, 1, 200),
        step(at(10, 1, 12), 50, 1, 741),
    ];
    let f = parse_forecast(&entries);
    assert_eq!(f.rows[0].icon, WeatherIcon::Snow);
    assert_eq!(f.rows[0].detail, "Snow Low 50° Wind 1");
}

#[test]
fn first_of_equally_good_steps_gives_the_icon() {
    let entries = vec![
        step(at(10, 1, 3), 50, 1, 800),
        step(at(10, 1, 15), 50, 1, 500),
        step(at(10, 1, 9), 50, 1, 200),
        step(at(10, 1, 21), 50, 1, 601),
    ];
    let f = parse_forecast(&entries);
    assert_eq!(f.rows[0].icon, WeatherIcon::Rain);
    let late = vec![step(at(10, 1, 3), 50, 1, 741), step(at(10, 1, 6), 50, 1, 200)];
    assert_eq!(parse_forecast(&late).rows[0].detail, "Fog Low 50° Wind 1");
}

#[test]
fn steps_of_a_day_count_wherever_they_stand() {
    let entries = vec![
        step(at(10, 1, 0), 50, 1, 800),
        step(at(11, 2, 0), 70, 9, 800),
        step(at(10, 1, 3), 40, 5, 800),
        step(at(11, 2, 3), 80, 2, 800),
    ];
    let f = parse_forecast(&entries);
    assert_eq!(f.rows.len(), 2);
    assert_eq!((f.rows[0].temp_f, f.rows[0].low_f, f.rows[0].wind_mph), (50, 40, 5));
    assert_eq!((f.rows[1].temp_f, f.rows[1].low_f, f.rows[1].wind_mph), (80, 70, 9));
    assert_eq!(f.days[0].entries.len(), 2);
}

#[test]
fn days_beyond_the_eighth_are_dropped() {
    let mut entries = Vec::new();
    for d in 0..10 {
        entries.push(step(at(d, (d % 7) as u8, 0), d, 0, 800));
    }
    entries.push(step(at(3, 3, 6), 99, 0, 800));
    let samples = usable_samples(&entries);
    let keys = forecast_days(&samples);
    assert_eq!(keys.len(), 8);
    assert_eq!(keys[0], (124, 0));
    assert_eq!(keys[7], (124, 7));
    let f = parse_forecast(&entries);
    assert_eq!(f.rows[3].temp_f, 99);
}

#[test]
fn same_day_of_another_year_is_another_day() {
    let mut next_year = at(10, 2, 0);
    next_year.year = 125;
    let entries = vec![step(at(10, 1, 0), 50, 1, 800), step(next_year, 60, 1, 800)];
    assert_eq!(parse_forecast(&entries).rows.len(), 2);
}
