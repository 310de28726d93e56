//! Weather icon identifiers and their fallback labels.

use vstd::prelude::*;

verus! {

/// The icon shown for a weather condition.
#[derive(Debug, Clone, Copy, PartialEq, Eq, Structural)]
pub enum WeatherIcon {
    Clear,
    FewClouds,
    ScatteredClouds,
    BrokenClouds,
    Overcast,
    ShowerRain,
    Rain,
    Drizzle,
    Thunderstorm,
    Snow,
    Atmosphere,
    Mist,
    Fog,
}

impl Default for WeatherIcon {
    fn default() -> (icon: WeatherIcon)
        ensures
            icon == WeatherIcon::Clear,
    {
        WeatherIcon::Clear
    }
}

impl WeatherIcon {
    /// The text of the label.
    pub open spec fn label_text(self) -> Seq<char> {
        match self {
            WeatherIcon::Clear => "Clear"@,
            WeatherIcon::FewClouds => "Few Clouds"@,
            WeatherIcon::ScatteredClouds => "Scattered"@,
            WeatherIcon::BrokenClouds => "Cloudy"@,
            WeatherIcon::Overcast => "Overcast"@,
            WeatherIcon::ShowerRain => "Showers"@,
            WeatherIcon::Rain => "Rain"@,
            WeatherIcon::Drizzle => "Drizzle"@,
            WeatherIcon::Thunderstorm => "Storm"@,
            WeatherIcon::Snow => "Snow"@,
            WeatherIcon::Atmosphere => "Haze"@,
            WeatherIcon::Mist => "Mist"@,
            WeatherIcon::Fog => "Fog"@,
        }
    }

    /// Short text label for fallback display.
    pub fn label(self) -> (s: &'static str)
        ensures
            s@ == self.label_text(),
    {
        match self {
            WeatherIcon::Clear => "Clear",
            WeatherIcon::FewClouds => "Few Clouds",
            WeatherIcon::ScatteredClouds => "Scattered",
            WeatherIcon::BrokenClouds => "Cloudy",
            WeatherIcon::Overcast => "Overcast",
            WeatherIcon::ShowerRain => "Showers",
            WeatherIcon::Rain => "Rain",
            WeatherIcon::Drizzle => "Drizzle",
            WeatherIcon::Thunderstorm => "Storm",
            WeatherIcon::Snow => "Snow",
            WeatherIcon::Atmosphere => "Haze",
            WeatherIcon::Mist => "Mist",
            WeatherIcon::Fog => "Fog",
        }
    }

    /// The icon's position in the icon tables.
    pub fn index(self) -> (i: u8)
        ensures
            i < 13,
            i == match self {
                WeatherIcon::Clear => 0u8,
                WeatherIcon::FewClouds => 1u8,
                WeatherIcon::ScatteredClouds => 2u8,
                WeatherIcon::BrokenClouds => 3u8,
                WeatherIcon::Overcast => 4u8,
                WeatherIcon::ShowerRain => 5u8,
                WeatherIcon::Rain => 6u8,
                WeatherIcon::Drizzle => 7u8,
                WeatherIcon::Thunderstorm => 8u8,
                WeatherIcon::Snow => 9u8,
                WeatherIcon::Atmosphere => 10u8,
                WeatherIcon::Mist => 11u8,
                WeatherIcon::Fog => 12u8,
            },
    {
        match self {
            WeatherIcon::Clear => 0,
            WeatherIcon::FewClouds => 1,
            WeatherIcon::ScatteredClouds => 2,
            WeatherIcon::BrokenClouds => 3,
            WeatherIcon::Overcast => 4,
            WeatherIcon::ShowerRain => 5,
            WeatherIcon::Rain => 6,
            WeatherIcon::Drizzle => 7,
            WeatherIcon::Thunderstorm => 8,
            WeatherIcon::Snow => 9,
            WeatherIcon::Atmosphere => 10,
            WeatherIcon::Mist => 11,
            WeatherIcon::Fog => 12,
        }
    }
}

} // verus!
