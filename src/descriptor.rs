use vstd::prelude::*;

verus! {

/// The bureau's forecast icons.
#[derive(Clone, Copy, Debug, PartialEq, Eq, Structural)]
pub enum IconDescriptor {
    Sunny,
    Clear,
    MostlySunny,
    PartlyCloudy,
    Cloudy,
    Hazy,
    LightRain,
    Windy,
    Fog,
    Shower,
    Rain,
    Dusty,
    Frost,
    Snow,
    Storm,
    LightShower,
    HeavyShower,
    Cyclone,
}

impl IconDescriptor {
    pub open spec fn spec_icon_emoji(self, is_night: bool) -> Seq<char> {
        match self {
            IconDescriptor::Sunny => if is_night {
                "🌙"@
            } else {
                "☀️"@
            },
            IconDescriptor::Clear => "🌙"@,
            IconDescriptor::MostlySunny => "🌤️"@,
            IconDescriptor::PartlyCloudy => "⛅"@,
            IconDescriptor::Cloudy => "☁️"@,
            IconDescriptor::Hazy => "🌅"@,
            IconDescriptor::Windy => "🌬️"@,
            IconDescriptor::Fog => "🌫️"@,
            IconDescriptor::Shower => "🌦️"@,
            IconDescriptor::LightShower => "🌦️"@,
            IconDescriptor::LightRain => "🌦️"@,
            IconDescriptor::HeavyShower => "🌧️"@,
            IconDescriptor::Rain => "🌧️"@,
            IconDescriptor::Dusty => "🐪"@,
            IconDescriptor::Frost => "❄️"@,
            IconDescriptor::Snow => "🌨️"@,
            IconDescriptor::Storm => "⛈️"@,
            IconDescriptor::Cyclone => "🌀"@,
        }
    }

    /// The descriptor's name in title case.
    pub open spec fn spec_title(self) -> Seq<char> {
        match self {
            IconDescriptor::Sunny => "Sunny"@,
            IconDescriptor::Clear => "Clear"@,
            IconDescriptor::MostlySunny => "Mostly Sunny"@,
            IconDescriptor::PartlyCloudy => "Partly Cloudy"@,
            IconDescriptor::Cloudy => "Cloudy"@,
            IconDescriptor::Hazy => "Hazy"@,
            IconDescriptor::LightRain => "Light Rain"@,
            IconDescriptor::Windy => "Windy"@,
            IconDescriptor::Fog => "Fog"@,
            IconDescriptor::Shower => "Shower"@,
            IconDescriptor::Rain => "Rain"@,
            IconDescriptor::Dusty => "Dusty"@,
            IconDescriptor::Frost => "Frost"@,
            IconDescriptor::Snow => "Snow"@,
            IconDescriptor::Storm => "Storm"@,
            IconDescriptor::LightShower => "Light Shower"@,
            IconDescriptor::HeavyShower => "Heavy Shower"@,
            IconDescriptor::Cyclone => "Cyclone"@,
        }
    }

    pub open spec fn spec_description(self, is_night: bool) -> Seq<char> {
        if is_night && self == IconDescriptor::Sunny {
            "Clear"@
        } else if is_night && self == IconDescriptor::MostlySunny {
            "Mostly Clear"@
        } else {
            self.spec_title()
        }
    }

    /// The emoji shown for this descriptor; sunny nights show a moon.
    pub fn get_icon_emoji(&self, is_night: bool) -> (r: &'static str)
        ensures
            r@ == self.spec_icon_emoji(is_night),
    {
        match self {
            IconDescriptor::Sunny => if is_night {
                "🌙"
            } else {
                "☀️"
            },
            IconDescriptor::Clear => "🌙",
            IconDescriptor::MostlySunny => "🌤️",
            IconDescriptor::PartlyCloudy => "⛅",
            IconDescriptor::Cloudy => "☁️",
            IconDescriptor::Hazy => "🌅",
            IconDescriptor::Windy => "🌬️",
            IconDescriptor::Fog => "🌫️",
            IconDescriptor::Shower => "🌦️",
            IconDescriptor::LightShower => "🌦️",
            IconDescriptor::LightRain => "🌦️",
            IconDescriptor::HeavyShower => "🌧️",
            IconDescriptor::Rain => "🌧️",
            IconDescriptor::Dusty => "🐪",
            IconDescriptor::Frost => "❄️",
            IconDescriptor::Snow => "🌨️",
            IconDescriptor::Storm => "⛈️",
            IconDescriptor::Cyclone => "🌀",
        }
    }

    /// The descriptor's name in title case.
    pub fn title(&self) -> (r: &'static str)
        ensures
            r@ == self.spec_title(),
    {
        match self {
            IconDescriptor::Sunny => "Sunny",
            IconDescriptor::Clear => "Clear",
            IconDescriptor::MostlySunny => "Mostly Sunny",
            IconDescriptor::PartlyCloudy => "Partly Cloudy",
            IconDescriptor::Cloudy => "Cloudy",
            IconDescriptor::Hazy => "Hazy",
            IconDescriptor::LightRain => "Light Rain",
            IconDescriptor::Windy => "Windy",
            IconDescriptor::Fog => "Fog",
            IconDescriptor::Shower => "Shower",
            IconDescriptor::Rain => "Rain",
            IconDescriptor::Dusty => "Dusty",
            IconDescriptor::Frost => "Frost",
            IconDescriptor::Snow => "Snow",
            IconDescriptor::Storm => "Storm",
            IconDescriptor::LightShower => "Light Shower",
            IconDescriptor::HeavyShower => "Heavy Shower",
            IconDescriptor::Cyclone => "Cyclone",
        }
    }

    /// A short description; at night sunny skies read as clear.
    pub fn get_description(&self, is_night: bool) -> (r: &'static str)
        ensures
            r@ == self.spec_description(is_night),
    {
        match self {
            IconDescriptor::Sunny if is_night => "Clear",
            IconDescriptor::MostlySunny if is_night => "Mostly Clear",
            _ => self.title(),
        }
    }
}

} // verus!
