use vstd::prelude::*;

verus! {

/// Category of a weather reading. Only `Stormy` affects admission decisions.
#[derive(Clone, Copy, Debug, PartialEq, Eq, Structural)]
pub enum Weather {
    Clear,
    Cloudy,
    Sunny,
    Stormy,
    Raining,
    Snowing,
    Hailing,
}

/// True when the category grounds all traffic.
pub open spec fn is_stormy(w: Weather) -> bool {
    w is Stormy
}

/// Source of the current weather: a category together with a magnitude.
/// The magnitude is carried for the source's own use; no admission rule reads it.
pub trait WeatherService {
    fn get_weather(&self) -> (Weather, i8);
}

/// Tells whether a reading's category is `Stormy`.
pub fn reading_is_stormy(reading: &(Weather, i8)) -> (r: bool)
    ensures
        r == is_stormy(reading.0),
{
    match reading.0 {
        Weather::Stormy => true,
        _ => false,
    }
}

} // verus!
