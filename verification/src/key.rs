//! Catalog keys: a weather digit and an hour of the day.

use vstd::prelude::*;
use crate::clock::ClockReading;
use crate::weather::{
    get_weather, observed, weather_after, weather_result, FetchReply, Weather, WeatherData,
};

verus! {

/// Selects one catalog entry: the tracks are filed by weather and by hour.
#[derive(Debug, Clone, Copy, PartialEq, Eq, Structural)]
pub struct Key {
    /// 0 for clear sky, 1 for rain, 2 for snow.
    pub weather: u8,
    /// The hour of the day, 0 to 23.
    pub hour: u8,
}

/// The character of a decimal digit.
pub open spec fn digit_char(d: u8) -> char {
    if d == 0 {
        '0'
    } else if d == 1 {
        '1'
    } else if d == 2 {
        '2'
    } else if d == 3 {
        '3'
    } else if d == 4 {
        '4'
    } else if d == 5 {
        '5'
    } else if d == 6 {
        '6'
    } else if d == 7 {
        '7'
    } else if d == 8 {
        '8'
    } else {
        '9'
    }
}

/// The key for a class of weather at an hour.
pub open spec fn key_of(weather: Weather, hour: u32) -> Key {
    Key { weather: weather.digit_spec(), hour: hour as u8 }
}

fn digit_str(d: u8) -> (s: &'static str)
    requires
        d <= 9,
    ensures
        s@ == seq![digit_char(d)],
{
    proof {
        reveal_strlit("0");
        reveal_strlit("1");
        reveal_strlit("2");
        reveal_strlit("3");
        reveal_strlit("4");
        reveal_strlit("5");
        reveal_strlit("6");
        reveal_strlit("7");
        reveal_strlit("8");
        reveal_strlit("9");
    }
    let s = if d == 0 {
        "0"
    } else if d == 1 {
        "1"
    } else if d == 2 {
        "2"
    } else if d == 3 {
        "3"
    } else if d == 4 {
        "4"
    } else if d == 5 {
        "5"
    } else if d == 6 {
        "6"
    } else if d == 7 {
        "7"
    } else if d == 8 {
        "8"
    } else {
        "9"
    };
    assert(s@ =~= seq![digit_char(d)]);
    s
}

impl Key {
    /// The weather digit is one of the three in use and the hour is an hour
    /// of the day.
    pub open spec fn wf(&self) -> bool {
        self.weather <= 2 && self.hour <= 23
    }

    /// The three characters under which the catalog files the key: the
    /// weather digit, then the hour in two digits.
    pub open spec fn text_spec(&self) -> Seq<char> {
        seq![
            digit_char(self.weather),
            digit_char(self.hour / 10),
            digit_char(self.hour % 10),
        ]
    }

    /// The key for a class of weather at an hour of the day.
    pub fn new(weather: Weather, hour: u32) -> (key: Key)
        requires
            hour < 24,
        ensures
            key == key_of(weather, hour),
            key.wf(),
            key.hour == hour,
    {
        Key { weather: weather.digit(), hour: hour as u8 }
    }

    /// The three characters under which the catalog files the key.
    pub fn text(&self) -> (s: String)
        requires
            self.wf(),
        ensures
            s@ == self.text_spec(),
    {
        let mut s = String::from_str(digit_str(self.weather));
        s.append(digit_str(self.hour / 10));
        s.append(digit_str(self.hour % 10));
        assert(s@ =~= self.text_spec());
        s
    }
}

/// The key of the running hour after a poll at the moment of the reading
/// that was answered with `reply`: it goes by the class that the poll gave,
/// or by the cached one where the poll failed.
pub open spec fn current_key(data: WeatherData, clock: ClockReading, reply: FetchReply) -> Key {
    key_of(
        observed(
            weather_after(data, clock.utc_millis, reply),
            weather_result(data, clock.utc_millis, reply),
        ),
        clock.hour,
    )
}

/// The key of the hour that begins next, with the weather as for the
/// running hour.
pub open spec fn next_key(data: WeatherData, clock: ClockReading, reply: FetchReply) -> Key {
    key_of(
        observed(
            weather_after(data, clock.utc_millis, reply),
            weather_result(data, clock.utc_millis, reply),
        ),
        clock.next_hour,
    )
}

/// The key of the running hour. The weather is polled as `get_weather`
/// does, at the moment of the reading; where the poll fails the key goes by
/// the cached class, so that a key is always had.
pub fn get_key_current_hour(
    weather_data: &mut WeatherData,
    clock: &ClockReading,
    reply: &FetchReply,
) -> (key: Key)
    requires
        clock.wf(),
    ensures
        *final(weather_data) == weather_after(*old(weather_data), clock.utc_millis, *reply),
        key == current_key(*old(weather_data), *clock, *reply),
        key.weather == final(weather_data).cached_weather.digit_spec(),
        key.hour == clock.hour,
        key.wf(),
{
    let outcome = get_weather(weather_data, clock.utc_millis, reply);
    Key::new(weather_data.settle(outcome), clock.hour)
}

/// The key of the hour that begins next, with the weather polled as for the
/// running hour.
pub fn get_key_next_hour(
    weather_data: &mut WeatherData,
    clock: &ClockReading,
    reply: &FetchReply,
) -> (key: Key)
    requires
        clock.wf(),
    ensures
        *final(weather_data) == weather_after(*old(weather_data), clock.utc_millis, *reply),
        key == next_key(*old(weather_data), *clock, *reply),
        key.weather == final(weather_data).cached_weather.digit_spec(),
        key.hour == clock.next_hour,
        key.wf(),
{
    let outcome = get_weather(weather_data, clock.utc_millis, reply);
    Key::new(weather_data.settle(outcome), clock.next_hour)
}

/// The value of a decimal digit's character.
pub open spec fn digit_value(c: char) -> int {
    c as int - '0' as int
}

/// For every class of weather and every hour of the day, the text of the
/// key is the weather digit followed by the hour in two decimal digits.
pub proof fn lemma_key_text_shape(weather: Weather, hour: u32)
    requires
        hour < 24,
    ensures
        key_of(weather, hour).wf(),
        key_of(weather, hour).text_spec().len() == 3,
        digit_value(key_of(weather, hour).text_spec()[0]) == weather.digit_spec(),
        0 <= digit_value(key_of(weather, hour).text_spec()[1]) <= 2,
        0 <= digit_value(key_of(weather, hour).text_spec()[2]) <= 9,
        10 * digit_value(key_of(weather, hour).text_spec()[1]) + digit_value(
            key_of(weather, hour).text_spec()[2],
        ) == hour,
{
}

/// Keys with the same text are the same key.
pub proof fn lemma_key_text_injective(a: Key, b: Key)
    requires
        a.wf(),
        b.wf(),
        a.text_spec() == b.text_spec(),
    ensures
        a == b,
{
    assert(a.text_spec()[0] == b.text_spec()[0]);
    assert(a.text_spec()[1] == b.text_spec()[1]);
    assert(a.text_spec()[2] == b.text_spec()[2]);
}

} // verus!
