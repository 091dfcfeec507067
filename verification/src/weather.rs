//! Weather classes and the cooldown-gated holder of the last report.

use vstd::prelude::*;
use crate::json::{condition_code, extract_condition_code};

verus! {

/// Milliseconds that must have passed since the last poll before the
/// weather service is asked again: ten minutes.
pub const COOLDOWN_MILLIS: i64 = 600_000;

/// A class of weather, as far as the rotation tells weather apart.
#[derive(Debug, Clone, Copy, PartialEq, Eq, Structural)]
pub enum Weather {
    Clear,
    Rainy,
    Snowy,
    Unknown,
}

impl Weather {
    /// The class of a condition code, by its leading character: 2, 3 and 5
    /// are rain, 6 is snow, 8 is clear sky. Codes in the 700s (haze, fog and
    /// the like) are left unclassified on purpose, as is everything else,
    /// the empty text included.
    pub open spec fn classify(id: Seq<char>) -> Weather {
        if id.len() == 0 {
            Weather::Unknown
        } else if id[0] == '2' || id[0] == '3' || id[0] == '5' {
            Weather::Rainy
        } else if id[0] == '6' {
            Weather::Snowy
        } else if id[0] == '8' {
            Weather::Clear
        } else {
            Weather::Unknown
        }
    }

    /// Classifies a condition code.
    pub fn from_id(id: &str) -> (w: Weather)
        ensures
            w == Weather::classify(id@),
    {
        if id.unicode_len() == 0 {
            Weather::Unknown
        } else {
            let c = id.get_char(0);
            if c == '2' || c == '3' || c == '5' {
                Weather::Rainy
            } else if c == '6' {
                Weather::Snowy
            } else if c == '8' {
                Weather::Clear
            } else {
                Weather::Unknown
            }
        }
    }

    /// The digit that stands for the class in a catalog key. Unknown
    /// weather selects the clear-sky tracks.
    pub open spec fn digit_spec(self) -> u8 {
        match self {
            Weather::Clear => 0,
            Weather::Rainy => 1,
            Weather::Snowy => 2,
            Weather::Unknown => 0,
        }
    }

    /// The digit that stands for the class in a catalog key.
    pub fn digit(self) -> (d: u8)
        ensures
            d == self.digit_spec(),
            d <= 2,
    {
        match self {
            Weather::Clear => 0,
            Weather::Rainy => 1,
            Weather::Snowy => 2,
            Weather::Unknown => 0,
        }
    }
}

/// What came back from the weather service for one request.
#[derive(Debug)]
pub enum FetchReply {
    /// The body of the response.
    Body(String),
    /// The request failed, or none was made.
    Failed,
}

/// Why the weather could not be told.
#[derive(Debug, Clone, Copy, PartialEq, Eq, Structural)]
pub enum WeatherError {
    /// The weather service could not be reached.
    Network,
    /// The response held no condition code.
    Malformed,
}

/// The last weather report and the moment it was asked for. Times are
/// milliseconds since the Unix epoch.
#[derive(Debug, Clone, Copy, PartialEq, Eq, Structural)]
pub struct WeatherData {
    /// When the weather service was last asked.
    pub last_call: i64,
    /// The class of the last report that could be read.
    pub cached_weather: Weather,
    /// The class that the track now playing was chosen for.
    pub playing_weather: Weather,
}

/// Whether a poll at `now` is past the cooldown of a poll at `last_call`.
pub open spec fn cooldown_elapsed(last_call: i64, now: i64) -> bool {
    now - last_call > COOLDOWN_MILLIS
}

/// What a reply says of the weather: the class, or why there is none.
pub open spec fn reply_outcome(reply: FetchReply) -> Result<Weather, WeatherError> {
    match reply {
        FetchReply::Failed => Err(WeatherError::Network),
        FetchReply::Body(body) => match condition_code(body@) {
            Some(id) => Ok(Weather::classify(id)),
            None => Err(WeatherError::Malformed),
        },
    }
}

/// The holder after a poll at `now` that was answered with `reply`. Within
/// the cooldown nothing changes. Past it the poll is recorded, whatever the
/// reply, and a reply that can be read replaces the cached class.
pub open spec fn weather_after(data: WeatherData, now: i64, reply: FetchReply) -> WeatherData {
    if !cooldown_elapsed(data.last_call, now) {
        data
    } else {
        WeatherData {
            last_call: now,
            cached_weather: match reply_outcome(reply) {
                Ok(w) => w,
                Err(_) => data.cached_weather,
            },
            playing_weather: data.playing_weather,
        }
    }
}

/// What a poll at `now` that was answered with `reply` returns.
pub open spec fn weather_result(data: WeatherData, now: i64, reply: FetchReply) -> Result<
    Weather,
    WeatherError,
> {
    if !cooldown_elapsed(data.last_call, now) {
        Ok(data.cached_weather)
    } else {
        reply_outcome(reply)
    }
}

/// The class that a caller goes by after a poll: the one returned, or the
/// cached one where the poll failed.
pub open spec fn observed(after: WeatherData, outcome: Result<Weather, WeatherError>) -> Weather {
    match outcome {
        Ok(w) => w,
        Err(_) => after.cached_weather,
    }
}

impl WeatherData {
    /// A holder that was never filled: the last poll lies at the epoch, and
    /// the sky counts as clear.
    pub fn new() -> (data: WeatherData)
        ensures
            data == (WeatherData {
                last_call: 0,
                cached_weather: Weather::Clear,
                playing_weather: Weather::Clear,
            }),
    {
        WeatherData {
            last_call: 0,
            cached_weather: Weather::Clear,
            playing_weather: Weather::Clear,
        }
    }

    /// Whether the weather service is to be asked at `now`: only then does
    /// `get_weather` read the reply it is given.
    pub fn fetch_due(&self, now: i64) -> (due: bool)
        ensures
            due == cooldown_elapsed(self.last_call, now),
    {
        now as i128 - self.last_call as i128 > COOLDOWN_MILLIS as i128
    }

    /// The class to go by after a poll with the given outcome: the class
    /// returned, or the cached one where the poll failed.
    pub fn settle(&self, outcome: Result<Weather, WeatherError>) -> (w: Weather)
        ensures
            w == observed(*self, outcome),
    {
        match outcome {
            Ok(w) => w,
            Err(_) => self.cached_weather,
        }
    }
}

/// Tells the weather at `now`. Within the cooldown of the last poll this is
/// the cached class, and `reply` is not looked at. Past the cooldown the
/// poll is recorded and `reply` decides: a body with a condition code gives
/// its class, which is cached; a failed request or a body without a code is
/// an error, and the cached class stays.
pub fn get_weather(weather_data: &mut WeatherData, now: i64, reply: &FetchReply) -> (res: Result<
    Weather,
    WeatherError,
>)
    ensures
        *final(weather_data) == weather_after(*old(weather_data), now, *reply),
        res == weather_result(*old(weather_data), now, *reply),
        final(weather_data).last_call >= old(weather_data).last_call,
{
    if !weather_data.fetch_due(now) {
        return Ok(weather_data.cached_weather);
    }
    weather_data.last_call = now;
    match reply {
        FetchReply::Failed => Err(WeatherError::Network),
        FetchReply::Body(body) => match extract_condition_code(body.as_str()) {
            Some(id) => {
                let w = Weather::from_id(id.as_str());
                weather_data.cached_weather = w;
                Ok(w)
            },
            None => Err(WeatherError::Malformed),
        },
    }
}

/// Two polls no further apart than the cooldown ask the weather service at
/// most once between them; and where the second one does not ask, both go
/// by the same class, whatever the replies were.
pub proof fn lemma_polls_within_cooldown(
    data: WeatherData,
    first: i64,
    second: i64,
    first_reply: FetchReply,
    second_reply: FetchReply,
)
    requires
        second - first <= COOLDOWN_MILLIS,
    ensures
        !(cooldown_elapsed(data.last_call, first) && cooldown_elapsed(
            weather_after(data, first, first_reply).last_call,
            second,
        )),
        !cooldown_elapsed(weather_after(data, first, first_reply).last_call, second) ==> observed(
            weather_after(
                weather_after(data, first, first_reply),
                second,
                second_reply,
            ),
            weather_result(weather_after(data, first, first_reply), second, second_reply),
        ) == observed(
            weather_after(data, first, first_reply),
            weather_result(data, first, first_reply),
        ),
{
}

} // verus!
