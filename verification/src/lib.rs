//! Rotation of background audio by wall-clock hour and polled weather.
//!
//! The crate holds the decisions of the rotation engine: how a weather code
//! is classified, when the weather may be polled again, which catalog key a
//! moment selects, what the look-ahead buffer hands out, and what each
//! trigger asks of the playback session. Network, decoding and playback are
//! left to the caller, which hands their outcomes in as plain values.

pub mod weather;
pub mod json;
pub mod clock;
pub mod key;
pub mod catalog;
pub mod buffer;
pub mod schedule;
pub mod rotation;

pub use crate::weather::{get_weather, FetchReply, Weather, WeatherData, WeatherError};
pub use crate::clock::ClockReading;
pub use crate::key::{get_key_current_hour, get_key_next_hour, Key};
pub use crate::catalog::SongCatalog;
pub use crate::buffer::PrefetchBuffer;
pub use crate::schedule::HourSchedule;
pub use crate::rotation::{Refresh, SessionState, Swap};
