//! What each trigger asks of the playback session.
//!
//! Decoding and playback happen outside this crate, and so does the request
//! to the weather service. Each function here takes a reading of the clock
//! and the reply of the weather service, derives the key of the moment,
//! decides what is to be done, and leaves the doing to the caller.

use vstd::prelude::*;
use crate::buffer::{after_pop, is_hit, PrefetchBuffer};
use crate::catalog::SongCatalog;
use crate::clock::ClockReading;
use crate::key::{current_key, get_key_current_hour, get_key_next_hour, next_key, Key};
use crate::weather::{weather_after, FetchReply, WeatherData};

verus! {

/// Whether a session plays, and the key of what it plays.
#[derive(Debug, Clone, Copy, PartialEq, Eq, Structural)]
pub enum SessionState {
    /// Nothing plays.
    Idle,
    /// The track that was chosen for the key plays.
    Playing(Key),
}

impl SessionState {
    /// Whether a failed decode ends the session: it does where nothing
    /// plays yet. Where a track plays, that track goes on playing.
    pub fn decode_failure_is_fatal(&self) -> (fatal: bool)
        ensures
            fatal == (*self == SessionState::Idle),
    {
        match self {
            SessionState::Idle => true,
            SessionState::Playing(_) => false,
        }
    }

    /// The key of the track that plays, if one does.
    pub fn playing_key(&self) -> (key: Option<Key>)
        ensures
            key == (match *self {
                SessionState::Idle => None,
                SessionState::Playing(k) => Some(k),
            }),
    {
        match self {
            SessionState::Idle => None,
            SessionState::Playing(k) => Some(*k),
        }
    }
}

/// How the track of a new hour is had.
#[derive(Debug)]
pub enum Swap<T> {
    /// The buffer held the track for the key: play it.
    Buffered(Key, T),
    /// The track for the key is to be decoded from its catalog entry, then
    /// played.
    Decode(Key),
    /// The catalog holds nothing for the key: what plays goes on playing.
    Missing(Key),
}

/// What is to be decoded, if anything.
#[derive(Debug, Clone, Copy, PartialEq, Eq, Structural)]
pub enum Refresh {
    /// Nothing is to be done.
    Steady,
    /// The track for the key is to be decoded from its catalog entry.
    Decode(Key),
    /// The catalog holds nothing for the key: nothing can be done.
    Missing(Key),
}

/// How the track for `key` is had from a buffer and a catalog: from the
/// buffer where its front entry was decoded for the key, else from the
/// catalog, if that holds the key.
pub open spec fn swap_for<T, R>(buffer: Seq<(Key, T)>, catalog: Map<Seq<char>, R>, key: Key) -> Swap<
    T,
> {
    if is_hit(buffer, key) {
        Swap::Buffered(key, buffer[0].1)
    } else if catalog.contains_key(key.text_spec()) {
        Swap::Decode(key)
    } else {
        Swap::Missing(key)
    }
}

/// What is to be decoded for `key` where a decode is wanted at all.
pub open spec fn refresh_for<R>(wanted: bool, catalog: Map<Seq<char>, R>, key: Key) -> Refresh {
    if !wanted {
        Refresh::Steady
    } else if catalog.contains_key(key.text_spec()) {
        Refresh::Decode(key)
    } else {
        Refresh::Missing(key)
    }
}

fn from_catalog<T, R>(catalog: &SongCatalog<R>, key: Key) -> (swap: Swap<T>)
    requires
        catalog.wf(),
        key.wf(),
    ensures
        swap == (if catalog@.contains_key(key.text_spec()) {
            Swap::<T>::Decode(key)
        } else {
            Swap::<T>::Missing(key)
        }),
{
    if catalog.contains(&key) {
        Swap::Decode(key)
    } else {
        Swap::Missing(key)
    }
}

fn refresh<R>(wanted: bool, catalog: &SongCatalog<R>, key: Key) -> (plan: Refresh)
    requires
        catalog.wf(),
        key.wf(),
    ensures
        plan == refresh_for(wanted, catalog@, key),
{
    if !wanted {
        Refresh::Steady
    } else if catalog.contains(&key) {
        Refresh::Decode(key)
    } else {
        Refresh::Missing(key)
    }
}

/// Starts a session. The front entry of the buffer is taken out and the
/// key of the running hour is derived from the reading and the reply. Where
/// the entry was decoded for that key it is played; where not, it is stale,
/// and so is whatever lies behind it: the buffer is emptied and the track
/// comes from the catalog.
pub fn play<T, R>(
    buffer: &mut PrefetchBuffer<T>,
    catalog: &SongCatalog<R>,
    weather_data: &mut WeatherData,
    clock: &ClockReading,
    reply: &FetchReply,
) -> (swap: Swap<T>)
    requires
        catalog.wf(),
        clock.wf(),
    ensures
        *final(weather_data) == weather_after(*old(weather_data), clock.utc_millis, *reply),
        swap == swap_for(
            old(buffer)@,
            catalog@,
            current_key(*old(weather_data), *clock, *reply),
        ),
        final(buffer)@ == (if is_hit(
            old(buffer)@,
            current_key(*old(weather_data), *clock, *reply),
        ) {
            old(buffer)@.drop_first()
        } else {
            Seq::<(Key, T)>::empty()
        }),
{
    let front = buffer.pop_front();
    let key = get_key_current_hour(weather_data, clock, reply);
    match front {
        Some((held, track)) => {
            if held == key {
                Swap::Buffered(key, track)
            } else {
                buffer.clear();
                from_catalog(catalog, key)
            }
        },
        None => from_catalog(catalog, key),
    }
}

/// The hourly trigger has fired. The front entry of the buffer is taken out
/// and the key of the hour that has begun is derived from the reading and
/// the reply. Where the entry was decoded for that key it is played; where
/// not, or where the buffer was empty, the track comes from the catalog.
pub fn hour_change<T, R>(
    buffer: &mut PrefetchBuffer<T>,
    catalog: &SongCatalog<R>,
    weather_data: &mut WeatherData,
    clock: &ClockReading,
    reply: &FetchReply,
) -> (swap: Swap<T>)
    requires
        catalog.wf(),
        clock.wf(),
    ensures
        *final(weather_data) == weather_after(*old(weather_data), clock.utc_millis, *reply),
        swap == swap_for(
            old(buffer)@,
            catalog@,
            current_key(*old(weather_data), *clock, *reply),
        ),
        final(buffer)@ == after_pop(old(buffer)@),
{
    let front = buffer.pop_front();
    let key = get_key_current_hour(weather_data, clock, reply);
    match front {
        Some((held, track)) => {
            if held == key {
                Swap::Buffered(key, track)
            } else {
                from_catalog(catalog, key)
            }
        },
        None => from_catalog(catalog, key),
    }
}

/// Whether the weather digit of `key` is another than the one that the
/// playing track was chosen for.
pub open spec fn weather_drifted(weather_data: WeatherData, key: Key) -> bool {
    key.weather != weather_data.playing_weather.digit_spec()
}

/// The playing track has looped. The key of the running hour is derived
/// from the reading and the reply. Where its weather digit is the one that
/// the playing track was chosen for, nothing is to be done; where the
/// weather has drifted, the track for the key is to be decoded and played.
pub fn check_weather<R>(
    weather_data: &mut WeatherData,
    catalog: &SongCatalog<R>,
    clock: &ClockReading,
    reply: &FetchReply,
) -> (plan: Refresh)
    requires
        catalog.wf(),
        clock.wf(),
    ensures
        *final(weather_data) == weather_after(*old(weather_data), clock.utc_millis, *reply),
        plan == refresh_for(
            weather_drifted(
                *old(weather_data),
                current_key(*old(weather_data), *clock, *reply),
            ),
            catalog@,
            current_key(*old(weather_data), *clock, *reply),
        ),
{
    let key = get_key_current_hour(weather_data, clock, reply);
    refresh(key.weather != weather_data.playing_weather.digit(), catalog, key)
}

/// After a swap: where the buffer is empty, the key of the hour ahead is
/// derived from the reading and the reply, and the track for it is to be
/// decoded and stored in the buffer. Where the buffer holds something,
/// nothing is to be done, and the weather is not polled.
pub fn lookahead<T, R>(
    buffer: &PrefetchBuffer<T>,
    catalog: &SongCatalog<R>,
    weather_data: &mut WeatherData,
    clock: &ClockReading,
    reply: &FetchReply,
) -> (plan: Refresh)
    requires
        catalog.wf(),
        clock.wf(),
    ensures
        *final(weather_data) == (if buffer@.len() == 0 {
            weather_after(*old(weather_data), clock.utc_millis, *reply)
        } else {
            *old(weather_data)
        }),
        plan == refresh_for(
            buffer@.len() == 0,
            catalog@,
            next_key(*old(weather_data), *clock, *reply),
        ),
{
    if buffer.is_empty() {
        let key = get_key_next_hour(weather_data, clock, reply);
        refresh(true, catalog, key)
    } else {
        Refresh::Steady
    }
}

/// Where the loop trigger finds the weather drifted within the hour of the
/// track that plays, the track it asks for differs from the playing one in
/// the weather digit and in nothing else.
pub proof fn lemma_drift_keeps_hour<R>(
    playing: Key,
    weather_data: WeatherData,
    catalog: Map<Seq<char>, R>,
    clock: ClockReading,
    reply: FetchReply,
    next: Key,
)
    requires
        clock.wf(),
        playing.wf(),
        playing.weather == weather_data.playing_weather.digit_spec(),
        clock.hour == playing.hour,
        refresh_for(
            weather_drifted(weather_data, current_key(weather_data, clock, reply)),
            catalog,
            current_key(weather_data, clock, reply),
        ) == Refresh::Decode(next),
    ensures
        next.hour == playing.hour,
        next.weather != playing.weather,
        next == current_key(weather_data, clock, reply),
{
}

/// The track for `key` has been handed to playback: the session plays it,
/// and the weather it was chosen for is the cached one.
pub fn installed(state: &mut SessionState, weather_data: &mut WeatherData, key: Key)
    ensures
        *final(state) == SessionState::Playing(key),
        *final(weather_data) == (WeatherData {
            playing_weather: old(weather_data).cached_weather,
            ..*old(weather_data)
        }),
{
    *state = SessionState::Playing(key);
    weather_data.playing_weather = weather_data.cached_weather;
}

/// The session has ended: nothing plays, and the buffer is emptied.
pub fn leave<T>(state: &mut SessionState, buffer: &mut PrefetchBuffer<T>)
    ensures
        *final(state) == SessionState::Idle,
        final(buffer)@ == Seq::<(Key, T)>::empty(),
{
    *state = SessionState::Idle;
    buffer.clear();
}

} // verus!
