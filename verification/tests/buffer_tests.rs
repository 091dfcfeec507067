use nooku::buffer::{PrefetchBuffer, BUFFER_LIMIT};
use nooku::key::Key;
use nooku::weather::Weather;

#[test]
fn new_buffer_is_empty() {
    let buffer: PrefetchBuffer<u32> = PrefetchBuffer::new();
    assert_eq!(buffer.len(), 0);
    assert!(buffer.is_empty());
    assert_eq!(buffer.front_key(), None);
}

#[test]
fn ensure_current_hits_the_front_entry() {
    let key = Key::new(Weather::Clear, 4);
    let mut buffer = PrefetchBuffer::new();
    assert!(buffer.ensure_lookahead(key, "track"));
    assert_eq!(buffer.front_key(), Some(key));
    assert_eq!(buffer.ensure_current(key), Some("track"));
    assert_eq!(buffer.len(), 0);
}

#[test]
fn ensure_current_misses_another_key() {
    let key = Key::new(Weather::Clear, 4);
    let other = Key::new(Weather::Rainy, 4);
    let mut buffer = PrefetchBuffer::new();
    assert!(buffer.ensure_lookahead(key, "track"));
    assert_eq!(buffer.ensure_current(other), None);
    assert_eq!(buffer.len(), 1);
    assert_eq!(buffer.front_key(), Some(key));
    let mut empty: PrefetchBuffer<u32> = PrefetchBuffer::new();
    assert_eq!(empty.ensure_current(key), None);
}

#[test]
fn ensure_current_twice_costs_one_decode() {
    let key = Key::new(Weather::Snowy, 11);
    let mut buffer = PrefetchBuffer::new();
    assert!(buffer.ensure_lookahead(key, 42u32));
    let mut decodes = 0;
    if buffer.ensure_current(key).is_none() {
        decodes += 1;
    }
    if buffer.ensure_current(key).is_none() {
        decodes += 1;
    }
    assert_eq!(decodes, 1);
}

#[test]
fn ensure_lookahead_stores_only_into_an_empty_buffer() {
    let first = Key::new(Weather::Clear, 1);
    let second = Key::new(Weather::Clear, 2);
    let mut buffer = PrefetchBuffer::new();
    assert!(buffer.ensure_lookahead(first, 1u32));
    assert!(!buffer.is_empty());
    assert!(!buffer.ensure_lookahead(second, 2u32));
    assert_eq!(buffer.len(), 1);
    assert_eq!(buffer.pop_front(), Some((first, 1u32)));
    assert_eq!(buffer.pop_front(), None);
}

#[test]
fn length_never_exceeds_two() {
    assert_eq!(BUFFER_LIMIT, 2);
    let ahead = Key::new(Weather::Clear, 2);
    let current = Key::new(Weather::Clear, 1);
    let extra = Key::new(Weather::Clear, 3);
    let mut buffer = PrefetchBuffer::new();
    assert!(buffer.ensure_lookahead(ahead, 2u32));
    assert!(buffer.stage_current(current, 1u32));
    assert_eq!(buffer.len(), 2);
    assert!(!buffer.stage_current(extra, 3u32));
    assert!(!buffer.ensure_lookahead(extra, 3u32));
    assert_eq!(buffer.len(), 2);
    assert!(buffer.len() <= BUFFER_LIMIT);
}

#[test]
fn entries_leave_front_first() {
    let ahead = Key::new(Weather::Rainy, 2);
    let current = Key::new(Weather::Rainy, 1);
    let mut buffer = PrefetchBuffer::new();
    assert!(buffer.stage_current(ahead, 'b'));
    assert!(buffer.stage_current(current, 'a'));
    assert_eq!(buffer.front_key(), Some(current));
    assert_eq!(buffer.pop_front(), Some((current, 'a')));
    assert_eq!(buffer.front_key(), Some(ahead));
    assert_eq!(buffer.ensure_current(ahead), Some('b'));
    assert!(buffer.is_empty());
}

#[test]
fn clear_drops_everything() {
    let key = Key::new(Weather::Rainy, 2);
    let mut buffer = PrefetchBuffer::new();
    assert!(buffer.stage_current(key, 'b'));
    assert!(buffer.stage_current(key, 'a'));
    buffer.clear();
    assert_eq!(buffer.len(), 0);
    assert_eq!(buffer.pop_front(), None);
}
