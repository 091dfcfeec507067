//! The look-ahead buffer of decoded tracks.

use vstd::prelude::*;
use crate::key::Key;

verus! {

/// The most entries that the buffer holds: the track of the running hour
/// while nobody has taken it, and one track ahead.
pub const BUFFER_LIMIT: usize = 2;

/// Whether the front entry of the buffer was decoded for `key`.
pub open spec fn is_hit<T>(buffer: Seq<(Key, T)>, key: Key) -> bool {
    buffer.len() > 0 && buffer[0].0 == key
}

/// The buffer after the track for `key` was asked of it: a hit takes the
/// front entry out, a miss leaves everything in place.
pub open spec fn after_current<T>(buffer: Seq<(Key, T)>, key: Key) -> Seq<(Key, T)> {
    if is_hit(buffer, key) {
        buffer.drop_first()
    } else {
        buffer
    }
}

/// The decodes that asking the buffer for the track of `key` costs the
/// caller: none on a hit, one on a miss.
pub open spec fn decodes_for_current<T>(buffer: Seq<(Key, T)>, key: Key) -> nat {
    if is_hit(buffer, key) {
        0
    } else {
        1
    }
}

/// The buffer without its front entry, where it has one.
pub open spec fn after_pop<T>(buffer: Seq<(Key, T)>) -> Seq<(Key, T)> {
    if buffer.len() > 0 {
        buffer.drop_first()
    } else {
        buffer
    }
}

/// Decoded tracks, each with the key it was decoded for, in the order in
/// which they will be wanted. It has room for `BUFFER_LIMIT` entries and no
/// more.
pub struct PrefetchBuffer<T> {
    front: Option<(Key, T)>,
    ahead: Option<(Key, T)>,
}

impl<T> View for PrefetchBuffer<T> {
    type V = Seq<(Key, T)>;

    closed spec fn view(&self) -> Seq<(Key, T)> {
        match (self.front, self.ahead) {
            (Some(a), Some(b)) => seq![a, b],
            (Some(a), None) => seq![a],
            (None, Some(b)) => seq![b],
            (None, None) => Seq::empty(),
        }
    }
}

impl<T> PrefetchBuffer<T> {
    /// No buffer holds more than `BUFFER_LIMIT` entries.
    pub proof fn lemma_bounded(&self)
        ensures
            self@.len() <= BUFFER_LIMIT,
    {
    }

    /// An empty buffer.
    pub fn new() -> (buffer: PrefetchBuffer<T>)
        ensures
            buffer@ == Seq::<(Key, T)>::empty(),
    {
        PrefetchBuffer { front: None, ahead: None }
    }

    /// How many tracks are held: never more than `BUFFER_LIMIT`.
    pub fn len(&self) -> (n: usize)
        ensures
            n == self@.len(),
            n <= BUFFER_LIMIT,
    {
        let held_front: usize = if self.front.is_some() {
            1
        } else {
            0
        };
        let held_ahead: usize = if self.ahead.is_some() {
            1
        } else {
            0
        };
        held_front + held_ahead
    }

    /// Whether no track is held.
    pub fn is_empty(&self) -> (empty: bool)
        ensures
            empty == (self@.len() == 0),
    {
        self.front.is_none() && self.ahead.is_none()
    }

    /// The key of the front entry, if there is one.
    pub fn front_key(&self) -> (key: Option<Key>)
        ensures
            key == (if self@.len() > 0 {
                Some(self@[0].0)
            } else {
                None
            }),
    {
        match &self.front {
            Some(entry) => Some(entry.0),
            None => match &self.ahead {
                Some(entry) => Some(entry.0),
                None => None,
            },
        }
    }

    /// Takes the front entry out, whatever it was decoded for.
    pub fn pop_front(&mut self) -> (front: Option<(Key, T)>)
        ensures
            final(self)@ == after_pop(old(self)@),
            front == (if old(self)@.len() > 0 {
                Some(old(self)@[0])
            } else {
                None
            }),
    {
        let ahead = self.ahead.take();
        let front = self.front.take();
        match front {
            Some(entry) => {
                self.front = ahead;
                assert(self@ =~= old(self)@.drop_first());
                Some(entry)
            },
            None => {
                assert(ahead is Some ==> self@ =~= old(self)@.drop_first());
                ahead
            },
        }
    }

    /// Hands out the track for `key` where the front entry was decoded for
    /// it, and takes that entry out. Otherwise the buffer stays as it is and
    /// the caller decodes the track itself.
    pub fn ensure_current(&mut self, key: Key) -> (track: Option<T>)
        ensures
            final(self)@ == after_current(old(self)@, key),
            track == (if is_hit(old(self)@, key) {
                Some(old(self)@[0].1)
            } else {
                None
            }),
    {
        if self.front_key() == Some(key) {
            match self.pop_front() {
                Some(entry) => Some(entry.1),
                None => None,
            }
        } else {
            None
        }
    }

    /// Stores the track decoded for the hour ahead, where the buffer is
    /// empty. Where it holds something the track is not stored. Says
    /// whether it was.
    pub fn ensure_lookahead(&mut self, key: Key, track: T) -> (stored: bool)
        ensures
            stored == (old(self)@.len() == 0),
            final(self)@ == (if old(self)@.len() == 0 {
                seq![(key, track)]
            } else {
                old(self)@
            }),
    {
        if self.is_empty() {
            self.front = Some((key, track));
            true
        } else {
            false
        }
    }

    /// Stores the track of the running hour in front of what is held, where
    /// there is room for it. Says whether it was stored.
    pub fn stage_current(&mut self, key: Key, track: T) -> (stored: bool)
        ensures
            stored == (old(self)@.len() < BUFFER_LIMIT),
            final(self)@ == (if old(self)@.len() < BUFFER_LIMIT {
                seq![(key, track)] + old(self)@
            } else {
                old(self)@
            }),
    {
        if self.front.is_none() {
            self.front = Some((key, track));
            assert(self@ =~= seq![(key, track)] + old(self)@);
            true
        } else if self.ahead.is_none() {
            self.ahead = self.front.take();
            self.front = Some((key, track));
            assert(self@ =~= seq![(key, track)] + old(self)@);
            true
        } else {
            false
        }
    }

    /// Drops every track held.
    pub fn clear(&mut self)
        ensures
            final(self)@ == Seq::<(Key, T)>::empty(),
    {
        self.front = None;
        self.ahead = None;
    }
}

/// Asking twice in a row for the track of the key that the front entry was
/// decoded for costs one decode: the first call is served from the buffer,
/// the second finds the entry gone. This needs the entry behind the front
/// one, if there is one, to be for another key.
pub proof fn lemma_ensure_current_twice<T>(buffer: Seq<(Key, T)>, key: Key)
    requires
        buffer.len() <= BUFFER_LIMIT,
        is_hit(buffer, key),
        buffer.len() == 2 ==> buffer[1].0 != key,
    ensures
        decodes_for_current(buffer, key) + decodes_for_current(after_current(buffer, key), key)
            == 1,
        after_current(after_current(buffer, key), key) == after_current(buffer, key),
{
}

} // verus!
