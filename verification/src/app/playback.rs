use crate::config::persistence::RepeatMode;
use crate::ids::{position_of, uuid_bits};
use uuid::Uuid;
use vstd::prelude::*;

verus! {

/// The place in a queue of `len` tracks that follows `position`: the next
/// place, the first after the last. With `shuffle` it is the place that the
/// drawn number picks.
pub open spec fn next_place(len: int, position: int, shuffle: Option<u64>) -> int
    recommends
        len > 0,
{
    match shuffle {
        Some(drawn) => drawn as int % len,
        None => (position + 1) % len,
    }
}

/// The place in a queue of `len` tracks that precedes `position`: the place
/// before, the last before the first.
pub open spec fn prev_place(len: int, position: int) -> int
    recommends
        len > 0,
{
    if position > 0 {
        position - 1
    } else {
        len - 1
    }
}

/// The place to play after `position` in a queue of `len` tracks, or
/// nothing for an empty queue. `shuffle` holds a number drawn at random
/// when tracks are played in random order.
pub fn next_track(len: usize, position: usize, shuffle: Option<u64>) -> (place: Option<usize>)
    ensures
        len == 0 ==> place is None,
        len > 0 ==> place == Some(next_place(len as int, position as int, shuffle) as usize),
        len > 0 ==> place->0 < len,
{
    if len == 0 {
        return None;
    }
    match shuffle {
        Some(drawn) => {
            let place = (drawn as u128 % len as u128) as usize;
            Some(place)
        },
        None => {
            let place = ((position as u128 + 1) % len as u128) as usize;
            Some(place)
        },
    }
}

/// The place to play before `position` in a queue of `len` tracks, or
/// nothing for an empty queue.
pub fn prev_track(len: usize, position: usize) -> (place: Option<usize>)
    ensures
        len == 0 ==> place is None,
        len > 0 ==> place == Some(prev_place(len as int, position as int) as usize),
{
    if len == 0 {
        None
    } else if position > 0 {
        Some(position - 1)
    } else {
        Some(len - 1)
    }
}

/// Without shuffle, going on by one place and back by one returns to where
/// one was, for any place inside the queue.
pub proof fn lemma_next_then_prev(len: int, position: int)
    requires
        0 <= position < len,
    ensures
        prev_place(len, next_place(len, position, None)) == position,
        0 <= next_place(len, position, None) < len,
        0 <= prev_place(len, position) < len,
{
    if position + 1 < len {
        assert((position + 1) % len == position + 1) by (nonlinear_arith)
            requires
                0 <= position + 1 < len,
        ;
    } else {
        assert((position + 1) % len == 0) by (nonlinear_arith)
            requires
                position + 1 == len,
                len > 0,
        ;
    }
}

/// What to do when the playing track has come to its end.
#[derive(Debug, Clone, Copy, PartialEq, Eq, Structural)]
pub enum EndAction {
    /// Play the same track again.
    Replay,
    /// Go on to the next track of the queue.
    Advance,
    /// Stop: the queue is played through.
    Stop,
}

/// What follows the end of a track at `position` in a queue of `len`
/// tracks: the same track once more when one track is repeated; else the
/// next track, as long as there is one or the whole queue is repeated.
pub open spec fn end_action(repeat: RepeatMode, position: int, len: int) -> EndAction {
    match repeat {
        RepeatMode::One => EndAction::Replay,
        RepeatMode::All => EndAction::Advance,
        RepeatMode::Off => if position + 1 < len {
            EndAction::Advance
        } else {
            EndAction::Stop
        },
    }
}

/// What to do now that the track at `position` of a queue of `len` tracks
/// has ended.
pub fn check_track_ended(repeat: RepeatMode, position: usize, len: usize) -> (action: EndAction)
    ensures
        action == end_action(repeat, position as int, len as int),
{
    match repeat {
        RepeatMode::One => EndAction::Replay,
        RepeatMode::All => EndAction::Advance,
        RepeatMode::Off => {
            if position < len && position + 1 < len {
                EndAction::Advance
            } else {
                EndAction::Stop
            }
        },
    }
}

/// The queue of tracks to play and the place of the one that is playing.
pub struct Queue {
    pub ids: Vec<Uuid>,
    pub position: usize,
}

impl Queue {
    /// Takes the first occurrence of `track_id` out of the queue. The place
    /// that is playing moves with its track when a track before it leaves.
    /// Returns whether the track was queued.
    pub fn handle_track_removal(&mut self, track_id: &Uuid) -> (removed: bool)
        ensures
            !removed ==> *final(self) == *old(self),
            !removed ==> forall|j: int|
                0 <= j < old(self).ids@.len() ==> uuid_bits(#[trigger] old(self).ids@[j])
                    != uuid_bits(*track_id),
            removed ==> exists|i: int|
                {
                    &&& 0 <= i < old(self).ids@.len()
                    &&& uuid_bits(#[trigger] old(self).ids@[i]) == uuid_bits(*track_id)
                    &&& forall|j: int|
                        0 <= j < i ==> uuid_bits(#[trigger] old(self).ids@[j]) != uuid_bits(
                            *track_id,
                        )
                    &&& final(self).ids@ == old(self).ids@.remove(i)
                    &&& final(self).position == (if i < old(self).position {
                        old(self).position - 1
                    } else {
                        old(self).position as int
                    })
                },
    {
        match position_of(&self.ids, track_id) {
            Some(pos) => {
                let _ = self.ids.remove(pos);
                if pos < self.position {
                    self.position = self.position - 1;
                }
                true
            },
            None => false,
        }
    }
}

} // verus!
