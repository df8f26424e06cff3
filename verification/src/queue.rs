//! The per-session playback queue: a FIFO of track entries whose head is the
//! track currently handed to the transport.  Each entry carries a key so that
//! the asynchronous metadata resolution can find its entry again even after
//! the queue has moved on.

use vstd::prelude::*;
use crate::track::{
    outcome_model, resolve_track, MetadataModel, ResolvedMetadata, TrackDescriptor, TrackModel,
};

verus! {

/// One queued slot: the track and the key it was enqueued under.
pub struct TrackEntry {
    pub key: u64,
    pub track: TrackDescriptor,
}

/// Mathematical model of a `TrackEntry`.
#[verifier::ext_equal]
pub struct EntryModel {
    pub key: u64,
    pub track: TrackModel,
}

impl View for TrackEntry {
    type V = EntryModel;

    open spec fn view(&self) -> EntryModel {
        EntryModel { key: self.key, track: self.track@ }
    }
}

/// Ordered playback queue of one session.  The head, if present, is the
/// track currently playing; all others are pending, in the order they were
/// requested.  Identical sources may be queued more than once.
pub struct TrackQueue {
    entries: Vec<TrackEntry>,
    next_key: u64,
}

/// Mathematical model of a `TrackQueue`.
#[verifier::ext_equal]
pub struct QueueModel {
    pub entries: Seq<EntryModel>,
    pub next_key: u64,
}

impl View for TrackQueue {
    type V = QueueModel;

    closed spec fn view(&self) -> QueueModel {
        QueueModel {
            entries: self.entries@.map_values(|e: TrackEntry| e@),
            next_key: self.next_key,
        }
    }
}

impl QueueModel {
    /// Entry keys grow strictly along the queue and stay below the counter,
    /// so every current key is unique and the next issued key is fresh.
    pub open spec fn wf(self) -> bool {
        &&& forall|i: int, j: int|
            0 <= i < j < self.entries.len() ==> self.entries[i].key < self.entries[j].key
        &&& forall|i: int| 0 <= i < self.entries.len() ==> #[trigger] self.entries[i].key < self.next_key
    }

    /// Whether some current entry carries `key`.
    pub open spec fn has_key(self, key: u64) -> bool {
        exists|i: int| 0 <= i < self.entries.len() && #[trigger] self.entries[i].key == key
    }

    /// The position of the entry carrying `key` (meaningful when `has_key`).
    pub open spec fn key_index(self, key: u64) -> int {
        choose|i: int| 0 <= i < self.entries.len() && #[trigger] self.entries[i].key == key
    }

    /// The queue after a resolution outcome for `key` lands: the carrying
    /// entry's track absorbs the outcome; a key no longer queued changes
    /// nothing.
    pub open spec fn resolve(self, key: u64, outcome: Option<MetadataModel>) -> QueueModel {
        if self.has_key(key) {
            QueueModel {
                entries: self.entries.update(
                    self.key_index(key),
                    EntryModel {
                        key,
                        track: resolve_track(self.entries[self.key_index(key)].track, outcome),
                    },
                ),
                next_key: self.next_key,
            }
        } else {
            self
        }
    }
}

impl TrackQueue {
    /// An empty queue.
    pub fn new() -> (q: Self)
        ensures
            q@.entries == Seq::<EntryModel>::empty(),
            q@.next_key == 0,
            q@.wf(),
    {
        TrackQueue { entries: Vec::new(), next_key: 0 }
    }

    /// Appends a track at the tail and returns its position and key.  The
    /// first entry of an empty queue lands at position 0, the head; every
    /// later entry lands behind all existing ones, which keep their order.
    pub fn enqueue(&mut self, track: TrackDescriptor) -> (r: (usize, u64))
        requires
            old(self)@.wf(),
            old(self)@.next_key < u64::MAX,
        ensures
            final(self)@.wf(),
            final(self)@.entries == old(self)@.entries.push(
                EntryModel { key: old(self)@.next_key, track: track@ },
            ),
            final(self)@.next_key == old(self)@.next_key + 1,
            r.0 == old(self)@.entries.len(),
            r.1 == old(self)@.next_key,
            old(self)@.entries.len() == 0 ==> r.0 == 0,
            final(self)@.entries.len() == old(self)@.entries.len() + 1,
            forall|i: int|
                0 <= i < old(self)@.entries.len() ==> final(self)@.entries[i] == old(
                    self,
                )@.entries[i],
    {
        let position = self.entries.len();
        let key = self.next_key;
        self.entries.push(TrackEntry { key, track });
        self.next_key = self.next_key + 1;
        proof {
            assert(self@.entries =~= old(self)@.entries.push(
                EntryModel { key: old(self)@.next_key, track: track@ },
            ));
        }
        (position, key)
    }

    /// Removes the head and promotes the next entry.
    pub fn dequeue(&mut self)
        requires
            old(self)@.wf(),
            old(self)@.entries.len() > 0,
        ensures
            final(self)@.wf(),
            final(self)@.entries == old(self)@.entries.drop_first(),
            final(self)@.next_key == old(self)@.next_key,
    {
        self.entries.remove(0);
        proof {
            assert(self@.entries =~= old(self)@.entries.drop_first());
        }
    }

    /// Drops every entry; the key counter keeps running so keys stay fresh.
    pub fn clear(&mut self)
        ensures
            final(self)@.wf(),
            final(self)@.entries == Seq::<EntryModel>::empty(),
            final(self)@.next_key == old(self)@.next_key,
    {
        self.entries.clear();
        proof {
            assert(self@.entries =~= Seq::<EntryModel>::empty());
        }
    }

    /// Writes a resolution outcome into the entry enqueued under `key`, if it
    /// is still queued; an outcome for an entry that is gone is discarded.
    /// Returns whether the entry was found.
    pub fn apply_resolution(&mut self, key: u64, outcome: Option<ResolvedMetadata>) -> (found:
        bool)
        requires
            old(self)@.wf(),
        ensures
            final(self)@.wf(),
            final(self)@.next_key == old(self)@.next_key,
            found == old(self)@.has_key(key),
            !found ==> final(self)@.entries == old(self)@.entries,
            found ==> final(self)@.entries == old(self)@.entries.update(
                old(self)@.key_index(key),
                EntryModel {
                    key,
                    track: resolve_track(
                        old(self)@.entries[old(self)@.key_index(key)].track,
                        outcome_model(outcome),
                    ),
                },
            ),
    {
        let n = self.entries.len();
        let mut idx: usize = 0;
        let mut hit: Option<usize> = None;
        while idx < n
            invariant
                n == self.entries.len(),
                idx <= n,
                hit is None ==> forall|j: int| 0 <= j < idx ==> #[trigger] self@.entries[j].key
                    != key,
                hit matches Some(h) ==> h < n && self@.entries[h as int].key == key,
            decreases n - idx,
        {
            if self.entries[idx].key == key {
                hit = Some(idx);
            }
            idx += 1;
        }
        match hit {
            Some(i) => {
                let mut e = self.entries.remove(i);
                e.track.apply_resolution(outcome);
                self.entries.insert(i, e);
                proof {
                    assert(old(self)@.has_key(key));
                    let k = old(self)@.key_index(key);
                    assert(old(self)@.entries[k].key == key);
                    assert(k == i as int);
                    assert(self@.entries =~= old(self)@.entries.update(
                        k,
                        EntryModel {
                            key,
                            track: resolve_track(
                                old(self)@.entries[k].track,
                                outcome_model(outcome),
                            ),
                        },
                    ));
                }
                true
            },
            None => {
                proof {
                    assert(!old(self)@.has_key(key));
                }
                false
            },
        }
    }

    /// Number of queued entries (the head included).
    pub fn len(&self) -> (n: usize)
        ensures
            n == self@.entries.len(),
    {
        self.entries.len()
    }

    /// Whether nothing is queued.
    pub fn is_empty(&self) -> (b: bool)
        ensures
            b == (self@.entries.len() == 0),
    {
        self.entries.len() == 0
    }

    /// The key the next enqueued entry will get.
    pub fn next_key_value(&self) -> (k: u64)
        ensures
            k == self@.next_key,
    {
        self.next_key
    }

    /// The entry at `position` (0 is the head).
    pub fn get(&self, position: usize) -> (e: &TrackEntry)
        requires
            position < self@.entries.len(),
        ensures
            e@ == self@.entries[position as int],
    {
        &self.entries[position]
    }
}

} // verus!
