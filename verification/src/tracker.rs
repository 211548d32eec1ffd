//! Bookkeeping for draws by repetition: how often each position of the
//! current line has been seen, by hash.

use std::collections::HashMap;
use vstd::prelude::*;

verus! {

broadcast use vstd::std_specs::hash::group_hash_axioms;

/// How often a position must have occurred for the line to be a draw.
pub const REPETITION_LIMIT: i32 = 3;

/// Whether some position has been seen often enough for a draw.
pub open spec fn has_repetition(counts: Map<u64, i32>) -> bool {
    exists|hash: u64| counts.contains_key(hash) && #[trigger] counts[hash] >= REPETITION_LIMIT
}

/// The count that follows `count`. It stops at the largest `i32`.
pub open spec fn next_count(count: i32) -> i32 {
    if count < i32::MAX {
        (count + 1) as i32
    } else {
        count
    }
}

/// The counts after one more visit of `hash`: one where it was not seen
/// before, else the count that follows the one it had.
pub open spec fn bumped(counts: Map<u64, i32>, hash: u64) -> Map<u64, i32> {
    counts.insert(
        hash,
        if counts.contains_key(hash) {
            next_count(counts[hash])
        } else {
            1
        },
    )
}

/// Visit counts of the positions of one line, by hash.
#[derive(Debug)]
pub struct DrawTracker {
    counts: HashMap<u64, i32>,
    repeated: bool,
}

impl View for DrawTracker {
    type V = Map<u64, i32>;

    closed spec fn view(&self) -> Map<u64, i32> {
        self.counts@
    }
}

impl Clone for DrawTracker {
    fn clone(&self) -> (r: DrawTracker)
        ensures
            r@ == self@,
    {
        proof {
            use_type_invariant(self);
        }
        DrawTracker { counts: self.counts.clone(), repeated: self.repeated }
    }
}

impl DrawTracker {
    #[verifier::type_invariant]
    spec fn consistent(self) -> bool {
        self.repeated == has_repetition(self.counts@)
    }

    /// A tracker that has seen nothing.
    pub fn new() -> (r: DrawTracker)
        ensures
            r@ == Map::<u64, i32>::empty(),
    {
        DrawTracker { counts: HashMap::new(), repeated: false }
    }

    /// How often `hash` has been seen.
    pub fn count(&self, hash: u64) -> (r: i32)
        ensures
            r == if self@.contains_key(hash) {
                self@[hash]
            } else {
                0
            },
    {
        match self.counts.get(&hash) {
            Some(count) => *count,
            None => 0,
        }
    }

    /// A new tracker with one more visit of `hash`. The tracker it was made
    /// from is left as it was, so that sibling lines do not see each other's
    /// visits.
    pub fn with_move_applied(&self, hash: u64) -> (r: DrawTracker)
        ensures
            r@ == bumped(self@, hash),
    {
        proof {
            use_type_invariant(self);
        }
        let mut counts = self.counts.clone();
        let count = match counts.get(&hash) {
            Some(seen) => if *seen < i32::MAX {
                *seen + 1
            } else {
                *seen
            },
            None => 1,
        };
        counts.insert(hash, count);
        let repeated = self.repeated || count >= REPETITION_LIMIT;
        proof {
            let before = self.counts@;
            let after = counts@;
            assert(after == bumped(before, hash));
            if has_repetition(after) {
                let h = choose|h: u64| after.contains_key(h) && #[trigger] after[h] >= REPETITION_LIMIT;
                if h != hash {
                    assert(before.contains_key(h) && before[h] >= REPETITION_LIMIT);
                }
            }
            if has_repetition(before) {
                let h = choose|h: u64| before.contains_key(h) && #[trigger] before[h] >= REPETITION_LIMIT;
                assert(after.contains_key(h) && after[h] >= REPETITION_LIMIT);
            }
            if count >= REPETITION_LIMIT {
                assert(after.contains_key(hash) && after[hash] >= REPETITION_LIMIT);
            }
        }
        DrawTracker { counts, repeated }
    }

    /// Whether some position of the line has been seen three times or more.
    pub fn is_repetition(&self) -> (r: bool)
        ensures
            r == has_repetition(self@),
    {
        proof {
            use_type_invariant(self);
        }
        self.repeated
    }
}

} // verus!
