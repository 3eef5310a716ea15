//! When progress is written down: at every hundredth height.

use vstd::prelude::*;

verus! {

/// The distance between two checkpoints.
pub const CHECKPOINT_INTERVAL: i64 = 100;

/// The checkpoint to write when a block of this height is processed: the
/// height itself at a multiple of the interval, else none.
pub open spec fn checkpoint_at(height: int) -> Option<int> {
    if height % (CHECKPOINT_INTERVAL as int) == 0 {
        Some(height)
    } else {
        None
    }
}

/// The checkpoint to write before the block of this height is processed, if
/// any.
pub fn checkpoint_due(height: i64) -> (due: Option<i64>)
    ensures
        due.is_some() == checkpoint_at(height as int).is_some(),
        due matches Some(value) ==> checkpoint_at(height as int) == Some(value as int),
{
    if height % CHECKPOINT_INTERVAL == 0 {
        Some(height)
    } else {
        None
    }
}

/// The checkpoints written while blocks of these heights are processed, in
/// the order in which they are written.
pub open spec fn checkpoints_written(heights: Seq<int>) -> Seq<int>
    decreases heights.len(),
{
    if heights.len() == 0 {
        Seq::empty()
    } else {
        let before = checkpoints_written(heights.drop_last());
        match checkpoint_at(heights.last()) {
            Some(value) => before.push(value),
            None => before,
        }
    }
}

/// No height lies a whole interval or more below a height that came before
/// it. Heights in ascending order are so, and so are heights that repeat a
/// batch after a failed push.
pub open spec fn never_back_an_interval(heights: Seq<int>) -> bool {
    forall|i: int, j: int|
        0 <= i < j < heights.len() ==> heights[i] - CHECKPOINT_INTERVAL < heights[j]
}

/// Every checkpoint written is a multiple of the interval and the height of
/// one of the blocks.
pub proof fn checkpoints_are_multiples(heights: Seq<int>)
    ensures
        forall|k: int|
            0 <= k < checkpoints_written(heights).len() ==> {
                &&& (#[trigger] checkpoints_written(heights)[k]) % (CHECKPOINT_INTERVAL as int) == 0
                &&& exists|i: int|
                    0 <= i < heights.len() && heights[i] == checkpoints_written(heights)[k]
            },
    decreases heights.len(),
{
    if heights.len() > 0 {
        let shorter = heights.drop_last();
        checkpoints_are_multiples(shorter);
        let written = checkpoints_written(heights);
        assert forall|k: int| 0 <= k < written.len() implies {
            &&& (#[trigger] written[k]) % (CHECKPOINT_INTERVAL as int) == 0
            &&& exists|i: int| 0 <= i < heights.len() && heights[i] == written[k]
        } by {
            if k < checkpoints_written(shorter).len() {
                assert(written[k] == checkpoints_written(shorter)[k]);
                let i = choose|i: int|
                    0 <= i < shorter.len() && shorter[i] == checkpoints_written(shorter)[k];
                assert(heights[i] == written[k]);
            } else {
                assert(heights[heights.len() - 1] == written[k]);
            }
        }
    }
}

/// The checkpoints written never decrease, as long as no height lies a whole
/// interval or more below one that came before it.
pub proof fn checkpoints_never_decrease(heights: Seq<int>)
    requires
        never_back_an_interval(heights),
    ensures
        forall|a: int, b: int|
            0 <= a <= b < checkpoints_written(heights).len() ==> checkpoints_written(heights)[a]
                <= checkpoints_written(heights)[b],
    decreases heights.len(),
{
    if heights.len() > 0 {
        let shorter = heights.drop_last();
        assert(never_back_an_interval(shorter)) by {
            assert forall|i: int, j: int| 0 <= i < j < shorter.len() implies shorter[i]
                - CHECKPOINT_INTERVAL < shorter[j] by {
                assert(heights[i] - CHECKPOINT_INTERVAL < heights[j]);
            }
        }
        checkpoints_never_decrease(shorter);
        checkpoints_are_multiples(shorter);
        let earlier = checkpoints_written(shorter);
        let written = checkpoints_written(heights);
        let last = heights.last();
        assert forall|a: int, b: int| 0 <= a <= b < written.len() implies written[a]
            <= written[b] by {
            if b < earlier.len() {
                assert(written[a] == earlier[a] && written[b] == earlier[b]);
            } else if a < earlier.len() {
                assert(written[b] == last);
                assert(last % (CHECKPOINT_INTERVAL as int) == 0);
                assert(earlier[a] % (CHECKPOINT_INTERVAL as int) == 0);
                let i = choose|i: int| 0 <= i < shorter.len() && shorter[i] == earlier[a];
                assert(heights[i] - CHECKPOINT_INTERVAL < heights[heights.len() - 1]);
            }
        }
    }
}

} // verus!
