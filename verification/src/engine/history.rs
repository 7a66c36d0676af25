//! The latest accelerometer readings of a wand.
//!
//! The readings are kept in a ring buffer of the `heapless` crate. Verus
//! does not look into the buffer: what is said of it below is taken from
//! the source of the crate and believed without proof.

use heapless::HistoryBuf;
use vstd::prelude::*;

use crate::controller::Vector3;

verus! {

/// Number of readings that are kept.
pub const DEPTH: usize = 4;

/// The latest readings of a wand, as many as [`DEPTH`] at most.
///
/// Holds a `heapless::HistoryBuf` of four readings.
#[verifier::external_body]
pub struct History {
    items: HistoryBuf<Vector3, 4>,
}

/// The readings that a history holds, the oldest first.
pub uninterp spec fn readings(history: History) -> Seq<Vector3>;

/// What a history holds after one more reading: the reading comes last,
/// and the oldest one goes if the history was full.
pub open spec fn written(before: Seq<Vector3>, reading: Vector3) -> Seq<Vector3> {
    if before.len() < DEPTH {
        before.push(reading)
    } else {
        before.drop_first().push(reading)
    }
}

impl History {
    /// `HistoryBuf::new_with`: a buffer in which every place holds the
    /// given reading, so that it is full from the start.
    #[verifier::external_body]
    pub(crate) fn new_with(reading: Vector3) -> (history: History)
        ensures
            readings(history) == Seq::new(DEPTH as nat, |i: int| reading),
    {
        History { items: HistoryBuf::new_with(reading) }
    }

    /// `HistoryBuf::write`: the reading is written behind the latest one;
    /// in a full buffer it takes the place of the oldest.
    #[verifier::external_body]
    pub(crate) fn write(&mut self, reading: Vector3)
        ensures
            readings(*final(self)) == written(readings(*old(self)), reading),
    {
        self.items.write(reading)
    }

    /// `HistoryBuf::recent`: the reading that was written last, if the
    /// buffer holds any.
    #[verifier::external_body]
    pub(crate) fn recent(&self) -> (reading: Option<Vector3>)
        ensures
            reading == if readings(*self).len() == 0 {
                None
            } else {
                Some(readings(*self).last())
            },
    {
        self.items.recent().copied()
    }

    /// `HistoryBuf::oldest_ordered`: the readings that the buffer holds,
    /// from the oldest to the latest.
    #[verifier::external_body]
    pub(crate) fn oldest_ordered(&self) -> (all: Vec<Vector3>)
        ensures
            all@ == readings(*self),
    {
        self.items.oldest_ordered().copied().collect()
    }
}

} // verus!
