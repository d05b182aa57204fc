//! The rate at which a chain builds its blocks.

use vstd::prelude::*;
use core::time::Duration;

verus! {

/// How often blocks are built and how long building one may take.
#[derive(Debug)]
pub struct BlockRate {
    /// Time between individual blocks.
    pub block_time: BlockTime,
    /// Maximum time to spend building per block.
    pub block_building_time: Duration,
}

/// When blocks are to be expected.
#[derive(Debug)]
pub enum BlockTime {
    /// Blocks are expected every X.
    Regularly {
        /// Time between blocks.
        every: Duration,
    },
    /// Blocks are coming at unexpected times.
    Irregular,
}

impl BlockTime {
    /// The time between blocks where blocks come regularly, and `None`
    /// where they do not.
    pub fn as_regular(&self) -> (every: Option<Duration>)
        ensures
            every == match *self {
                BlockTime::Regularly { every } => Some(every),
                BlockTime::Irregular => None,
            },
    {
        match self {
            Self::Regularly { every } => Some(*every),
            Self::Irregular => None,
        }
    }
}

} // verus!
