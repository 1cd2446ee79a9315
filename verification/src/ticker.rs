//! The tick counter of the machine engine.
use vstd::prelude::*;
use crate::block_storage::BlockStorageEngine;

verus! {

/// The outcome of a tick. It carries the blocks still waiting, so the caller knows
/// the engine does not process them yet rather than receiving a bare number that
/// looks like success.
#[derive(Debug, Clone, Copy, PartialEq, Eq)]
pub struct TickReport {
    pub tick: u64,
    pub pending_blocks: usize,
}

/// What a counter reads after one more step: it wraps around past `u64::MAX`.
pub open spec fn counter_after(c: u64) -> u64 {
    if c == u64::MAX {
        0
    } else {
        (c + 1) as u64
    }
}

pub struct TickerEngine {
    tick_count: u64,
}

impl View for TickerEngine {
    type V = u64;

    /// The number of ticks so far.
    closed spec fn view(&self) -> u64 {
        self.tick_count
    }
}

impl TickerEngine {
    pub fn new() -> (t: Self)
        ensures
            t@ == 0,
    {
        Self { tick_count: 0 }
    }

    /// Advances the tick counter and reports how many blocks a tick would have to
    /// process.
    ///
    /// It does not run any machine logic yet: there is no behaviour model of the
    /// machines, so the blocks are only counted.
    pub fn tick_all_machines(&mut self, storage: &BlockStorageEngine) -> (report: TickReport)
        ensures
            report.tick == old(self)@,
            final(self)@ == counter_after(old(self)@),
            report.pending_blocks as nat == storage@.blocks.len(),
    {
        let tick = self.tick_count;
        self.tick_count = self.tick_count.wrapping_add(1);
        TickReport { tick, pending_blocks: storage.count() }
    }

    pub fn current_tick(&self) -> (t: u64)
        ensures
            t == self@,
    {
        self.tick_count
    }
}

} // verus!
