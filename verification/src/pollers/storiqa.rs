use super::{
    spec_step, step, walk_of_tick, PollerAction, PollerEvent, PollerState, WalkRequest,
    WalkRequestView,
};
use crate::models::currency::Currency;
use vstd::prelude::*;

verus! {

/// The poller of operations of the token.
#[derive(Debug, Clone, Copy)]
pub struct StoriqaPollerService {
    interval_secs: u64,
    number_of_tracked_confirmations: usize,
}

impl StoriqaPollerService {
    /// The seconds between two ticks.
    pub closed spec fn interval(self) -> u64 {
        self.interval_secs
    }

    /// The number of recent blocks that every tick sends again.
    pub closed spec fn window(self) -> usize {
        self.number_of_tracked_confirmations
    }

    pub fn new(interval_secs: u64, number_of_tracked_confirmations: usize) -> (r: Self)
        ensures
            r.interval() == interval_secs,
            r.window() == number_of_tracked_confirmations,
    {
        StoriqaPollerService { interval_secs, number_of_tracked_confirmations }
    }

    /// The period of the timer that the program installs. Ticks do not
    /// wait for each other: a tick whose run still goes on when the next
    /// one fires runs beside it.
    pub fn start(&self) -> (r: u64)
        ensures
            r == self.interval(),
    {
        self.interval_secs
    }

    /// The run that a tick starts: over the tracked blocks, from the
    /// newest block.
    pub fn tick(&self) -> (r: (PollerState, WalkRequest))
        ensures
            r.0 == PollerState::Walking,
            r.1@ == (WalkRequestView {
                currency: Currency::Stq,
                start_block_hash: None,
                blocks_count: self.window() as u64,
            }),
    {
        (PollerState::Walking, walk_of_tick(Currency::Stq, self.number_of_tracked_confirmations))
    }

    /// Starts a run over `blocks_count` blocks back from
    /// `start_block_hash`, or from the newest block: the walk to ask of the
    /// client, and the state in which the run takes its events.
    pub fn publish_transactions(
        &self,
        start_block_hash: Option<String>,
        blocks_count: u64,
    ) -> (r: (PollerState, WalkRequest))
        ensures
            r.0 == PollerState::Walking,
            r.1.currency == Currency::Stq,
            r.1.start_block_hash == start_block_hash,
            r.1.blocks_count == blocks_count,
    {
        (
            PollerState::Walking,
            WalkRequest { currency: Currency::Stq, start_block_hash, blocks_count },
        )
    }

    /// Takes one event of a run.
    pub fn on_event(&self, state: PollerState, event: PollerEvent) -> (r: (
        PollerState,
        PollerAction,
    ))
        ensures
            r.0 == spec_step(state, event@).0,
            r.1@ == spec_step(state, event@).1,
    {
        step(state, event)
    }
}

} // verus!
