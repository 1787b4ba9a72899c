//! The pollers: on every tick each sends the transactions of the last
//! blocks again, so that consumers see their confirmations grow.
//!
//! A poller decides; the program keeps the timer, drives the client and
//! hands each transaction to the publisher.
pub mod bitcoin;
pub mod error;
pub mod ethereum;
pub mod storiqa;

pub use self::bitcoin::BitcoinPollerService;
pub use self::error::{Error, ErrorContext, ErrorKind, ErrorSource};
pub use self::ethereum::EthereumPollerService;
pub use self::storiqa::StoriqaPollerService;

use crate::models::currency::Currency;
use crate::models::transaction::{BlockchainTransaction, TransactionView};
use vstd::prelude::*;

verus! {

/// The walk that a poller asks of its client: over `blocks_count` blocks
/// back from the block `start_block_hash`, or from the newest block where
/// none is named, for the transactions of `currency`.
#[derive(Debug, Clone, PartialEq, Eq)]
pub struct WalkRequest {
    pub currency: Currency,
    pub start_block_hash: Option<String>,
    pub blocks_count: u64,
}

/// What a [`WalkRequest`] holds.
pub struct WalkRequestView {
    pub currency: Currency,
    pub start_block_hash: Option<Seq<char>>,
    pub blocks_count: u64,
}

impl View for WalkRequest {
    type V = WalkRequestView;

    open spec fn view(&self) -> WalkRequestView {
        WalkRequestView {
            currency: self.currency,
            start_block_hash: match self.start_block_hash {
                Some(h) => Some(h@),
                None => None,
            },
            blocks_count: self.blocks_count,
        }
    }
}

/// Where the run of one walk stands.
#[derive(Copy, Clone, Eq, PartialEq, Structural, Debug)]
pub enum PollerState {
    /// The walk yields records, and each is published.
    Walking,
    /// The walk is over; nothing more is published.
    Ended,
}

/// What happens to a run.
#[derive(Debug, Clone, PartialEq, Eq)]
pub enum PollerEvent {
    /// The walk yielded a record.
    Record(BlockchainTransaction),
    /// The publisher took the batch it was handed.
    Published,
    /// The publisher failed on the batch it was handed.
    PublishFailed,
    /// The client failed: the walk yields nothing more.
    ClientFailed,
    /// The walk came to its end.
    WalkEnded,
}

/// What a [`PollerEvent`] holds.
pub enum PollerEventView {
    Record(TransactionView),
    Published,
    PublishFailed,
    ClientFailed,
    WalkEnded,
}

impl View for PollerEvent {
    type V = PollerEventView;

    open spec fn view(&self) -> PollerEventView {
        match self {
            PollerEvent::Record(tx) => PollerEventView::Record(tx@),
            PollerEvent::Published => PollerEventView::Published,
            PollerEvent::PublishFailed => PollerEventView::PublishFailed,
            PollerEvent::ClientFailed => PollerEventView::ClientFailed,
            PollerEvent::WalkEnded => PollerEventView::WalkEnded,
        }
    }
}

/// What the program does after an event.
#[derive(Debug, Clone, PartialEq, Eq)]
pub enum PollerAction {
    /// Hand this batch to the publisher.
    Publish(Vec<BlockchainTransaction>),
    /// Log the error and drop it; the run goes on with the next record.
    LogAndDrop(Error),
    /// Log the error; the run is over, and the next tick starts a new one.
    LogAndStop(Error),
    /// Nothing.
    Nothing,
}

/// What a [`PollerAction`] holds.
pub enum PollerActionView {
    Publish(Seq<TransactionView>),
    LogAndDrop(Error),
    LogAndStop(Error),
    Nothing,
}

impl View for PollerAction {
    type V = PollerActionView;

    open spec fn view(&self) -> PollerActionView {
        match self {
            PollerAction::Publish(batch) => PollerActionView::Publish(batch.deep_view()),
            PollerAction::LogAndDrop(e) => PollerActionView::LogAndDrop(*e),
            PollerAction::LogAndStop(e) => PollerActionView::LogAndStop(*e),
            PollerAction::Nothing => PollerActionView::Nothing,
        }
    }
}

/// The error of a poller for a failure of the given component.
pub open spec fn failure_of(source: ErrorSource) -> Error {
    Error { kind: ErrorKind::Internal, context: None, source: Some(source) }
}

/// One step of a run.
///
/// While the walk goes on, every record is handed to the publisher alone;
/// a failed publish is logged and dropped, and the run goes on. A failure
/// of the client, or the end of the walk, ends the run. A run that is over
/// does nothing more.
pub open spec fn spec_step(state: PollerState, event: PollerEventView) -> (
    PollerState,
    PollerActionView,
) {
    match state {
        PollerState::Ended => (PollerState::Ended, PollerActionView::Nothing),
        PollerState::Walking => match event {
            PollerEventView::Record(tx) => (PollerState::Walking, PollerActionView::Publish(seq![tx])),
            PollerEventView::Published => (PollerState::Walking, PollerActionView::Nothing),
            PollerEventView::PublishFailed => (
                PollerState::Walking,
                PollerActionView::LogAndDrop(failure_of(ErrorSource::Publisher)),
            ),
            PollerEventView::ClientFailed => (
                PollerState::Ended,
                PollerActionView::LogAndStop(failure_of(ErrorSource::Client)),
            ),
            PollerEventView::WalkEnded => (PollerState::Ended, PollerActionView::Nothing),
        },
    }
}

/// The state of a run after some events.
pub open spec fn state_after(state: PollerState, events: Seq<PollerEventView>) -> PollerState
    decreases events.len(),
{
    if events.len() == 0 {
        state
    } else {
        spec_step(state_after(state, events.drop_last()), events.last()).0
    }
}

/// The batches that a run hands to the publisher over some events, in
/// their order.
pub open spec fn published(state: PollerState, events: Seq<PollerEventView>) -> Seq<
    Seq<TransactionView>,
>
    decreases events.len(),
{
    if events.len() == 0 {
        Seq::empty()
    } else {
        let before = published(state, events.drop_last());
        match spec_step(state_after(state, events.drop_last()), events.last()).1 {
            PollerActionView::Publish(batch) => before.push(batch),
            _ => before,
        }
    }
}

/// The records among some events, in their order.
pub open spec fn records(events: Seq<PollerEventView>) -> Seq<TransactionView>
    decreases events.len(),
{
    if events.len() == 0 {
        Seq::empty()
    } else {
        match events.last() {
            PollerEventView::Record(tx) => records(events.drop_last()).push(tx),
            _ => records(events.drop_last()),
        }
    }
}

/// Whether the walk goes on through all of the events: none of them is a
/// failure of the client or the end of the walk.
pub open spec fn walk_goes_on(events: Seq<PollerEventView>) -> bool {
    forall|i: int|
        0 <= i < events.len() ==> !(#[trigger] events[i] is ClientFailed) && !(events[i]
            is WalkEnded)
}

/// The walk of a tick: over the last `window` blocks, from the newest.
pub(crate) fn walk_of_tick(currency: Currency, window: usize) -> (r: WalkRequest)
    ensures
        r@ == (WalkRequestView { currency, start_block_hash: None, blocks_count: window as u64 }),
{
    WalkRequest { currency, start_block_hash: None, blocks_count: window as u64 }
}

/// Takes one step of a run: the state after the event, and what the
/// program does now.
pub fn step(state: PollerState, event: PollerEvent) -> (r: (PollerState, PollerAction))
    ensures
        r.0 == spec_step(state, event@).0,
        r.1@ == spec_step(state, event@).1,
{
    match state {
        PollerState::Ended => (PollerState::Ended, PollerAction::Nothing),
        PollerState::Walking => match event {
            PollerEvent::Record(tx) => {
                let mut batch: Vec<BlockchainTransaction> = Vec::new();
                batch.push(tx);
                assert(batch.deep_view() =~= seq![tx@]);
                (PollerState::Walking, PollerAction::Publish(batch))
            },
            PollerEvent::Published => (PollerState::Walking, PollerAction::Nothing),
            PollerEvent::PublishFailed => (
                PollerState::Walking,
                PollerAction::LogAndDrop(
                    Error {
                        kind: ErrorKind::Internal,
                        context: None,
                        source: Some(ErrorSource::Publisher),
                    },
                ),
            ),
            PollerEvent::ClientFailed => (
                PollerState::Ended,
                PollerAction::LogAndStop(
                    Error {
                        kind: ErrorKind::Internal,
                        context: None,
                        source: Some(ErrorSource::Client),
                    },
                ),
            ),
            PollerEvent::WalkEnded => (PollerState::Ended, PollerAction::Nothing),
        },
    }
}

/// While the walk goes on, a run publishes every record, each alone and in
/// the order of the walk, whatever the publisher answers: a failed publish
/// never ends the run and never keeps a later record back.
pub proof fn law_every_record_is_published(events: Seq<PollerEventView>)
    requires
        walk_goes_on(events),
    ensures
        state_after(PollerState::Walking, events) == PollerState::Walking,
        published(PollerState::Walking, events).len() == records(events).len(),
        forall|i: int|
            0 <= i < records(events).len() ==> #[trigger] published(PollerState::Walking, events)[i]
                == seq![records(events)[i]],
    decreases events.len(),
{
    if events.len() > 0 {
        let before = events.drop_last();
        assert forall|i: int| 0 <= i < before.len() implies !(#[trigger] before[i]
            is ClientFailed) && !(before[i] is WalkEnded) by {
            assert(before[i] == events[i]);
        }
        law_every_record_is_published(before);
        assert(!(events[events.len() - 1] is ClientFailed));
    }
}

/// Once a run is over it publishes nothing more, whatever happens.
pub proof fn law_ended_run_is_silent(events: Seq<PollerEventView>)
    ensures
        state_after(PollerState::Ended, events) == PollerState::Ended,
        published(PollerState::Ended, events).len() == 0,
    decreases events.len(),
{
    if events.len() > 0 {
        law_ended_run_is_silent(events.drop_last());
    }
}

} // verus!
