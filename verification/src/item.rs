//! The life of one listed object, from discovery to its summary.

use crate::zeros::{zero_count, ZeroTally};
use vstd::prelude::*;

verus! {

/// Where one listed object stands.
#[derive(Clone, Copy, Debug, PartialEq, Eq, Structural)]
pub enum ItemState {
    /// The listing produced the object.
    Discovered,
    /// A read of the object is being opened.
    Fetching,
    /// The body is arriving chunk by chunk.
    Streaming,
    /// The whole body was consumed and summarised.
    Summarized,
    /// The object could not be listed, opened or read to its end.
    Failed,
}

/// What can happen to one listed object.
#[derive(Clone, Copy, Debug, PartialEq, Eq, Structural)]
pub enum ItemEvent {
    /// The read was requested.
    FetchStarted,
    /// The read was opened and the body begins to arrive.
    StreamOpened,
    /// One more chunk of the body arrived.
    ChunkArrived,
    /// The body ended.
    StreamEnded,
    /// Listing, opening or reading failed.
    ErrorRaised,
}

/// Why one object has no summary. A failure stays in the slot of its object
/// and touches no other.
#[derive(Clone, Copy, Debug, PartialEq, Eq, Structural)]
pub enum ItemError {
    /// The listing failed at this entry.
    Listing,
    /// No object exists at the location.
    NotFound,
    /// The read could not be opened.
    Open,
    /// The read failed after it was opened.
    Stream,
    /// The summary does not fit in a machine word.
    Overflow,
}

/// A state that no event leaves.
pub open spec fn is_terminal(state: ItemState) -> bool {
    state == ItemState::Summarized || state == ItemState::Failed
}

/// The state after `event`, or `None` where the event cannot occur in
/// `state`. An error ends any state that is not yet terminal.
pub open spec fn next_state(state: ItemState, event: ItemEvent) -> Option<ItemState> {
    match (state, event) {
        (ItemState::Discovered, ItemEvent::FetchStarted) => Some(ItemState::Fetching),
        (ItemState::Fetching, ItemEvent::StreamOpened) => Some(ItemState::Streaming),
        (ItemState::Streaming, ItemEvent::ChunkArrived) => Some(ItemState::Streaming),
        (ItemState::Streaming, ItemEvent::StreamEnded) => Some(ItemState::Summarized),
        (ItemState::Discovered, ItemEvent::ErrorRaised) => Some(ItemState::Failed),
        (ItemState::Fetching, ItemEvent::ErrorRaised) => Some(ItemState::Failed),
        (ItemState::Streaming, ItemEvent::ErrorRaised) => Some(ItemState::Failed),
        _ => None,
    }
}

impl ItemState {
    /// Whether the object has reached its end, with or without a summary.
    pub fn terminal(&self) -> (b: bool)
        ensures
            b == is_terminal(*self),
    {
        match self {
            ItemState::Summarized => true,
            ItemState::Failed => true,
            _ => false,
        }
    }

    /// Applies one event.
    pub fn advance(&self, event: ItemEvent) -> (r: Option<ItemState>)
        ensures
            r == next_state(*self, event),
    {
        match (*self, event) {
            (ItemState::Discovered, ItemEvent::FetchStarted) => Some(ItemState::Fetching),
            (ItemState::Fetching, ItemEvent::StreamOpened) => Some(ItemState::Streaming),
            (ItemState::Streaming, ItemEvent::ChunkArrived) => Some(ItemState::Streaming),
            (ItemState::Streaming, ItemEvent::StreamEnded) => Some(ItemState::Summarized),
            (ItemState::Discovered, ItemEvent::ErrorRaised) => Some(ItemState::Failed),
            (ItemState::Fetching, ItemEvent::ErrorRaised) => Some(ItemState::Failed),
            (ItemState::Streaming, ItemEvent::ErrorRaised) => Some(ItemState::Failed),
            _ => None,
        }
    }
}

/// No event leaves a terminal state, and every other state can still fail.
pub proof fn lemma_terminal_states_stay(state: ItemState, event: ItemEvent)
    ensures
        is_terminal(state) ==> next_state(state, event) is None,
        !is_terminal(state) ==> next_state(state, ItemEvent::ErrorRaised) == Some(
            ItemState::Failed,
        ),
{
}

/// One listed object on its way to a summary: its state and the zero bytes
/// counted so far.
pub struct ItemProgress {
    state: ItemState,
    tally: ZeroTally,
}

impl ItemProgress {
    /// Where the object stands.
    pub closed spec fn state(&self) -> ItemState {
        self.state
    }

    /// The bytes of the body consumed so far, in arrival order.
    pub closed spec fn consumed(&self) -> Seq<u8> {
        self.tally.consumed()
    }

    /// The count kept agrees with the bytes consumed, and no byte is consumed
    /// before the body streams.
    pub closed spec fn wf(&self) -> bool {
        &&& self.tally.wf()
        &&& (self.state == ItemState::Discovered || self.state == ItemState::Fetching)
            ==> self.tally.consumed() == Seq::<u8>::empty()
    }

    /// A freshly listed object.
    pub fn new() -> (p: Self)
        ensures
            p.wf(),
            p.state() == ItemState::Discovered,
            p.consumed() == Seq::<u8>::empty(),
    {
        ItemProgress { state: ItemState::Discovered, tally: ZeroTally::new() }
    }

    /// The current state.
    pub fn current(&self) -> (s: ItemState)
        ensures
            s == self.state(),
    {
        self.state
    }

    /// Applies an event that carries no bytes. Returns `false`, changing
    /// nothing, exactly when the event cannot occur in the current state or
    /// is the arrival of a chunk, which `absorb` handles.
    pub fn apply(&mut self, event: ItemEvent) -> (accepted: bool)
        requires
            old(self).wf(),
        ensures
            final(self).wf(),
            final(self).consumed() == old(self).consumed(),
            accepted == (event != ItemEvent::ChunkArrived && next_state(old(self).state(), event)
                is Some),
            accepted ==> Some(final(self).state()) == next_state(old(self).state(), event),
            !accepted ==> final(self).state() == old(self).state(),
    {
        match event {
            ItemEvent::ChunkArrived => false,
            _ => match self.state.advance(event) {
                Some(next) => {
                    self.state = next;
                    true
                },
                None => false,
            },
        }
    }

    /// Consumes one chunk of the body. Chunks are accepted only while the
    /// body streams. A chunk that would take the count beyond a machine word
    /// fails the object.
    pub fn absorb(&mut self, chunk: &[u8]) -> (accepted: bool)
        requires
            old(self).wf(),
        ensures
            final(self).wf(),
            accepted == (old(self).state() == ItemState::Streaming && zero_count(
                old(self).consumed() + chunk@,
            ) <= usize::MAX),
            accepted ==> final(self).state() == ItemState::Streaming && final(self).consumed()
                == old(self).consumed() + chunk@,
            !accepted ==> final(self).consumed() == old(self).consumed(),
            !accepted && old(self).state() == ItemState::Streaming ==> final(self).state()
                == ItemState::Failed,
            old(self).state() != ItemState::Streaming ==> final(self).state() == old(
                self,
            ).state(),
    {
        match self.state {
            ItemState::Streaming => {
                let ok = self.tally.absorb(chunk);
                if !ok {
                    self.state = ItemState::Failed;
                }
                ok
            },
            _ => false,
        }
    }

    /// The summary of the object: the number of zero bytes in its whole body,
    /// available exactly when the object is summarised.
    pub fn summary(&self) -> (r: Option<usize>)
        requires
            self.wf(),
        ensures
            r is Some <==> self.state() == ItemState::Summarized,
            r matches Some(n) ==> n == zero_count(self.consumed()),
    {
        match self.state {
            ItemState::Summarized => Some(self.tally.zeros()),
            _ => None,
        }
    }
}

} // verus!
