//! The vocabulary between the engine and whoever owns the transport.
//!
//! The engine asks for one [`Action`] at a time and is told its outcome as
//! one [`Event`]. A transport therefore needs three capabilities and no
//! more: write all of a buffer and flush, read with a timeout, and wait.
//!
//! The outcome of a write is `Done` or `Failed`, that of a pause is `Done`,
//! and that of a read is `Data` with no more bytes than were asked for,
//! `TimedOut` or `Failed`. A state machine that is handed anything else ends
//! with `InvalidArgs`.

use crate::errors::{BESLinkError, ErrorView};
use vstd::prelude::*;

verus! {

/// The baud rate of every protocol phase.
pub const BES_PROGRAMMING_BAUDRATE: u32 = 921_600;

/// What the transport is asked to do next.
#[derive(Debug)]
pub enum Action {
    /// Write all of these bytes, in order and without anything in between,
    /// then flush.
    Send(Vec<u8>),
    /// Make one timed read of at most this many bytes.
    Receive(usize),
    /// Let this many milliseconds pass.
    Pause(u64),
}

/// The mathematical content of an [`Action`].
pub enum ActionView {
    Send(Seq<u8>),
    Receive(usize),
    Pause(u64),
}

impl View for Action {
    type V = ActionView;

    open spec fn view(&self) -> ActionView {
        match *self {
            Action::Send(bytes) => ActionView::Send(bytes@),
            Action::Receive(limit) => ActionView::Receive(limit),
            Action::Pause(millis) => ActionView::Pause(millis),
        }
    }
}

/// What became of the last [`Action`].
#[derive(Debug)]
pub enum Event {
    /// The bytes were written, or the pause is over.
    Done,
    /// The read returned these bytes. There may be none.
    Data(Vec<u8>),
    /// The read ran into the transport's timeout.
    TimedOut,
    /// The transport failed in any other way, reading or writing.
    Failed(std::io::Error),
}

/// The mathematical content of an [`Event`].
pub enum EventView {
    Done,
    Data(Seq<u8>),
    TimedOut,
    Failed(std::io::Error),
}

impl View for Event {
    type V = EventView;

    open spec fn view(&self) -> EventView {
        match *self {
            Event::Done => EventView::Done,
            Event::Data(bytes) => EventView::Data(bytes@),
            Event::TimedOut => EventView::TimedOut,
            Event::Failed(e) => EventView::Failed(e),
        }
    }
}

/// The answer of a state machine to an event: either the next action, or the
/// end of the operation with its result.
#[derive(Debug)]
pub enum Step<T> {
    Next(Action),
    Finished(Result<T, BESLinkError>),
}

/// The mathematical content of a [`Step`].
pub enum StepView<V> {
    Next(ActionView),
    Finished(Result<V, ErrorView>),
}

/// The mathematical content of a result of the engine.
pub open spec fn result_view<T: View>(r: Result<T, BESLinkError>) -> Result<T::V, ErrorView> {
    match r {
        Ok(value) => Ok(value@),
        Err(e) => Err(e@),
    }
}

impl<T: View> View for Step<T> {
    type V = StepView<T::V>;

    open spec fn view(&self) -> StepView<T::V> {
        match *self {
            Step::Next(action) => StepView::Next(action@),
            Step::Finished(r) => StepView::Finished(result_view(r)),
        }
    }
}

} // verus!
