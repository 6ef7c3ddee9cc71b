//! The outbound pipeline of a connection: a bounded queue between the relay
//! and the task that writes to the transport.
//!
//! The queue is a `tokio` channel. The relay only ever offers a payload to
//! it without waiting, so a slow or dead consumer cannot stall a broadcast.

use crate::protocol::{WsResponse, WsResponseView};
use tokio::sync::mpsc::error::TrySendError;
use tokio::sync::mpsc::{Receiver, Sender};
use vstd::prelude::*;

verus! {

/// `tokio::sync::mpsc::Sender`, the sending half of a bounded channel. The
/// type is opaque here: nothing is known of a value but what the wrappers
/// below say.
#[verifier::external_type_specification]
#[verifier::external_body]
#[verifier::reject_recursive_types(T)]
pub struct ExSender<T>(Sender<T>);

/// `tokio::sync::mpsc::Receiver`, the receiving half of a bounded channel.
/// The type is opaque here, and the relay only hands a value on to the
/// delivery task.
#[verifier::external_type_specification]
#[verifier::external_body]
#[verifier::reject_recursive_types(T)]
pub struct ExReceiver<T>(Receiver<T>);

/// How many payloads a pipeline holds before it refuses more.
pub const PIPELINE_CAPACITY: usize = 100;

/// What became of a payload offered to the channel.
#[derive(Clone, Copy, Debug, PartialEq, Eq, Structural)]
pub enum SendStatus {
    /// The payload is in the queue.
    Queued,
    /// The queue held as many payloads as it can.
    Full,
    /// The receiving half is closed or gone.
    Closed,
}

/// A payload was refused because the pipeline is full.
#[derive(Clone, Copy, Debug, PartialEq, Eq, Structural)]
pub struct PipelineFull;

/// The bound that the channel of `tx` was made with. It is what
/// `tokio::sync::mpsc::Sender::max_capacity` returns, and it stays the same
/// for the life of the channel.
pub uninterp spec fn channel_bound(tx: Sender<WsResponse>) -> usize;

/// `tokio::sync::mpsc::channel`: a new channel that buffers up to
/// `capacity` payloads. The call panics for a capacity of zero or above an
/// eighth of `usize::MAX`, which `requires` rules out.
#[verifier::external_body]
fn channel(capacity: usize) -> (ends: (Sender<WsResponse>, Receiver<WsResponse>))
    requires
        0 < capacity <= usize::MAX / 8,
    ensures
        channel_bound(ends.0) == capacity,
{
    tokio::sync::mpsc::channel(capacity)
}

/// `tokio::sync::mpsc::Sender::max_capacity`: the bound that the channel
/// was made with.
#[verifier::external_body]
fn max_capacity(tx: &Sender<WsResponse>) -> (bound: usize)
    ensures
        bound == channel_bound(*tx),
{
    tx.max_capacity()
}

/// `tokio::sync::mpsc::Sender::try_send`: offers a payload without waiting.
/// Which status comes back depends on what the consumer has taken so far,
/// so nothing is claimed of it.
#[verifier::external_body]
fn try_send(tx: &Sender<WsResponse>, payload: WsResponse) -> (status: SendStatus) {
    match tx.try_send(payload) {
        Ok(()) => SendStatus::Queued,
        Err(TrySendError::Full(_)) => SendStatus::Full,
        Err(TrySendError::Closed(_)) => SendStatus::Closed,
    }
}

/// What `enqueue` answers for each status of the channel: a payload offered
/// to a closed pipeline is dropped without an error.
pub open spec fn settled(status: SendStatus) -> Result<(), PipelineFull> {
    match status {
        SendStatus::Queued => Ok(()),
        SendStatus::Closed => Ok(()),
        SendStatus::Full => Err(PipelineFull),
    }
}

/// Turns the channel's status into the pipeline's answer.
pub fn settle(status: SendStatus) -> (answer: Result<(), PipelineFull>)
    ensures
        answer == settled(status),
{
    match status {
        SendStatus::Queued => Ok(()),
        SendStatus::Closed => Ok(()),
        SendStatus::Full => Err(PipelineFull),
    }
}

/// The producer's handle on one connection's outbound queue.
#[derive(Debug)]
pub struct Pipeline {
    tx: Sender<WsResponse>,
}

impl Pipeline {
    /// How many payloads the queue holds before it refuses more.
    pub closed spec fn bound(&self) -> usize {
        channel_bound(self.tx)
    }

    /// Opens a pipeline of [`PIPELINE_CAPACITY`] payloads and hands back its
    /// consuming end, from which the delivery task reads in the order of
    /// enqueueing.
    pub fn open() -> (ends: (Pipeline, Receiver<WsResponse>))
        ensures
            ends.0.bound() == PIPELINE_CAPACITY,
    {
        let (tx, rx) = channel(PIPELINE_CAPACITY);
        (Pipeline { tx }, rx)
    }

    /// How many payloads the queue holds before it refuses more.
    pub fn capacity(&self) -> (bound: usize)
        ensures
            bound == self.bound(),
    {
        max_capacity(&self.tx)
    }

    /// Offers a payload to the queue and returns at once: the call never
    /// waits. A full queue refuses the payload; a pipeline whose consumer
    /// is gone swallows it. Whether the queue is full depends on what the
    /// consumer has taken so far, so nothing is promised of the answer.
    pub fn enqueue(&self, payload: WsResponse) -> (answer: Result<(), PipelineFull>) {
        settle(try_send(&self.tx, payload))
    }
}

/// What the delivery task of a connection has just seen.
#[derive(Debug, PartialEq, Eq)]
pub enum DeliveryEvent {
    /// The task has just started.
    Started,
    /// The queue handed out a payload.
    Dequeued { payload: WsResponse },
    /// The queue is closed and empty: the connection was torn down.
    QueueClosed,
    /// The last payload was written to the transport.
    Written,
    /// The transport refused the last payload.
    WriteFailed,
}

pub enum DeliveryEventView {
    Started,
    Dequeued { payload: WsResponseView },
    QueueClosed,
    Written,
    WriteFailed,
}

impl View for DeliveryEvent {
    type V = DeliveryEventView;

    open spec fn view(&self) -> DeliveryEventView {
        match *self {
            DeliveryEvent::Started => DeliveryEventView::Started,
            DeliveryEvent::Dequeued { payload } => DeliveryEventView::Dequeued {
                payload: payload@,
            },
            DeliveryEvent::QueueClosed => DeliveryEventView::QueueClosed,
            DeliveryEvent::Written => DeliveryEventView::Written,
            DeliveryEvent::WriteFailed => DeliveryEventView::WriteFailed,
        }
    }
}

/// What the delivery task of a connection is to do next.
#[derive(Debug, PartialEq, Eq)]
pub enum DeliveryStep {
    /// Wait for the queue to hand out its next payload.
    Dequeue,
    /// Write this payload to the transport.
    Write { payload: WsResponse },
    /// Disconnect the connection and end the task.
    Stop,
}

pub enum DeliveryStepView {
    Dequeue,
    Write { payload: WsResponseView },
    Stop,
}

impl View for DeliveryStep {
    type V = DeliveryStepView;

    open spec fn view(&self) -> DeliveryStepView {
        match *self {
            DeliveryStep::Dequeue => DeliveryStepView::Dequeue,
            DeliveryStep::Write { payload } => DeliveryStepView::Write { payload: payload@ },
            DeliveryStep::Stop => DeliveryStepView::Stop,
        }
    }
}

/// The rule of the delivery task: payloads are written one at a time, in
/// the order in which the queue hands them out, and the task ends when the
/// queue is closed or a write fails.
pub open spec fn step_after(event: DeliveryEventView) -> DeliveryStepView {
    match event {
        DeliveryEventView::Started => DeliveryStepView::Dequeue,
        DeliveryEventView::Dequeued { payload } => DeliveryStepView::Write { payload },
        DeliveryEventView::QueueClosed => DeliveryStepView::Stop,
        DeliveryEventView::Written => DeliveryStepView::Dequeue,
        DeliveryEventView::WriteFailed => DeliveryStepView::Stop,
    }
}

/// What the delivery task is to do after `event`.
pub fn delivery_step(event: DeliveryEvent) -> (step: DeliveryStep)
    ensures
        step@ == step_after(event@),
{
    match event {
        DeliveryEvent::Started => DeliveryStep::Dequeue,
        DeliveryEvent::Dequeued { payload } => DeliveryStep::Write { payload },
        DeliveryEvent::QueueClosed => DeliveryStep::Stop,
        DeliveryEvent::Written => DeliveryStep::Dequeue,
        DeliveryEvent::WriteFailed => DeliveryStep::Stop,
    }
}

} // verus!
