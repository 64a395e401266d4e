//! The decisions of the session pump.
//!
//! A pump owns one message-framed connection and runs two loops on it: one
//! sends queued commands, the other receives reports. Both poll with a short
//! timeout so that they notice a cancellation soon. The first loop to end, or
//! a request from outside, cancels the pump; the pump has stopped when both
//! loops have ended.
//!
//! The loops themselves wait on sockets and queues and so live outside this
//! library. After each wait they hand what happened to the functions here and
//! do what these return.

use crate::messages::GoliathCommand;
use vstd::prelude::*;

verus! {

/// The longest a loop waits before it looks at the cancellation signal again,
/// in milliseconds.
pub const POLL_INTERVAL_MS: u64 = 10;

/// The number of commands that can wait to be sent.
pub const COMMAND_QUEUE_CAPACITY: usize = 10;

/// The number of received reports that can wait to be taken.
pub const REPORT_QUEUE_CAPACITY: usize = 10;

/// Why a loop ended.
#[derive(Copy, Clone, Debug, PartialEq, Eq)]
pub enum LoopExit {
    /// The cancellation signal was set.
    Cancelled,
    /// The peer sent a close message.
    PeerClosed,
    /// The connection delivered its last message.
    StreamEnded,
    /// The connection failed.
    TransportFailed,
    /// A command could not be encoded.
    EncodeFailed,
    /// The queue of received messages is full: its consumer has stalled.
    QueueFull,
    /// The other end of a queue is gone.
    ChannelClosed,
}

impl LoopExit {
    /// Whether the loop ended on a fault rather than on a regular end of the
    /// session.
    pub open spec fn is_failure(self) -> bool {
        match self {
            LoopExit::Cancelled | LoopExit::PeerClosed | LoopExit::StreamEnded => false,
            LoopExit::TransportFailed
            | LoopExit::EncodeFailed
            | LoopExit::QueueFull
            | LoopExit::ChannelClosed => true,
        }
    }

    pub fn failed(&self) -> (failure: bool)
        ensures
            failure == self.is_failure(),
    {
        match self {
            LoopExit::Cancelled | LoopExit::PeerClosed | LoopExit::StreamEnded => false,
            LoopExit::TransportFailed
            | LoopExit::EncodeFailed
            | LoopExit::QueueFull
            | LoopExit::ChannelClosed => true,
        }
    }
}

/// Whether a loop goes on.
#[derive(Copy, Clone, Debug, PartialEq, Eq)]
pub enum LoopControl {
    Continue,
    Exit(LoopExit),
}

/// A message from the connection, by kind.
#[derive(Copy, Clone, Debug, PartialEq, Eq)]
pub enum Inbound {
    Ping,
    Pong,
    Close { has_reason: bool },
    Text,
    Binary,
    /// A raw frame, which a reading connection does not normally deliver.
    Frame,
}

/// What one bounded wait on the connection gave.
#[derive(Copy, Clone, Debug, PartialEq, Eq)]
pub enum ReceivePoll {
    TimedOut,
    Ended,
    Failed,
    Message(Inbound),
}

/// What the receive loop does with what it read.
#[derive(Copy, Clone, Debug, PartialEq, Eq)]
pub enum ReceiveStep {
    /// Nothing; wait again.
    Ignore,
    /// Note the unexpected text message, drop it and wait again.
    DropText,
    /// Decode the payload and hand the result to its consumer, then report
    /// the outcome to `on_delivery`.
    Deliver,
    /// Leave the loop. `log_reason` is set when a close message gave a reason.
    Exit { exit: LoopExit, log_reason: bool },
}

/// How handing on a binary message went.
#[derive(Copy, Clone, Debug, PartialEq, Eq)]
pub enum Delivery {
    /// Decoded and accepted by the consumer.
    Delivered,
    /// The payload could not be decoded.
    Malformed,
    /// The consumer's queue is full.
    QueueFull,
    /// The consumer is gone.
    ConsumerGone,
}

/// What one bounded wait on the command queue gave.
#[derive(Copy, Clone, Debug, PartialEq, Eq)]
pub enum SendPoll {
    TimedOut,
    /// Every producer is gone.
    Closed,
    Command(GoliathCommand),
}

/// What the send loop does with what it found.
#[derive(Copy, Clone, Debug, PartialEq, Eq)]
pub enum SendStep {
    /// Nothing; wait again.
    Idle,
    /// Encode the command and write it as one message, then report the
    /// outcome to `on_sent`.
    Send(GoliathCommand),
    Exit(LoopExit),
}

/// How encoding and writing a command went.
#[derive(Copy, Clone, Debug, PartialEq, Eq)]
pub enum SendOutcome {
    Written,
    EncodeFailed,
    TransportFailed,
}

/// What a non-blocking look into a queue found.
#[derive(Debug, PartialEq, Eq)]
pub enum TryReceive<T> {
    Item(T),
    Empty,
    Disconnected,
}

/// The pump has stopped and delivers nothing more.
#[derive(Copy, Clone, Debug, PartialEq, Eq)]
pub struct Disconnected;

/// The receive loop's reaction to a poll.
pub open spec fn receive_step(poll: ReceivePoll) -> ReceiveStep {
    match poll {
        ReceivePoll::TimedOut => ReceiveStep::Ignore,
        ReceivePoll::Ended => ReceiveStep::Exit { exit: LoopExit::StreamEnded, log_reason: false },
        ReceivePoll::Failed => ReceiveStep::Exit {
            exit: LoopExit::TransportFailed,
            log_reason: false,
        },
        ReceivePoll::Message(Inbound::Ping) => ReceiveStep::Ignore,
        ReceivePoll::Message(Inbound::Pong) => ReceiveStep::Ignore,
        ReceivePoll::Message(Inbound::Frame) => ReceiveStep::Ignore,
        ReceivePoll::Message(Inbound::Text) => ReceiveStep::DropText,
        ReceivePoll::Message(Inbound::Binary) => ReceiveStep::Deliver,
        ReceivePoll::Message(Inbound::Close { has_reason }) => ReceiveStep::Exit {
            exit: LoopExit::PeerClosed,
            log_reason: has_reason,
        },
    }
}

/// The receive loop's reaction to the outcome of a delivery. A malformed
/// message is dropped and the loop goes on; a full or lost queue ends it.
pub open spec fn delivery_control(outcome: Delivery) -> LoopControl {
    match outcome {
        Delivery::Delivered => LoopControl::Continue,
        Delivery::Malformed => LoopControl::Continue,
        Delivery::QueueFull => LoopControl::Exit(LoopExit::QueueFull),
        Delivery::ConsumerGone => LoopControl::Exit(LoopExit::ChannelClosed),
    }
}

/// The send loop's reaction to a poll. A command that must not leave the
/// process is not sent; it ends the loop as a failed encoding.
pub open spec fn send_step(poll: SendPoll) -> SendStep {
    match poll {
        SendPoll::TimedOut => SendStep::Idle,
        SendPoll::Closed => SendStep::Exit(LoopExit::ChannelClosed),
        SendPoll::Command(command) => if command.on_wire() {
            SendStep::Send(command)
        } else {
            SendStep::Exit(LoopExit::EncodeFailed)
        },
    }
}

/// The send loop's reaction to the outcome of a send.
pub open spec fn sent_control(outcome: SendOutcome) -> LoopControl {
    match outcome {
        SendOutcome::Written => LoopControl::Continue,
        SendOutcome::EncodeFailed => LoopControl::Exit(LoopExit::EncodeFailed),
        SendOutcome::TransportFailed => LoopControl::Exit(LoopExit::TransportFailed),
    }
}

/// What a loop does at the start of every turn, before it waits: it leaves if
/// the pump is cancelled.
pub open spec fn turn_control(cancelled: bool) -> LoopControl {
    if cancelled {
        LoopControl::Exit(LoopExit::Cancelled)
    } else {
        LoopControl::Continue
    }
}

/// Looks at the cancellation signal at the start of a turn.
pub fn check_cancelled(cancelled: bool) -> (control: LoopControl)
    ensures
        control == turn_control(cancelled),
{
    if cancelled {
        LoopControl::Exit(LoopExit::Cancelled)
    } else {
        LoopControl::Continue
    }
}

pub fn on_receive_poll(poll: ReceivePoll) -> (step: ReceiveStep)
    ensures
        step == receive_step(poll),
{
    match poll {
        ReceivePoll::TimedOut => ReceiveStep::Ignore,
        ReceivePoll::Ended => ReceiveStep::Exit { exit: LoopExit::StreamEnded, log_reason: false },
        ReceivePoll::Failed => ReceiveStep::Exit {
            exit: LoopExit::TransportFailed,
            log_reason: false,
        },
        ReceivePoll::Message(message) => match message {
            Inbound::Ping | Inbound::Pong | Inbound::Frame => ReceiveStep::Ignore,
            Inbound::Text => ReceiveStep::DropText,
            Inbound::Binary => ReceiveStep::Deliver,
            Inbound::Close { has_reason } => ReceiveStep::Exit {
                exit: LoopExit::PeerClosed,
                log_reason: has_reason,
            },
        },
    }
}

pub fn on_delivery(outcome: Delivery) -> (control: LoopControl)
    ensures
        control == delivery_control(outcome),
{
    match outcome {
        Delivery::Delivered | Delivery::Malformed => LoopControl::Continue,
        Delivery::QueueFull => LoopControl::Exit(LoopExit::QueueFull),
        Delivery::ConsumerGone => LoopControl::Exit(LoopExit::ChannelClosed),
    }
}

pub fn on_send_poll(poll: SendPoll) -> (step: SendStep)
    ensures
        step == send_step(poll),
{
    match poll {
        SendPoll::TimedOut => SendStep::Idle,
        SendPoll::Closed => SendStep::Exit(LoopExit::ChannelClosed),
        SendPoll::Command(command) => {
            if command.is_on_wire() {
                SendStep::Send(command)
            } else {
                SendStep::Exit(LoopExit::EncodeFailed)
            }
        },
    }
}

pub fn on_sent(outcome: SendOutcome) -> (control: LoopControl)
    ensures
        control == sent_control(outcome),
{
    match outcome {
        SendOutcome::Written => LoopControl::Continue,
        SendOutcome::EncodeFailed => LoopControl::Exit(LoopExit::EncodeFailed),
        SendOutcome::TransportFailed => LoopControl::Exit(LoopExit::TransportFailed),
    }
}

/// Turns a look into the report queue into the pump's answer: a report,
/// nothing yet, or the news that the pump has stopped.
pub fn poll_report<R>(received: TryReceive<R>) -> (report: Result<Option<R>, Disconnected>)
    ensures
        report == (match received {
            TryReceive::Item(item) => Ok::<Option<R>, Disconnected>(Some(item)),
            TryReceive::Empty => Ok(None),
            TryReceive::Disconnected => Err(Disconnected),
        }),
{
    match received {
        TryReceive::Item(item) => Ok(Some(item)),
        TryReceive::Empty => Ok(None),
        TryReceive::Disconnected => Err(Disconnected),
    }
}

/// What can happen to a pump as a whole.
#[derive(Copy, Clone, Debug, PartialEq, Eq)]
pub enum PumpEvent {
    SendLoopExited,
    ReceiveLoopExited,
    CancelRequested,
}

/// The pump's record of its two loops and of the cancellation signal.
#[derive(Copy, Clone, Debug, PartialEq, Eq)]
pub struct PumpState {
    pub cancelled: bool,
    pub send_done: bool,
    pub receive_done: bool,
}

impl PumpState {
    /// A loop that has ended has set the signal.
    pub open spec fn wf(self) -> bool {
        (self.send_done || self.receive_done) ==> self.cancelled
    }

    /// The pump has stopped when both loops have ended.
    pub open spec fn stopped(self) -> bool {
        self.send_done && self.receive_done
    }

    /// The state after an event. Every event sets the signal; the end of a
    /// loop is recorded as well.
    pub open spec fn after(self, event: PumpEvent) -> PumpState {
        match event {
            PumpEvent::SendLoopExited => PumpState { cancelled: true, send_done: true, ..self },
            PumpEvent::ReceiveLoopExited => PumpState {
                cancelled: true,
                receive_done: true,
                ..self
            },
            PumpEvent::CancelRequested => PumpState { cancelled: true, ..self },
        }
    }

    /// A pump whose loops are about to run.
    pub fn new() -> (state: Self)
        ensures
            state == (PumpState { cancelled: false, send_done: false, receive_done: false }),
            state.wf(),
            !state.stopped(),
    {
        PumpState { cancelled: false, send_done: false, receive_done: false }
    }

    pub fn on_event(&mut self, event: PumpEvent)
        requires
            old(self).wf(),
        ensures
            *final(self) == old(self).after(event),
            final(self).wf(),
            final(self).cancelled,
    {
        self.cancelled = true;
        match event {
            PumpEvent::SendLoopExited => {
                self.send_done = true;
            },
            PumpEvent::ReceiveLoopExited => {
                self.receive_done = true;
            },
            PumpEvent::CancelRequested => {},
        }
    }

    pub fn is_cancelled(&self) -> (cancelled: bool)
        ensures
            cancelled == self.cancelled,
    {
        self.cancelled
    }

    pub fn is_stopped(&self) -> (stopped: bool)
        ensures
            stopped == self.stopped(),
    {
        self.send_done && self.receive_done
    }
}

/// Cancellation: once cancellation is requested the signal is set and stays
/// set, each loop leaves at the start of its next turn whatever it would have
/// read, and when both loops have reported their end, in either order, the
/// pump has stopped.
pub proof fn lemma_cancellation_stops_pump(state: PumpState)
    requires
        state.wf(),
    ensures
        state.after(PumpEvent::CancelRequested).cancelled,
        forall|event: PumpEvent| #[trigger]
            state.after(PumpEvent::CancelRequested).after(event).cancelled,
        turn_control(state.after(PumpEvent::CancelRequested).cancelled) == LoopControl::Exit(
            LoopExit::Cancelled,
        ),
        state.after(PumpEvent::CancelRequested).after(PumpEvent::SendLoopExited).after(
            PumpEvent::ReceiveLoopExited,
        ).stopped(),
        state.after(PumpEvent::CancelRequested).after(PumpEvent::ReceiveLoopExited).after(
            PumpEvent::SendLoopExited,
        ).stopped(),
{
}

} // verus!
