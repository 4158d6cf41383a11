//! The capture loop: raise `ready`, wait for `posted`, read the mailbox,
//! write the message if it is wanted, and start over; a wait that fails
//! closes the loop for good.
//!
//! Messages are filtered in: with a target configured, only what the target
//! process itself posted is written; without one, everything is.

use vstd::prelude::*;
use crate::mailbox::message_text;
use crate::text::{format_line, message_line, trim_end, without_trailing_white_space};
use crate::winapi::{DBWinBuffer, INFINITE, WAIT_OBJECT_0};

verus! {

/// Where the loop stands.
#[derive(Clone, Copy, Debug, PartialEq, Eq, Structural)]
pub enum LoopState {
    /// Attached, nothing signalled yet.
    Idle,
    /// `ready` has been raised: the slot is free for the next message.
    Ready,
    /// Blocked on `posted`.
    Waiting,
    /// A message has been posted and is being read.
    Delivering,
    /// A wait has failed. The loop does not resume from here.
    Closed,
}

/// The wait on `posted` returned something other than "signalled".
#[derive(Clone, Copy, Debug, PartialEq, Eq, Structural)]
pub struct WaitFailure {
    pub code: u32,
}

/// What the caller reports back to the loop.
pub enum LoopEvent {
    /// The last request has been carried out and has no result to report.
    Done,
    /// The wait on `posted` returned with this code.
    WaitReturned(u32),
    /// The mailbox has been read.
    MailboxRead(DBWinBuffer),
}

/// What the loop asks the caller to do next.
#[derive(Clone, Copy, Debug, PartialEq, Eq, Structural)]
pub enum LoopRequest {
    /// Raise the `ready` signal.
    SignalReady,
    /// Block on the `posted` signal for at most `timeout` milliseconds.
    AwaitPosted { timeout: u32 },
    /// Read the mailbox segment.
    ReadMailbox,
    /// Unmap the segment, let go of the signals and report the failure.
    Release(WaitFailure),
    /// Nothing: the loop is closed.
    Halt,
}

/// One step of the loop: a line to write first, if the step delivered a
/// message, and the request to carry out after that.
pub struct LoopStep {
    pub line: Option<String>,
    pub request: LoopRequest,
}

/// A step as a mathematical value.
pub struct LoopStepView {
    pub line: Option<Seq<char>>,
    pub request: LoopRequest,
}

impl View for LoopStep {
    type V = LoopStepView;

    open spec fn view(&self) -> LoopStepView {
        LoopStepView {
            line: match self.line {
                Some(line) => Some(line@),
                None => None,
            },
            request: self.request,
        }
    }
}

/// Whether a message from `producer` is wanted: always without a target,
/// and with one only if the target itself posted it.
pub open spec fn wanted(target: Option<u32>, producer: u32) -> bool {
    match target {
        Some(id) => id == producer,
        None => true,
    }
}

/// The line written for a mailbox, if one is written at all: the message is
/// wanted, its bytes are text, and the line is the producer's identifier in
/// brackets followed by the text less its trailing white space.
pub open spec fn emission(target: Option<u32>, mailbox: DBWinBuffer) -> Option<Seq<char>> {
    if wanted(target, mailbox.process_id) {
        match message_text(mailbox.data@) {
            Some(text) => Some(
                message_line(mailbox.process_id, without_trailing_white_space(text)),
            ),
            None => None,
        }
    } else {
        None
    }
}

/// The state that follows `state` on `event`. Leaving `Idle` and `Ready`
/// takes no particular event. `Waiting` is left on the result of the wait,
/// and `Delivering` on the mailbox as read; any other event leaves these two
/// as they are. Nothing leaves `Closed`.
pub open spec fn next_state(state: LoopState, event: LoopEvent) -> LoopState {
    match state {
        LoopState::Idle => LoopState::Ready,
        LoopState::Ready => LoopState::Waiting,
        LoopState::Waiting => match event {
            LoopEvent::WaitReturned(code) => if code == WAIT_OBJECT_0 {
                LoopState::Delivering
            } else {
                LoopState::Closed
            },
            _ => LoopState::Waiting,
        },
        LoopState::Delivering => match event {
            LoopEvent::MailboxRead(_) => LoopState::Ready,
            _ => LoopState::Delivering,
        },
        LoopState::Closed => LoopState::Closed,
    }
}

/// The request that goes with the step from `state` on `event`, for a loop
/// that waits at most `timeout` milliseconds at a time.
pub open spec fn next_request(timeout: u32, state: LoopState, event: LoopEvent) -> LoopRequest {
    match state {
        LoopState::Idle => LoopRequest::SignalReady,
        LoopState::Ready => LoopRequest::AwaitPosted { timeout },
        LoopState::Waiting => match event {
            LoopEvent::WaitReturned(code) => if code == WAIT_OBJECT_0 {
                LoopRequest::ReadMailbox
            } else {
                LoopRequest::Release(WaitFailure { code })
            },
            _ => LoopRequest::AwaitPosted { timeout },
        },
        LoopState::Delivering => match event {
            LoopEvent::MailboxRead(_) => LoopRequest::SignalReady,
            _ => LoopRequest::ReadMailbox,
        },
        LoopState::Closed => LoopRequest::Halt,
    }
}

/// The line that goes with the step from `state` on `event`: a line is
/// written only when a mailbox is delivered.
pub open spec fn next_line(
    target: Option<u32>,
    state: LoopState,
    event: LoopEvent,
) -> Option<Seq<char>> {
    match (state, event) {
        (LoopState::Delivering, LoopEvent::MailboxRead(mailbox)) => emission(target, mailbox),
        _ => None,
    }
}

/// Decides whether a mailbox is written, and as which line.
pub fn deliver(target: Option<u32>, mailbox: &DBWinBuffer) -> (line: Option<String>)
    ensures
        line is Some <==> emission(target, *mailbox) is Some,
        line matches Some(written) ==> Some(written@) == emission(target, *mailbox),
{
    let producer = mailbox.producer_id();
    let is_wanted = match target {
        Some(id) => id == producer,
        None => true,
    };
    if !is_wanted {
        return None;
    }
    match mailbox.text() {
        Some(text) => Some(format_line(producer, trim_end(text))),
        None => None,
    }
}

/// The capture loop of one attached channel: where it stands, whose
/// messages it writes, and how long it waits for one.
pub struct CaptureLoop {
    pub state: LoopState,
    pub target: Option<u32>,
    pub timeout: u32,
}

impl CaptureLoop {
    /// A loop that has yet to signal, capturing from `target` alone or, with
    /// `None`, from every process, and waiting without a time limit.
    pub fn new(target: Option<u32>) -> (capture: CaptureLoop)
        ensures
            capture.state == LoopState::Idle,
            capture.target == target,
            capture.timeout == INFINITE,
    {
        CaptureLoop { state: LoopState::Idle, target, timeout: INFINITE }
    }

    /// As `new`, but with every wait bounded by `timeout` milliseconds. A
    /// wait that runs out of time fails like any other.
    pub fn with_timeout(target: Option<u32>, timeout: u32) -> (capture: CaptureLoop)
        ensures
            capture.state == LoopState::Idle,
            capture.target == target,
            capture.timeout == timeout,
    {
        CaptureLoop { state: LoopState::Idle, target, timeout }
    }

    /// Moves the loop on by one event and says what to do next.
    pub fn step(&mut self, event: LoopEvent) -> (step: LoopStep)
        ensures
            final(self).target == old(self).target,
            final(self).timeout == old(self).timeout,
            final(self).state == next_state(old(self).state, event),
            step@.request == next_request(old(self).timeout, old(self).state, event),
            step@.line == next_line(old(self).target, old(self).state, event),
    {
        match self.state {
            LoopState::Idle => {
                self.state = LoopState::Ready;
                LoopStep { line: None, request: LoopRequest::SignalReady }
            },
            LoopState::Ready => {
                self.state = LoopState::Waiting;
                LoopStep {
                    line: None,
                    request: LoopRequest::AwaitPosted { timeout: self.timeout },
                }
            },
            LoopState::Waiting => match event {
                LoopEvent::WaitReturned(code) => {
                    if code == WAIT_OBJECT_0 {
                        self.state = LoopState::Delivering;
                        LoopStep { line: None, request: LoopRequest::ReadMailbox }
                    } else {
                        self.state = LoopState::Closed;
                        LoopStep { line: None, request: LoopRequest::Release(WaitFailure { code }) }
                    }
                },
                _ => LoopStep {
                    line: None,
                    request: LoopRequest::AwaitPosted { timeout: self.timeout },
                },
            },
            LoopState::Delivering => match event {
                LoopEvent::MailboxRead(mailbox) => {
                    self.state = LoopState::Ready;
                    LoopStep {
                        line: deliver(self.target, &mailbox),
                        request: LoopRequest::SignalReady,
                    }
                },
                _ => LoopStep { line: None, request: LoopRequest::ReadMailbox },
            },
            LoopState::Closed => LoopStep { line: None, request: LoopRequest::Halt },
        }
    }
}

/// The state reached when a loop starts in `state` and is handed `events`
/// in this order.
pub open spec fn run_state(state: LoopState, events: Seq<LoopEvent>) -> LoopState
    decreases events.len(),
{
    if events.len() == 0 {
        state
    } else {
        next_state(run_state(state, events.drop_last()), events.last())
    }
}

/// How often a loop that starts in `state`, waits `timeout` milliseconds at
/// a time and is handed `events` asks for the channel to be released.
pub open spec fn releases(timeout: u32, state: LoopState, events: Seq<LoopEvent>) -> nat
    decreases events.len(),
{
    if events.len() == 0 {
        0
    } else {
        let before = events.drop_last();
        let last: nat = if next_request(timeout, run_state(state, before), events.last())
            is Release {
            1
        } else {
            0
        };
        releases(timeout, state, before) + last
    }
}

/// Without a target every message that is text is written, whoever posted
/// it.
pub proof fn lemma_unfiltered_writes_every_message(mailbox: DBWinBuffer)
    requires
        message_text(mailbox.data@) is Some,
    ensures
        emission(None, mailbox) == Some(
            message_line(
                mailbox.process_id,
                without_trailing_white_space(message_text(mailbox.data@)->0),
            ),
        ),
{
}

/// With a target, a message is written only if the target posted it, and
/// then as it would be without a target.
pub proof fn lemma_target_filters_in(target: u32, mailbox: DBWinBuffer)
    ensures
        mailbox.process_id != target ==> emission(Some(target), mailbox) is None,
        mailbox.process_id == target ==> emission(Some(target), mailbox) == emission(
            None,
            mailbox,
        ),
{
}

/// Nothing is written but messages: a step yields a line only when it
/// delivers a mailbox whose message is wanted and is text, and the line is
/// then that message's.
pub proof fn lemma_line_is_a_wanted_message(
    target: Option<u32>,
    state: LoopState,
    event: LoopEvent,
)
    requires
        next_line(target, state, event) is Some,
    ensures
        state == LoopState::Delivering,
        event matches LoopEvent::MailboxRead(mailbox) && wanted(target, mailbox.process_id)
            && message_text(mailbox.data@) is Some && next_line(target, state, event)
            == emission(None, mailbox),
{
}

/// A message whose bytes are not text is dropped, and the loop goes on: it
/// signals `ready` again as after any other message.
pub proof fn lemma_undecodable_message_is_skipped(
    target: Option<u32>,
    timeout: u32,
    mailbox: DBWinBuffer,
)
    requires
        message_text(mailbox.data@) is None,
    ensures
        next_line(target, LoopState::Delivering, LoopEvent::MailboxRead(mailbox)) is None,
        next_state(LoopState::Delivering, LoopEvent::MailboxRead(mailbox)) == LoopState::Ready,
        next_request(timeout, LoopState::Delivering, LoopEvent::MailboxRead(mailbox))
            == LoopRequest::SignalReady,
{
}

/// One full turn: a loop that has raised `ready` waits, is woken by a
/// posted message, reads the mailbox and is back where it started, having
/// raised `ready` again; the one line written on the way is the mailbox's.
pub proof fn lemma_turn_delivers_and_signals_again(
    target: Option<u32>,
    timeout: u32,
    mailbox: DBWinBuffer,
)
    ensures
        ({
            let wait = LoopEvent::Done;
            let woken = LoopEvent::WaitReturned(WAIT_OBJECT_0);
            let read = LoopEvent::MailboxRead(mailbox);
            &&& next_state(LoopState::Ready, wait) == LoopState::Waiting
            &&& next_request(timeout, LoopState::Ready, wait) == (LoopRequest::AwaitPosted {
                timeout,
            })
            &&& next_line(target, LoopState::Ready, wait) is None
            &&& next_state(LoopState::Waiting, woken) == LoopState::Delivering
            &&& next_request(timeout, LoopState::Waiting, woken) == LoopRequest::ReadMailbox
            &&& next_line(target, LoopState::Waiting, woken) is None
            &&& next_state(LoopState::Delivering, read) == LoopState::Ready
            &&& next_request(timeout, LoopState::Delivering, read) == LoopRequest::SignalReady
            &&& next_line(target, LoopState::Delivering, read) == emission(target, mailbox)
        }),
{
}

/// A wait that returns anything but "signalled" closes the loop, and the
/// step that closes it asks for the release and carries the failure.
pub proof fn lemma_wait_failure_closes(timeout: u32, code: u32)
    requires
        code != WAIT_OBJECT_0,
    ensures
        next_state(LoopState::Waiting, LoopEvent::WaitReturned(code)) == LoopState::Closed,
        next_request(timeout, LoopState::Waiting, LoopEvent::WaitReturned(code))
            == LoopRequest::Release(WaitFailure { code }),
{
}

/// `ready` is raised before every wait: the loop comes to wait only from
/// `Ready`, and it comes to `Ready` only by a step that asks for the signal.
pub proof fn lemma_ready_precedes_wait(timeout: u32, state: LoopState, event: LoopEvent)
    ensures
        next_state(state, event) == LoopState::Waiting ==> state == LoopState::Ready || state
            == LoopState::Waiting,
        next_state(state, event) == LoopState::Ready ==> next_request(timeout, state, event)
            == LoopRequest::SignalReady,
        next_request(timeout, state, event) is AwaitPosted ==> next_state(state, event)
            == LoopState::Waiting,
{
}

/// A closed loop stays closed and asks for nothing more.
pub proof fn lemma_closed_is_final(timeout: u32, events: Seq<LoopEvent>)
    ensures
        run_state(LoopState::Closed, events) == LoopState::Closed,
        releases(timeout, LoopState::Closed, events) == 0,
        events.len() > 0 ==> next_request(
            timeout,
            run_state(LoopState::Closed, events.drop_last()),
            events.last(),
        ) == LoopRequest::Halt,
    decreases events.len(),
{
    if events.len() > 0 {
        lemma_closed_is_final(timeout, events.drop_last());
    }
}

/// The channel is released exactly once on the way to `Closed`, and not at
/// all before: whatever events a fresh loop is handed, it has asked for the
/// release once if it is closed and never if it is not.
pub proof fn lemma_released_exactly_once(timeout: u32, events: Seq<LoopEvent>)
    ensures
        releases(timeout, LoopState::Idle, events) == if run_state(LoopState::Idle, events)
            == LoopState::Closed {
            1nat
        } else {
            0nat
        },
    decreases events.len(),
{
    if events.len() > 0 {
        lemma_released_exactly_once(timeout, events.drop_last());
    }
}

} // verus!
