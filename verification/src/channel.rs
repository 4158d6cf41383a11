//! Attaching to the debug channel: the `ready` signal, the `posted` signal
//! and the mailbox segment are each opened by name and created only where
//! nothing by that name exists yet; the segment is then mapped for reading.
//!
//! The library decides which call comes next and with which arguments; the
//! caller makes the call and hands back what the platform answered.

use vstd::prelude::*;
use crate::winapi::{
    BUF_SIZE,
    DBWIN_BUFFER,
    DBWIN_BUFFER_READY,
    DBWIN_DATA_READY,
    EVENT_ALL_ACCESS,
    FILE_MAP_READ,
    PAGE_READWRITE,
};

verus! {

/// The four steps of attaching, in the order they are taken.
#[derive(Clone, Copy, Debug, PartialEq, Eq, Structural)]
pub enum AttachStage {
    ReadySignal,
    PostedSignal,
    Segment,
    Mapping,
}

/// Attaching failed: the stage that could not be completed, and the
/// platform's error code for it.
#[derive(Clone, Copy, Debug, PartialEq, Eq, Structural)]
pub struct ChannelError {
    pub stage: AttachStage,
    pub code: u32,
}

/// The attached channel: the handles of the two signals and of the segment,
/// and the address of the segment's mapped view. They are held, and
/// released, together.
#[derive(Clone, Copy, Debug, PartialEq, Eq, Structural)]
pub struct Channel {
    pub ready: usize,
    pub posted: usize,
    pub segment: usize,
    pub view: usize,
}

/// What the platform answered to one request: the handle (or, for a mapping,
/// the address) it returned, zero where it failed, and its error code as
/// read right after the call. The code counts only where the handle is zero.
#[derive(Clone, Copy, Debug, PartialEq, Eq, Structural)]
pub struct Reply {
    pub handle: usize,
    pub code: u32,
}

/// One platform call, with the arguments it is to be made with.
#[derive(Clone, Copy, Debug, PartialEq, Eq)]
pub enum AttachRequest {
    /// Open the existing signal of this name.
    OpenEvent { name: &'static str, access: u32 },
    /// Create the signal of this name.
    CreateEvent { name: &'static str, manual_reset: bool, initially_set: bool },
    /// Open the existing segment of this name.
    OpenMapping { name: &'static str, access: u32 },
    /// Create the segment of this name, backed by the paging file.
    CreateMapping { name: &'static str, protect: u32, size: u32 },
    /// Map the whole of this segment into the address space.
    MapView { segment: usize, access: u32, length: usize },
}

/// How far attaching has come.
#[derive(Clone, Copy, Debug, PartialEq, Eq, Structural)]
pub enum Attach {
    /// The named stage is being worked on, by opening or, once opening has
    /// failed, by creating; the handles of the earlier stages are held.
    Acquiring { stage: AttachStage, creating: bool, ready: usize, posted: usize, segment: usize },
    /// All four stages are done.
    Attached(Channel),
    /// A stage failed; nothing further is attempted.
    Failed(ChannelError),
}

impl Attach {
    /// Attaching starts by opening the `ready` signal.
    pub open spec fn start() -> Attach {
        Attach::Acquiring {
            stage: AttachStage::ReadySignal,
            creating: false,
            ready: 0,
            posted: 0,
            segment: 0,
        }
    }

    /// The call to make in this state, if any is left to make.
    pub open spec fn pending(self) -> Option<AttachRequest> {
        match self {
            Attach::Acquiring { stage, creating, ready, posted, segment } => Some(
                match stage {
                    AttachStage::ReadySignal => if creating {
                        AttachRequest::CreateEvent {
                            name: DBWIN_BUFFER_READY,
                            manual_reset: false,
                            initially_set: false,
                        }
                    } else {
                        AttachRequest::OpenEvent {
                            name: DBWIN_BUFFER_READY,
                            access: EVENT_ALL_ACCESS,
                        }
                    },
                    AttachStage::PostedSignal => if creating {
                        AttachRequest::CreateEvent {
                            name: DBWIN_DATA_READY,
                            manual_reset: false,
                            initially_set: false,
                        }
                    } else {
                        AttachRequest::OpenEvent {
                            name: DBWIN_DATA_READY,
                            access: EVENT_ALL_ACCESS,
                        }
                    },
                    AttachStage::Segment => if creating {
                        AttachRequest::CreateMapping {
                            name: DBWIN_BUFFER,
                            protect: PAGE_READWRITE,
                            size: 4096,
                        }
                    } else {
                        AttachRequest::OpenMapping { name: DBWIN_BUFFER, access: FILE_MAP_READ }
                    },
                    AttachStage::Mapping => AttachRequest::MapView {
                        segment,
                        access: FILE_MAP_READ,
                        length: BUF_SIZE,
                    },
                },
            ),
            Attach::Attached(_) => None,
            Attach::Failed(_) => None,
        }
    }

    /// The state that follows once the platform has answered the pending
    /// call. A handle completes the stage. No handle sends an attempt to
    /// open on to an attempt to create, and fails the stage where creating,
    /// or mapping, was the attempt. A finished state stays as it is.
    pub open spec fn after(self, reply: Reply) -> Attach {
        match self {
            Attach::Acquiring { stage, creating, ready, posted, segment } => if reply.handle != 0 {
                match stage {
                    AttachStage::ReadySignal => Attach::Acquiring {
                        stage: AttachStage::PostedSignal,
                        creating: false,
                        ready: reply.handle,
                        posted,
                        segment,
                    },
                    AttachStage::PostedSignal => Attach::Acquiring {
                        stage: AttachStage::Segment,
                        creating: false,
                        ready,
                        posted: reply.handle,
                        segment,
                    },
                    AttachStage::Segment => Attach::Acquiring {
                        stage: AttachStage::Mapping,
                        creating: false,
                        ready,
                        posted,
                        segment: reply.handle,
                    },
                    AttachStage::Mapping => Attach::Attached(
                        Channel { ready, posted, segment, view: reply.handle },
                    ),
                }
            } else if stage != AttachStage::Mapping && !creating {
                Attach::Acquiring { stage, creating: true, ready, posted, segment }
            } else {
                Attach::Failed(ChannelError { stage, code: reply.code })
            },
            Attach::Attached(_) => self,
            Attach::Failed(_) => self,
        }
    }

    /// Begins attaching.
    pub fn new() -> (attach: Attach)
        ensures
            attach == Attach::start(),
            attach.consistent(),
    {
        Attach::Acquiring {
            stage: AttachStage::ReadySignal,
            creating: false,
            ready: 0,
            posted: 0,
            segment: 0,
        }
    }

    /// The call to make next, or `None` once attaching has finished.
    pub fn request(&self) -> (request: Option<AttachRequest>)
        ensures
            request == self.pending(),
    {
        match *self {
            Attach::Acquiring { stage, creating, ready: _, posted: _, segment } => Some(
                match stage {
                    AttachStage::ReadySignal => if creating {
                        AttachRequest::CreateEvent {
                            name: DBWIN_BUFFER_READY,
                            manual_reset: false,
                            initially_set: false,
                        }
                    } else {
                        AttachRequest::OpenEvent {
                            name: DBWIN_BUFFER_READY,
                            access: EVENT_ALL_ACCESS,
                        }
                    },
                    AttachStage::PostedSignal => if creating {
                        AttachRequest::CreateEvent {
                            name: DBWIN_DATA_READY,
                            manual_reset: false,
                            initially_set: false,
                        }
                    } else {
                        AttachRequest::OpenEvent {
                            name: DBWIN_DATA_READY,
                            access: EVENT_ALL_ACCESS,
                        }
                    },
                    AttachStage::Segment => if creating {
                        AttachRequest::CreateMapping {
                            name: DBWIN_BUFFER,
                            protect: PAGE_READWRITE,
                            size: 4096,
                        }
                    } else {
                        AttachRequest::OpenMapping { name: DBWIN_BUFFER, access: FILE_MAP_READ }
                    },
                    AttachStage::Mapping => AttachRequest::MapView {
                        segment,
                        access: FILE_MAP_READ,
                        length: BUF_SIZE,
                    },
                },
            ),
            Attach::Attached(_) => None,
            Attach::Failed(_) => None,
        }
    }

    /// Takes in the platform's answer to the pending call.
    pub fn reply(self, reply: Reply) -> (next: Attach)
        ensures
            next == self.after(reply),
            self.consistent() ==> next.consistent(),
    {
        match self {
            Attach::Acquiring { stage, creating, ready, posted, segment } => {
                if reply.handle != 0 {
                    match stage {
                        AttachStage::ReadySignal => Attach::Acquiring {
                            stage: AttachStage::PostedSignal,
                            creating: false,
                            ready: reply.handle,
                            posted,
                            segment,
                        },
                        AttachStage::PostedSignal => Attach::Acquiring {
                            stage: AttachStage::Segment,
                            creating: false,
                            ready,
                            posted: reply.handle,
                            segment,
                        },
                        AttachStage::Segment => Attach::Acquiring {
                            stage: AttachStage::Mapping,
                            creating: false,
                            ready,
                            posted,
                            segment: reply.handle,
                        },
                        AttachStage::Mapping => Attach::Attached(
                            Channel { ready, posted, segment, view: reply.handle },
                        ),
                    }
                } else if stage != AttachStage::Mapping && !creating {
                    Attach::Acquiring { stage, creating: true, ready, posted, segment }
                } else {
                    Attach::Failed(ChannelError { stage, code: reply.code })
                }
            },
            Attach::Attached(_) => self,
            Attach::Failed(_) => self,
        }
    }

    /// How attaching ended: the channel, or the stage that failed with its
    /// error code; `None` while calls are still pending.
    pub fn outcome(&self) -> (outcome: Option<Result<Channel, ChannelError>>)
        ensures
            outcome == match *self {
                Attach::Acquiring { .. } => None::<Result<Channel, ChannelError>>,
                Attach::Attached(channel) => Some(Ok(channel)),
                Attach::Failed(error) => Some(Err(error)),
            },
            outcome is None <==> self.pending() is Some,
    {
        match *self {
            Attach::Acquiring { .. } => None,
            Attach::Attached(channel) => Some(Ok(channel)),
            Attach::Failed(error) => Some(Err(error)),
        }
    }

    /// The state reached from the start once the platform has answered with
    /// `replies`, in this order.
    pub open spec fn run(replies: Seq<Reply>) -> Attach
        decreases replies.len(),
    {
        if replies.len() == 0 {
            Attach::start()
        } else {
            Attach::run(replies.drop_last()).after(replies.last())
        }
    }

    /// What holds of every state that attaching passes through: the handles
    /// of the stages already done are held, creating is never the attempt
    /// for the mapping, and an attached channel lacks none of its parts.
    pub open spec fn consistent(self) -> bool {
        match self {
            Attach::Acquiring { stage, creating, ready, posted, segment } => match stage {
                AttachStage::ReadySignal => true,
                AttachStage::PostedSignal => ready != 0,
                AttachStage::Segment => ready != 0 && posted != 0,
                AttachStage::Mapping => ready != 0 && posted != 0 && segment != 0 && !creating,
            },
            Attach::Attached(channel) => {
                &&& channel.ready != 0
                &&& channel.posted != 0
                &&& channel.segment != 0
                &&& channel.view != 0
            },
            Attach::Failed(_) => true,
        }
    }

    /// An upper bound on the calls still to be made from this state.
    pub open spec fn calls_left(self) -> nat {
        match self {
            Attach::Acquiring { stage, creating, .. } => {
                let later: nat = match stage {
                    AttachStage::ReadySignal => 5,
                    AttachStage::PostedSignal => 3,
                    AttachStage::Segment => 1,
                    AttachStage::Mapping => 0,
                };
                if stage != AttachStage::Mapping && !creating {
                    later + 2
                } else {
                    later + 1
                }
            },
            Attach::Attached(_) => 0,
            Attach::Failed(_) => 0,
        }
    }
}

/// Where the three named objects exist already, so that each is opened at
/// the first attempt, attaching asks for nothing to be created, takes the
/// handles it was given, and succeeds or fails with the mapping alone.
/// Attaching again after an earlier attach is this case: that the objects
/// exist is never the reason for an error.
pub proof fn lemma_attach_to_existing_objects(
    ready: Reply,
    posted: Reply,
    segment: Reply,
    view: Reply,
)
    requires
        ready.handle != 0,
        posted.handle != 0,
        segment.handle != 0,
    ensures
        Attach::start().pending() == Some(
            AttachRequest::OpenEvent { name: DBWIN_BUFFER_READY, access: EVENT_ALL_ACCESS },
        ),
        Attach::run(seq![ready]).pending() == Some(
            AttachRequest::OpenEvent { name: DBWIN_DATA_READY, access: EVENT_ALL_ACCESS },
        ),
        Attach::run(seq![ready, posted]).pending() == Some(
            AttachRequest::OpenMapping { name: DBWIN_BUFFER, access: FILE_MAP_READ },
        ),
        Attach::run(seq![ready, posted, segment]).pending() == Some(
            AttachRequest::MapView {
                segment: segment.handle,
                access: FILE_MAP_READ,
                length: BUF_SIZE,
            },
        ),
        Attach::run(seq![ready, posted, segment, view]) == if view.handle != 0 {
            Attach::Attached(
                Channel {
                    ready: ready.handle,
                    posted: posted.handle,
                    segment: segment.handle,
                    view: view.handle,
                },
            )
        } else {
            Attach::Failed(ChannelError { stage: AttachStage::Mapping, code: view.code })
        },
{
    let r1 = seq![ready];
    let r2 = seq![ready, posted];
    let r3 = seq![ready, posted, segment];
    let r4 = seq![ready, posted, segment, view];
    assert(r2.drop_last() =~= r1);
    assert(r3.drop_last() =~= r2);
    assert(r4.drop_last() =~= r3);
    assert(Attach::run(r1.drop_last()) == Attach::start());
}

/// An answer that carries a handle completes the stage whatever code comes
/// with it. Creating an object that somebody else has created in the
/// meantime yields a handle to that object together with a code saying so,
/// and counts as success.
pub proof fn lemma_handle_completes_stage(state: Attach, handle: usize, code: u32, other: u32)
    requires
        handle != 0,
    ensures
        state.after(Reply { handle, code }) == state.after(Reply { handle, code: other }),
        state.pending() is Some ==> !(state.after(Reply { handle, code }) is Failed),
{
}

/// Creating is a fallback: a request to create an object is only ever made
/// right after the request to open that same object has failed.
pub proof fn lemma_create_follows_failed_open(state: Attach, reply: Reply)
    requires
        state.pending() is Some,
    ensures
        state.after(reply).pending() matches Some(AttachRequest::CreateEvent { name, .. })
            ==> reply.handle == 0 && state.pending() == Some(
            AttachRequest::OpenEvent { name, access: EVENT_ALL_ACCESS },
        ),
        state.after(reply).pending() matches Some(AttachRequest::CreateMapping { name, .. })
            ==> reply.handle == 0 && state.pending() == Some(
            AttachRequest::OpenMapping { name, access: FILE_MAP_READ },
        ),
{
}

/// Attaching fails only on an answer without a handle, given either to a
/// request to create or to the request to map; the error then names the
/// stage that was being worked on and carries the answer's code.
pub proof fn lemma_failure_names_stage_and_code(state: Attach, reply: Reply)
    requires
        state.pending() is Some,
        state.after(reply) is Failed,
    ensures
        reply.handle == 0,
        state matches Attach::Acquiring { stage, creating, .. } && (creating || stage
            == AttachStage::Mapping) && state.after(reply) == Attach::Failed(
            ChannelError { stage, code: reply.code },
        ),
{
}

/// The stages are taken in order, none skipped and none repeated: an answer
/// leaves the stage as it is or, where it carries a handle, moves on to the
/// one that follows.
pub proof fn lemma_stages_in_order(state: Attach, reply: Reply)
    requires
        state.pending() is Some,
    ensures
        match (state, state.after(reply)) {
            (Attach::Acquiring { stage, .. }, Attach::Acquiring { stage: next, .. }) => {
                ||| next == stage && reply.handle == 0
                ||| reply.handle != 0 && stage == AttachStage::ReadySignal && next
                    == AttachStage::PostedSignal
                ||| reply.handle != 0 && stage == AttachStage::PostedSignal && next
                    == AttachStage::Segment
                ||| reply.handle != 0 && stage == AttachStage::Segment && next
                    == AttachStage::Mapping
            },
            (Attach::Acquiring { stage, .. }, Attach::Attached(_)) => stage == AttachStage::Mapping
                && reply.handle != 0,
            (Attach::Acquiring { .. }, Attach::Failed(_)) => reply.handle == 0,
            _ => false,
        },
{
}

/// There is no partial channel: whatever the platform answers, the handles
/// of all earlier stages are held while a stage is worked on, and a channel
/// that is attached has both signals, the segment and the view.
pub proof fn lemma_run_is_consistent(replies: Seq<Reply>)
    ensures
        Attach::run(replies).consistent(),
    decreases replies.len(),
{
    if replies.len() > 0 {
        lemma_run_is_consistent(replies.drop_last());
    }
}

/// Once attaching has finished, further answers change nothing.
pub proof fn lemma_finished_is_final(state: Attach, reply: Reply)
    requires
        state.pending() is None,
    ensures
        state.after(reply) == state,
{
}

/// Every answer to a pending call brings the end nearer.
pub proof fn lemma_reply_makes_progress(state: Attach, reply: Reply)
    requires
        state.pending() is Some,
    ensures
        state.after(reply).calls_left() < state.calls_left(),
{
}

/// Attaching finishes within seven calls, whatever the platform answers.
pub proof fn lemma_attach_finishes(replies: Seq<Reply>)
    ensures
        Attach::run(replies).calls_left() + replies.len() <= 7 || Attach::run(replies).pending()
            is None,
        replies.len() >= 7 ==> Attach::run(replies).pending() is None,
    decreases replies.len(),
{
    if replies.len() > 0 {
        let before = Attach::run(replies.drop_last());
        lemma_attach_finishes(replies.drop_last());
        if before.pending() is Some {
            lemma_reply_makes_progress(before, replies.last());
        }
    }
}

} // verus!
