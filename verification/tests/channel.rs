use std::collections::HashSet;

use dbwin_capture::channel::{Attach, AttachRequest, AttachStage, Channel, ChannelError, Reply};
use dbwin_capture::winapi::{
    DBWIN_BUFFER, DBWIN_BUFFER_READY, DBWIN_DATA_READY, EVENT_ALL_ACCESS, FILE_MAP_READ,
    PAGE_READWRITE,
};

const OPEN_READY: AttachRequest =
    AttachRequest::OpenEvent { name: "DBWIN_BUFFER_READY", access: 0x1F0003 };
const CREATE_READY: AttachRequest = AttachRequest::CreateEvent {
    name: "DBWIN_BUFFER_READY",
    manual_reset: false,
    initially_set: false,
};
const OPEN_POSTED: AttachRequest =
    AttachRequest::OpenEvent { name: "DBWIN_DATA_READY", access: 0x1F0003 };
const CREATE_POSTED: AttachRequest = AttachRequest::CreateEvent {
    name: "DBWIN_DATA_READY",
    manual_reset: false,
    initially_set: false,
};
const OPEN_SEGMENT: AttachRequest = AttachRequest::OpenMapping { name: "DBWIN_BUFFER", access: 4 };
const CREATE_SEGMENT: AttachRequest =
    AttachRequest::CreateMapping { name: "DBWIN_BUFFER", protect: 4, size: 4096 };

fn ok(handle: usize) -> Reply {
    Reply { handle, code: 0 }
}

fn failed(code: u32) -> Reply {
    Reply { handle: 0, code }
}

/// A stand-in for the platform's namespace of named objects: opening
/// succeeds for names that exist, creating makes a name exist.
struct Namespace {
    existing: HashSet<&'static str>,
    next_handle: usize,
    calls: Vec<AttachRequest>,
}

impl Namespace {
    fn empty() -> Namespace {
        Namespace { existing: HashSet::new(), next_handle: 0x100, calls: Vec::new() }
    }

    fn fresh_handle(&mut self) -> Reply {
        self.next_handle += 4;
        Reply { handle: self.next_handle, code: 0 }
    }

    fn answer(&mut self, request: AttachRequest) -> Reply {
        self.calls.push(request);
        match request {
            AttachRequest::OpenEvent { name, .. } | AttachRequest::OpenMapping { name, .. } => {
                if self.existing.contains(name) {
                    self.fresh_handle()
                } else {
                    Reply { handle: 0, code: 2 }
                }
            }
            AttachRequest::CreateEvent { name, .. } | AttachRequest::CreateMapping { name, .. } => {
                self.existing.insert(name);
                self.fresh_handle()
            }
            AttachRequest::MapView { .. } => self.fresh_handle(),
        }
    }

    fn attach(&mut self) -> Result<Channel, ChannelError> {
        let mut state = Attach::new();
        while let Some(request) = state.request() {
            let reply = self.answer(request);
            state = state.reply(reply);
        }
        state.outcome().expect("no call is pending")
    }
}

#[test]
fn object_names_and_access_codes_are_the_well_known_ones() {
    assert_eq!(DBWIN_BUFFER_READY, "DBWIN_BUFFER_READY");
    assert_eq!(DBWIN_DATA_READY, "DBWIN_DATA_READY");
    assert_eq!(DBWIN_BUFFER, "DBWIN_BUFFER");
    assert_eq!(EVENT_ALL_ACCESS, 0x1F0003);
    assert_eq!(FILE_MAP_READ, 4);
    assert_eq!(PAGE_READWRITE, 4);
}

#[test]
fn attach_starts_by_opening_the_ready_signal() {
    let state = Attach::new();
    assert_eq!(
        state,
        Attach::Acquiring {
            stage: AttachStage::ReadySignal,
            creating: false,
            ready: 0,
            posted: 0,
            segment: 0
        }
    );
    assert_eq!(state.request(), Some(OPEN_READY));
    assert_eq!(state.outcome(), None);
}

#[test]
fn attach_opens_existing_objects_in_order_and_maps_the_segment() {
    let mut state = Attach::new();
    assert_eq!(state.request(), Some(OPEN_READY));
    state = state.reply(ok(0x10));
    assert_eq!(state.request(), Some(OPEN_POSTED));
    state = state.reply(ok(0x20));
    assert_eq!(state.request(), Some(OPEN_SEGMENT));
    state = state.reply(ok(0x30));
    assert_eq!(
        state.request(),
        Some(AttachRequest::MapView { segment: 0x30, access: 4, length: 4096 })
    );
    assert_eq!(state.outcome(), None);
    state = state.reply(ok(0x7000));
    assert_eq!(state.request(), None);
    assert_eq!(
        state.outcome(),
        Some(Ok(Channel { ready: 0x10, posted: 0x20, segment: 0x30, view: 0x7000 }))
    );
}

#[test]
fn attach_creates_each_object_that_cannot_be_opened() {
    let mut state = Attach::new();
    state = state.reply(failed(2));
    assert_eq!(state.request(), Some(CREATE_READY));
    state = state.reply(ok(0x11));
    assert_eq!(state.request(), Some(OPEN_POSTED));
    state = state.reply(failed(2));
    assert_eq!(state.request(), Some(CREATE_POSTED));
    state = state.reply(ok(0x22));
    assert_eq!(state.request(), Some(OPEN_SEGMENT));
    state = state.reply(failed(2));
    assert_eq!(state.request(), Some(CREATE_SEGMENT));
    state = state.reply(ok(0x33));
    assert_eq!(
        state.request(),
        Some(AttachRequest::MapView { segment: 0x33, access: 4, length: 4096 })
    );
    state = state.reply(ok(0x9000));
    assert_eq!(
        state.outcome(),
        Some(Ok(Channel { ready: 0x11, posted: 0x22, segment: 0x33, view: 0x9000 }))
    );
}

#[test]
fn attach_mixes_opening_and_creating() {
    let mut state = Attach::new();
    state = state.reply(ok(1));
    state = state.reply(failed(2));
    assert_eq!(state.request(), Some(CREATE_POSTED));
    state = state.reply(ok(2));
    state = state.reply(ok(3));
    state = state.reply(ok(4));
    assert_eq!(state.outcome(), Some(Ok(Channel { ready: 1, posted: 2, segment: 3, view: 4 })));
}

#[test]
fn attach_fails_at_the_ready_signal() {
    let state = Attach::new().reply(failed(2)).reply(failed(5));
    assert_eq!(state, Attach::Failed(ChannelError { stage: AttachStage::ReadySignal, code: 5 }));
    assert_eq!(state.request(), None);
    assert_eq!(
        state.outcome(),
        Some(Err(ChannelError { stage: AttachStage::ReadySignal, code: 5 }))
    );
}

#[test]
fn attach_fails_at_the_posted_signal() {
    let state = Attach::new().reply(ok(1)).reply(failed(2)).reply(failed(1314));
    assert_eq!(
        state.outcome(),
        Some(Err(ChannelError { stage: AttachStage::PostedSignal, code: 1314 }))
    );
}

#[test]
fn attach_fails_at_the_segment() {
    let state = Attach::new().reply(ok(1)).reply(ok(2)).reply(failed(2)).reply(failed(8));
    assert_eq!(state.outcome(), Some(Err(ChannelError { stage: AttachStage::Segment, code: 8 })));
}

#[test]
fn attach_fails_at_the_mapping_without_a_second_attempt() {
    let state = Attach::new().reply(ok(1)).reply(ok(2)).reply(ok(3)).reply(failed(6));
    assert_eq!(state.outcome(), Some(Err(ChannelError { stage: AttachStage::Mapping, code: 6 })));
}

#[test]
fn attach_reports_the_code_of_the_failed_creation_not_of_the_failed_opening() {
    let state = Attach::new().reply(failed(2)).reply(failed(5));
    assert_eq!(
        state.outcome(),
        Some(Err(ChannelError { stage: AttachStage::ReadySignal, code: 5 }))
    );
}

#[test]
fn attach_ignores_the_code_that_comes_with_a_handle() {
    let state = Attach::new()
        .reply(Reply { handle: 1, code: 183 })
        .reply(Reply { handle: 2, code: 183 })
        .reply(Reply { handle: 3, code: 183 })
        .reply(Reply { handle: 4, code: 183 });
    assert_eq!(state.outcome(), Some(Ok(Channel { ready: 1, posted: 2, segment: 3, view: 4 })));
}

#[test]
fn finished_attach_takes_no_further_replies() {
    let attached = Attach::new().reply(ok(1)).reply(ok(2)).reply(ok(3)).reply(ok(4));
    assert_eq!(attached.reply(ok(99)), attached);
    assert_eq!(attached.reply(failed(5)), attached);
    let broken = Attach::new().reply(failed(2)).reply(failed(5));
    assert_eq!(broken.reply(ok(99)), broken);
    assert_eq!(broken.reply(failed(7)), broken);
}

#[test]
fn attach_finishes_within_seven_calls() {
    let mut state = Attach::new();
    let replies = [failed(2), ok(1), failed(2), ok(2), failed(2), ok(3), ok(4)];
    let mut calls = 0;
    while state.request().is_some() {
        state = state.reply(replies[calls]);
        calls += 1;
    }
    assert_eq!(calls, 7);
    assert_eq!(state.outcome(), Some(Ok(Channel { ready: 1, posted: 2, segment: 3, view: 4 })));
}

#[test]
fn first_attach_creates_what_is_missing() {
    let mut platform = Namespace::empty();
    let channel = platform.attach().expect("objects can be created");
    assert_eq!(
        platform.calls,
        vec![
            OPEN_READY,
            CREATE_READY,
            OPEN_POSTED,
            CREATE_POSTED,
            OPEN_SEGMENT,
            CREATE_SEGMENT,
            AttachRequest::MapView { segment: channel.segment, access: 4, length: 4096 },
        ]
    );
}

#[test]
fn second_attach_succeeds_on_the_objects_of_the_first() {
    let mut platform = Namespace::empty();
    let first = platform.attach().expect("objects can be created");
    platform.calls.clear();
    let second = platform.attach().expect("existing objects are no error");
    assert_eq!(
        platform.calls,
        vec![
            OPEN_READY,
            OPEN_POSTED,
            OPEN_SEGMENT,
            AttachRequest::MapView { segment: second.segment, access: 4, length: 4096 },
        ]
    );
    assert_ne!(first.view, 0);
    assert_ne!(second.view, 0);
}
