//! The command surface: an optional executable name, an optional `--wait`
//! switch, and the exit code each way of ending maps to.

use vstd::prelude::*;
use vstd::string::*;
use crate::capture::WaitFailure;
use crate::channel::ChannelError;

verus! {

/// Milliseconds between two attempts to resolve a name that is waited for.
pub const POLL_INTERVAL_MS: u64 = 1000;

/// What the command line asked for.
#[derive(Debug, PartialEq, Eq)]
pub struct AppArgs {
    pub app_name: Option<String>,
    pub wait: bool,
}

/// Whether an argument is the `--wait` switch.
pub open spec fn is_wait_switch(arg: Seq<char>) -> bool {
    arg == "--wait"@
}

/// Reads the argument list, program name first. Any argument equal to
/// `--wait` sets the switch; the first of the others is the executable name,
/// and the rest of them are ignored.
pub fn get_args(args: &Vec<String>) -> (parsed: AppArgs)
    ensures
        parsed.wait <==> exists|i: int| 1 <= i < args.len() && is_wait_switch(#[trigger] args[i]@),
        match parsed.app_name {
            Some(name) => exists|i: int|
                {
                    &&& 1 <= i < args.len()
                    &&& name@ == (#[trigger] args[i])@
                    &&& !is_wait_switch(args[i]@)
                    &&& forall|j: int| 1 <= j < i ==> is_wait_switch(#[trigger] args[j]@)
                },
            None => forall|i: int| 1 <= i < args.len() ==> is_wait_switch(#[trigger] args[i]@),
        },
{
    let switch = String::from_str("--wait");
    let mut app_name: Option<String> = None;
    let mut wait = false;
    let mut i: usize = 1;
    while i < args.len()
        invariant
            1 <= i,
            switch@ == "--wait"@,
            wait <==> exists|k: int|
                1 <= k < i && k < args.len() && is_wait_switch(#[trigger] args[k]@),
            match app_name {
                Some(name) => exists|k: int|
                    {
                        &&& 1 <= k < i
                        &&& k < args.len()
                        &&& name@ == (#[trigger] args[k])@
                        &&& !is_wait_switch(args[k]@)
                        &&& forall|j: int| 1 <= j < k ==> is_wait_switch(#[trigger] args[j]@)
                    },
                None => forall|k: int|
                    1 <= k < i && k < args.len() ==> is_wait_switch(#[trigger] args[k]@),
            },
        decreases args.len() - i,
    {
        if args[i] == switch {
            wait = true;
        } else if app_name.is_none() {
            app_name = Some(args[i].clone());
        }
        i += 1;
    }
    AppArgs { app_name, wait }
}

/// What to do for a command line.
#[derive(Debug, PartialEq, Eq)]
pub enum Plan {
    /// Resolve the name again and again until a process goes by it, then
    /// capture from that process.
    AwaitProcess { app_name: String },
    /// Resolve the name once and capture from that process, or give up if
    /// none goes by it.
    ResolveOnce { app_name: String },
    /// `--wait` was given without a name to wait for: refuse.
    NameRequired,
    /// No name was given: capture from every process.
    CaptureAll,
}

/// Chooses the plan for a parsed command line.
pub fn plan(args: AppArgs) -> (chosen: Plan)
    ensures
        match (args.app_name, args.wait) {
            (Some(name), true) => chosen matches Plan::AwaitProcess { app_name } && app_name@
                == name@,
            (Some(name), false) => chosen matches Plan::ResolveOnce { app_name } && app_name@
                == name@,
            (None, true) => chosen is NameRequired,
            (None, false) => chosen is CaptureAll,
        },
{
    match (args.app_name, args.wait) {
        (Some(app_name), true) => Plan::AwaitProcess { app_name },
        (Some(app_name), false) => Plan::ResolveOnce { app_name },
        (None, true) => Plan::NameRequired,
        (None, false) => Plan::CaptureAll,
    }
}

/// The ways the program ends.
#[derive(Clone, Copy, Debug, PartialEq, Eq, Structural)]
pub enum Outcome {
    /// `--wait` was given without a name.
    NameRequired,
    /// No process goes by the name.
    NotFound,
    /// The channel could not be attached.
    ChannelSetupFailed(ChannelError),
    /// A wait failed and the capture loop closed, releasing the channel.
    LoopClosed(WaitFailure),
}

/// The exit code for an outcome: zero where the capture loop ran and
/// closed, one where the program never got to capture.
pub fn exit_code(outcome: Outcome) -> (code: i32)
    ensures
        code == match outcome {
            Outcome::LoopClosed(_) => 0i32,
            _ => 1i32,
        },
{
    match outcome {
        Outcome::LoopClosed(_) => 0,
        _ => 1,
    }
}

} // verus!
