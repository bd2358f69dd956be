//! The start-up of the bot program: whether to run as a daemon, how to deal with an
//! instance that is already running, with its pid file, and with the daemon's launch,
//! and which gateway events to ask for.

use vstd::prelude::*;

verus! {

/// The command-line argument that asks for daemon mode.
pub const DAEMONIZE_FLAG: &'static str = "-d";

/// Where the daemon keeps its process id.
pub const PID_FILE: &'static str = "/tmp/mordoprojekt.pid";

/// Where the daemon's standard output goes.
pub const STDOUT_FILE: &'static str = "/tmp/mordoprojekt.out";

/// Where the daemon's standard error goes.
pub const STDERR_FILE: &'static str = "/tmp/mordoprojekt.err";

/// The file-mode creation mask of the daemon.
pub const DAEMON_UMASK: u16 = 0o027;

/// Whether the program runs as a daemon: iff one of its arguments is `-d`.
pub fn wants_daemon(args: &Vec<String>) -> (daemon: bool)
    ensures
        daemon == exists|i: int| 0 <= i < args.len() && #[trigger] args[i]@ == DAEMONIZE_FLAG@,
{
    let flag = DAEMONIZE_FLAG.to_string();
    let mut i: usize = 0;
    while i < args.len()
        invariant
            i <= args.len(),
            flag@ == DAEMONIZE_FLAG@,
            forall|j: int| 0 <= j < i ==> #[trigger] args[j]@ != DAEMONIZE_FLAG@,
        decreases args.len() - i,
    {
        if args[i] == flag {
            return true;
        }
        i = i + 1;
    }
    false
}

/// How the daemon is launched: its pid file, where its output goes, its umask.
#[derive(Debug)]
pub struct DaemonSettings {
    pub pid_file: String,
    pub stdout_file: String,
    pub stderr_file: String,
    pub umask: u16,
}

/// The launch settings of the daemon.
pub fn daemon_settings() -> (s: DaemonSettings)
    ensures
        s.pid_file@ == PID_FILE@,
        s.stdout_file@ == STDOUT_FILE@,
        s.stderr_file@ == STDERR_FILE@,
        s.umask == DAEMON_UMASK,
{
    DaemonSettings {
        pid_file: PID_FILE.to_string(),
        stdout_file: STDOUT_FILE.to_string(),
        stderr_file: STDERR_FILE.to_string(),
        umask: DAEMON_UMASK,
    }
}

/// What the search for an instance that is already running found.
#[derive(Debug, Clone, Copy, PartialEq, Eq, Structural)]
pub enum PidSearch {
    /// An instance runs with this process id.
    Found(i32),
    /// No instance runs.
    NoDaemon,
    /// The search failed.
    Failed,
}

/// What removing the pid file came to.
#[derive(Debug, Clone, Copy, PartialEq, Eq, Structural)]
pub enum Removal {
    Removed,
    /// There was no pid file.
    NotFound,
    /// Any other failure.
    Failed,
}

/// What the program does next.
#[derive(Debug, Clone, Copy, PartialEq, Eq, Structural)]
pub enum Verdict {
    /// Go on with the start-up.
    Proceed,
    /// Kill the running instance with this process id, then go on.
    Kill { pid: i32 },
    /// Print the error, then go on.
    WarnAndProceed,
    /// Print the error, then exit with this code.
    FailWith { code: i32 },
}

/// Only one instance runs at a time: one that is already running is killed; a failed
/// search is reported and start-up goes on.
pub fn on_pid_search(found: PidSearch) -> (v: Verdict)
    ensures
        v == match found {
            PidSearch::Found(pid) => Verdict::Kill { pid },
            PidSearch::NoDaemon => Verdict::Proceed,
            PidSearch::Failed => Verdict::WarnAndProceed,
        },
{
    match found {
        PidSearch::Found(pid) => Verdict::Kill { pid },
        PidSearch::NoDaemon => Verdict::Proceed,
        PidSearch::Failed => Verdict::WarnAndProceed,
    }
}

/// No stale pid file may remain: a missing one is fine, a file that cannot be removed
/// stops the program with exit code 1.
pub fn on_pidfile_removal(outcome: Removal) -> (v: Verdict)
    ensures
        v == match outcome {
            Removal::Failed => Verdict::FailWith { code: 1 },
            _ => Verdict::Proceed,
        },
{
    match outcome {
        Removal::Failed => Verdict::FailWith { code: 1 },
        _ => Verdict::Proceed,
    }
}

/// A daemon that cannot be launched stops the program with exit code 1.
pub fn on_daemon_launch(launched: bool) -> (v: Verdict)
    ensures
        v == if launched { Verdict::Proceed } else { Verdict::FailWith { code: 1 } },
{
    if launched {
        Verdict::Proceed
    } else {
        Verdict::FailWith { code: 1 }
    }
}

/// `GatewayIntents::non_privileged().bits()` of the chat library: every intent it
/// defines except the privileged members, presences and message-content ones.
#[verifier::external_body]
fn non_privileged_intents() -> (bits: u64)
    ensures
        bits == 0x0331_7EFD,
{
    serenity::all::GatewayIntents::non_privileged().bits()
}

/// `GatewayIntents::MESSAGE_CONTENT.bits()` of the chat library: bit 15.
#[verifier::external_body]
fn message_content_intent() -> (bits: u64)
    ensures
        bits == 0x8000,
{
    serenity::all::GatewayIntents::MESSAGE_CONTENT.bits()
}

/// The gateway intents the bot asks for: all non-privileged ones and the content of
/// messages, which the chat-thread replies need.
pub fn bot_intents() -> (bits: u64)
    ensures
        bits == 0x0331_7EFD | 0x8000u64,
        bits & 0x8000 == 0x8000,
{
    let bits = non_privileged_intents() | message_content_intent();
    assert((0x0331_7EFDu64 | 0x8000u64) & 0x8000 == 0x8000) by (bit_vector);
    bits
}

} // verus!
