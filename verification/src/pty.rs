//! PTY process management: which program a spawned child execs, the policy
//! of the exit-watch loop that babysits it, and I/O and termination on the
//! PTY's primary descriptor.
//!
//! Forking and exec'ing cannot be expressed here; what is verified is every
//! decision around them: the editor/shell selection (which must fail before
//! any child exists when no editor is configured), the exit-watch policy,
//! and the contracts of the descriptor operations.
use vstd::prelude::*;

use crate::terminal::OsError;

verus! {

/// Which program a freshly spawned PTY child execs.
#[derive(Clone, PartialEq, Eq, Debug)]
pub enum ChildProgram {
    /// An editor opening the given file; `program` is the editor the
    /// environment names.
    Editor { program: Vec<u8>, file: Vec<u8> },
    /// The interactive shell the environment names.
    Shell { program: Vec<u8> },
}

/// Why no child program could be chosen. Both are configuration errors that
/// the user must see before any process is created.
#[derive(Clone, Copy, PartialEq, Eq, Structural, Debug)]
pub enum SpawnError {
    /// A file was to be opened but neither `EDITOR` nor `VISUAL` is set.
    NoEditor,
    /// No file was given and `SHELL` is not set.
    NoShell,
}

/// The editor/shell selection rule: with a file to open, `EDITOR` is
/// preferred and `VISUAL` is the fallback, and with neither set the choice
/// fails; without a file the `SHELL` value is chosen, and its absence fails.
pub open spec fn chosen_program(
    file_to_open: Option<Vec<u8>>,
    editor: Option<Vec<u8>>,
    visual: Option<Vec<u8>>,
    shell: Option<Vec<u8>>,
) -> Result<ChildProgram, SpawnError> {
    match file_to_open {
        Some(file) => match editor {
            Some(program) => Ok(ChildProgram::Editor { program, file }),
            None => match visual {
                Some(program) => Ok(ChildProgram::Editor { program, file }),
                None => Err(SpawnError::NoEditor),
            },
        },
        None => match shell {
            Some(program) => Ok(ChildProgram::Shell { program }),
            None => Err(SpawnError::NoShell),
        },
    }
}

/// Chooses the program a spawned child will exec, from the optional file to
/// open and the values of the `EDITOR`, `VISUAL` and `SHELL` environment
/// variables, exactly as `chosen_program` says. A missing editor when a file
/// was requested, or a missing shell otherwise, is reported as an error —
/// and only then — so the caller fails before any child process exists.
pub fn choose_child_program(
    file_to_open: Option<Vec<u8>>,
    editor: Option<Vec<u8>>,
    visual: Option<Vec<u8>>,
    shell: Option<Vec<u8>>,
) -> (r: Result<ChildProgram, SpawnError>)
    ensures
        r == chosen_program(file_to_open, editor, visual, shell),
        (file_to_open is Some && editor is None && visual is None) <==> r == Err::<
            ChildProgram,
            SpawnError,
        >(SpawnError::NoEditor),
        (file_to_open is None && shell is None) <==> r == Err::<ChildProgram, SpawnError>(
            SpawnError::NoShell,
        ),
{
    match file_to_open {
        Some(file) => match editor {
            Some(program) => Ok(ChildProgram::Editor { program, file }),
            None => match visual {
                Some(program) => Ok(ChildProgram::Editor { program, file }),
                None => Err(SpawnError::NoEditor),
            },
        },
        None => match shell {
            Some(program) => Ok(ChildProgram::Shell { program }),
            None => Err(SpawnError::NoShell),
        },
    }
}

/// What one round of the exit-watch loop observed of the child.
#[derive(Clone, Copy, PartialEq, Eq, Structural, Debug)]
pub enum ChildStatus {
    /// The child has exited on its own.
    Exited,
    /// The child is still running.
    Running,
}

/// What the exit-watch loop must do after one observation.
#[derive(Clone, Copy, PartialEq, Eq, Structural, Debug)]
pub enum ExitAction {
    /// The child is gone: leave the loop.
    Stop,
    /// An interrupt arrived while the child runs: kill it, reap it, then
    /// leave the loop.
    KillChildThenStop,
    /// Nothing happened: sleep one fixed interval and poll again.
    SleepThenPoll,
}

/// The policy of the loop that babysits a spawned child: a child seen to
/// have exited ends the loop; an operator interrupt while it runs makes the
/// loop kill and reap it; otherwise the loop sleeps and polls again. Both
/// termination causes end the loop with the child reaped.
pub fn exit_watch_step(status: ChildStatus, interrupt_pending: bool) -> (a: ExitAction)
    ensures
        status is Exited ==> a == ExitAction::Stop,
        (status is Running && interrupt_pending) ==> a == ExitAction::KillChildThenStop,
        (status is Running && !interrupt_pending) ==> a == ExitAction::SleepThenPoll,
{
    match status {
        ChildStatus::Exited => ExitAction::Stop,
        ChildStatus::Running => if interrupt_pending {
            ExitAction::KillChildThenStop
        } else {
            ExitAction::SleepThenPoll
        },
    }
}

/// Relies on nix::sys::signal::kill: delivers SIGINT to the process `pid`.
#[verifier::external_body]
fn send_interrupt(pid: i32) -> (r: Result<(), OsError>) {
    nix::sys::signal::kill(
        nix::unistd::Pid::from_raw(pid),
        Some(nix::sys::signal::Signal::SIGINT),
    ).map_err(|e| OsError { errno: e as i32 })
}

/// Relies on nix::sys::wait::waitpid with no options: blocks until the
/// process `pid` changes state, reaping it if it exited.
#[verifier::external_body]
fn wait_for(pid: i32) -> (r: Result<(), OsError>) {
    nix::sys::wait::waitpid(nix::unistd::Pid::from_raw(pid), None).map(|_| ()).map_err(
        |e| OsError { errno: e as i32 },
    )
}

/// Terminates the process `pid`: sends it an interrupt and blocks until it
/// is reaped. An `Err` carries the OS errno when the process does not exist
/// or is not a child of the caller; in the single-owner model such a
/// failure is fatal, and the process edge escalates it as one.
pub fn kill_and_wait(pid: i32) -> (r: Result<(), OsError>) {
    match send_interrupt(pid) {
        Ok(_) => wait_for(pid),
        Err(e) => Err(e),
    }
}

/// Relies on nix::unistd::read: places up to `buf.len()` bytes at the start
/// of `buf` and returns how many; the buffer keeps its length and one read
/// writes only that prefix, so every byte at or past the returned count
/// keeps its old value. On a non-blocking descriptor an errno of EAGAIN is
/// an expected outcome that callers poll around.
#[verifier::external_body]
pub(crate) fn pty_read(fd: i32, buf: &mut Vec<u8>) -> (r: Result<usize, OsError>)
    ensures
        final(buf)@.len() == old(buf)@.len(),
        r matches Ok(n) ==> n <= final(buf)@.len() && forall|i: int|
            n <= i < final(buf)@.len() ==> final(buf)@[i] == old(buf)@[i],
{
    nix::unistd::read(fd, buf.as_mut_slice()).map_err(|e| OsError { errno: e as i32 })
}

/// Relies on nix::unistd::write: writes a prefix of `buf` to `fd` and
/// returns how many bytes were taken.
#[verifier::external_body]
pub(crate) fn pty_write(fd: i32, buf: &Vec<u8>) -> (r: Result<usize, OsError>)
    ensures
        r matches Ok(n) ==> n <= buf@.len(),
{
    nix::unistd::write(fd, buf.as_slice()).map_err(|e| OsError { errno: e as i32 })
}

} // verus!
