//! Terminal mode control: capturing the terminal's attribute set, switching
//! a descriptor into raw mode, and restoring a previously captured set.
//!
//! The attribute set itself is carried opaquely, but its four mode words —
//! what raw mode is about — are read out as plain values, so entering raw
//! mode can promise exactly which processing was switched off. The bit
//! values are the POSIX/Linux termios bits; this layer is tied to that
//! terminal model throughout.
use vstd::prelude::*;

verus! {

/// An error from a terminal or process control call: the raw OS errno.
#[derive(Clone, Copy, PartialEq, Eq, Structural, Debug)]
pub struct OsError {
    pub errno: i32,
}

/// Where entering raw mode failed.
#[derive(Clone, Copy, PartialEq, Eq, Structural, Debug)]
pub enum RawModeError {
    /// The attribute set could not be read. No set was handed to the OS, so
    /// the terminal's mode is untouched.
    Capture(OsError),
    /// The raw set could not be applied.
    Apply(OsError),
}

// Local-word bits (termios c_lflag).
pub const ISIG: u64 = 0x1;

pub const ICANON: u64 = 0x2;

pub const ECHO: u64 = 0x8;

pub const ECHONL: u64 = 0x40;

pub const IEXTEN: u64 = 0x8000;

// Input-word bits (termios c_iflag).
pub const IGNBRK: u64 = 0x1;

pub const BRKINT: u64 = 0x2;

pub const PARMRK: u64 = 0x8;

pub const ISTRIP: u64 = 0x20;

pub const INLCR: u64 = 0x40;

pub const IGNCR: u64 = 0x80;

pub const ICRNL: u64 = 0x100;

pub const IXON: u64 = 0x400;

// Output-word bit (termios c_oflag).
pub const OPOST: u64 = 0x1;

// Control-word bits (termios c_cflag).
pub const CSIZE: u64 = 0x30;

pub const PARENB: u64 = 0x100;

pub const CS8: u64 = 0x30;

/// The local-word flags raw mode switches off: echo and canonical (line
/// buffered) input, signal generation from control bytes, and extended
/// input processing.
pub const RAW_LOCAL_CLEARED: u64 = ECHO | ECHONL | ICANON | ISIG | IEXTEN;

/// The input-word flags raw mode switches off: break, parity and strip
/// handling, newline translation, and output flow control.
pub const RAW_INPUT_CLEARED: u64 = IGNBRK | BRKINT | PARMRK | ISTRIP | INLCR | IGNCR | ICRNL
    | IXON;

/// The four mode words of a terminal attribute set, as plain values.
#[derive(Clone, Copy, PartialEq, Eq, Structural, Debug)]
pub struct ModeWords {
    pub input: u64,
    pub output: u64,
    pub control: u64,
    pub local: u64,
}

/// What `cfmakeraw` does to the mode words, as termios(3) documents it:
/// the raw-mode input and local flags and output post-processing are
/// cleared, and the character size becomes eight bits with parity disabled.
pub open spec fn raw_transform(w: ModeWords) -> ModeWords {
    ModeWords {
        input: w.input & !RAW_INPUT_CLEARED,
        output: w.output & !OPOST,
        control: (w.control & !(CSIZE | PARENB)) | CS8,
        local: w.local & !RAW_LOCAL_CLEARED,
    }
}

/// A set whose words deliver keystrokes byte-for-byte: no canonical input,
/// no echo, no signal-generating control bytes, no input translation, no
/// output post-processing.
pub open spec fn raw_flags_cleared(w: ModeWords) -> bool {
    &&& w.local & RAW_LOCAL_CLEARED == 0
    &&& w.input & RAW_INPUT_CLEARED == 0
    &&& w.output & OPOST == 0
}

/// The raw transform always leaves every raw-mode flag cleared.
pub proof fn lemma_raw_transform_clears(w: ModeWords)
    ensures
        raw_flags_cleared(raw_transform(w)),
{
    let l = w.local;
    let i = w.input;
    let o = w.output;
    let ml = RAW_LOCAL_CLEARED;
    let mi = RAW_INPUT_CLEARED;
    let mo = OPOST;
    assert((l & !ml) & ml == 0) by (bit_vector);
    assert((i & !mi) & mi == 0) by (bit_vector);
    assert((o & !mo) & mo == 0) by (bit_vector);
}

/// One entry into raw mode: the mode words captured from the descriptor and
/// the mode words of the set that was applied to it.
#[derive(Clone, Copy, PartialEq, Eq, Structural, Debug)]
pub struct RawModeTransition {
    pub captured: ModeWords,
    pub applied: ModeWords,
}

#[verifier::external_type_specification]
#[verifier::external_body]
pub struct ExTermios(nix::sys::termios::Termios);

/// Relies on nix::sys::termios::tcgetattr: returns the current attribute set
/// of the terminal `fd` refers to, or the errno when it is not a terminal.
#[verifier::external_body]
pub fn capture_terminal_state(fd: i32) -> (r: Result<nix::sys::termios::Termios, OsError>) {
    nix::sys::termios::tcgetattr(fd).map_err(|e| OsError { errno: e as i32 })
}

/// Relies on nix::sys::termios::Termios's Clone: an attribute set is an
/// immutable snapshot, copied whenever it is applied to a descriptor.
pub assume_specification[ <nix::sys::termios::Termios as Clone>::clone ](
    t: &nix::sys::termios::Termios,
) -> (r: nix::sys::termios::Termios);

/// Relies on nix::sys::termios::cfmakeraw (libc's cfmakeraw underneath):
/// per termios(3) it clears IGNBRK, BRKINT, PARMRK, ISTRIP, INLCR, IGNCR,
/// ICRNL and IXON in the input word, OPOST in the output word, and ECHO,
/// ECHONL, ICANON, ISIG and IEXTEN in the local word, and sets the character
/// size to CS8 with parity disabled — exactly `raw_transform`. Returns the
/// mode words before and after; the control characters it also touches are
/// not modelled.
#[verifier::external_body]
fn make_raw(t: &mut nix::sys::termios::Termios) -> (r: (ModeWords, ModeWords))
    ensures
        r.1 == raw_transform(r.0),
{
    let before = ModeWords {
        input: t.input_flags.bits() as u64,
        output: t.output_flags.bits() as u64,
        control: t.control_flags.bits() as u64,
        local: t.local_flags.bits() as u64,
    };
    nix::sys::termios::cfmakeraw(t);
    let after = ModeWords {
        input: t.input_flags.bits() as u64,
        output: t.output_flags.bits() as u64,
        control: t.control_flags.bits() as u64,
        local: t.local_flags.bits() as u64,
    };
    (before, after)
}

/// Relies on nix::sys::termios::tcsetattr with TCSANOW, as every caller in
/// this system applies attribute changes immediately.
#[verifier::external_body]
fn apply_terminal_state(fd: i32, t: &nix::sys::termios::Termios) -> (r: Result<(), OsError>) {
    nix::sys::termios::tcsetattr(fd, nix::sys::termios::SetArg::TCSANOW, t).map_err(
        |e| OsError { errno: e as i32 },
    )
}

/// Relies on nix::sys::termios::tcdrain: blocks until everything written to
/// `fd` has been transmitted.
#[verifier::external_body]
pub(crate) fn drain_terminal(fd: i32) -> (r: Result<(), OsError>) {
    nix::sys::termios::tcdrain(fd).map_err(|e| OsError { errno: e as i32 })
}

/// Puts the terminal `fd` refers to into raw mode: captures its current
/// attribute set, rewrites that set to raw, and applies it immediately. On
/// success the set applied to `fd` is exactly the raw transform of the set
/// just captured from it, so canonical input, echo, signal generation and
/// input/output processing are all off and keystrokes reach the process
/// byte-for-byte. A descriptor whose attributes cannot be read fails as
/// `Capture`, before any attribute set is handed to the OS.
pub fn into_raw_mode(fd: i32) -> (r: Result<RawModeTransition, RawModeError>)
    ensures
        r matches Ok(tr) ==> tr.applied == raw_transform(tr.captured) && raw_flags_cleared(
            tr.applied,
        ),
{
    let mut t = match capture_terminal_state(fd) {
        Ok(t) => t,
        Err(e) => {
            return Err(RawModeError::Capture(e));
        },
    };
    let (captured, applied) = make_raw(&mut t);
    proof {
        lemma_raw_transform_clears(captured);
    }
    match apply_terminal_state(fd, &t) {
        Ok(_) => Ok(RawModeTransition { captured, applied }),
        Err(e) => Err(RawModeError::Apply(e)),
    }
}

/// Restores a previously captured attribute set to `fd`, leaving raw mode.
/// Every process that entered raw mode must reach this on every exit path.
pub fn unset_raw_mode(fd: i32, saved: &nix::sys::termios::Termios) -> (r: Result<(), OsError>) {
    apply_terminal_state(fd, saved)
}

} // verus!
