use mux_os::{capture_terminal_state, into_raw_mode, server_os_from_termios, unset_raw_mode};
use nix::pty::openpty;

#[test]
fn raw_mode_round_trip_restores_captured_state() {
    let pty = openpty(None, None).expect("openpty");
    let fd = pty.slave;
    let saved = capture_terminal_state(fd).expect("capture");
    into_raw_mode(fd).expect("raw mode");
    let raw = capture_terminal_state(fd).expect("capture raw");
    assert_ne!(raw, saved, "raw mode must change the attribute set");
    unset_raw_mode(fd, &saved).expect("restore");
    let restored = capture_terminal_state(fd).expect("capture restored");
    assert_eq!(restored, saved, "restore must reproduce the captured state");
}

#[test]
fn raw_mode_applies_the_raw_transform() {
    let pty = openpty(None, None).expect("openpty");
    let transition = into_raw_mode(pty.slave).expect("raw mode");
    let applied = transition.applied;
    let captured = transition.captured;
    // The applied set carries none of the raw-mode flags...
    assert_eq!(applied.local & mux_os::RAW_LOCAL_CLEARED, 0);
    assert_eq!(applied.input & mux_os::RAW_INPUT_CLEARED, 0);
    assert_eq!(applied.output & mux_os::OPOST, 0);
    assert_eq!(applied.control & mux_os::CSIZE, mux_os::CS8);
    assert_eq!(applied.control & mux_os::PARENB, 0);
    // ...and is exactly the transform of the captured one.
    assert_eq!(applied.input, captured.input & !mux_os::RAW_INPUT_CLEARED);
    assert_eq!(applied.output, captured.output & !mux_os::OPOST);
    assert_eq!(applied.local, captured.local & !mux_os::RAW_LOCAL_CLEARED);
    assert_eq!(
        applied.control,
        (captured.control & !(mux_os::CSIZE | mux_os::PARENB)) | mux_os::CS8
    );
    // A fresh PTY is in cooked mode: canonical input and echo were on.
    assert_ne!(captured.local & (mux_os::ICANON | mux_os::ECHO), 0);
}

#[test]
fn capture_fails_on_a_bad_descriptor() {
    let r = capture_terminal_state(-1);
    assert!(r.is_err());
    assert_ne!(r.unwrap_err().errno, 0);
}

#[test]
fn raw_mode_on_a_bad_descriptor_fails_at_capture() {
    // The attribute set cannot be read, so the failure is the capture stage:
    // no set was handed to the OS.
    let r = into_raw_mode(-1);
    assert!(matches!(r, Err(mux_os::RawModeError::Capture(_))));
}

#[test]
fn pty_write_then_read_moves_the_bytes() {
    let pty = openpty(None, None).expect("openpty");
    let termios = capture_terminal_state(pty.slave).expect("capture");
    let server = server_os_from_termios(termios, "/tmp/mux_os_test_tty_io.buf")
        .expect("server endpoint");
    // In cooked mode a full line written to the primary side becomes
    // readable on the secondary side.
    let line = b"hi\n".to_vec();
    let written = server.write_to_tty_stdin(pty.master, &line).expect("write");
    assert_eq!(written, 3);
    server.tcdrain(pty.master).expect("drain");
    let mut buf = vec![0u8; 16];
    let n = server.read_from_tty_stdout(pty.slave, &mut buf).expect("read");
    assert_eq!(n, 3);
    assert_eq!(&buf[..n], b"hi\n");
    assert_eq!(buf.len(), 16, "the buffer keeps its length");
}
