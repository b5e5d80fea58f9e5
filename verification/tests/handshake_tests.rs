use mux_os::{
    capture_terminal_state, client_os_from_termios, server_os_from_termios, ClientInstruction,
    PositionAndSize, ServerInstruction,
};
use nix::pty::openpty;

const WELL_KNOWN_PATH: &str = "/tmp/mux_os_test_well_known.buf";

#[test]
fn handshake_lets_the_server_reach_the_new_client() {
    // The test stands in for two processes: a PTY provides a real terminal
    // whose state both capability sets capture.
    let pty = openpty(None, None).expect("openpty");
    let termios = capture_terminal_state(pty.slave).expect("capture");

    let mut server =
        server_os_from_termios(termios.clone(), WELL_KNOWN_PATH).expect("server endpoint");
    let mut client = client_os_from_termios(termios, &WELL_KNOWN_PATH.as_bytes().to_vec())
        .expect("open well-known endpoint");

    // The client creates its private endpoint and announces it, with its
    // current geometry, on the well-known endpoint.
    let announced_path = client
        .connect_to_server(PositionAndSize::new(120, 40))
        .expect("handshake");

    // The server receives the announcement and registers the endpoint.
    let (msg, _ctx) = server.server_recv().expect("recv announcement");
    match msg {
        ServerInstruction::NewClient(path, geometry) => {
            assert_eq!(path, announced_path);
            assert_eq!(geometry, PositionAndSize::new(120, 40));
            server.add_client_sender(&path).expect("register client");
        },
        other => panic!("expected the new-client announcement, got {:?}", other),
    }

    // After the handshake the server can reach that exact endpoint.
    server
        .send_to_client(&ClientInstruction::Render(b"welcome".to_vec()))
        .expect("send to client");
    let (reply, _ctx) = client.client_recv().expect("client recv");
    assert_eq!(reply, ClientInstruction::Render(b"welcome".to_vec()));

    // And the client can keep talking to the server afterwards.
    client
        .send_to_server(&ServerInstruction::InputBytes(b"ls\n".to_vec()))
        .expect("send input");
    let (msg, _ctx) = server.server_recv().expect("recv input");
    assert_eq!(msg, ServerInstruction::InputBytes(b"ls\n".to_vec()));
}

#[test]
fn server_exit_request_travels_through_the_own_endpoint() {
    let pty = openpty(None, None).expect("openpty");
    let termios = capture_terminal_state(pty.slave).expect("capture");
    let mut server = server_os_from_termios(termios, "/tmp/mux_os_test_exit.buf")
        .expect("server endpoint");
    server.server_exit().expect("exit request");
    let (msg, ctx) = server.server_recv().expect("recv");
    assert_eq!(msg, ServerInstruction::Exit);
    assert_eq!(ctx.len(), 0);
}

#[test]
fn raw_mode_via_the_client_capability_round_trips() {
    let pty = openpty(None, None).expect("openpty");
    let termios = capture_terminal_state(pty.slave).expect("capture");
    let saved = termios.clone();
    let _server = server_os_from_termios(termios.clone(), "/tmp/mux_os_test_raw.buf")
        .expect("server endpoint");
    let client = client_os_from_termios(termios, &b"/tmp/mux_os_test_raw.buf".to_vec())
        .expect("client endpoint");
    client.set_raw_mode(pty.slave).expect("raw");
    let raw = capture_terminal_state(pty.slave).expect("capture raw");
    assert_ne!(raw, saved);
    client.unset_raw_mode(pty.slave).expect("restore");
    let restored = capture_terminal_state(pty.slave).expect("capture restored");
    assert_eq!(restored, saved);
}
