use mux_os::{
    decode_client, decode_server, encode_client, encode_server, CallKind, ClientInstruction,
    ErrorContext, PositionAndSize, ServerInstruction,
};

fn ctx_of(kinds: &[CallKind]) -> ErrorContext {
    let mut ctx = ErrorContext::new();
    for k in kinds {
        ctx.add_call(*k);
    }
    ctx
}

#[test]
fn server_input_bytes_round_trip() {
    let ctx = ctx_of(&[CallKind::StdinHandler, CallKind::IpcClient]);
    let msg = ServerInstruction::InputBytes(b"echo hello\n".to_vec());
    let frame = encode_server(&msg, &ctx);
    let (m, c) = decode_server(frame.as_slice()).expect("frame must decode");
    assert_eq!(m, msg);
    assert_eq!(c.calls(), ctx.calls());
}

#[test]
fn server_resize_round_trip() {
    let ctx = ctx_of(&[CallKind::Screen]);
    let msg = ServerInstruction::Resize(PositionAndSize::new(203, 51));
    let frame = encode_server(&msg, &ctx);
    let (m, c) = decode_server(frame.as_slice()).expect("frame must decode");
    assert_eq!(m, msg);
    assert_eq!(c.calls(), ctx.calls());
}

#[test]
fn server_new_client_round_trip() {
    let ctx = ctx_of(&[]);
    let msg = ServerInstruction::NewClient(b"/tmp/some.endpoint".to_vec(), PositionAndSize::new(80, 24));
    let frame = encode_server(&msg, &ctx);
    let (m, c) = decode_server(frame.as_slice()).expect("frame must decode");
    assert_eq!(m, msg);
    assert_eq!(c.len(), 0);
}

#[test]
fn server_exit_round_trip() {
    let ctx = ctx_of(&[CallKind::App]);
    let msg = ServerInstruction::Exit;
    let frame = encode_server(&msg, &ctx);
    let (m, c) = decode_server(frame.as_slice()).expect("frame must decode");
    assert_eq!(m, msg);
    assert_eq!(c.calls(), ctx.calls());
}

#[test]
fn client_render_round_trip() {
    let ctx = ctx_of(&[CallKind::Pty, CallKind::Screen, CallKind::IpcServer]);
    let msg = ClientInstruction::Render(vec![0u8, 1, 2, 255, 254]);
    let frame = encode_client(&msg, &ctx);
    let (m, c) = decode_client(frame.as_slice()).expect("frame must decode");
    assert_eq!(m, msg);
    assert_eq!(c.calls(), ctx.calls());
}

#[test]
fn client_exit_round_trip() {
    let ctx = ctx_of(&[CallKind::SignalHandler]);
    let msg = ClientInstruction::Exit;
    let frame = encode_client(&msg, &ctx);
    let (m, c) = decode_client(frame.as_slice()).expect("frame must decode");
    assert_eq!(m, msg);
    assert_eq!(c.calls(), ctx.calls());
}

#[test]
fn exact_frame_bytes() {
    // Context [Pty] is length 1 then the byte 2; the exit instruction is tag 3.
    let frame = encode_server(&ServerInstruction::Exit, &ctx_of(&[CallKind::Pty]));
    assert_eq!(frame, vec![1u8, 2, 3]);
    // Empty context, resize 80x24: tag 1, then two little-endian u16 fields.
    let frame = encode_server(
        &ServerInstruction::Resize(PositionAndSize::new(80, 24)),
        &ctx_of(&[]),
    );
    assert_eq!(frame, vec![0u8, 1, 80, 0, 24, 0]);
    // Render of two bytes: tag 0, four length bytes, then the payload.
    let frame = encode_client(&ClientInstruction::Render(vec![9u8, 8]), &ctx_of(&[]));
    assert_eq!(frame, vec![0u8, 0, 2, 0, 0, 0, 9, 8]);
}

#[test]
fn full_capacity_context_round_trips() {
    let mut ctx = ErrorContext::new();
    for i in 0..12 {
        // More calls than the capacity: the trace keeps the newest ten.
        ctx.add_call(if i % 2 == 0 { CallKind::Pty } else { CallKind::Screen });
    }
    assert_eq!(ctx.len(), mux_os::MAX_CONTEXT_CALLS);
    let msg = ServerInstruction::InputBytes(Vec::new());
    let frame = encode_server(&msg, &ctx);
    let (m, c) = decode_server(frame.as_slice()).expect("frame must decode");
    assert_eq!(m, msg);
    assert_eq!(c.calls(), ctx.calls());
}

#[test]
fn empty_fields_round_trip() {
    let ctx = ErrorContext::new();
    let msg = ServerInstruction::NewClient(Vec::new(), PositionAndSize::new(0, 0));
    let frame = encode_server(&msg, &ctx);
    let (m, _c) = decode_server(frame.as_slice()).expect("frame must decode");
    assert_eq!(m, msg);
    let msg = ClientInstruction::Render(Vec::new());
    let frame = encode_client(&msg, &ctx);
    let (m, _c) = decode_client(frame.as_slice()).expect("frame must decode");
    assert_eq!(m, msg);
}

#[test]
fn malformed_frames_rejected() {
    assert!(decode_server(&[]).is_none());
    // A context byte that stands for no call kind.
    assert!(decode_server(&[1u8, 99, 3]).is_none());
    // A context length larger than the capacity.
    assert!(decode_server(&[11u8, 1, 1, 1, 1, 1, 1, 1, 1, 1, 1, 1, 3]).is_none());
    // A truncated context.
    assert!(decode_server(&[2u8, 1]).is_none());
    // A missing instruction.
    assert!(decode_server(&[1u8, 2]).is_none());
    // An unknown instruction tag.
    assert!(decode_server(&[0u8, 9]).is_none());
    // A payload length that disagrees with the frame length.
    assert!(decode_server(&[0u8, 0, 5, 0, 0, 0, 1, 2]).is_none());
    // Trailing bytes after a complete instruction.
    assert!(decode_server(&[0u8, 3, 0]).is_none());
    assert!(decode_client(&[]).is_none());
    assert!(decode_client(&[0u8, 2]).is_none());
}
