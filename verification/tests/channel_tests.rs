use mux_os::{
    ring_create_temp, CallKind, ChannelError, ErrorContext, IpcReceiverWithContext,
    IpcSenderWithContext, ServerInstruction,
};

const TEST_BUFFER_SIZE: u32 = 65536;

fn ctx_of(kinds: &[CallKind]) -> ErrorContext {
    let mut ctx = ErrorContext::new();
    for k in kinds {
        ctx.add_call(*k);
    }
    ctx
}

#[test]
fn recv_yields_messages_in_send_order_with_their_contexts() {
    let (_path, buffer) = ring_create_temp(TEST_BUFFER_SIZE).expect("create endpoint");
    let mut sender = IpcSenderWithContext::new(buffer.clone());
    let receiver = IpcReceiverWithContext::new(buffer);

    sender.update(ctx_of(&[CallKind::StdinHandler]));
    sender
        .send_server(&ServerInstruction::InputBytes(b"first".to_vec()))
        .expect("send");
    sender.update(ctx_of(&[CallKind::Screen, CallKind::IpcClient]));
    sender
        .send_server(&ServerInstruction::InputBytes(b"second".to_vec()))
        .expect("send");
    sender.send_server(&ServerInstruction::Exit).expect("send");

    let (m1, c1) = receiver.recv_server().expect("recv");
    assert_eq!(m1, ServerInstruction::InputBytes(b"first".to_vec()));
    assert_eq!(c1.calls(), &vec![CallKind::StdinHandler]);

    let (m2, c2) = receiver.recv_server().expect("recv");
    assert_eq!(m2, ServerInstruction::InputBytes(b"second".to_vec()));
    assert_eq!(c2.calls(), &vec![CallKind::Screen, CallKind::IpcClient]);

    let (m3, c3) = receiver.recv_server().expect("recv");
    assert_eq!(m3, ServerInstruction::Exit);
    assert_eq!(c3.calls(), &vec![CallKind::Screen, CallKind::IpcClient]);
}

#[test]
fn context_update_is_not_retroactive() {
    let (_path, buffer) = ring_create_temp(TEST_BUFFER_SIZE).expect("create endpoint");
    let mut sender = IpcSenderWithContext::new(buffer.clone());
    let receiver = IpcReceiverWithContext::new(buffer);

    sender.update(ctx_of(&[CallKind::Pty]));
    sender
        .send_server(&ServerInstruction::InputBytes(b"sent under the old context".to_vec()))
        .expect("send");
    // The update happens after the first send: the message already in the
    // buffer must keep the context it was sent with.
    sender.update(ctx_of(&[CallKind::SignalHandler]));

    let (_m1, c1) = receiver.recv_server().expect("recv");
    assert_eq!(c1.calls(), &vec![CallKind::Pty]);
}

#[test]
fn messages_stay_whole_across_two_channels() {
    // Two independent senders into two independent channels, sends
    // alternating between them: every message must come out whole, never
    // mixed with bytes of a message from the other channel.
    let (_path_one, buffer1) = ring_create_temp(TEST_BUFFER_SIZE).expect("create endpoint");
    let (_path_two, buffer2) = ring_create_temp(TEST_BUFFER_SIZE).expect("create endpoint");
    let mut s1 = IpcSenderWithContext::new(buffer1.clone());
    let mut s2 = IpcSenderWithContext::new(buffer2.clone());
    let r1 = IpcReceiverWithContext::new(buffer1);
    let r2 = IpcReceiverWithContext::new(buffer2);

    let payload_a = vec![0xAAu8; 4096];
    let payload_b = vec![0xBBu8; 4096];
    for _ in 0..3 {
        s1.send_server(&ServerInstruction::InputBytes(payload_a.clone()))
            .expect("send");
        s2.send_server(&ServerInstruction::InputBytes(payload_b.clone()))
            .expect("send");
    }
    for _ in 0..3 {
        let (m1, _) = r1.recv_server().expect("recv");
        assert_eq!(m1, ServerInstruction::InputBytes(payload_a.clone()));
        let (m2, _) = r2.recv_server().expect("recv");
        assert_eq!(m2, ServerInstruction::InputBytes(payload_b.clone()));
    }
}

#[test]
fn two_senders_into_one_channel_keep_messages_whole() {
    let (_path, buffer) = ring_create_temp(TEST_BUFFER_SIZE).expect("create endpoint");
    let mut s1 = IpcSenderWithContext::new(buffer.clone());
    let mut s2 = IpcSenderWithContext::new(buffer.clone());
    let receiver = IpcReceiverWithContext::new(buffer);

    s1.update(ctx_of(&[CallKind::IpcServer]));
    s2.update(ctx_of(&[CallKind::IpcClient]));
    s1.send_server(&ServerInstruction::InputBytes(vec![1u8; 2000])).expect("send");
    s2.send_server(&ServerInstruction::InputBytes(vec![2u8; 2000])).expect("send");

    let (m1, c1) = receiver.recv_server().expect("recv");
    assert_eq!(m1, ServerInstruction::InputBytes(vec![1u8; 2000]));
    assert_eq!(c1.calls(), &vec![CallKind::IpcServer]);
    let (m2, c2) = receiver.recv_server().expect("recv");
    assert_eq!(m2, ServerInstruction::InputBytes(vec![2u8; 2000]));
    assert_eq!(c2.calls(), &vec![CallKind::IpcClient]);
}

#[test]
fn garbage_on_the_wire_is_a_malformed_frame() {
    let (_path, buffer) = ring_create_temp(TEST_BUFFER_SIZE).expect("create endpoint");
    let raw_sender = ipmpsc::Sender::new(buffer.clone());
    let receiver = IpcReceiverWithContext::new(buffer);
    // Bytes that no encoder produced: context length 255 is over capacity.
    raw_sender.send(&vec![255u8, 0, 0]).expect("raw send");
    let r = receiver.recv_server();
    assert_eq!(r, Err(ChannelError::MalformedFrame));
}

#[test]
fn opening_a_missing_endpoint_fails() {
    let r = mux_os::ring_open(&b"/tmp/mux_os_no_such_endpoint.buf".to_vec());
    assert!(matches!(r, Err(ChannelError::Transport)));
}
