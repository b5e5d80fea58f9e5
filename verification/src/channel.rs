//! The annotated message channel: a shared-memory ring buffer transport that
//! carries, with every message, the error context that was active on the
//! sending thread at the moment of the send.
//!
//! The transport itself is ipmpsc's file-backed ring buffer; this module
//! frames every message with the verified codec of [`crate::codec`], so the
//! payload and its context always travel together. Each sender keeps a ghost
//! log of the frames it has handed to the transport, in order; the contracts
//! of `send` and `update` relate every frame to the payload and the context
//! of the moment it was sent.
use vstd::prelude::*;

use crate::codec::{
    decode_client, decode_server, encode_client, encode_server, spec_encode_client,
    spec_encode_server, wf_client_v, wf_server_v, ClientInstruction, ClientInstructionV,
    ServerInstruction, ServerInstructionV,
};
use crate::errors::{CallKind, ErrorContext, MAX_CONTEXT_CALLS};

verus! {

/// A failure of the shared-memory transport or of frame decoding.
#[derive(Clone, Copy, PartialEq, Eq, Structural, Debug)]
pub enum ChannelError {
    /// The ring buffer could not be created, opened, written or read.
    Transport,
    /// Bytes came off the ring buffer that are not a well-formed frame.
    MalformedFrame,
}

#[verifier::external_type_specification]
#[verifier::external_body]
pub struct ExSharedRingBuffer(ipmpsc::SharedRingBuffer);

#[verifier::external_type_specification]
#[verifier::external_body]
pub struct ExIpcSender(ipmpsc::Sender);

#[verifier::external_type_specification]
#[verifier::external_body]
pub struct ExIpcReceiver(ipmpsc::Receiver);

/// Relies on ipmpsc::SharedRingBuffer::create: creates (or truncates) the
/// file at `path` and initializes a ring buffer of the given capacity in it.
/// Any failure is surfaced as a transport error.
#[verifier::external_body]
pub fn ring_create(path: &str, size_in_bytes: u32) -> (r: Result<
    ipmpsc::SharedRingBuffer,
    ChannelError,
>) {
    ipmpsc::SharedRingBuffer::create(path, size_in_bytes).map_err(|_| ChannelError::Transport)
}

/// Relies on ipmpsc::SharedRingBuffer::create_temp: creates a ring buffer
/// backed by a fresh temporary file and returns that file's path, as bytes,
/// beside the buffer. The path is what a peer passes to `ring_open`.
#[verifier::external_body]
pub fn ring_create_temp(size_in_bytes: u32) -> (r: Result<
    (Vec<u8>, ipmpsc::SharedRingBuffer),
    ChannelError,
>) {
    match ipmpsc::SharedRingBuffer::create_temp(size_in_bytes) {
        Ok((path, buffer)) => Ok((path.into_bytes(), buffer)),
        Err(_) => Err(ChannelError::Transport),
    }
}

/// Relies on ipmpsc::SharedRingBuffer::open: opens the ring buffer that a
/// peer already created at `path` (here given as the path's bytes, as they
/// came off the wire). A path that is not well-formed text, or a file that is
/// not an initialized ring buffer, is a transport error.
#[verifier::external_body]
pub fn ring_open(path: &Vec<u8>) -> (r: Result<ipmpsc::SharedRingBuffer, ChannelError>) {
    match std::str::from_utf8(path) {
        Ok(p) => ipmpsc::SharedRingBuffer::open(p).map_err(|_| ChannelError::Transport),
        Err(_) => Err(ChannelError::Transport),
    }
}

pub assume_specification[ ipmpsc::Sender::new ](buffer: ipmpsc::SharedRingBuffer) -> (r:
    ipmpsc::Sender);

pub assume_specification[ ipmpsc::Receiver::new ](buffer: ipmpsc::SharedRingBuffer) -> (r:
    ipmpsc::Receiver);

pub assume_specification[ <ipmpsc::SharedRingBuffer as Clone>::clone ](
    b: &ipmpsc::SharedRingBuffer,
) -> (r: ipmpsc::SharedRingBuffer);

/// Relies on ipmpsc::Sender::send: serializes the byte frame and places it in
/// the ring buffer as one message, blocking while the buffer is full. The
/// peer observes whole messages only, in the order one sender placed them;
/// nothing of that is visible on this side, so nothing more is stated.
#[verifier::external_body]
fn ring_send(sender: &ipmpsc::Sender, frame: &Vec<u8>) -> (r: Result<(), ChannelError>) {
    sender.send(frame).map_err(|_| ChannelError::Transport)
}

/// Relies on ipmpsc::Receiver::recv: blocks until a whole message is
/// available and returns it. What arrives was put there by some sender in
/// another process, so nothing can be promised of the bytes; the verified
/// decoder gives them meaning afterwards.
#[verifier::external_body]
fn ring_recv(receiver: &ipmpsc::Receiver) -> (r: Result<Vec<u8>, ChannelError>) {
    receiver.recv::<Vec<u8>>().map_err(|_| ChannelError::Transport)
}

/// A sender bound to one shared-memory endpoint, carrying the error context
/// that is attached to every message it sends, and a ghost log of every frame
/// it has handed to the transport, oldest first.
pub struct IpcSenderWithContext {
    sender: ipmpsc::Sender,
    err_ctx: ErrorContext,
    sent: Ghost<Seq<Seq<u8>>>,
}

impl IpcSenderWithContext {
    /// The error context currently attached to outgoing messages.
    pub closed spec fn context(&self) -> Seq<CallKind> {
        self.err_ctx@
    }

    /// Every frame this sender has placed in the ring buffer, in send order.
    pub closed spec fn log(&self) -> Seq<Seq<u8>> {
        self.sent@
    }

    pub closed spec fn wf(&self) -> bool {
        self.err_ctx.wf()
    }

    /// Binds a sender to a shared-memory endpoint; its error context starts
    /// empty and nothing has been sent yet.
    pub fn new(buffer: ipmpsc::SharedRingBuffer) -> (r: IpcSenderWithContext)
        ensures
            r.wf(),
            r.context() == Seq::<CallKind>::empty(),
            r.log() == Seq::<Seq<u8>>::empty(),
    {
        IpcSenderWithContext {
            sender: ipmpsc::Sender::new(buffer),
            err_ctx: ErrorContext::new(),
            sent: Ghost(Seq::empty()),
        }
    }

    /// Replaces this sender's error context. Only messages sent after this
    /// call carry the new context: the log of already-sent frames is
    /// untouched.
    pub fn update(&mut self, ctx: ErrorContext)
        requires
            ctx.wf(),
        ensures
            final(self).wf(),
            final(self).context() == ctx@,
            final(self).log() == old(self).log(),
    {
        self.err_ctx = ctx;
    }

    /// Sends one client-to-server message, paired with the context active at
    /// this moment. On success exactly one frame, `spec_encode_server` of the
    /// payload and the current context, is appended to the log; on failure
    /// nothing is.
    pub fn send_server(&mut self, msg: &ServerInstruction) -> (r: Result<(), ChannelError>)
        requires
            old(self).wf(),
            msg.wf(),
        ensures
            final(self).wf(),
            final(self).context() == old(self).context(),
            r is Ok ==> final(self).log() == old(self).log().push(
                spec_encode_server(msg@, old(self).context()),
            ),
            r is Err ==> final(self).log() == old(self).log(),
    {
        let frame = encode_server(msg, &self.err_ctx);
        match ring_send(&self.sender, &frame) {
            Ok(_) => {
                proof {
                    self.sent@ = self.sent@.push(frame@);
                }
                Ok(())
            },
            Err(e) => Err(e),
        }
    }

    /// Sends one server-to-client message, paired with the context active at
    /// this moment; the log gains exactly that frame on success.
    pub fn send_client(&mut self, msg: &ClientInstruction) -> (r: Result<(), ChannelError>)
        requires
            old(self).wf(),
            msg.wf(),
        ensures
            final(self).wf(),
            final(self).context() == old(self).context(),
            r is Ok ==> final(self).log() == old(self).log().push(
                spec_encode_client(msg@, old(self).context()),
            ),
            r is Err ==> final(self).log() == old(self).log(),
    {
        let frame = encode_client(msg, &self.err_ctx);
        match ring_send(&self.sender, &frame) {
            Ok(_) => {
                proof {
                    self.sent@ = self.sent@.push(frame@);
                }
                Ok(())
            },
            Err(e) => Err(e),
        }
    }
}

/// A receiver bound to one shared-memory endpoint. It blocks in `recv` until
/// a whole frame is available and decodes it with the verified codec, so a
/// payload is never seen without the context it was sent with.
pub struct IpcReceiverWithContext {
    receiver: ipmpsc::Receiver,
}

impl IpcReceiverWithContext {
    pub fn new(buffer: ipmpsc::SharedRingBuffer) -> (r: IpcReceiverWithContext) {
        IpcReceiverWithContext { receiver: ipmpsc::Receiver::new(buffer) }
    }

    /// Receives one client-to-server message. The bytes come from another
    /// process, so all that is promised of the result is what decoding
    /// guarantees: a well-formed payload paired with the well-formed context
    /// that was encoded into the same frame (see `decode_server`).
    pub fn recv_server(&self) -> (r: Result<(ServerInstruction, ErrorContext), ChannelError>)
        ensures
            r matches Ok(mc) ==> mc.0.wf() && mc.1.wf(),
    {
        let bytes = match ring_recv(&self.receiver) {
            Ok(b) => b,
            Err(e) => {
                return Err(e);
            },
        };
        match decode_server(bytes.as_slice()) {
            Some(mc) => Ok(mc),
            None => Err(ChannelError::MalformedFrame),
        }
    }

    /// Receives one server-to-client message; see `recv_server`.
    pub fn recv_client(&self) -> (r: Result<(ClientInstruction, ErrorContext), ChannelError>)
        ensures
            r matches Ok(mc) ==> mc.0.wf() && mc.1.wf(),
    {
        let bytes = match ring_recv(&self.receiver) {
            Ok(b) => b,
            Err(e) => {
                return Err(e);
            },
        };
        match decode_client(bytes.as_slice()) {
            Some(mc) => Ok(mc),
            None => Err(ChannelError::MalformedFrame),
        }
    }
}

/// Messages sent on one sender are logged in send order, each frame carrying
/// the error context active at the moment of its send: after sending `m1`
/// under context `c1`, updating the context to `c2`, and sending `m2`, the
/// first frame still decodes to `(m1, c1)` and the second to `(m2, c2)`. An
/// `update` between two sends therefore changes only later frames; frames
/// already sent are unaffected.
pub proof fn lemma_log_order_and_context(
    log0: Seq<Seq<u8>>,
    m1: ServerInstructionV,
    c1: Seq<CallKind>,
    m2: ServerInstructionV,
    c2: Seq<CallKind>,
)
    requires
        wf_server_v(m1),
        wf_server_v(m2),
        c1.len() <= MAX_CONTEXT_CALLS,
        c2.len() <= MAX_CONTEXT_CALLS,
    ensures
        ({
            let log2 = log0.push(spec_encode_server(m1, c1)).push(spec_encode_server(m2, c2));
            &&& log2.len() == log0.len() + 2
            &&& log2.subrange(0, log0.len() as int) == log0
            &&& crate::codec::spec_decode_server(log2[log0.len() as int]) == Some((m1, c1))
            &&& crate::codec::spec_decode_server(log2[log0.len() as int + 1]) == Some((m2, c2))
        }),
{
    crate::codec::lemma_server_round_trip(m1, c1);
    crate::codec::lemma_server_round_trip(m2, c2);
    let log2 = log0.push(spec_encode_server(m1, c1)).push(spec_encode_server(m2, c2));
    assert(log2.subrange(0, log0.len() as int) =~= log0);
}

/// The general form of the ordering law: however many messages one sender
/// sent, under whatever context was active at each send, the log holds their
/// frames in send order and the i-th frame decodes to exactly the i-th
/// payload with the i-th context — never a later one.
pub proof fn lemma_log_decodes_pointwise(msgs: Seq<ServerInstructionV>, ctxs: Seq<Seq<CallKind>>)
    requires
        msgs.len() == ctxs.len(),
        forall|i: int| 0 <= i < msgs.len() ==> wf_server_v(msgs[i]),
        forall|i: int| 0 <= i < ctxs.len() ==> ctxs[i].len() <= MAX_CONTEXT_CALLS,
    ensures
        ({
            let log = Seq::new(msgs.len(), |i: int| spec_encode_server(msgs[i], ctxs[i]));
            forall|i: int|
                0 <= i < log.len() ==> crate::codec::spec_decode_server(#[trigger] log[i])
                    == Some((msgs[i], ctxs[i]))
        }),
{
    let log = Seq::new(msgs.len(), |i: int| spec_encode_server(msgs[i], ctxs[i]));
    assert forall|i: int| 0 <= i < log.len() implies crate::codec::spec_decode_server(
        #[trigger] log[i],
    ) == Some((msgs[i], ctxs[i])) by {
        crate::codec::lemma_server_round_trip(msgs[i], ctxs[i]);
    }
}

/// The same law for the server-to-client direction.
pub proof fn lemma_client_log_order_and_context(
    log0: Seq<Seq<u8>>,
    m1: ClientInstructionV,
    c1: Seq<CallKind>,
    m2: ClientInstructionV,
    c2: Seq<CallKind>,
)
    requires
        wf_client_v(m1),
        wf_client_v(m2),
        c1.len() <= MAX_CONTEXT_CALLS,
        c2.len() <= MAX_CONTEXT_CALLS,
    ensures
        ({
            let log2 = log0.push(spec_encode_client(m1, c1)).push(spec_encode_client(m2, c2));
            &&& log2.len() == log0.len() + 2
            &&& log2.subrange(0, log0.len() as int) == log0
            &&& crate::codec::spec_decode_client(log2[log0.len() as int]) == Some((m1, c1))
            &&& crate::codec::spec_decode_client(log2[log0.len() as int + 1]) == Some((m2, c2))
        }),
{
    crate::codec::lemma_client_round_trip(m1, c1);
    crate::codec::lemma_client_round_trip(m2, c2);
    let log2 = log0.push(spec_encode_client(m1, c1)).push(spec_encode_client(m2, c2));
    assert(log2.subrange(0, log0.len() as int) =~= log0);
}

} // verus!
