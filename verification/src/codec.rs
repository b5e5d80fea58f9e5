//! Wire format of the annotated message channel.
//!
//! Every message that crosses the process boundary is one frame holding the
//! sender's error context followed by one instruction; the two are encoded
//! and decoded together, so a context is never dropped from a message. The
//! format is fixed here, specified by `spec_encode_*` / `spec_decode_*`, and
//! the two directions are proved to be inverse of each other.
use vstd::prelude::*;

use crate::errors::{CallKind, ErrorContext, MAX_CONTEXT_CALLS};
use crate::geometry::PositionAndSize;

verus! {

/// A message a client sends to the server.
#[derive(Clone, PartialEq, Eq, Debug)]
pub enum ServerInstruction {
    /// Raw keystrokes read from the client's terminal, to be written to a PTY.
    InputBytes(Vec<u8>),
    /// The client's terminal was resized.
    Resize(PositionAndSize),
    /// Handshake: the path of the client's private inbound endpoint and the
    /// client's current terminal geometry.
    NewClient(Vec<u8>, PositionAndSize),
    /// The client asks the server to shut down.
    Exit,
}

/// A message the server sends to a client.
#[derive(Clone, PartialEq, Eq, Debug)]
pub enum ClientInstruction {
    /// Bytes to render on the client's terminal.
    Render(Vec<u8>),
    /// The server tells the client to exit.
    Exit,
}

/// Mathematical model of a [`ServerInstruction`].
pub ghost enum ServerInstructionV {
    InputBytes(Seq<u8>),
    Resize(PositionAndSize),
    NewClient(Seq<u8>, PositionAndSize),
    Exit,
}

/// Mathematical model of a [`ClientInstruction`].
pub ghost enum ClientInstructionV {
    Render(Seq<u8>),
    Exit,
}

impl View for ServerInstruction {
    type V = ServerInstructionV;

    open spec fn view(&self) -> ServerInstructionV {
        match self {
            ServerInstruction::InputBytes(b) => ServerInstructionV::InputBytes(b@),
            ServerInstruction::Resize(ps) => ServerInstructionV::Resize(*ps),
            ServerInstruction::NewClient(p, ps) => ServerInstructionV::NewClient(p@, *ps),
            ServerInstruction::Exit => ServerInstructionV::Exit,
        }
    }
}

impl View for ClientInstruction {
    type V = ClientInstructionV;

    open spec fn view(&self) -> ClientInstructionV {
        match self {
            ClientInstruction::Render(b) => ClientInstructionV::Render(b@),
            ClientInstruction::Exit => ClientInstructionV::Exit,
        }
    }
}

/// A variable-length field of the frame carries its length as four bytes, so
/// an instruction is encodable only while its byte fields fit that prefix.
pub open spec fn wf_server_v(m: ServerInstructionV) -> bool {
    match m {
        ServerInstructionV::InputBytes(b) => b.len() <= u32::MAX,
        ServerInstructionV::Resize(_) => true,
        ServerInstructionV::NewClient(p, _) => p.len() <= u32::MAX,
        ServerInstructionV::Exit => true,
    }
}

pub open spec fn wf_client_v(m: ClientInstructionV) -> bool {
    match m {
        ClientInstructionV::Render(b) => b.len() <= u32::MAX,
        ClientInstructionV::Exit => true,
    }
}

impl ServerInstruction {
    pub open spec fn wf(&self) -> bool {
        wf_server_v(self@)
    }
}

impl ClientInstruction {
    pub open spec fn wf(&self) -> bool {
        wf_client_v(self@)
    }
}

/// The byte that stands for one call-site kind on the wire.
pub open spec fn kind_byte(k: CallKind) -> u8 {
    match k {
        CallKind::Screen => 1,
        CallKind::Pty => 2,
        CallKind::App => 3,
        CallKind::IpcServer => 4,
        CallKind::IpcClient => 5,
        CallKind::StdinHandler => 6,
        CallKind::SignalHandler => 7,
    }
}

/// The call-site kind a wire byte stands for, if any.
pub open spec fn byte_kind(b: u8) -> Option<CallKind> {
    if b == 1 {
        Some(CallKind::Screen)
    } else if b == 2 {
        Some(CallKind::Pty)
    } else if b == 3 {
        Some(CallKind::App)
    } else if b == 4 {
        Some(CallKind::IpcServer)
    } else if b == 5 {
        Some(CallKind::IpcClient)
    } else if b == 6 {
        Some(CallKind::StdinHandler)
    } else if b == 7 {
        Some(CallKind::SignalHandler)
    } else {
        None
    }
}

pub open spec fn enc_u16(x: u16) -> Seq<u8> {
    seq![(x & 0xff) as u8, ((x >> 8) & 0xff) as u8]
}

pub open spec fn dec_u16(b0: u8, b1: u8) -> u16 {
    (b0 as u16) | ((b1 as u16) << 8)
}

pub open spec fn enc_u32(x: u32) -> Seq<u8> {
    seq![
        (x & 0xff) as u8,
        ((x >> 8) & 0xff) as u8,
        ((x >> 16) & 0xff) as u8,
        ((x >> 24) & 0xff) as u8,
    ]
}

pub open spec fn dec_u32(b0: u8, b1: u8, b2: u8, b3: u8) -> u32 {
    (b0 as u32) | ((b1 as u32) << 8) | ((b2 as u32) << 16) | ((b3 as u32) << 24)
}

/// The error context on the wire: its length in one byte, then one byte per
/// recorded call site, oldest first.
pub open spec fn enc_ctx(c: Seq<CallKind>) -> Seq<u8> {
    seq![c.len() as u8] + c.map_values(|k: CallKind| kind_byte(k))
}

/// Decodes a run of call-site bytes; fails if any byte stands for no kind.
pub open spec fn dec_kinds(s: Seq<u8>) -> Option<Seq<CallKind>> {
    if forall|j: int| 0 <= j < s.len() ==> byte_kind(s[j]) is Some {
        Some(
            Seq::new(
                s.len(),
                |j: int|
                    match byte_kind(s[j]) {
                        Some(k) => k,
                        None => CallKind::Screen,
                    },
            ),
        )
    } else {
        None
    }
}

/// The instruction part of a client-to-server frame.
pub open spec fn enc_server_body(m: ServerInstructionV) -> Seq<u8> {
    match m {
        ServerInstructionV::InputBytes(b) => seq![0u8] + enc_u32(b.len() as u32) + b,
        ServerInstructionV::Resize(ps) => seq![1u8] + enc_u16(ps.columns) + enc_u16(ps.rows),
        ServerInstructionV::NewClient(p, ps) => seq![2u8] + enc_u32(p.len() as u32) + p + enc_u16(
            ps.columns,
        ) + enc_u16(ps.rows),
        ServerInstructionV::Exit => seq![3u8],
    }
}

/// The instruction part of a server-to-client frame.
pub open spec fn enc_client_body(m: ClientInstructionV) -> Seq<u8> {
    match m {
        ClientInstructionV::Render(b) => seq![0u8] + enc_u32(b.len() as u32) + b,
        ClientInstructionV::Exit => seq![1u8],
    }
}

/// A whole client-to-server frame: context first, instruction after.
pub open spec fn spec_encode_server(m: ServerInstructionV, c: Seq<CallKind>) -> Seq<u8> {
    enc_ctx(c) + enc_server_body(m)
}

/// A whole server-to-client frame: context first, instruction after.
pub open spec fn spec_encode_client(m: ClientInstructionV, c: Seq<CallKind>) -> Seq<u8> {
    enc_ctx(c) + enc_client_body(m)
}

pub open spec fn dec_server_body(r: Seq<u8>) -> Option<ServerInstructionV> {
    if r.len() < 1 {
        None
    } else if r[0] == 0 {
        if r.len() < 5 {
            None
        } else {
            let len = dec_u32(r[1], r[2], r[3], r[4]) as int;
            if r.len() != 5 + len {
                None
            } else {
                Some(ServerInstructionV::InputBytes(r.subrange(5, 5 + len)))
            }
        }
    } else if r[0] == 1 {
        if r.len() != 5 {
            None
        } else {
            Some(
                ServerInstructionV::Resize(
                    PositionAndSize { columns: dec_u16(r[1], r[2]), rows: dec_u16(r[3], r[4]) },
                ),
            )
        }
    } else if r[0] == 2 {
        if r.len() < 5 {
            None
        } else {
            let len = dec_u32(r[1], r[2], r[3], r[4]) as int;
            if r.len() != 9 + len {
                None
            } else {
                Some(
                    ServerInstructionV::NewClient(
                        r.subrange(5, 5 + len),
                        PositionAndSize {
                            columns: dec_u16(r[5 + len], r[6 + len]),
                            rows: dec_u16(r[7 + len], r[8 + len]),
                        },
                    ),
                )
            }
        }
    } else if r[0] == 3 {
        if r.len() != 1 {
            None
        } else {
            Some(ServerInstructionV::Exit)
        }
    } else {
        None
    }
}

pub open spec fn dec_client_body(r: Seq<u8>) -> Option<ClientInstructionV> {
    if r.len() < 1 {
        None
    } else if r[0] == 0 {
        if r.len() < 5 {
            None
        } else {
            let len = dec_u32(r[1], r[2], r[3], r[4]) as int;
            if r.len() != 5 + len {
                None
            } else {
                Some(ClientInstructionV::Render(r.subrange(5, 5 + len)))
            }
        }
    } else if r[0] == 1 {
        if r.len() != 1 {
            None
        } else {
            Some(ClientInstructionV::Exit)
        }
    } else {
        None
    }
}

/// Splits a frame into context and instruction; fails on any malformed frame.
pub open spec fn dec_frame(b: Seq<u8>) -> Option<(Seq<CallKind>, Seq<u8>)> {
    if b.len() < 1 {
        None
    } else {
        let n = b[0] as int;
        if n > MAX_CONTEXT_CALLS || b.len() < 1 + n {
            None
        } else {
            match dec_kinds(b.subrange(1, 1 + n)) {
                Some(ks) => Some((ks, b.subrange(1 + n, b.len() as int))),
                None => None,
            }
        }
    }
}

pub open spec fn spec_decode_server(b: Seq<u8>) -> Option<(ServerInstructionV, Seq<CallKind>)> {
    match dec_frame(b) {
        None => None,
        Some(fr) => match dec_server_body(fr.1) {
            None => None,
            Some(m) => Some((m, fr.0)),
        },
    }
}

pub open spec fn spec_decode_client(b: Seq<u8>) -> Option<(ClientInstructionV, Seq<CallKind>)> {
    match dec_frame(b) {
        None => None,
        Some(fr) => match dec_client_body(fr.1) {
            None => None,
            Some(m) => Some((m, fr.0)),
        },
    }
}

proof fn lemma_u16_round_trip(x: u16)
    ensures
        dec_u16(enc_u16(x)[0], enc_u16(x)[1]) == x,
{
    assert(((((x & 0xff) as u8) as u16) | (((((x >> 8) & 0xff) as u8) as u16) << 8)) == x)
        by (bit_vector);
}

proof fn lemma_u32_round_trip(x: u32)
    ensures
        dec_u32(enc_u32(x)[0], enc_u32(x)[1], enc_u32(x)[2], enc_u32(x)[3]) == x,
{
    assert(((((x & 0xff) as u8) as u32) | (((((x >> 8) & 0xff) as u8) as u32) << 8) | (((((x
        >> 16) & 0xff) as u8) as u32) << 16) | (((((x >> 24) & 0xff) as u8) as u32) << 24)) == x)
        by (bit_vector);
}

proof fn lemma_kind_byte_inverse(k: CallKind)
    ensures
        byte_kind(kind_byte(k)) == Some(k),
{
}

proof fn lemma_dec_kinds_of_enc(c: Seq<CallKind>)
    ensures
        dec_kinds(c.map_values(|k: CallKind| kind_byte(k))) == Some(c),
{
    let s = c.map_values(|k: CallKind| kind_byte(k));
    assert forall|j: int| 0 <= j < s.len() implies byte_kind(s[j]) is Some by {
        lemma_kind_byte_inverse(c[j]);
    }
    let d = Seq::new(
        s.len(),
        |j: int|
            match byte_kind(s[j]) {
                Some(k) => k,
                None => CallKind::Screen,
            },
    );
    assert forall|j: int| 0 <= j < c.len() implies d[j] == c[j] by {
        lemma_kind_byte_inverse(c[j]);
    }
    assert(d =~= c);
}

proof fn lemma_dec_frame_of_enc(c: Seq<CallKind>, body: Seq<u8>)
    requires
        c.len() <= MAX_CONTEXT_CALLS,
    ensures
        dec_frame(enc_ctx(c) + body) == Some((c, body)),
{
    let e = enc_ctx(c) + body;
    let n = c.len() as int;
    assert(e[0] == c.len() as u8);
    assert(e.len() >= 1 + n);
    assert(e.subrange(1, 1 + n) =~= c.map_values(|k: CallKind| kind_byte(k)));
    lemma_dec_kinds_of_enc(c);
    assert(e.subrange(1 + n, e.len() as int) =~= body);
}

proof fn lemma_server_body_round_trip(m: ServerInstructionV)
    requires
        wf_server_v(m),
    ensures
        dec_server_body(enc_server_body(m)) == Some(m),
{
    match m {
        ServerInstructionV::InputBytes(b) => {
            let e = seq![0u8] + enc_u32(b.len() as u32) + b;
            lemma_u32_round_trip(b.len() as u32);
            assert(dec_u32(e[1], e[2], e[3], e[4]) == b.len() as u32);
            assert(e.len() == 5 + b.len());
            assert(e.subrange(5, 5 + b.len() as int) =~= b);
        },
        ServerInstructionV::Resize(ps) => {
            let e = seq![1u8] + enc_u16(ps.columns) + enc_u16(ps.rows);
            lemma_u16_round_trip(ps.columns);
            lemma_u16_round_trip(ps.rows);
            assert(dec_u16(e[1], e[2]) == ps.columns);
            assert(dec_u16(e[3], e[4]) == ps.rows);
        },
        ServerInstructionV::NewClient(p, ps) => {
            let e = seq![2u8] + enc_u32(p.len() as u32) + p + enc_u16(ps.columns) + enc_u16(
                ps.rows,
            );
            let len = p.len() as int;
            lemma_u32_round_trip(p.len() as u32);
            assert(dec_u32(e[1], e[2], e[3], e[4]) == p.len() as u32);
            assert(e.len() == 9 + len);
            assert(e.subrange(5, 5 + len) =~= p);
            lemma_u16_round_trip(ps.columns);
            lemma_u16_round_trip(ps.rows);
            assert(e[5 + len] == enc_u16(ps.columns)[0]);
            assert(e[6 + len] == enc_u16(ps.columns)[1]);
            assert(e[7 + len] == enc_u16(ps.rows)[0]);
            assert(e[8 + len] == enc_u16(ps.rows)[1]);
        },
        ServerInstructionV::Exit => {
            let e = seq![3u8];
            assert(e.len() == 1);
        },
    }
}

proof fn lemma_client_body_round_trip(m: ClientInstructionV)
    requires
        wf_client_v(m),
    ensures
        dec_client_body(enc_client_body(m)) == Some(m),
{
    match m {
        ClientInstructionV::Render(b) => {
            let e = seq![0u8] + enc_u32(b.len() as u32) + b;
            lemma_u32_round_trip(b.len() as u32);
            assert(dec_u32(e[1], e[2], e[3], e[4]) == b.len() as u32);
            assert(e.len() == 5 + b.len());
            assert(e.subrange(5, 5 + b.len() as int) =~= b);
        },
        ClientInstructionV::Exit => {
            let e = seq![1u8];
            assert(e.len() == 1);
        },
    }
}

fn kind_to_byte(k: CallKind) -> (r: u8)
    ensures
        r == kind_byte(k),
{
    match k {
        CallKind::Screen => 1,
        CallKind::Pty => 2,
        CallKind::App => 3,
        CallKind::IpcServer => 4,
        CallKind::IpcClient => 5,
        CallKind::StdinHandler => 6,
        CallKind::SignalHandler => 7,
    }
}

fn byte_to_kind(b: u8) -> (r: Option<CallKind>)
    ensures
        r == byte_kind(b),
{
    if b == 1 {
        Some(CallKind::Screen)
    } else if b == 2 {
        Some(CallKind::Pty)
    } else if b == 3 {
        Some(CallKind::App)
    } else if b == 4 {
        Some(CallKind::IpcServer)
    } else if b == 5 {
        Some(CallKind::IpcClient)
    } else if b == 6 {
        Some(CallKind::StdinHandler)
    } else if b == 7 {
        Some(CallKind::SignalHandler)
    } else {
        None
    }
}

fn push_u16(out: &mut Vec<u8>, x: u16)
    ensures
        final(out)@ == old(out)@ + enc_u16(x),
{
    proof {
        assert(x & 0xff < 256 && (x >> 8) & 0xff < 256) by (bit_vector);
    }
    out.push((x & 0xff) as u8);
    out.push(((x >> 8) & 0xff) as u8);
    proof {
        assert(out@ =~= old(out)@ + enc_u16(x));
    }
}

fn push_u32(out: &mut Vec<u8>, x: u32)
    ensures
        final(out)@ == old(out)@ + enc_u32(x),
{
    proof {
        assert(x & 0xff < 256 && (x >> 8) & 0xff < 256 && (x >> 16) & 0xff < 256 && (x >> 24)
            & 0xff < 256) by (bit_vector);
    }
    out.push((x & 0xff) as u8);
    out.push(((x >> 8) & 0xff) as u8);
    out.push(((x >> 16) & 0xff) as u8);
    out.push(((x >> 24) & 0xff) as u8);
    proof {
        assert(out@ =~= old(out)@ + enc_u32(x));
    }
}

fn push_bytes(out: &mut Vec<u8>, b: &Vec<u8>)
    ensures
        final(out)@ == old(out)@ + b@,
{
    let mut i: usize = 0;
    while i < b.len()
        invariant
            i <= b.len(),
            out@ == old(out)@ + b@.subrange(0, i as int),
        decreases b.len() - i,
    {
        out.push(b[i]);
        i += 1;
        proof {
            assert(out@ =~= old(out)@ + b@.subrange(0, i as int));
        }
    }
    proof {
        assert(out@ =~= old(out)@ + b@);
    }
}

fn read_u16(b0: u8, b1: u8) -> (r: u16)
    ensures
        r == dec_u16(b0, b1),
{
    (b0 as u16) | ((b1 as u16) << 8)
}

fn read_u32(b0: u8, b1: u8, b2: u8, b3: u8) -> (r: u32)
    ensures
        r == dec_u32(b0, b1, b2, b3),
{
    (b0 as u32) | ((b1 as u32) << 8) | ((b2 as u32) << 16) | ((b3 as u32) << 24)
}

fn push_ctx(out: &mut Vec<u8>, ctx: &ErrorContext)
    requires
        ctx.wf(),
    ensures
        final(out)@ == old(out)@ + enc_ctx(ctx@),
{
    let calls = ctx.calls();
    out.push(calls.len() as u8);
    let mut i: usize = 0;
    while i < calls.len()
        invariant
            i <= calls.len(),
            calls@ == ctx@,
            out@ == old(out)@ + seq![ctx@.len() as u8] + ctx@.subrange(0, i as int).map_values(
                |k: CallKind| kind_byte(k),
            ),
        decreases calls.len() - i,
    {
        out.push(kind_to_byte(calls[i]));
        i += 1;
        proof {
            assert(out@ =~= old(out)@ + seq![ctx@.len() as u8] + ctx@.subrange(
                0,
                i as int,
            ).map_values(|k: CallKind| kind_byte(k)));
        }
    }
    proof {
        assert(ctx@.subrange(0, ctx@.len() as int) =~= ctx@);
        assert(out@ =~= old(out)@ + enc_ctx(ctx@));
    }
}

/// Encodes one client-to-server message together with the error context that
/// is active at this moment; the frame is exactly `spec_encode_server`.
pub fn encode_server(msg: &ServerInstruction, ctx: &ErrorContext) -> (r: Vec<u8>)
    requires
        msg.wf(),
        ctx.wf(),
    ensures
        r@ == spec_encode_server(msg@, ctx@),
{
    let mut out: Vec<u8> = Vec::new();
    push_ctx(&mut out, ctx);
    match msg {
        ServerInstruction::InputBytes(b) => {
            out.push(0);
            push_u32(&mut out, b.len() as u32);
            push_bytes(&mut out, b);
        },
        ServerInstruction::Resize(ps) => {
            out.push(1);
            push_u16(&mut out, ps.columns);
            push_u16(&mut out, ps.rows);
        },
        ServerInstruction::NewClient(p, ps) => {
            out.push(2);
            push_u32(&mut out, p.len() as u32);
            push_bytes(&mut out, p);
            push_u16(&mut out, ps.columns);
            push_u16(&mut out, ps.rows);
        },
        ServerInstruction::Exit => {
            out.push(3);
        },
    }
    proof {
        assert(out@ =~= spec_encode_server(msg@, ctx@));
    }
    out
}

/// Encodes one server-to-client message together with the error context that
/// is active at this moment; the frame is exactly `spec_encode_client`.
pub fn encode_client(msg: &ClientInstruction, ctx: &ErrorContext) -> (r: Vec<u8>)
    requires
        msg.wf(),
        ctx.wf(),
    ensures
        r@ == spec_encode_client(msg@, ctx@),
{
    let mut out: Vec<u8> = Vec::new();
    push_ctx(&mut out, ctx);
    match msg {
        ClientInstruction::Render(b) => {
            out.push(0);
            push_u32(&mut out, b.len() as u32);
            push_bytes(&mut out, b);
        },
        ClientInstruction::Exit => {
            out.push(1);
        },
    }
    proof {
        assert(out@ =~= spec_encode_client(msg@, ctx@));
    }
    out
}

pub(crate) fn copy_range(bytes: &[u8], from: usize, to: usize) -> (r: Vec<u8>)
    requires
        from <= to <= bytes@.len(),
    ensures
        r@ == bytes@.subrange(from as int, to as int),
{
    let mut out: Vec<u8> = Vec::new();
    let mut i: usize = from;
    while i < to
        invariant
            from <= i <= to <= bytes@.len(),
            out@ == bytes@.subrange(from as int, i as int),
        decreases to - i,
    {
        out.push(bytes[i]);
        i += 1;
        proof {
            assert(out@ =~= bytes@.subrange(from as int, i as int));
        }
    }
    out
}

fn decode_ctx(bytes: &[u8]) -> (r: Option<(ErrorContext, usize)>)
    ensures
        match r {
            Some(cp) => {
                &&& cp.1 <= bytes@.len()
                &&& dec_frame(bytes@) == Some(
                    (cp.0@, bytes@.subrange(cp.1 as int, bytes@.len() as int)),
                )
                &&& cp.0.wf()
            },
            None => dec_frame(bytes@) is None,
        },
{
    let blen = bytes.len();
    if blen == 0 {
        return None;
    }
    let n = bytes[0] as usize;
    if n > MAX_CONTEXT_CALLS {
        return None;
    }
    if blen < 1 + n {
        return None;
    }
    let mut ctx = ErrorContext::new();
    let mut i: usize = 0;
    while i < n
        invariant
            i <= n,
            n <= MAX_CONTEXT_CALLS,
            1 + n <= bytes@.len(),
            n == bytes@[0] as usize,
            ctx@.len() == i,
            ctx.wf(),
            forall|j: int| 0 <= j < i ==> byte_kind(bytes@[1 + j]) == Some(ctx@[j]),
        decreases n - i,
    {
        match byte_to_kind(bytes[1 + i]) {
            Some(k) => {
                ctx.add_call(k);
            },
            None => {
                proof {
                    let seg = bytes@.subrange(1, 1 + n as int);
                    assert(seg[i as int] == bytes@[1 + i as int]);
                    assert(byte_kind(seg[i as int]) is None);
                    assert(dec_kinds(seg) is None);
                }
                return None;
            },
        }
        i += 1;
    }
    proof {
        let seg = bytes@.subrange(1, 1 + n as int);
        assert forall|j: int| 0 <= j < seg.len() implies byte_kind(seg[j]) is Some by {
            assert(byte_kind(bytes@[1 + j]) == Some(ctx@[j]));
            assert(seg[j] == bytes@[1 + j]);
        }
        let d = Seq::new(
            seg.len(),
            |j: int|
                match byte_kind(seg[j]) {
                    Some(k) => k,
                    None => CallKind::Screen,
                },
        );
        assert forall|j: int| 0 <= j < seg.len() implies d[j] == ctx@[j] by {
            assert(byte_kind(bytes@[1 + j]) == Some(ctx@[j]));
            assert(seg[j] == bytes@[1 + j]);
        }
        assert(d =~= ctx@);
        assert(dec_kinds(seg) == Some(ctx@));
    }
    Some((ctx, 1 + n))
}

/// Decodes one client-to-server frame. The result is exactly what
/// `spec_decode_server` says the bytes mean; any malformed frame is rejected.
pub fn decode_server(bytes: &[u8]) -> (r: Option<(ServerInstruction, ErrorContext)>)
    ensures
        match r {
            Some(mc) => {
                &&& spec_decode_server(bytes@) == Some((mc.0@, mc.1@))
                &&& mc.0.wf()
                &&& mc.1.wf()
            },
            None => spec_decode_server(bytes@) is None,
        },
{
    let blen = bytes.len();
    let (ctx, p) = match decode_ctx(bytes) {
        Some(cp) => cp,
        None => {
            return None;
        },
    };
    let ghost rest = bytes@.subrange(p as int, blen as int);
    if blen == p {
        return None;
    }
    let tag = bytes[p];
    proof {
        assert(rest[0] == bytes@[p as int]);
    }
    if tag == 0 {
        if blen - p < 5 {
            return None;
        }
        proof {
            assert(rest[1] == bytes@[p + 1]);
            assert(rest[2] == bytes@[p + 2]);
            assert(rest[3] == bytes@[p + 3]);
            assert(rest[4] == bytes@[p + 4]);
        }
        let len = read_u32(bytes[p + 1], bytes[p + 2], bytes[p + 3], bytes[p + 4]) as usize;
        if blen - (p + 5) != len {
            return None;
        }
        let buf = copy_range(bytes, p + 5, blen);
        proof {
            assert(buf@ =~= rest.subrange(5, 5 + len as int));
        }
        Some((ServerInstruction::InputBytes(buf), ctx))
    } else if tag == 1 {
        if blen - p != 5 {
            return None;
        }
        proof {
            assert(rest[1] == bytes@[p + 1]);
            assert(rest[2] == bytes@[p + 2]);
            assert(rest[3] == bytes@[p + 3]);
            assert(rest[4] == bytes@[p + 4]);
        }
        let columns = read_u16(bytes[p + 1], bytes[p + 2]);
        let rows = read_u16(bytes[p + 3], bytes[p + 4]);
        Some((ServerInstruction::Resize(PositionAndSize { columns, rows }), ctx))
    } else if tag == 2 {
        if blen - p < 5 {
            return None;
        }
        proof {
            assert(rest[1] == bytes@[p + 1]);
            assert(rest[2] == bytes@[p + 2]);
            assert(rest[3] == bytes@[p + 3]);
            assert(rest[4] == bytes@[p + 4]);
        }
        let len = read_u32(bytes[p + 1], bytes[p + 2], bytes[p + 3], bytes[p + 4]) as usize;
        if blen - (p + 5) < 4 {
            return None;
        }
        if blen - (p + 5) - 4 != len {
            return None;
        }
        let path = copy_range(bytes, p + 5, blen - 4);
        proof {
            assert(path@ =~= rest.subrange(5, 5 + len as int));
            assert(rest[5 + len as int] == bytes@[blen - 4]);
            assert(rest[6 + len as int] == bytes@[blen - 3]);
            assert(rest[7 + len as int] == bytes@[blen - 2]);
            assert(rest[8 + len as int] == bytes@[blen - 1]);
        }
        let columns = read_u16(bytes[blen - 4], bytes[blen - 3]);
        let rows = read_u16(bytes[blen - 2], bytes[blen - 1]);
        Some((ServerInstruction::NewClient(path, PositionAndSize { columns, rows }), ctx))
    } else if tag == 3 {
        if blen - p != 1 {
            return None;
        }
        Some((ServerInstruction::Exit, ctx))
    } else {
        None
    }
}

/// Decodes one server-to-client frame. The result is exactly what
/// `spec_decode_client` says the bytes mean; any malformed frame is rejected.
pub fn decode_client(bytes: &[u8]) -> (r: Option<(ClientInstruction, ErrorContext)>)
    ensures
        match r {
            Some(mc) => {
                &&& spec_decode_client(bytes@) == Some((mc.0@, mc.1@))
                &&& mc.0.wf()
                &&& mc.1.wf()
            },
            None => spec_decode_client(bytes@) is None,
        },
{
    let blen = bytes.len();
    let (ctx, p) = match decode_ctx(bytes) {
        Some(cp) => cp,
        None => {
            return None;
        },
    };
    let ghost rest = bytes@.subrange(p as int, blen as int);
    if blen == p {
        return None;
    }
    let tag = bytes[p];
    proof {
        assert(rest[0] == bytes@[p as int]);
    }
    if tag == 0 {
        if blen - p < 5 {
            return None;
        }
        proof {
            assert(rest[1] == bytes@[p + 1]);
            assert(rest[2] == bytes@[p + 2]);
            assert(rest[3] == bytes@[p + 3]);
            assert(rest[4] == bytes@[p + 4]);
        }
        let len = read_u32(bytes[p + 1], bytes[p + 2], bytes[p + 3], bytes[p + 4]) as usize;
        if blen - (p + 5) != len {
            return None;
        }
        let buf = copy_range(bytes, p + 5, blen);
        proof {
            assert(buf@ =~= rest.subrange(5, 5 + len as int));
        }
        Some((ClientInstruction::Render(buf), ctx))
    } else if tag == 1 {
        if blen - p != 1 {
            return None;
        }
        Some((ClientInstruction::Exit, ctx))
    } else {
        None
    }
}

/// Round-trip law of the client-to-server direction: a frame always carries
/// its payload and its error context together, and decoding an encoded frame
/// yields exactly the payload and the context that were encoded.
pub proof fn lemma_server_round_trip(m: ServerInstructionV, c: Seq<CallKind>)
    requires
        wf_server_v(m),
        c.len() <= MAX_CONTEXT_CALLS,
    ensures
        spec_decode_server(spec_encode_server(m, c)) == Some((m, c)),
{
    lemma_dec_frame_of_enc(c, enc_server_body(m));
    lemma_server_body_round_trip(m);
}

/// Round-trip law of the server-to-client direction.
pub proof fn lemma_client_round_trip(m: ClientInstructionV, c: Seq<CallKind>)
    requires
        wf_client_v(m),
        c.len() <= MAX_CONTEXT_CALLS,
    ensures
        spec_decode_client(spec_encode_client(m, c)) == Some((m, c)),
{
    lemma_dec_frame_of_enc(c, enc_client_body(m));
    lemma_client_body_round_trip(m);
}

} // verus!
