//! The client-side OS capability set: the saved terminal state, raw-mode
//! control of the user's terminal, a sender to the server's well-known
//! endpoint, and, after the handshake, the client's private receiver.
use vstd::prelude::*;

use crate::channel::{
    ring_create_temp, ring_open, ChannelError, IpcReceiverWithContext, IpcSenderWithContext,
};
use crate::codec::{copy_range, spec_encode_server, ClientInstruction, ServerInstruction,
    ServerInstructionV};
use crate::errors::{CallKind, ErrorContext};
use crate::geometry::PositionAndSize;
use crate::server::{SetupError, IPC_BUFFER_SIZE};
use crate::terminal::{
    capture_terminal_state, into_raw_mode, unset_raw_mode, OsError, RawModeError,
    RawModeTransition,
};

verus! {

/// The client process's handle on the operating system: the terminal state
/// saved at startup (restored on every exit path), a sender bound to the
/// server's well-known inbound endpoint, and, once connected, the receiver
/// of this client's private endpoint.
pub struct ClientOsInputOutput {
    orig_termios: nix::sys::termios::Termios,
    server_sender: IpcSenderWithContext,
    client_receiver: Option<IpcReceiverWithContext>,
}

impl ClientOsInputOutput {
    /// Frames this client placed on the server's endpoint, in send order.
    pub closed spec fn server_log(&self) -> Seq<Seq<u8>> {
        self.server_sender.log()
    }

    pub closed spec fn server_context(&self) -> Seq<CallKind> {
        self.server_sender.context()
    }

    /// Whether the handshake has bound a private inbound endpoint.
    pub closed spec fn has_receiver(&self) -> bool {
        self.client_receiver is Some
    }

    pub closed spec fn wf(&self) -> bool {
        self.server_sender.wf()
    }

    /// Whether the handshake has bound the private endpoint; `client_recv`
    /// may be called only when it has.
    pub fn receiver_bound(&self) -> (r: bool)
        ensures
            r == self.has_receiver(),
    {
        self.client_receiver.is_some()
    }

    /// Puts the terminal `fd` refers to into raw mode: on success the set
    /// applied is exactly the raw transform of the set just captured from
    /// `fd`, so every keystroke reaches this process unprocessed; a
    /// descriptor whose attributes cannot be read fails before any set is
    /// handed to the OS (see `into_raw_mode`).
    pub fn set_raw_mode(&self, fd: i32) -> (r: Result<RawModeTransition, RawModeError>)
        ensures
            r matches Ok(tr) ==> tr.applied == crate::terminal::raw_transform(tr.captured)
                && crate::terminal::raw_flags_cleared(tr.applied),
    {
        into_raw_mode(fd)
    }

    /// Restores the attribute set saved at startup to `fd`, leaving raw
    /// mode; called on every exit path so the user's shell is not left raw.
    pub fn unset_raw_mode(&self, fd: i32) -> (r: Result<(), OsError>) {
        unset_raw_mode(fd, &self.orig_termios)
    }

    /// Sends one message to the server, paired with the context active at
    /// this moment; on success exactly that frame is appended to the log.
    pub fn send_to_server(&mut self, msg: &ServerInstruction) -> (r: Result<(), ChannelError>)
        requires
            old(self).wf(),
            msg.wf(),
        ensures
            final(self).wf(),
            final(self).server_context() == old(self).server_context(),
            final(self).has_receiver() == old(self).has_receiver(),
            r is Ok ==> final(self).server_log() == old(self).server_log().push(
                spec_encode_server(msg@, old(self).server_context()),
            ),
            r is Err ==> final(self).server_log() == old(self).server_log(),
    {
        self.server_sender.send_server(msg)
    }

    /// Refreshes the error context attached to everything this client sends;
    /// frames already sent are untouched.
    pub fn update_senders(&mut self, new_ctx: ErrorContext)
        requires
            old(self).wf(),
            new_ctx.wf(),
        ensures
            final(self).wf(),
            final(self).server_context() == new_ctx@,
            final(self).server_log() == old(self).server_log(),
            final(self).has_receiver() == old(self).has_receiver(),
    {
        self.server_sender.update(new_ctx);
    }

    /// Blocks until the server placed a whole frame on this client's private
    /// endpoint and decodes it; the payload comes with the context it was
    /// sent with. Callable only after the handshake bound the endpoint.
    pub fn client_recv(&self) -> (r: Result<(ClientInstruction, ErrorContext), ChannelError>)
        requires
            self.has_receiver(),
        ensures
            r matches Ok(mc) ==> mc.0.wf() && mc.1.wf(),
    {
        match &self.client_receiver {
            Some(receiver) => receiver.recv_client(),
            None => Err(ChannelError::Transport),
        }
    }

    /// The connection handshake: creates a fresh private endpoint, announces
    /// `(endpoint path, terminal geometry)` to the server, and keeps the
    /// endpoint's receiving half. On success the announcement frame — the
    /// path that is also returned, paired with this client's current context
    /// — is exactly what was appended to the log, and the private receiver
    /// is bound. On failure nothing changes: no frame is logged and the
    /// receiver binding is as it was.
    pub fn connect_to_server(&mut self, full_screen_ws: PositionAndSize) -> (r: Result<
        Vec<u8>,
        ChannelError,
    >)
        requires
            old(self).wf(),
        ensures
            final(self).wf(),
            final(self).server_context() == old(self).server_context(),
            r matches Ok(path) ==> final(self).has_receiver() && final(self).server_log() == old(
                self,
            ).server_log().push(
                spec_encode_server(
                    ServerInstructionV::NewClient(path@, full_screen_ws),
                    old(self).server_context(),
                ),
            ),
            r is Err ==> final(self).server_log() == old(self).server_log() && final(self).has_receiver() == old(self).has_receiver(),
    {
        let (path, buffer) = match ring_create_temp(IPC_BUFFER_SIZE) {
            Ok(pb) => pb,
            Err(e) => {
                return Err(e);
            },
        };
        if path.len() > u32::MAX as usize {
            return Err(ChannelError::Transport);
        }
        let announced = copy_range(path.as_slice(), 0, path.len());
        let msg = ServerInstruction::NewClient(path, full_screen_ws);
        proof {
            assert(announced@ =~= msg@->NewClient_0);
        }
        match self.server_sender.send_server(&msg) {
            Ok(_) => {
                // Binding the receiver after the announcement loses nothing:
                // the endpoint's cursors live in the shared buffer itself.
                self.client_receiver = Some(IpcReceiverWithContext::new(buffer));
                Ok(announced)
            },
            Err(e) => Err(e),
        }
    }
}

/// Builds the client capability around an already-captured terminal state:
/// opens the server's well-known inbound endpoint (its path given as bytes)
/// and binds a sender to it. No private receiver exists until the handshake.
pub fn client_os_from_termios(orig_termios: nix::sys::termios::Termios, path: &Vec<u8>) -> (r:
    Result<ClientOsInputOutput, ChannelError>)
    ensures
        r matches Ok(c) ==> c.wf() && !c.has_receiver() && c.server_log()
            == Seq::<Seq<u8>>::empty() && c.server_context() == Seq::<CallKind>::empty(),
{
    match ring_open(path) {
        Ok(buffer) => Ok(
            ClientOsInputOutput {
                orig_termios,
                server_sender: IpcSenderWithContext::new(buffer),
                client_receiver: None,
            },
        ),
        Err(e) => Err(e),
    }
}

/// The client's startup entry: captures the controlling terminal's state
/// from descriptor 0 and opens the server's well-known endpoint. A terminal
/// whose attributes cannot be read fails before any terminal mode changes.
pub fn get_client_os_input(path: &Vec<u8>) -> (r: Result<ClientOsInputOutput, SetupError>)
    ensures
        r matches Ok(c) ==> c.wf() && !c.has_receiver() && c.server_log()
            == Seq::<Seq<u8>>::empty() && c.server_context() == Seq::<CallKind>::empty(),
{
    match capture_terminal_state(0) {
        Ok(t) => match client_os_from_termios(t, path) {
            Ok(c) => Ok(c),
            Err(e) => Err(SetupError::Channel(e)),
        },
        Err(e) => Err(SetupError::Terminal(e)),
    }
}

} // verus!
