//! The server-side OS capability set: the one owner of every PTY primary
//! descriptor, of the well-known inbound endpoint, and of one outbound
//! sender per connected client.
use vstd::prelude::*;

use crate::channel::{
    ring_create, ring_open, ChannelError, IpcReceiverWithContext, IpcSenderWithContext,
};
use crate::codec::{
    spec_encode_client, spec_encode_server, ClientInstruction, ServerInstruction,
    ServerInstructionV,
};
use crate::errors::{CallKind, ErrorContext};
use crate::pty::{kill_and_wait, pty_read, pty_write};
use crate::terminal::{capture_terminal_state, drain_terminal, OsError};

verus! {

/// Capacity of every shared ring buffer in this system, sized to absorb
/// bursts of PTY output without blocking senders under normal load.
pub const IPC_BUFFER_SIZE: u32 = 8388608;

/// Why a capability set could not be constructed.
#[derive(Clone, Copy, PartialEq, Eq, Structural, Debug)]
pub enum SetupError {
    /// The controlling terminal's attributes could not be read.
    Terminal(OsError),
    /// The shared-memory endpoint could not be created or opened.
    Channel(ChannelError),
}

/// The server process's handle on the operating system: the saved terminal
/// state, a sender and the receiver of the well-known inbound endpoint, and,
/// once a client has registered, the sender of that client's private
/// endpoint.
pub struct ServerOsInputOutput {
    orig_termios: nix::sys::termios::Termios,
    server_sender: IpcSenderWithContext,
    server_receiver: IpcReceiverWithContext,
    client_sender: Option<IpcSenderWithContext>,
}

impl ServerOsInputOutput {
    /// Frames placed on the server's own inbound endpoint, in send order.
    pub closed spec fn server_log(&self) -> Seq<Seq<u8>> {
        self.server_sender.log()
    }

    pub closed spec fn server_context(&self) -> Seq<CallKind> {
        self.server_sender.context()
    }

    /// Whether a client's outbound endpoint has been registered.
    pub closed spec fn has_client(&self) -> bool {
        self.client_sender is Some
    }

    /// Frames placed on the registered client's endpoint, in send order.
    pub closed spec fn client_log(&self) -> Seq<Seq<u8>> {
        self.client_sender->Some_0.log()
    }

    pub closed spec fn client_context(&self) -> Seq<CallKind> {
        self.client_sender->Some_0.context()
    }

    pub closed spec fn wf(&self) -> bool {
        &&& self.server_sender.wf()
        &&& self.client_sender matches Some(s) ==> s.wf()
    }

    /// A copy of the terminal attribute set captured at startup, for a
    /// caller that forks a PTY child with it.
    pub fn terminal_state_snapshot(&self) -> nix::sys::termios::Termios {
        self.orig_termios.clone()
    }

    /// Whether a client endpoint is registered; `send_to_client` may be
    /// called only when it is.
    pub fn client_sender_registered(&self) -> (r: bool)
        ensures
            r == self.has_client(),
    {
        self.client_sender.is_some()
    }

    /// Reads bytes from the PTY `fd` refers to into the start of `buf`: the
    /// buffer keeps its length, only the prefix up to the returned count is
    /// written, and "would block" comes back as an `Err` with the errno — an
    /// expected, retriable outcome on the non-blocking primary descriptor.
    pub fn read_from_tty_stdout(&self, fd: i32, buf: &mut Vec<u8>) -> (r: Result<usize, OsError>)
        ensures
            final(buf)@.len() == old(buf)@.len(),
            r matches Ok(n) ==> n <= final(buf)@.len() && forall|i: int|
                n <= i < final(buf)@.len() ==> final(buf)@[i] == old(buf)@[i],
    {
        pty_read(fd, buf)
    }

    /// Writes a prefix of `buf` to the PTY `fd` refers to; see `pty_write`.
    pub fn write_to_tty_stdin(&self, fd: i32, buf: &Vec<u8>) -> (r: Result<usize, OsError>)
        ensures
            r matches Ok(n) ==> n <= buf@.len(),
    {
        pty_write(fd, buf)
    }

    /// Blocks until everything written to `fd` has been transmitted.
    pub fn tcdrain(&self, fd: i32) -> (r: Result<(), OsError>) {
        drain_terminal(fd)
    }

    /// Terminates the process `pid`: interrupt, then a blocking reap. An
    /// `Err` means the process does not exist or is not a child; the process
    /// edge treats that as fatal, as the single-owner model allows.
    pub fn kill(&self, pid: i32) -> (r: Result<(), OsError>) {
        kill_and_wait(pid)
    }

    /// Places an exit request on the server's own inbound endpoint, so the
    /// router thread parked in `server_recv` wakes up and shuts down. On
    /// success exactly that frame, under the current context, is appended.
    pub fn server_exit(&mut self) -> (r: Result<(), ChannelError>)
        requires
            old(self).wf(),
        ensures
            final(self).wf(),
            final(self).server_context() == old(self).server_context(),
            r is Ok ==> final(self).server_log() == old(self).server_log().push(
                spec_encode_server(ServerInstructionV::Exit, old(self).server_context()),
            ),
            r is Err ==> final(self).server_log() == old(self).server_log(),
            final(self).has_client() == old(self).has_client(),
            final(self).has_client() ==> final(self).client_log() == old(self).client_log()
                && final(self).client_context() == old(self).client_context(),
    {
        self.server_sender.send_server(&ServerInstruction::Exit)
    }

    /// Blocks until a client placed a whole frame on the inbound endpoint
    /// and decodes it; what is returned is a well-formed payload with the
    /// well-formed context that was sent in the same frame.
    pub fn server_recv(&self) -> (r: Result<(ServerInstruction, ErrorContext), ChannelError>)
        ensures
            r matches Ok(mc) ==> mc.0.wf() && mc.1.wf(),
    {
        self.server_receiver.recv_server()
    }

    /// Sends one message to the registered client, paired with the context
    /// active at this moment; on success exactly that frame is appended to
    /// the client endpoint's log and nothing else changes.
    pub fn send_to_client(&mut self, msg: &ClientInstruction) -> (r: Result<(), ChannelError>)
        requires
            old(self).wf(),
            old(self).has_client(),
            msg.wf(),
        ensures
            final(self).wf(),
            final(self).has_client(),
            final(self).client_context() == old(self).client_context(),
            r is Ok ==> final(self).client_log() == old(self).client_log().push(
                spec_encode_client(msg@, old(self).client_context()),
            ),
            r is Err ==> final(self).client_log() == old(self).client_log(),
            final(self).server_log() == old(self).server_log(),
            final(self).server_context() == old(self).server_context(),
    {
        let taken = self.client_sender.take();
        match taken {
            Some(mut cs) => {
                let r = cs.send_client(msg);
                self.client_sender = Some(cs);
                r
            },
            None => Err(ChannelError::Transport),
        }
    }

    /// Registers a client's private endpoint: opens the ring buffer the
    /// client created at `path` (the bytes from its handshake message) and
    /// binds a fresh sender, with an empty context and an empty log, to it.
    pub fn add_client_sender(&mut self, path: &Vec<u8>) -> (r: Result<(), ChannelError>)
        requires
            old(self).wf(),
        ensures
            final(self).wf(),
            final(self).server_log() == old(self).server_log(),
            final(self).server_context() == old(self).server_context(),
            r is Ok ==> final(self).has_client() && final(self).client_log()
                == Seq::<Seq<u8>>::empty() && final(self).client_context()
                == Seq::<CallKind>::empty(),
            r is Err ==> final(self).has_client() == old(self).has_client() && (final(self).has_client() ==> final(self).client_log() == old(self).client_log() && final(self).client_context() == old(self).client_context()),
    {
        match ring_open(path) {
            Ok(buffer) => {
                self.client_sender = Some(IpcSenderWithContext::new(buffer));
                Ok(())
            },
            Err(e) => Err(e),
        }
    }

    /// Refreshes the error context attached by every sender this capability
    /// holds; the logs of frames already sent are untouched.
    pub fn update_senders(&mut self, new_ctx: ErrorContext)
        requires
            old(self).wf(),
            new_ctx.wf(),
        ensures
            final(self).wf(),
            final(self).server_context() == new_ctx@,
            final(self).server_log() == old(self).server_log(),
            final(self).has_client() == old(self).has_client(),
            final(self).has_client() ==> final(self).client_context() == new_ctx@ && final(self).client_log() == old(self).client_log(),
    {
        self.server_sender.update(new_ctx.duplicate());
        let taken = self.client_sender.take();
        match taken {
            Some(mut cs) => {
                cs.update(new_ctx);
                self.client_sender = Some(cs);
            },
            None => {},
        }
    }
}

/// Builds the server capability around an already-captured terminal state:
/// creates the well-known inbound ring buffer at `path` and binds both the
/// server's own sender and the receiver to it. No client is registered yet.
pub fn server_os_from_termios(orig_termios: nix::sys::termios::Termios, path: &str) -> (r: Result<
    ServerOsInputOutput,
    ChannelError,
>)
    ensures
        r matches Ok(s) ==> s.wf() && !s.has_client() && s.server_log() == Seq::<Seq<u8>>::empty()
            && s.server_context() == Seq::<CallKind>::empty(),
{
    match ring_create(path, IPC_BUFFER_SIZE) {
        Ok(buffer) => {
            let sender_buffer = buffer.clone();
            Ok(
                ServerOsInputOutput {
                    orig_termios,
                    server_sender: IpcSenderWithContext::new(sender_buffer),
                    server_receiver: IpcReceiverWithContext::new(buffer),
                    client_sender: None,
                },
            )
        },
        Err(e) => Err(e),
    }
}

/// The server's startup entry: captures the controlling terminal's state
/// from descriptor 0 first, and only then creates the well-known inbound
/// endpoint at `path`. A terminal whose attributes cannot be read fails as
/// `Terminal` before any endpoint exists — endpoint creation happens only
/// inside `server_os_from_termios`, which needs the captured state in hand.
pub fn get_server_os_input(path: &str) -> (r: Result<ServerOsInputOutput, SetupError>)
    ensures
        r matches Ok(s) ==> s.wf() && !s.has_client() && s.server_log() == Seq::<Seq<u8>>::empty()
            && s.server_context() == Seq::<CallKind>::empty(),
{
    match capture_terminal_state(0) {
        Ok(t) => match server_os_from_termios(t, path) {
            Ok(s) => Ok(s),
            Err(e) => Err(SetupError::Channel(e)),
        },
        Err(e) => Err(SetupError::Terminal(e)),
    }
}

} // verus!
