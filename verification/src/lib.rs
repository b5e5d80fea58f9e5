//! Operating-system layer of a terminal multiplexer: pseudo-terminal control,
//! raw-mode handling, and a shared-memory message channel that carries a
//! bounded diagnostic trace with every message.
mod errors;
mod pty;
mod server;
mod terminal;
mod channel;
mod client;
mod codec;
mod geometry;

pub use channel::{ring_create, ring_create_temp, ring_open, ChannelError, IpcReceiverWithContext, IpcSenderWithContext};
pub use client::{client_os_from_termios, get_client_os_input, ClientOsInputOutput};
pub use codec::{decode_client, decode_server, encode_client, encode_server, ClientInstruction, ClientInstructionV, ServerInstruction, ServerInstructionV};
pub use errors::{CallKind, ErrorContext, MAX_CONTEXT_CALLS};
pub use geometry::PositionAndSize;
pub use pty::{choose_child_program, exit_watch_step, kill_and_wait, ChildProgram, ChildStatus, ExitAction, SpawnError};
pub use server::{get_server_os_input, server_os_from_termios, ServerOsInputOutput, SetupError, IPC_BUFFER_SIZE};
pub use terminal::{capture_terminal_state, into_raw_mode, lemma_raw_transform_clears, raw_flags_cleared, raw_transform, unset_raw_mode, ModeWords, OsError, RawModeError, RawModeTransition, CS8, CSIZE, ECHO, ECHONL, ICANON, IEXTEN, ISIG, OPOST, PARENB, RAW_INPUT_CLEARED, RAW_LOCAL_CLEARED};
