//! Client core of the i3/sway IPC protocol: frame encoding and decoding,
//! request opcodes and event codes, run-command reply mapping, and the
//! event-listener state machine. Everything that touches a socket lives
//! outside this library; here only values go in and out.

pub mod codec;
pub mod command;
pub mod listener;
pub mod protocol;
pub mod types;

pub use codec::{
    decode_header, encode_frame, encode_header, ByteOrder, FramingError, Header, HEADER_LEN,
};
pub use command::{command_outcome, command_outcomes, CommandError, CommandResult};
pub use listener::{
    subscribe_payload, Event, EventListener, ListenerError, ListenerState,
};
pub use protocol::{
    is_event_code, request_frame, EventType, MessageType, EVENT_BIT,
};
pub use types::{
    parse_enabled, Bar, BarColors, BarGaps, BarMode, BarPosition, BindingState, Color, Config,
    InputAccelProfile, InputClickMethod, InputScrollMethod, InputSendEvents, Node, NodeBorder,
    NodeFullscreenMode, NodeLayout, NodeOrientation, NodeType, NodeWindowProperties,
    OutputMode, OutputTransform, Rectangle, SubpixelHinting, Version, Workspace,
};
