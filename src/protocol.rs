use vstd::prelude::*;
use vstd::string::StringSliceAdditionalSpecFns;
use crate::codec::{encode_frame, frame_bytes, ByteOrder};

verus! {

/// Bit that marks a type code as a server-pushed event rather than a reply.
pub const EVENT_BIT: u32 = 0x8000_0000;

/// Whether a type code belongs to an event: its high bit alone decides.
pub open spec fn is_event_code_spec(code: u32) -> bool {
    code >= EVENT_BIT
}

/// Whether a type code belongs to an event (its high bit is set).
pub fn is_event_code(code: u32) -> (r: bool)
    ensures
        r == is_event_code_spec(code),
{
    code >= EVENT_BIT
}

/// The request operations a client can send.
#[derive(Clone, Copy, Debug, PartialEq, Eq, Structural)]
pub enum MessageType {
    RunCommand,
    GetWorkspaces,
    Subscribe,
    GetOutputs,
    GetTree,
    GetMarks,
    /// Lists the bar ids without a payload, or fetches one bar's
    /// configuration with the id as payload.
    GetBarConfig,
    GetVersion,
    GetBindingModes,
    GetConfig,
    SendTick,
    GetBindingState,
    GetInputs,
    GetSeats,
}

impl MessageType {
    pub open spec fn code_spec(self) -> u32 {
        match self {
            MessageType::RunCommand => 0,
            MessageType::GetWorkspaces => 1,
            MessageType::Subscribe => 2,
            MessageType::GetOutputs => 3,
            MessageType::GetTree => 4,
            MessageType::GetMarks => 5,
            MessageType::GetBarConfig => 6,
            MessageType::GetVersion => 7,
            MessageType::GetBindingModes => 8,
            MessageType::GetConfig => 9,
            MessageType::SendTick => 10,
            MessageType::GetBindingState => 12,
            MessageType::GetInputs => 100,
            MessageType::GetSeats => 101,
        }
    }

    /// The opcode sent in the frame header.
    pub fn code(self) -> (r: u32)
        ensures
            r == self.code_spec(),
    {
        match self {
            MessageType::RunCommand => 0,
            MessageType::GetWorkspaces => 1,
            MessageType::Subscribe => 2,
            MessageType::GetOutputs => 3,
            MessageType::GetTree => 4,
            MessageType::GetMarks => 5,
            MessageType::GetBarConfig => 6,
            MessageType::GetVersion => 7,
            MessageType::GetBindingModes => 8,
            MessageType::GetConfig => 9,
            MessageType::SendTick => 10,
            MessageType::GetBindingState => 12,
            MessageType::GetInputs => 100,
            MessageType::GetSeats => 101,
        }
    }
}

/// The kinds of notification the server pushes to a subscribed connection.
#[derive(Clone, Copy, Debug, PartialEq, Eq, Structural)]
pub enum EventType {
    Workspace,
    Mode,
    Window,
    BarconfigUpdate,
    Binding,
    Shutdown,
    Tick,
    BarStateUpdate,
    Input,
}

impl EventType {
    pub open spec fn code_spec(self) -> u32 {
        match self {
            EventType::Workspace => 0x8000_0000,
            EventType::Mode => 0x8000_0002,
            EventType::Window => 0x8000_0003,
            EventType::BarconfigUpdate => 0x8000_0004,
            EventType::Binding => 0x8000_0005,
            EventType::Shutdown => 0x8000_0006,
            EventType::Tick => 0x8000_0007,
            EventType::BarStateUpdate => 0x8000_0014,
            EventType::Input => 0x8000_0015,
        }
    }

    /// The name by which a subscription asks for this event.
    pub open spec fn name_spec(self) -> Seq<char> {
        match self {
            EventType::Workspace => "workspace"@,
            EventType::Mode => "mode"@,
            EventType::Window => "window"@,
            EventType::BarconfigUpdate => "barconfig_update"@,
            EventType::Binding => "binding"@,
            EventType::Shutdown => "shutdown"@,
            EventType::Tick => "tick"@,
            EventType::BarStateUpdate => "bar_state_update"@,
            EventType::Input => "input"@,
        }
    }

    /// The event whose code this is, if any.
    pub open spec fn from_code_spec(code: u32) -> Option<EventType> {
        if code == 0x8000_0000 {
            Some(EventType::Workspace)
        } else if code == 0x8000_0002 {
            Some(EventType::Mode)
        } else if code == 0x8000_0003 {
            Some(EventType::Window)
        } else if code == 0x8000_0004 {
            Some(EventType::BarconfigUpdate)
        } else if code == 0x8000_0005 {
            Some(EventType::Binding)
        } else if code == 0x8000_0006 {
            Some(EventType::Shutdown)
        } else if code == 0x8000_0007 {
            Some(EventType::Tick)
        } else if code == 0x8000_0014 {
            Some(EventType::BarStateUpdate)
        } else if code == 0x8000_0015 {
            Some(EventType::Input)
        } else {
            None
        }
    }

    /// The event code carried in the frame header.
    pub fn code(self) -> (r: u32)
        ensures
            r == self.code_spec(),
    {
        match self {
            EventType::Workspace => 0x8000_0000,
            EventType::Mode => 0x8000_0002,
            EventType::Window => 0x8000_0003,
            EventType::BarconfigUpdate => 0x8000_0004,
            EventType::Binding => 0x8000_0005,
            EventType::Shutdown => 0x8000_0006,
            EventType::Tick => 0x8000_0007,
            EventType::BarStateUpdate => 0x8000_0014,
            EventType::Input => 0x8000_0015,
        }
    }

    /// The event that a type code names; `None` for a code outside the
    /// known catalogue.
    pub fn from_code(code: u32) -> (r: Option<EventType>)
        ensures
            r == EventType::from_code_spec(code),
    {
        if code == 0x8000_0000 {
            Some(EventType::Workspace)
        } else if code == 0x8000_0002 {
            Some(EventType::Mode)
        } else if code == 0x8000_0003 {
            Some(EventType::Window)
        } else if code == 0x8000_0004 {
            Some(EventType::BarconfigUpdate)
        } else if code == 0x8000_0005 {
            Some(EventType::Binding)
        } else if code == 0x8000_0006 {
            Some(EventType::Shutdown)
        } else if code == 0x8000_0007 {
            Some(EventType::Tick)
        } else if code == 0x8000_0014 {
            Some(EventType::BarStateUpdate)
        } else if code == 0x8000_0015 {
            Some(EventType::Input)
        } else {
            None
        }
    }

    /// The name by which a subscription asks for this event.
    pub fn name(self) -> (r: &'static str)
        ensures
            r@ == self.name_spec(),
    {
        match self {
            EventType::Workspace => "workspace",
            EventType::Mode => "mode",
            EventType::Window => "window",
            EventType::BarconfigUpdate => "barconfig_update",
            EventType::Binding => "binding",
            EventType::Shutdown => "shutdown",
            EventType::Tick => "tick",
            EventType::BarStateUpdate => "bar_state_update",
            EventType::Input => "input",
        }
    }
}

/// The bytes of an optional text payload; an absent one is empty.
pub open spec fn payload_bytes(payload: Option<&str>) -> Seq<u8> {
    match payload {
        Some(s) => s.spec_bytes(),
        None => Seq::empty(),
    }
}

/// The frame of one request: the operation's opcode, then the payload's
/// UTF-8 bytes, or nothing when there is no payload.
pub fn request_frame(order: ByteOrder, op: MessageType, payload: Option<&str>) -> (r: Vec<u8>)
    requires
        payload_bytes(payload).len() <= u32::MAX,
    ensures
        r@ == frame_bytes(order, op.code_spec(), payload_bytes(payload)),
{
    match payload {
        Some(s) => encode_frame(order, op.code(), s.as_bytes()),
        None => {
            let empty: Vec<u8> = Vec::new();
            assert(empty@ =~= payload_bytes(payload));
            encode_frame(order, op.code(), empty.as_slice())
        },
    }
}

/// Every event code has the high bit set and maps back to its event; every
/// opcode has the high bit clear, so a reply can never be taken for an event.
pub proof fn lemma_code_classes(e: EventType, m: MessageType)
    ensures
        is_event_code_spec(e.code_spec()),
        EventType::from_code_spec(e.code_spec()) == Some(e),
        !is_event_code_spec(m.code_spec()),
        EventType::from_code_spec(m.code_spec()).is_none(),
{
}

} // verus!
