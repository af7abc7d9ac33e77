use vstd::prelude::*;
use crate::codec::{encode_frame, frame_bytes, ByteOrder};
use crate::protocol::{is_event_code, is_event_code_spec, EventType, MessageType};

verus! {

/// The name for what serde_json says of a byte string: whether it holds
/// exactly one well-formed JSON value.
pub uninterp spec fn json_well_formed(bytes: Seq<u8>) -> bool;

/// Relies on `serde_json::from_slice` into serde's `IgnoredAny`, which
/// parses one JSON value, rejects trailing characters and keeps nothing:
/// its success depends on the bytes alone.
#[verifier::external_body]
fn is_json(bytes: &[u8]) -> (r: bool)
    ensures
        r == json_well_formed(bytes@),
{
    serde_json::from_slice::<serde::de::IgnoredAny>(bytes).is_ok()
}

/// A character string as bytes, one per character (the event names are
/// ASCII).
pub open spec fn ascii_bytes(s: Seq<char>) -> Seq<u8> {
    s.map_values(|c: char| c as u8)
}

/// An event name as a JSON string.
pub open spec fn quoted(e: EventType) -> Seq<char> {
    seq!['"'] + e.name_spec() + seq!['"']
}

/// The event names, quoted and separated by commas.
pub open spec fn json_names(events: Seq<EventType>) -> Seq<char>
    decreases events.len(),
{
    if events.len() == 0 {
        Seq::empty()
    } else if events.len() == 1 {
        quoted(events[0])
    } else {
        json_names(events.drop_last()) + seq![','] + quoted(events.last())
    }
}

/// The subscribe payload: a JSON array of the event names, in the order
/// given.
pub open spec fn subscribe_json(events: Seq<EventType>) -> Seq<char> {
    seq!['['] + json_names(events) + seq![']']
}

/// The phases of an event listener's connection.
#[derive(Clone, Copy, Debug, PartialEq, Eq, Structural)]
pub enum ListenerState {
    /// Nothing sent yet.
    Idle,
    /// The subscribe request is out; its reply is awaited.
    Subscribing,
    /// Subscribed: every frame that comes in is an event.
    Streaming,
    /// Failed or closed; the connection must be dropped.
    Closed,
}

/// One notification pushed by the server.
#[derive(Debug, PartialEq, Eq)]
pub struct Event {
    /// The event, or `None` for a code with the high bit set that is not in
    /// the known catalogue.
    pub kind: Option<EventType>,
    pub type_code: u32,
    /// The JSON payload, verbatim.
    pub payload: Vec<u8>,
}

#[derive(Debug, PartialEq, Eq)]
pub enum ListenerError {
    /// The listener is not streaming: it was never subscribed, or it has
    /// been closed.
    NotStreaming,
    /// The server refused the subscription, or its reply was not a command
    /// result.
    SubscriptionRefused,
    /// A frame without the event bit came in on a subscribed connection.
    ProtocolViolation(u32),
    /// An event whose payload is not well-formed JSON. The frame was read
    /// whole, so the next one can still be read.
    Decode { type_code: u32, payload: Vec<u8> },
}

/// The state after the subscribe reply: `ack` is the reply's `success`
/// field, or `None` where the reply could not be decoded.
pub open spec fn ack_step(ack: Option<bool>) -> ListenerState {
    if ack == Some(true) {
        ListenerState::Streaming
    } else {
        ListenerState::Closed
    }
}

/// What one incoming frame does, given the listener's state and whether its
/// payload is well-formed JSON: the new state and the result handed out.
pub open spec fn frame_step(
    state: ListenerState,
    type_code: u32,
    payload: Vec<u8>,
    well_formed: bool,
) -> (ListenerState, Result<Event, ListenerError>) {
    if state != ListenerState::Streaming {
        (state, Err(ListenerError::NotStreaming))
    } else if !is_event_code_spec(type_code) {
        (ListenerState::Closed, Err(ListenerError::ProtocolViolation(type_code)))
    } else if !well_formed {
        (ListenerState::Streaming, Err(ListenerError::Decode { type_code, payload }))
    } else {
        (
            ListenerState::Streaming,
            Ok(Event { kind: EventType::from_code_spec(type_code), type_code, payload }),
        )
    }
}

/// No frame is handed out as an event before the subscription has been
/// acknowledged: a listener that is idle or still waiting for the reply
/// refuses every frame and stays where it is, and only a reply with
/// `success` true opens the stream.
pub proof fn lemma_no_event_before_ack(
    state: ListenerState,
    ack: Option<bool>,
    type_code: u32,
    payload: Vec<u8>,
    well_formed: bool,
)
    ensures
        state == ListenerState::Idle || state == ListenerState::Subscribing ==> frame_step(
            state,
            type_code,
            payload,
            well_formed,
        ) == (state, Err::<Event, ListenerError>(ListenerError::NotStreaming)),
        frame_step(state, type_code, payload, well_formed).1 is Ok ==> state
            == ListenerState::Streaming,
        ack_step(ack) == ListenerState::Streaming <==> ack == Some(true),
{
}

/// A malformed payload on a subscribed connection is reported for its own
/// frame only: the listener keeps streaming, and the next well-formed event
/// frame is handed out whole.
pub proof fn lemma_decode_error_is_isolated(
    code1: u32,
    payload1: Vec<u8>,
    code2: u32,
    payload2: Vec<u8>,
)
    requires
        is_event_code_spec(code1),
        is_event_code_spec(code2),
    ensures
        ({
            let (s1, r1) = frame_step(ListenerState::Streaming, code1, payload1, false);
            let (s2, r2) = frame_step(s1, code2, payload2, true);
            &&& r1 == Err::<Event, ListenerError>(
                ListenerError::Decode { type_code: code1, payload: payload1 },
            )
            &&& s1 == ListenerState::Streaming
            &&& r2 == Ok::<Event, ListenerError>(
                Event { kind: EventType::from_code_spec(code2), type_code: code2, payload: payload2 },
            )
        }),
{
}

/// A frame without the event bit on a subscribed connection is a protocol
/// violation that closes the listener, and every later frame is refused
/// with the listener left closed.
pub proof fn lemma_violation_closes(
    code: u32,
    payload: Vec<u8>,
    well_formed: bool,
    later_code: u32,
    later_payload: Vec<u8>,
    later_well_formed: bool,
)
    requires
        !is_event_code_spec(code),
    ensures
        frame_step(ListenerState::Streaming, code, payload, well_formed) == (
            ListenerState::Closed,
            Err::<Event, ListenerError>(ListenerError::ProtocolViolation(code)),
        ),
        frame_step(ListenerState::Closed, later_code, later_payload, later_well_formed) == (
            ListenerState::Closed,
            Err::<Event, ListenerError>(ListenerError::NotStreaming),
        ),
{
}

/// Decisions of one event-listener connection: it subscribes once, takes
/// one reply as the acknowledgement, then reads events until an error
/// closes it. The reading and writing is left to the caller.
pub struct EventListener {
    state: ListenerState,
}

impl View for EventListener {
    type V = ListenerState;

    closed spec fn view(&self) -> ListenerState {
        self.state
    }
}

proof fn lemma_name_len(e: EventType)
    ensures
        e.name_spec().len() <= 16,
{
    reveal_strlit("workspace");
    reveal_strlit("mode");
    reveal_strlit("window");
    reveal_strlit("barconfig_update");
    reveal_strlit("binding");
    reveal_strlit("shutdown");
    reveal_strlit("tick");
    reveal_strlit("bar_state_update");
    reveal_strlit("input");
}

proof fn lemma_at_most_nine(events: Seq<EventType>)
    requires
        events.no_duplicates(),
    ensures
        events.len() <= 9,
{
    let all = set![
        EventType::Workspace,
        EventType::Mode,
        EventType::Window,
        EventType::BarconfigUpdate,
        EventType::Binding,
        EventType::Shutdown,
        EventType::Tick,
        EventType::BarStateUpdate,
        EventType::Input,
    ];
    events.unique_seq_to_set();
    assert(events.to_set().subset_of(all)) by {
        assert forall|e: EventType| events.to_set().contains(e) implies all.contains(e) by {
            match e {
                EventType::Workspace => {},
                EventType::Mode => {},
                EventType::Window => {},
                EventType::BarconfigUpdate => {},
                EventType::Binding => {},
                EventType::Shutdown => {},
                EventType::Tick => {},
                EventType::BarStateUpdate => {},
                EventType::Input => {},
            }
        }
    }
    assert(all.len() == 9);
    vstd::set_lib::lemma_len_subset(events.to_set(), all);
}

/// The subscribe payload for `events`, as bytes.
pub fn subscribe_payload(events: &Vec<EventType>) -> (r: Vec<u8>)
    requires
        events@.no_duplicates(),
    ensures
        r@ == ascii_bytes(subscribe_json(events@)),
        r@.len() <= 200,
{
    proof {
        lemma_at_most_nine(events@);
    }
    let mut out: Vec<u8> = vec![91u8];
    let ghost mut text: Seq<char> = seq!['['];
    let mut i: usize = 0;
    while i < events.len()
        invariant
            i <= events@.len() <= 9,
            text == seq!['['] + json_names(events@.subrange(0, i as int)),
            out@.len() == text.len(),
            out@.len() <= 1 + 19 * i,
            forall|k: int| 0 <= k < text.len() ==> out@[k] == text[k] as u8,
        decreases events@.len() - i,
    {
        let ghost before = text;
        if i > 0 {
            out.push(44u8);
            proof {
                text = text.push(',');
            }
        }
        out.push(34u8);
        proof {
            text = text.push('"');
        }
        let name = events[i].name();
        proof {
            lemma_name_len(events@[i as int]);
        }
        let n = name.unicode_len();
        let mut j: usize = 0;
        while j < n
            invariant
                n == name@.len() <= 16,
                j <= n,
                name@ == events@[i as int].name_spec(),
                out@.len() == text.len(),
                out@.len() <= 1 + 19 * i + 2 + j,
                forall|k: int| 0 <= k < text.len() ==> out@[k] == text[k] as u8,
                text == before + (if i > 0 { seq![','] } else { Seq::empty() }) + seq!['"']
                    + name@.subrange(0, j as int),
            decreases n - j,
        {
            let c = name.get_char(j);
            out.push(c as u8);
            proof {
                assert(name@.subrange(0, j + 1) =~= name@.subrange(0, j as int).push(c));
                text = text.push(c);
            }
            j = j + 1;
        }
        out.push(34u8);
        proof {
            text = text.push('"');
            let prefix = events@.subrange(0, i + 1);
            assert(name@.subrange(0, n as int) =~= name@);
            assert(prefix.drop_last() =~= events@.subrange(0, i as int));
            assert(prefix.last() == events@[i as int]);
            assert(text =~= seq!['['] + json_names(prefix));
        }
        i = i + 1;
    }
    out.push(93u8);
    proof {
        text = text.push(']');
        assert(events@.subrange(0, events@.len() as int) =~= events@);
        assert(text =~= subscribe_json(events@));
        assert(out@ =~= ascii_bytes(text));
    }
    out
}

impl EventListener {
    /// A listener that has sent nothing yet.
    pub fn new() -> (r: EventListener)
        ensures
            r@ == ListenerState::Idle,
    {
        EventListener { state: ListenerState::Idle }
    }

    pub fn state(&self) -> (r: ListenerState)
        ensures
            r == self@,
    {
        self.state
    }

    /// Whether frames may be read: only a subscribed listener reads, so a
    /// closed one fails at once instead of blocking on the socket.
    pub fn is_streaming(&self) -> (r: bool)
        ensures
            r == (self@ == ListenerState::Streaming),
    {
        self.state == ListenerState::Streaming
    }

    /// Starts the subscription: returns the subscribe request frame, whose
    /// payload is the JSON array of the event names, to be written to the
    /// connection.
    pub fn subscribe(&mut self, order: ByteOrder, events: &Vec<EventType>) -> (r: Vec<u8>)
        requires
            old(self)@ == ListenerState::Idle,
            events@.no_duplicates(),
        ensures
            final(self)@ == ListenerState::Subscribing,
            r@ == frame_bytes(
                order,
                MessageType::Subscribe.code_spec(),
                ascii_bytes(subscribe_json(events@)),
            ),
    {
        let payload = subscribe_payload(events);
        self.state = ListenerState::Subscribing;
        encode_frame(order, MessageType::Subscribe.code(), payload.as_slice())
    }

    /// Takes the one reply to the subscribe request. `ack` is its `success`
    /// field, or `None` where it could not be decoded as a command result.
    pub fn accept_ack(&mut self, ack: Option<bool>) -> (r: Result<(), ListenerError>)
        requires
            old(self)@ == ListenerState::Subscribing,
        ensures
            final(self)@ == ack_step(ack),
            r is Ok <==> ack == Some(true),
            r is Err ==> r == Err::<(), ListenerError>(ListenerError::SubscriptionRefused),
    {
        match ack {
            Some(true) => {
                self.state = ListenerState::Streaming;
                Ok(())
            },
            _ => {
                self.state = ListenerState::Closed;
                Err(ListenerError::SubscriptionRefused)
            },
        }
    }

    /// Handles one frame read from the connection, given whether its
    /// payload is well-formed JSON.
    pub fn accept_frame(&mut self, type_code: u32, payload: Vec<u8>, well_formed: bool) -> (r:
        Result<Event, ListenerError>)
        ensures
            (final(self)@, r) == frame_step(old(self)@, type_code, payload, well_formed),
    {
        if self.state != ListenerState::Streaming {
            Err(ListenerError::NotStreaming)
        } else if !is_event_code(type_code) {
            self.state = ListenerState::Closed;
            Err(ListenerError::ProtocolViolation(type_code))
        } else if !well_formed {
            Err(ListenerError::Decode { type_code, payload })
        } else {
            Ok(Event { kind: EventType::from_code(type_code), type_code, payload })
        }
    }

    /// Handles one frame read from the connection, checking its payload
    /// with serde_json.
    pub fn next_event(&mut self, type_code: u32, payload: Vec<u8>) -> (r: Result<
        Event,
        ListenerError,
    >)
        ensures
            (final(self)@, r) == frame_step(
                old(self)@,
                type_code,
                payload,
                json_well_formed(payload@),
            ),
    {
        let well_formed = is_json(payload.as_slice());
        self.accept_frame(type_code, payload, well_formed)
    }

    /// Marks the connection as gone (an I/O error, or closed by the caller).
    pub fn close(&mut self)
        ensures
            final(self)@ == ListenerState::Closed,
    {
        self.state = ListenerState::Closed;
    }
}

} // verus!
