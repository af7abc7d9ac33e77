use vstd::prelude::*;

verus! {

/// Length of the fixed frame header: six magic bytes, the payload length
/// and the type code.
pub const HEADER_LEN: usize = 14;

/// Order in which the two 32-bit header fields are laid out. Both ends of
/// the socket share one machine, so the protocol uses the host's order.
#[derive(Clone, Copy, Debug, PartialEq, Eq, Structural)]
pub enum ByteOrder {
    Little,
    Big,
}

/// The decoded fixed part of a frame.
#[derive(Clone, Copy, Debug, PartialEq, Eq, Structural)]
pub struct Header {
    pub length: u32,
    pub type_code: u32,
}

#[derive(Clone, Copy, Debug, PartialEq, Eq, Structural)]
pub enum FramingError {
    /// The first six bytes are not the protocol's magic string.
    BadMagic,
}

/// The magic string `i3-ipc` that opens every frame.
pub open spec fn magic() -> Seq<u8> {
    seq![105u8, 51u8, 45u8, 105u8, 112u8, 99u8]
}

/// The byte of `x` that starts at bit `shift`.
pub open spec fn byte_of(x: u32, shift: u32) -> u8 {
    ((x >> shift) & 0xff) as u8
}

/// Four bytes as a little-endian integer.
pub open spec fn le_value(b0: u8, b1: u8, b2: u8, b3: u8) -> u32 {
    (b0 as u32) | ((b1 as u32) << 8) | ((b2 as u32) << 16) | ((b3 as u32) << 24)
}

/// The four bytes of `x` in the given order.
pub open spec fn u32_bytes(order: ByteOrder, x: u32) -> Seq<u8> {
    match order {
        ByteOrder::Little => seq![byte_of(x, 0), byte_of(x, 8), byte_of(x, 16), byte_of(x, 24)],
        ByteOrder::Big => seq![byte_of(x, 24), byte_of(x, 16), byte_of(x, 8), byte_of(x, 0)],
    }
}

/// The integer that four bytes hold in the given order.
pub open spec fn u32_value(order: ByteOrder, b: Seq<u8>) -> u32
    recommends
        b.len() == 4,
{
    match order {
        ByteOrder::Little => le_value(b[0], b[1], b[2], b[3]),
        ByteOrder::Big => le_value(b[3], b[2], b[1], b[0]),
    }
}

/// The 14 header bytes of a frame with the given payload length and type code.
pub open spec fn header_bytes(order: ByteOrder, length: u32, type_code: u32) -> Seq<u8> {
    magic() + u32_bytes(order, length) + u32_bytes(order, type_code)
}

/// A whole frame: the header followed by the payload verbatim.
pub open spec fn frame_bytes(order: ByteOrder, type_code: u32, payload: Seq<u8>) -> Seq<u8>
    recommends
        payload.len() <= u32::MAX,
{
    header_bytes(order, payload.len() as u32, type_code) + payload
}

/// What a 14-byte header decodes to.
pub open spec fn header_of(order: ByteOrder, b: Seq<u8>) -> Result<Header, FramingError>
    recommends
        b.len() == HEADER_LEN,
{
    if b.subrange(0, 6) == magic() {
        Ok(
            Header {
                length: u32_value(order, b.subrange(6, 10)),
                type_code: u32_value(order, b.subrange(10, 14)),
            },
        )
    } else {
        Err(FramingError::BadMagic)
    }
}

/// Reading back the four bytes of an integer, in the same order, gives the
/// integer.
pub proof fn lemma_u32_round_trip(order: ByteOrder, x: u32)
    ensures
        u32_bytes(order, x).len() == 4,
        u32_value(order, u32_bytes(order, x)) == x,
{
    assert(le_value(byte_of(x, 0), byte_of(x, 8), byte_of(x, 16), byte_of(x, 24)) == x) by {
        assert(((((x >> 0u32) & 0xff) as u8) as u32) | (((((x >> 8u32) & 0xff) as u8) as u32)
            << 8) | (((((x >> 16u32) & 0xff) as u8) as u32) << 16) | (((((x >> 24u32) & 0xff)
            as u8) as u32) << 24) == x) by (bit_vector);
    }
}

/// Decoding an encoded header gives back the length and the type code it
/// was built from.
pub proof fn lemma_header_round_trip(order: ByteOrder, length: u32, type_code: u32)
    ensures
        header_bytes(order, length, type_code).len() == HEADER_LEN,
        header_of(order, header_bytes(order, length, type_code)) == Ok::<Header, FramingError>(
            Header { length, type_code },
        ),
{
    let h = header_bytes(order, length, type_code);
    lemma_u32_round_trip(order, length);
    lemma_u32_round_trip(order, type_code);
    assert(h.subrange(0, 6) =~= magic());
    assert(h.subrange(6, 10) =~= u32_bytes(order, length));
    assert(h.subrange(10, 14) =~= u32_bytes(order, type_code));
}

/// For every type code and payload (the empty one included), the header of
/// the encoded frame decodes to the payload's length and the type code, and
/// the bytes that follow the header are the payload exactly.
pub proof fn lemma_frame_round_trip(order: ByteOrder, type_code: u32, payload: Seq<u8>)
    requires
        payload.len() <= u32::MAX,
    ensures
        frame_bytes(order, type_code, payload).len() == HEADER_LEN + payload.len(),
        header_of(order, frame_bytes(order, type_code, payload).subrange(0, HEADER_LEN as int))
            == Ok::<Header, FramingError>(
            Header { length: payload.len() as u32, type_code },
        ),
        frame_bytes(order, type_code, payload).subrange(
            HEADER_LEN as int,
            HEADER_LEN + payload.len(),
        ) == payload,
{
    let h = header_bytes(order, payload.len() as u32, type_code);
    let f = frame_bytes(order, type_code, payload);
    lemma_header_round_trip(order, payload.len() as u32, type_code);
    assert(f.subrange(0, HEADER_LEN as int) =~= h);
    assert(f.subrange(HEADER_LEN as int, HEADER_LEN + payload.len()) =~= payload);
}

/// Frame boundaries follow from the length fields alone: when two frames are
/// sent back to back, the second header starts right after the first
/// payload, whatever bytes that payload holds (malformed JSON included).
pub proof fn lemma_frames_stay_aligned(
    order: ByteOrder,
    code1: u32,
    payload1: Seq<u8>,
    code2: u32,
    payload2: Seq<u8>,
    rest: Seq<u8>,
)
    requires
        payload1.len() <= u32::MAX,
        payload2.len() <= u32::MAX,
    ensures
        ({
            let stream = frame_bytes(order, code1, payload1) + frame_bytes(order, code2, payload2)
                + rest;
            let second = HEADER_LEN + payload1.len();
            &&& header_of(order, stream.subrange(0, HEADER_LEN as int)) == Ok::<
                Header,
                FramingError,
            >(Header { length: payload1.len() as u32, type_code: code1 })
            &&& stream.subrange(HEADER_LEN as int, second) == payload1
            &&& header_of(order, stream.subrange(second, second + HEADER_LEN)) == Ok::<
                Header,
                FramingError,
            >(Header { length: payload2.len() as u32, type_code: code2 })
            &&& stream.subrange(second + HEADER_LEN, second + HEADER_LEN + payload2.len())
                == payload2
        }),
{
    let f1 = frame_bytes(order, code1, payload1);
    let f2 = frame_bytes(order, code2, payload2);
    let stream = f1 + f2 + rest;
    let second = HEADER_LEN + payload1.len();
    lemma_frame_round_trip(order, code1, payload1);
    lemma_frame_round_trip(order, code2, payload2);
    assert(stream.subrange(0, HEADER_LEN as int) =~= f1.subrange(0, HEADER_LEN as int));
    assert(stream.subrange(HEADER_LEN as int, second) =~= f1.subrange(
        HEADER_LEN as int,
        second,
    ));
    assert(stream.subrange(second, second + HEADER_LEN) =~= f2.subrange(0, HEADER_LEN as int));
    assert(stream.subrange(second + HEADER_LEN, second + HEADER_LEN + payload2.len())
        =~= f2.subrange(HEADER_LEN as int, HEADER_LEN + payload2.len()));
}

/// Bytes of `x` in the given order, as an executable value.
fn u32_to_bytes(order: ByteOrder, x: u32) -> (r: [u8; 4])
    ensures
        r@ == u32_bytes(order, x),
{
    assert(((x >> 0u32) & 0xff) <= 0xff && ((x >> 8u32) & 0xff) <= 0xff && ((x >> 16u32) & 0xff)
        <= 0xff && ((x >> 24u32) & 0xff) <= 0xff) by (bit_vector);
    let b0 = ((x >> 0u32) & 0xff) as u8;
    let b1 = ((x >> 8u32) & 0xff) as u8;
    let b2 = ((x >> 16u32) & 0xff) as u8;
    let b3 = ((x >> 24u32) & 0xff) as u8;
    let r = match order {
        ByteOrder::Little => [b0, b1, b2, b3],
        ByteOrder::Big => [b3, b2, b1, b0],
    };
    assert(r@ =~= u32_bytes(order, x));
    r
}

/// The integer held by the four header bytes at `b[at..at + 4]`.
fn u32_from_bytes(order: ByteOrder, b: &[u8], at: usize) -> (r: u32)
    requires
        b@.len() == HEADER_LEN,
        at <= 10,
    ensures
        r == u32_value(order, b@.subrange(at as int, at + 4)),
{
    let (b0, b1, b2, b3) = match order {
        ByteOrder::Little => (b[at], b[at + 1], b[at + 2], b[at + 3]),
        ByteOrder::Big => (b[at + 3], b[at + 2], b[at + 1], b[at]),
    };
    (b0 as u32) | ((b1 as u32) << 8) | ((b2 as u32) << 16) | ((b3 as u32) << 24)
}

/// Builds the 14-byte header of a frame.
pub fn encode_header(order: ByteOrder, type_code: u32, length: u32) -> (r: Vec<u8>)
    ensures
        r@ == header_bytes(order, length, type_code),
        r@.len() == HEADER_LEN,
{
    let mut r: Vec<u8> = vec![105u8, 51u8, 45u8, 105u8, 112u8, 99u8];
    let len_bytes = u32_to_bytes(order, length);
    let code_bytes = u32_to_bytes(order, type_code);
    r.push(len_bytes[0]);
    r.push(len_bytes[1]);
    r.push(len_bytes[2]);
    r.push(len_bytes[3]);
    r.push(code_bytes[0]);
    r.push(code_bytes[1]);
    r.push(code_bytes[2]);
    r.push(code_bytes[3]);
    assert(r@ =~= header_bytes(order, length, type_code));
    r
}

/// Builds a whole frame: header, then the payload's bytes verbatim.
pub fn encode_frame(order: ByteOrder, type_code: u32, payload: &[u8]) -> (r: Vec<u8>)
    requires
        payload@.len() <= u32::MAX,
    ensures
        r@ == frame_bytes(order, type_code, payload@),
{
    let mut r = encode_header(order, type_code, payload.len() as u32);
    let mut i: usize = 0;
    while i < payload.len()
        invariant
            i <= payload@.len(),
            r@ == header_bytes(order, payload@.len() as u32, type_code) + payload@.subrange(0, i as int),
        decreases payload@.len() - i,
    {
        r.push(payload[i]);
        assert(payload@.subrange(0, i + 1) =~= payload@.subrange(0, i as int).push(payload@[i as int]));
        i = i + 1;
    }
    assert(payload@.subrange(0, payload@.len() as int) =~= payload@);
    r
}

/// Decodes a frame header, refusing one whose magic string does not match.
pub fn decode_header(order: ByteOrder, bytes: &[u8]) -> (r: Result<Header, FramingError>)
    requires
        bytes@.len() == HEADER_LEN,
    ensures
        r == header_of(order, bytes@),
{
    let magic_ok = bytes[0] == 105u8 && bytes[1] == 51u8 && bytes[2] == 45u8 && bytes[3] == 105u8
        && bytes[4] == 112u8 && bytes[5] == 99u8;
    if magic_ok {
        assert(bytes@.subrange(0, 6) =~= magic());
        Ok(
            Header {
                length: u32_from_bytes(order, bytes, 6),
                type_code: u32_from_bytes(order, bytes, 10),
            },
        )
    } else {
        assert(bytes@.subrange(0, 6)[0] == bytes@[0]);
        assert(bytes@.subrange(0, 6)[1] == bytes@[1]);
        assert(bytes@.subrange(0, 6)[2] == bytes@[2]);
        assert(bytes@.subrange(0, 6)[3] == bytes@[3]);
        assert(bytes@.subrange(0, 6)[4] == bytes@[4]);
        assert(bytes@.subrange(0, 6)[5] == bytes@[5]);
        Err(FramingError::BadMagic)
    }
}

} // verus!
