//! Git's PKT-LINE framing: a four-digit hexadecimal length prefix that counts
//! itself, followed by the payload; `0000` is the flush marker.
use vstd::prelude::*;
use vstd::slice::{slice_subrange, slice_to_vec};

verus! {

/// The largest length a four-digit prefix can declare.
pub const MAX_FRAME_LEN: usize = 0xffff;

/// Bytes taken by the length prefix.
pub const PREFIX_LEN: usize = 4;

/// ASCII `'0'`.
pub const ASCII_ZERO: u8 = 0x30;

/// The lowercase hexadecimal digit for `d` (`d < 16`).
pub open spec fn hex_digit(d: nat) -> u8 {
    if d < 10 {
        (d + 0x30) as u8
    } else {
        (d - 10 + 0x61) as u8
    }
}

/// `n` as four lowercase, zero-padded hexadecimal digits.
pub open spec fn hex4(n: nat) -> Seq<u8> {
    seq![
        hex_digit((n / 4096) % 16),
        hex_digit((n / 256) % 16),
        hex_digit((n / 16) % 16),
        hex_digit(n % 16),
    ]
}

/// The frame that carries `payload`.
pub open spec fn encoded_line(payload: Seq<u8>) -> Seq<u8> {
    hex4(payload.len() + 4) + payload
}

/// The flush marker, the bytes `0000`.
pub open spec fn flush_marker() -> Seq<u8> {
    seq![ASCII_ZERO, ASCII_ZERO, ASCII_ZERO, ASCII_ZERO]
}

/// Whether `b` is one of `0-9a-f`.
pub open spec fn is_lower_hex(b: u8) -> bool {
    (0x30 <= b <= 0x39) || (0x61 <= b <= 0x66)
}

/// The value of a hexadecimal digit, either case.
pub open spec fn hex_value(b: u8) -> Option<nat> {
    if 0x30 <= b <= 0x39 {
        Some((b - 0x30) as nat)
    } else if 0x61 <= b <= 0x66 {
        Some((b - 0x61 + 10) as nat)
    } else if 0x41 <= b <= 0x46 {
        Some((b - 0x41 + 10) as nat)
    } else {
        None
    }
}

/// The number that the first four bytes of `input` spell in hexadecimal.
pub open spec fn prefix_value(input: Seq<u8>) -> Option<nat>
    recommends
        input.len() >= 4,
{
    match (hex_value(input[0]), hex_value(input[1]), hex_value(input[2]), hex_value(input[3])) {
        (Some(a), Some(b), Some(c), Some(d)) => Some(a * 4096 + b * 256 + c * 16 + d),
        _ => None,
    }
}

/// Why a frame could not be read.
#[derive(PartialEq, Eq, Structural, Clone, Copy, Debug)]
pub enum ProtocolError {
    /// Fewer than four bytes are left.
    MissingPrefix,
    /// The prefix is not four hexadecimal digits, or declares a length
    /// shorter than the prefix itself.
    InvalidPrefix,
    /// The prefix declares more bytes than are available.
    Truncated,
}

/// The frame at the start of `input`: `None` for a flush, else the payload,
/// together with the number of bytes the frame takes.
pub open spec fn decoded_frame(input: Seq<u8>) -> Result<(Option<Seq<u8>>, nat), ProtocolError> {
    if input.len() < 4 {
        Err(ProtocolError::MissingPrefix)
    } else {
        match prefix_value(input) {
            None => Err(ProtocolError::InvalidPrefix),
            Some(n) => if n == 0 {
                Ok((None, 4))
            } else if n < 4 {
                Err(ProtocolError::InvalidPrefix)
            } else if n > input.len() {
                Err(ProtocolError::Truncated)
            } else {
                Ok((Some(input.subrange(4, n as int)), n))
            },
        }
    }
}

/// One decoded frame.
#[derive(PartialEq, Eq, Debug)]
pub enum PktLine {
    Flush,
    Data(Vec<u8>),
}

impl View for PktLine {
    type V = Option<Seq<u8>>;

    open spec fn view(&self) -> Option<Seq<u8>> {
        match self {
            PktLine::Flush => None,
            PktLine::Data(v) => Some(v@),
        }
    }
}

fn hex_digit_of(d: usize) -> (r: u8)
    requires
        d < 16,
    ensures
        r == hex_digit(d as nat),
{
    if d < 10 {
        d as u8 + 0x30
    } else {
        d as u8 - 10 + 0x61
    }
}

fn hex_value_of(b: u8) -> (r: Option<usize>)
    ensures
        match r {
            Some(v) => hex_value(b) == Some(v as nat),
            None => hex_value(b) is None,
        },
{
    if 0x30 <= b && b <= 0x39 {
        Some((b - 0x30) as usize)
    } else if 0x61 <= b && b <= 0x66 {
        Some((b - 0x61 + 10) as usize)
    } else if 0x41 <= b && b <= 0x46 {
        Some((b - 0x41 + 10) as usize)
    } else {
        None
    }
}

/// Frames `payload` as one PKT-LINE.
pub fn encode_line(payload: &[u8]) -> (r: Vec<u8>)
    requires
        payload@.len() + 4 <= MAX_FRAME_LEN,
    ensures
        r@ == encoded_line(payload@),
{
    let n: usize = payload.len() + PREFIX_LEN;
    let mut out: Vec<u8> = Vec::with_capacity(n);
    out.push(hex_digit_of((n / 4096) % 16));
    out.push(hex_digit_of((n / 256) % 16));
    out.push(hex_digit_of((n / 16) % 16));
    out.push(hex_digit_of(n % 16));
    out.extend_from_slice(payload);
    proof {
        assert(out@ =~= encoded_line(payload@));
    }
    out
}

/// The flush marker.
pub fn flush() -> (r: Vec<u8>)
    ensures
        r@ == flush_marker(),
{
    let r: Vec<u8> = vec![ASCII_ZERO, ASCII_ZERO, ASCII_ZERO, ASCII_ZERO];
    proof {
        assert(r@ =~= flush_marker());
    }
    r
}

/// Reads the frame at the start of `input`; on success also returns the
/// number of bytes it took.
pub fn decode_line(input: &[u8]) -> (r: Result<(PktLine, usize), ProtocolError>)
    ensures
        match r {
            Ok((line, used)) => decoded_frame(input@) == Ok::<_, ProtocolError>((line@, used as nat)),
            Err(e) => decoded_frame(input@) == Err::<(Option<Seq<u8>>, nat), _>(e),
        },
{
    if input.len() < PREFIX_LEN {
        return Err(ProtocolError::MissingPrefix);
    }
    let a = hex_value_of(input[0]);
    let b = hex_value_of(input[1]);
    let c = hex_value_of(input[2]);
    let d = hex_value_of(input[3]);
    match (a, b, c, d) {
        (Some(a), Some(b), Some(c), Some(d)) => {
            let n: usize = a * 4096 + b * 256 + c * 16 + d;
            if n == 0 {
                Ok((PktLine::Flush, PREFIX_LEN))
            } else if n < PREFIX_LEN {
                Err(ProtocolError::InvalidPrefix)
            } else if n > input.len() {
                Err(ProtocolError::Truncated)
            } else {
                let payload = slice_to_vec(slice_subrange(input, PREFIX_LEN, n));
                Ok((PktLine::Data(payload), n))
            }
        },
        _ => Err(ProtocolError::InvalidPrefix),
    }
}

proof fn lemma_hex_digit_value(d: nat)
    requires
        d < 16,
    ensures
        hex_value(hex_digit(d)) == Some(d),
        is_lower_hex(hex_digit(d)),
{
}

proof fn lemma_hex4_digits(n: nat)
    requires
        n <= MAX_FRAME_LEN,
    ensures
        ((n / 4096) % 16) * 4096 + ((n / 256) % 16) * 256 + ((n / 16) % 16) * 16 + n % 16 == n,
{
    let m: u32 = n as u32;
    assert(((m / 4096) % 16) * 4096 + ((m / 256) % 16) * 256 + ((m / 16) % 16) * 16 + m % 16 == m)
        by (bit_vector)
        requires
            m <= 0xffff,
    ;
}

/// Decoding what `encode_line` produced gives the payload back, whatever
/// follows it in the stream, and the frame begins with four lowercase
/// hexadecimal digits that spell the payload's length plus four.
pub proof fn lemma_decode_encoded_line(payload: Seq<u8>, rest: Seq<u8>)
    requires
        payload.len() + 4 <= MAX_FRAME_LEN,
    ensures
        decoded_frame(encoded_line(payload) + rest) == Ok::<_, ProtocolError>(
            (Some(payload), payload.len() + 4),
        ),
        forall|i: int| 0 <= i < 4 ==> is_lower_hex(#[trigger] encoded_line(payload)[i]),
        prefix_value(encoded_line(payload)) == Some(payload.len() + 4),
{
    let n = payload.len() + 4;
    let line = encoded_line(payload);
    let input = line + rest;
    lemma_hex_digit_value((n / 4096) % 16);
    lemma_hex_digit_value((n / 256) % 16);
    lemma_hex_digit_value((n / 16) % 16);
    lemma_hex_digit_value(n % 16);
    lemma_hex4_digits(n);
    assert(input.subrange(4, n as int) =~= payload);
    assert(prefix_value(input) == Some(n));
    assert(prefix_value(line) == Some(n));
}

/// The flush marker reads back as a flush of four bytes.
pub proof fn lemma_decode_flush(rest: Seq<u8>)
    ensures
        decoded_frame(flush_marker() + rest) == Ok::<_, ProtocolError>((None::<Seq<u8>>, 4nat)),
{
    assert((flush_marker() + rest)[0] == ASCII_ZERO);
    assert((flush_marker() + rest)[3] == ASCII_ZERO);
}

} // verus!
