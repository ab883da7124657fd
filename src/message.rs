//! CAN and CAN-FD frames as laid out in the controller's RAM.
use vstd::prelude::*;

pub mod rx;
pub mod tx;

verus! {

/// Number of 32-bit words in a transmit or receive object header.
pub const HEADER_SIZE_DWORDS: usize = 2;

/// Largest payload of a CAN-FD frame, in bytes.
pub const MAX_FD_BUFFER_SIZE: usize = 64;

/// The payload length that a data length code stands for: the identity up
/// to 8, the CAN-FD table above that, and 8 for every code above 8 in a
/// classic CAN frame.
pub open spec fn payload_len_of_dlc(dlc: u8, is_fd: bool) -> Option<usize> {
    if dlc <= 8 {
        Some(dlc as usize)
    } else if dlc > 15 {
        None
    } else if !is_fd {
        Some(8)
    } else if dlc == 9 {
        Some(12)
    } else if dlc == 10 {
        Some(16)
    } else if dlc == 11 {
        Some(20)
    } else if dlc == 12 {
        Some(24)
    } else if dlc == 13 {
        Some(32)
    } else if dlc == 14 {
        Some(48)
    } else {
        Some(64)
    }
}

/// The data length code for a payload length, where one exists.
pub open spec fn dlc_of_payload_len(len: usize, is_fd: bool) -> Option<u8> {
    if len <= 8 {
        Some(len as u8)
    } else if !is_fd {
        None
    } else if len == 12 {
        Some(9)
    } else if len == 16 {
        Some(10)
    } else if len == 20 {
        Some(11)
    } else if len == 24 {
        Some(12)
    } else if len == 32 {
        Some(13)
    } else if len == 48 {
        Some(14)
    } else if len == 64 {
        Some(15)
    } else {
        None
    }
}

/// Data length code for a payload of `len` bytes; `None` where the frame
/// format has no code for that length.
pub fn dlc_for_len(len: usize, is_fd: bool) -> (r: Option<u8>)
    ensures
        r == dlc_of_payload_len(len, is_fd),
{
    if len <= 8 {
        return Some(len as u8);
    }
    if !is_fd {
        return None;
    }
    match len {
        12 => Some(9),
        16 => Some(10),
        20 => Some(11),
        24 => Some(12),
        32 => Some(13),
        48 => Some(14),
        64 => Some(15),
        _ => None,
    }
}

/// Payload length in bytes that a data length code denotes; `None` for
/// codes above 15.
pub fn len_for_dlc(dlc: u8, is_fd: bool) -> (r: Option<usize>)
    ensures
        r == payload_len_of_dlc(dlc, is_fd),
{
    if dlc <= 8 {
        return Some(dlc as usize);
    }
    if dlc > 15 {
        return None;
    }
    if !is_fd {
        return Some(8);
    }
    match dlc {
        9 => Some(12),
        10 => Some(16),
        11 => Some(20),
        12 => Some(24),
        13 => Some(32),
        14 => Some(48),
        _ => Some(64),
    }
}

/// The four bytes of `w`, least significant first.
pub open spec fn le_bytes(w: u32) -> Seq<u8> {
    seq![(w & 0xFF) as u8, ((w >> 8) & 0xFF) as u8, ((w >> 16) & 0xFF) as u8, ((w >> 24) & 0xFF) as u8]
}

/// The word whose bytes, least significant first, are `b0` to `b3`.
pub open spec fn le_word(b0: u8, b1: u8, b2: u8, b3: u8) -> u32 {
    (b0 as u32) | ((b1 as u32) << 8) | ((b2 as u32) << 16) | ((b3 as u32) << 24)
}

/// The word held little-endian in the four bytes of `bytes` from `start`.
pub open spec fn le_word_at(bytes: Seq<u8>, start: int) -> u32 {
    le_word(bytes[start], bytes[start + 1], bytes[start + 2], bytes[start + 3])
}

/// Appends the four bytes of `w`, least significant first.
pub fn push_le_bytes(out: &mut Vec<u8>, w: u32)
    ensures
        final(out)@ == old(out)@ + le_bytes(w),
{
    out.push((w & 0xFF) as u8);
    out.push(((w >> 8) & 0xFF) as u8);
    out.push(((w >> 16) & 0xFF) as u8);
    out.push(((w >> 24) & 0xFF) as u8);
    assert(out@ =~= old(out)@ + le_bytes(w));
}

/// The word stored little-endian at `bytes[start..start + 4]`.
pub fn read_le_word(bytes: &[u8], start: usize) -> (r: u32)
    requires
        start + 4 <= bytes@.len(),
    ensures
        r == le_word_at(bytes@, start as int),
{
    (bytes[start] as u32) | ((bytes[start + 1] as u32) << 8) | ((bytes[start + 2] as u32) << 16)
        | ((bytes[start + 3] as u32) << 24)
}

/// Encoding a word to bytes and decoding them gives the word back, and
/// decoding bytes then encoding the word gives the bytes back.
pub proof fn lemma_le_round_trip(w: u32, b0: u8, b1: u8, b2: u8, b3: u8)
    ensures
        le_word(le_bytes(w)[0], le_bytes(w)[1], le_bytes(w)[2], le_bytes(w)[3]) == w,
        le_bytes(le_word(b0, b1, b2, b3)) == seq![b0, b1, b2, b3],
{
    assert(le_word(
        (w & 0xFF) as u8,
        ((w >> 8) & 0xFF) as u8,
        ((w >> 16) & 0xFF) as u8,
        ((w >> 24) & 0xFF) as u8,
    ) == w) by (bit_vector);
    let v = le_word(b0, b1, b2, b3);
    assert((v & 0xFF) as u8 == b0 && ((v >> 8) & 0xFF) as u8 == b1 && ((v >> 16) & 0xFF) as u8 == b2
        && ((v >> 24) & 0xFF) as u8 == b3) by (bit_vector)
        requires
            v == le_word(b0, b1, b2, b3),
    ;
    assert(le_bytes(v) =~= seq![b0, b1, b2, b3]);
}

/// Lengths up to 8 are their own code in both frame formats, and map back
/// to themselves.
pub proof fn lemma_small_len_round_trip(len: usize, is_fd: bool)
    requires
        len <= 8,
    ensures
        dlc_of_payload_len(len, is_fd) == Some(len as u8),
        payload_len_of_dlc(len as u8, is_fd) == Some(len),
{
}

/// Every length that has a code maps back to itself through that code.
pub proof fn lemma_len_dlc_round_trip(len: usize, is_fd: bool)
    requires
        dlc_of_payload_len(len, is_fd) is Some,
    ensures
        payload_len_of_dlc(dlc_of_payload_len(len, is_fd)->Some_0, is_fd) == Some(len),
{
}

/// In a CAN-FD frame every code maps to a length whose code is that code.
pub proof fn lemma_fd_dlc_round_trip(dlc: u8)
    requires
        dlc <= 15,
    ensures
        payload_len_of_dlc(dlc, true) is Some,
        dlc_of_payload_len(payload_len_of_dlc(dlc, true)->Some_0, true) == Some(dlc),
{
}

/// A classic CAN frame has no code for a payload above 8 bytes.
pub proof fn lemma_classic_len_above_eight(len: usize)
    requires
        len > 8,
    ensures
        dlc_of_payload_len(len, false) is None,
{
}

/// In a classic CAN frame every code from 9 to 15 denotes 8 bytes.
pub proof fn lemma_classic_dlc_above_eight(dlc: u8)
    requires
        9 <= dlc <= 15,
    ensures
        payload_len_of_dlc(dlc, false) == Some(8usize),
{
}

} // verus!
