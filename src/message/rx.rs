//! Received frames.
use vstd::prelude::*;

use crate::bits::{field, flag, get_field, get_flag};
use crate::memory::controller::filter::FilterNumber;
use crate::message::{len_for_dlc, payload_len_of_dlc, MAX_FD_BUFFER_SIZE};

verus! {

/// The two-word header of a receive object.
#[derive(Debug, Clone, Copy, PartialEq, Eq)]
pub struct RxHeader(pub [u32; 2]);

impl RxHeader {
    /// Standard identifier.
    pub fn sid(&self) -> (r: u16)
        ensures
            r == field(self.0[0], 0, 11) as u16,
    {
        get_field(self.0[0], 0, 11) as u16
    }

    /// Identifier extension.
    pub fn eid(&self) -> (r: u32)
        ensures
            r == field(self.0[0], 11, 18),
    {
        get_field(self.0[0], 11, 18)
    }

    /// Data length code.
    pub fn dlc(&self) -> (r: u8)
        ensures
            r == field(self.0[1], 0, 4) as u8,
    {
        get_field(self.0[1], 0, 4) as u8
    }

    /// Identifier extension flag.
    pub fn ide(&self) -> (r: bool)
        ensures
            r == flag(self.0[1], 4),
    {
        get_flag(self.0[1], 4)
    }

    /// Remote transmission request.
    pub fn rtr(&self) -> (r: bool)
        ensures
            r == flag(self.0[1], 5),
    {
        get_flag(self.0[1], 5)
    }

    /// Bit rate switch.
    pub fn brs(&self) -> (r: bool)
        ensures
            r == flag(self.0[1], 6),
    {
        get_flag(self.0[1], 6)
    }

    /// CAN FD frame.
    pub fn fdf(&self) -> (r: bool)
        ensures
            r == flag(self.0[1], 7),
    {
        get_flag(self.0[1], 7)
    }

    /// Error status indicator.
    pub fn esi(&self) -> (r: bool)
        ensures
            r == flag(self.0[1], 8),
    {
        get_flag(self.0[1], 8)
    }

    /// The filter that accepted this frame (FILHIT, bits 11 to 15 of the
    /// second word).
    pub fn filter_hit(&self) -> (r: FilterNumber)
        ensures
            r.spec_value() == field(self.0[1], 11, 5),
    {
        proof {
            crate::bits::lemma_low_mask_values();
            crate::bits::lemma_field_bound(self.0[1], 11, 5);
        }
        match FilterNumber::try_from_value(get_field(self.0[1], 11, 5) as u8) {
            Some(f) => f,
            None => FilterNumber::Filter0,
        }
    }
}

/// The payload length that a receive header's code and FD flag give.
pub open spec fn rx_payload_len(header: RxHeader) -> nat {
    payload_len_of_dlc(field(header.0[1], 0, 4) as u8, flag(header.0[1], 7))->Some_0 as nat
}

/// The payload kept for a received frame: the bytes given, then zeros, up
/// to the length that the header's code denotes.
pub open spec fn rx_payload(header: RxHeader, data: Seq<u8>) -> Seq<u8> {
    Seq::new(rx_payload_len(header), |i: int| if i < data.len() { data[i] } else { 0u8 })
}

/// A received frame: header, optional timestamp and payload.
#[derive(Debug, Clone, PartialEq, Eq)]
pub struct RxMessage {
    header: RxHeader,
    timestamp: Option<u32>,
    data: Vec<u8>,
}

impl RxMessage {
    pub closed spec fn spec_header(&self) -> RxHeader {
        self.header
    }

    pub closed spec fn spec_timestamp(&self) -> Option<u32> {
        self.timestamp
    }

    pub closed spec fn spec_data(&self) -> Seq<u8> {
        self.data@
    }

    /// Builds a frame from what was read from RAM; `None` when `data` holds
    /// more than 64 bytes.
    pub fn new(header: RxHeader, timestamp: Option<u32>, data: &[u8]) -> (r: Option<RxMessage>)
        ensures
            r is Some <==> data@.len() <= MAX_FD_BUFFER_SIZE,
            r matches Some(m) ==> {
                &&& m.spec_header() == header
                &&& m.spec_timestamp() == timestamp
                &&& m.spec_data() == rx_payload(header, data@)
            },
    {
        if data.len() > MAX_FD_BUFFER_SIZE {
            return None;
        }
        proof {
            crate::bits::lemma_low_mask_values();
            crate::bits::lemma_field_bound(header.0[1], 0, 4);
        }
        let len = match len_for_dlc(header.dlc(), header.fdf()) {
            Some(l) => l,
            None => 0,
        };
        let mut buffer: Vec<u8> = Vec::new();
        let mut i: usize = 0;
        while i < len
            invariant
                i <= len,
                len == rx_payload_len(header),
                buffer@ == rx_payload(header, data@).subrange(0, i as int),
            decreases len - i,
        {
            let b = if i < data.len() {
                data[i]
            } else {
                0
            };
            buffer.push(b);
            i = i + 1;
            assert(buffer@ =~= rx_payload(header, data@).subrange(0, i as int));
        }
        assert(buffer@ =~= rx_payload(header, data@));
        Some(RxMessage { header, timestamp, data: buffer })
    }

    pub fn header(&self) -> (r: &RxHeader)
        ensures
            *r == self.spec_header(),
    {
        &self.header
    }

    /// The timestamp, when the FIFO was configured to store one.
    pub fn timestamp(&self) -> (r: Option<u32>)
        ensures
            r == self.spec_timestamp(),
    {
        self.timestamp
    }

    /// The payload, as long as the header's code says.
    pub fn data(&self) -> (r: &[u8])
        ensures
            r@ == self.spec_data(),
    {
        self.data.as_slice()
    }

    /// Whether the header marks a CAN FD frame.
    pub fn is_fd(&self) -> (r: bool)
        ensures
            r == flag(self.spec_header().0[1], 7),
    {
        self.header.fdf()
    }
}

} // verus!
