//! Transmit frames and transmit event objects.
use vstd::prelude::*;
use vstd::slice::slice_to_vec;

use crate::bits::{
    field, flag, get_field, get_flag, low_mask, put_field, put_flag, with_field, with_flag,
};
use crate::message::{
    dlc_for_len, dlc_of_payload_len, le_bytes, len_for_dlc, payload_len_of_dlc, push_le_bytes,
    MAX_FD_BUFFER_SIZE,
};

verus! {

/// A CAN identifier: 11-bit standard or 29-bit extended.
#[derive(Debug, Clone, Copy, PartialEq, Eq, Structural)]
pub enum CanId {
    Standard(u16),
    Extended(u32),
}

impl CanId {
    /// The raw identifier fits its width.
    pub open spec fn wf(self) -> bool {
        match self {
            CanId::Standard(raw) => raw <= 0x7FF,
            CanId::Extended(raw) => raw <= 0x1FFF_FFFF,
        }
    }

    /// A standard identifier, if `raw` fits in 11 bits.
    pub fn new_standard(raw: u16) -> (r: Option<CanId>)
        ensures
            r == (if raw <= 0x7FF { Some(CanId::Standard(raw)) } else { None::<CanId> }),
    {
        if raw <= 0x7FF {
            Some(CanId::Standard(raw))
        } else {
            None
        }
    }

    /// An extended identifier, if `raw` fits in 29 bits.
    pub fn new_extended(raw: u32) -> (r: Option<CanId>)
        ensures
            r == (if raw <= 0x1FFF_FFFF { Some(CanId::Extended(raw)) } else { None::<CanId> }),
    {
        if raw <= 0x1FFF_FFFF {
            Some(CanId::Extended(raw))
        } else {
            None
        }
    }
}

/// The first header word for an identifier: the standard part in bits 0 to
/// 10 and, for an extended identifier, its low 18 bits in bits 11 to 28.
pub open spec fn id_word(id: CanId) -> u32 {
    match id {
        CanId::Standard(raw) => raw as u32,
        CanId::Extended(raw) => (raw >> 18) | ((raw & 0x3FFFF) << 11),
    }
}

/// The second header word of a new frame: data length code, identifier
/// extension, remote request and FD format flags, all else clear.
pub open spec fn control_word(dlc: u8, extended: bool, remote: bool, is_fd: bool) -> u32 {
    (dlc as u32) | (if extended { 0x10u32 } else { 0 }) | (if remote { 0x20u32 } else { 0 }) | (
    if is_fd {
        0x80u32
    } else {
        0
    })
}

fn make_id_word(id: CanId) -> (r: u32)
    ensures
        r == id_word(id),
{
    match id {
        CanId::Standard(raw) => raw as u32,
        CanId::Extended(raw) => (raw >> 18) | ((raw & 0x3FFFF) << 11),
    }
}

fn make_control_word(dlc: u8, extended: bool, remote: bool, is_fd: bool) -> (r: u32)
    ensures
        r == control_word(dlc, extended, remote, is_fd),
{
    (dlc as u32) | (if extended { 0x10u32 } else { 0 }) | (if remote { 0x20u32 } else { 0 }) | (
    if is_fd {
        0x80u32
    } else {
        0
    })
}

/// The two-word header of a transmit object.
#[derive(Debug, Clone, Copy, PartialEq, Eq)]
pub struct TxHeader(pub [u32; 2]);

impl TxHeader {
    /// Standard identifier.
    pub fn sid(&self) -> (r: u16)
        ensures
            r == field(self.0[0], 0, 11) as u16,
    {
        get_field(self.0[0], 0, 11) as u16
    }

    pub fn set_sid(&mut self, value: u16)
        ensures
            final(self).0[0] == with_field(old(self).0[0], 0, 11, value as u32),
            final(self).0[1] == old(self).0[1],
    {
        self.0 = [put_field(self.0[0], 0, 11, value as u32), self.0[1]];
    }

    /// Identifier extension.
    pub fn eid(&self) -> (r: u32)
        ensures
            r == field(self.0[0], 11, 18),
    {
        get_field(self.0[0], 11, 18)
    }

    pub fn set_eid(&mut self, value: u32)
        ensures
            final(self).0[0] == with_field(old(self).0[0], 11, 18, value),
            final(self).0[1] == old(self).0[1],
    {
        self.0 = [put_field(self.0[0], 11, 18, value), self.0[1]];
    }

    /// SID11 bit.
    pub fn sid11(&self) -> (r: bool)
        ensures
            r == flag(self.0[0], 29),
    {
        get_flag(self.0[0], 29)
    }

    pub fn set_sid11(&mut self, value: bool)
        ensures
            final(self).0[0] == with_flag(old(self).0[0], 29, value),
            final(self).0[1] == old(self).0[1],
    {
        self.0 = [put_flag(self.0[0], 29, value), self.0[1]];
    }

    /// Data length code.
    pub fn dlc(&self) -> (r: u8)
        ensures
            r == field(self.0[1], 0, 4) as u8,
    {
        get_field(self.0[1], 0, 4) as u8
    }

    pub fn set_dlc(&mut self, value: u8)
        ensures
            final(self).0[1] == with_field(old(self).0[1], 0, 4, value as u32),
            final(self).0[0] == old(self).0[0],
    {
        self.0 = [self.0[0], put_field(self.0[1], 0, 4, value as u32)];
    }

    /// Identifier extension flag.
    pub fn ide(&self) -> (r: bool)
        ensures
            r == flag(self.0[1], 4),
    {
        get_flag(self.0[1], 4)
    }

    pub fn set_ide(&mut self, value: bool)
        ensures
            final(self).0[1] == with_flag(old(self).0[1], 4, value),
            final(self).0[0] == old(self).0[0],
    {
        self.0 = [self.0[0], put_flag(self.0[1], 4, value)];
    }

    /// Remote transmission request.
    pub fn rtr(&self) -> (r: bool)
        ensures
            r == flag(self.0[1], 5),
    {
        get_flag(self.0[1], 5)
    }

    pub fn set_rtr(&mut self, value: bool)
        ensures
            final(self).0[1] == with_flag(old(self).0[1], 5, value),
            final(self).0[0] == old(self).0[0],
    {
        self.0 = [self.0[0], put_flag(self.0[1], 5, value)];
    }

    /// Bit rate switch.
    pub fn brs(&self) -> (r: bool)
        ensures
            r == flag(self.0[1], 6),
    {
        get_flag(self.0[1], 6)
    }

    pub fn set_brs(&mut self, value: bool)
        ensures
            final(self).0[1] == with_flag(old(self).0[1], 6, value),
            final(self).0[0] == old(self).0[0],
    {
        self.0 = [self.0[0], put_flag(self.0[1], 6, value)];
    }

    /// CAN FD frame.
    pub fn fdf(&self) -> (r: bool)
        ensures
            r == flag(self.0[1], 7),
    {
        get_flag(self.0[1], 7)
    }

    pub fn set_fdf(&mut self, value: bool)
        ensures
            final(self).0[1] == with_flag(old(self).0[1], 7, value),
            final(self).0[0] == old(self).0[0],
    {
        self.0 = [self.0[0], put_flag(self.0[1], 7, value)];
    }

    /// Error status indicator.
    pub fn esi(&self) -> (r: bool)
        ensures
            r == flag(self.0[1], 8),
    {
        get_flag(self.0[1], 8)
    }

    pub fn set_esi(&mut self, value: bool)
        ensures
            final(self).0[1] == with_flag(old(self).0[1], 8, value),
            final(self).0[0] == old(self).0[0],
    {
        self.0 = [self.0[0], put_flag(self.0[1], 8, value)];
    }

    /// Sequence number, echoed in the transmit event object.
    pub fn seq(&self) -> (r: u32)
        ensures
            r == field(self.0[1], 9, 23),
    {
        get_field(self.0[1], 9, 23)
    }

    pub fn set_seq(&mut self, value: u32)
        ensures
            final(self).0[1] == with_field(old(self).0[1], 9, 23, value),
            final(self).0[0] == old(self).0[0],
    {
        self.0 = [self.0[0], put_field(self.0[1], 9, 23, value)];
    }

    /// The identifier as one number: the standard part above the 18-bit
    /// extension.
    pub fn raw_id(&self) -> (r: u32)
        ensures
            r == ((field(self.0[0], 0, 11) << 18) | field(self.0[0], 11, 18)),
    {
        (get_field(self.0[0], 0, 11) << 18) | get_field(self.0[0], 11, 18)
    }
}

/// A frame to transmit: header and payload.
#[derive(Debug, Clone, PartialEq, Eq)]
pub struct TxMessage {
    header: TxHeader,
    data: Vec<u8>,
}

impl TxMessage {
    pub closed spec fn spec_header(&self) -> TxHeader {
        self.header
    }

    pub closed spec fn spec_data(&self) -> Seq<u8> {
        self.data@
    }

    /// The payload length is the one that the header's code denotes.
    pub open spec fn wf(&self) -> bool {
        &&& self.spec_data().len() <= MAX_FD_BUFFER_SIZE
        &&& payload_len_of_dlc(
            field(self.spec_header().0[1], 0, 4) as u8,
            flag(self.spec_header().0[1], 7),
        ) == Some(self.spec_data().len() as usize)
    }

    /// A CAN FD data frame; `None` where no code exists for the payload length.
    pub fn new_fd(identifier: CanId, data: &[u8]) -> (r: Option<Self>)
        requires
            identifier.wf(),
        ensures
            r is Some <==> dlc_of_payload_len(data@.len() as usize, true) is Some,
            r matches Some(m) ==> {
                &&& m.wf()
                &&& m.spec_data() == data@
                &&& m.spec_header().0[0] == id_word(identifier)
                &&& m.spec_header().0[1] == control_word(
                    dlc_of_payload_len(data@.len() as usize, true)->Some_0,
                    identifier is Extended,
                    false,
                    true,
                )
            },
    {
        Self::new_with_data(identifier, data, true)
    }

    /// A classic CAN 2.0 data frame; `None` for a payload above 8 bytes.
    pub fn new_2_0(identifier: CanId, data: &[u8]) -> (r: Option<Self>)
        requires
            identifier.wf(),
        ensures
            r is Some <==> data@.len() <= 8,
            r matches Some(m) ==> {
                &&& m.wf()
                &&& m.spec_data() == data@
                &&& m.spec_header().0[0] == id_word(identifier)
                &&& m.spec_header().0[1] == control_word(
                    data@.len() as u8,
                    identifier is Extended,
                    false,
                    false,
                )
            },
    {
        Self::new_with_data(identifier, data, false)
    }

    fn new_with_data(identifier: CanId, data: &[u8], is_fd: bool) -> (r: Option<Self>)
        requires
            identifier.wf(),
        ensures
            r is Some <==> dlc_of_payload_len(data@.len() as usize, is_fd) is Some,
            r matches Some(m) ==> {
                &&& m.wf()
                &&& m.spec_data() == data@
                &&& m.spec_header().0[0] == id_word(identifier)
                &&& m.spec_header().0[1] == control_word(
                    dlc_of_payload_len(data@.len() as usize, is_fd)->Some_0,
                    identifier is Extended,
                    false,
                    is_fd,
                )
            },
    {
        let dlc = match dlc_for_len(data.len(), is_fd) {
            Some(d) => d,
            None => return None,
        };
        let extended = match identifier {
            CanId::Standard(_) => false,
            CanId::Extended(_) => true,
        };
        let header = TxHeader([make_id_word(identifier), make_control_word(dlc, extended, false, is_fd)]);
        proof {
            lemma_control_word_fields(dlc, extended, false, is_fd);
        }
        Some(TxMessage { header, data: slice_to_vec(data) })
    }

    /// A classic remote frame requesting `dlc` bytes; `None` for a code above 8.
    pub fn new_remote(identifier: CanId, dlc: u8) -> (r: Option<Self>)
        requires
            identifier.wf(),
        ensures
            r is Some <==> dlc <= 8,
            r matches Some(m) ==> {
                &&& m.wf()
                &&& m.spec_data() == Seq::new(dlc as nat, |i: int| 0u8)
                &&& m.spec_header().0[0] == id_word(identifier)
                &&& m.spec_header().0[1] == control_word(dlc, identifier is Extended, true, false)
            },
    {
        if dlc > 8 {
            return None;
        }
        let extended = match identifier {
            CanId::Standard(_) => false,
            CanId::Extended(_) => true,
        };
        let header = TxHeader([make_id_word(identifier), make_control_word(dlc, extended, true, false)]);
        proof {
            lemma_control_word_fields(dlc, extended, true, false);
        }
        let mut data: Vec<u8> = Vec::new();
        let mut i: u8 = 0;
        while i < dlc
            invariant
                i <= dlc,
                data@ == Seq::new(i as nat, |k: int| 0u8),
            decreases dlc - i,
        {
            data.push(0);
            i = i + 1;
            assert(data@ =~= Seq::new(i as nat, |k: int| 0u8));
        }
        Some(TxMessage { header, data })
    }

    pub fn with_bit_rate_switched(self, brs: bool) -> (r: Self)
        requires
            self.wf(),
        ensures
            r.wf(),
            r.spec_data() == self.spec_data(),
            r.spec_header().0[0] == self.spec_header().0[0],
            r.spec_header().0[1] == with_flag(self.spec_header().0[1], 6, brs),
    {
        let mut m = self;
        m.header.set_brs(brs);
        proof {
            lemma_control_flag_keeps_code(self.header.0[1], 6, brs);
        }
        m
    }

    pub fn with_error_status_indicator(self, esi: bool) -> (r: Self)
        requires
            self.wf(),
        ensures
            r.wf(),
            r.spec_data() == self.spec_data(),
            r.spec_header().0[0] == self.spec_header().0[0],
            r.spec_header().0[1] == with_flag(self.spec_header().0[1], 8, esi),
    {
        let mut m = self;
        m.header.set_esi(esi);
        proof {
            lemma_control_flag_keeps_code(self.header.0[1], 8, esi);
        }
        m
    }

    /// Sets the 23-bit sequence number; higher bits of `seq` are dropped.
    pub fn with_sequence_number(self, seq: u32) -> (r: Self)
        requires
            self.wf(),
        ensures
            r.wf(),
            r.spec_data() == self.spec_data(),
            r.spec_header().0[0] == self.spec_header().0[0],
            r.spec_header().0[1] == with_field(self.spec_header().0[1], 9, 23, seq),
    {
        let mut m = self;
        m.header.set_seq(seq);
        proof {
            crate::bits::lemma_field_round_trip(self.header.0[1], 9, 23, seq);
            lemma_low_field_kept(self.header.0[1], with_field(self.header.0[1], 9, 23, seq));
        }
        m
    }

    pub fn header(&self) -> (r: &TxHeader)
        ensures
            *r == self.spec_header(),
    {
        &self.header
    }

    /// The identifier that the header holds.
    pub fn id(&self) -> (r: CanId)
        ensures
            r == (if flag(self.spec_header().0[1], 4) {
                CanId::Extended(
                    (field(self.spec_header().0[0], 0, 11) << 18) | field(self.spec_header().0[0], 11, 18),
                )
            } else {
                CanId::Standard(field(self.spec_header().0[0], 0, 11) as u16)
            }),
    {
        if self.header.ide() {
            CanId::Extended(self.header.raw_id())
        } else {
            CanId::Standard(self.header.sid())
        }
    }

    pub fn data(&self) -> (r: &[u8])
        ensures
            r@ == self.spec_data(),
    {
        self.data.as_slice()
    }

    /// The bytes of the transmit object in RAM: the two header words, least
    /// significant byte first, then the payload, padded with zeros to 72
    /// bytes; and the number of meaningful bytes, 8 plus the payload length.
    pub fn as_bytes(&self) -> (r: (usize, Vec<u8>))
        requires
            self.wf(),
        ensures
            r.0 == 8 + self.spec_data().len(),
            r.1@ == le_bytes(self.spec_header().0[0]) + le_bytes(self.spec_header().0[1])
                + self.spec_data() + Seq::new((64 - self.spec_data().len()) as nat, |i: int| 0u8),
    {
        let mut buffer: Vec<u8> = Vec::new();
        push_le_bytes(&mut buffer, self.header.0[0]);
        push_le_bytes(&mut buffer, self.header.0[1]);
        let ghost head = buffer@;
        let mut i: usize = 0;
        while i < self.data.len()
            invariant
                i <= self.data@.len(),
                buffer@ == head + self.data@.subrange(0, i as int),
            decreases self.data@.len() - i,
        {
            buffer.push(self.data[i]);
            i = i + 1;
            assert(buffer@ =~= head + self.data@.subrange(0, i as int));
        }
        assert(self.data@.subrange(0, i as int) =~= self.data@);
        let ghost body = buffer@;
        let mut j: usize = self.data.len();
        while j < MAX_FD_BUFFER_SIZE
            invariant
                self.data@.len() <= j <= MAX_FD_BUFFER_SIZE,
                buffer@ == body + Seq::new((j - self.data@.len()) as nat, |k: int| 0u8),
            decreases MAX_FD_BUFFER_SIZE - j,
        {
            buffer.push(0);
            j = j + 1;
            assert(buffer@ =~= body + Seq::new((j - self.data@.len()) as nat, |k: int| 0u8));
        }
        (8 + self.data.len(), buffer)
    }
}

/// The fields of a freshly built control word.
proof fn lemma_control_word_fields(dlc: u8, extended: bool, remote: bool, is_fd: bool)
    requires
        dlc <= 15,
    ensures
        field(control_word(dlc, extended, remote, is_fd), 0, 4) == dlc,
        flag(control_word(dlc, extended, remote, is_fd), 7) == is_fd,
{
    let w = control_word(dlc, extended, remote, is_fd);
    let d = dlc as u32;
    let e: u32 = if extended { 0x10 } else { 0 };
    let t: u32 = if remote { 0x20 } else { 0 };
    let f: u32 = if is_fd { 0x80 } else { 0 };
    crate::bits::lemma_low_mask_values();
    assert(field(d | e | t | f, 0, 4) == d && (flag(d | e | t | f, 7) <==> f == 0x80)) by (bit_vector)
        requires
            d <= 15 && (e == 0 || e == 0x10) && (t == 0 || t == 0x20) && (f == 0 || f == 0x80),
            low_mask(4) == 15,
    ;
}

/// Writing a flag outside the code and the FD flag keeps both.
proof fn lemma_control_flag_keeps_code(w: u32, bit: u32, value: bool)
    requires
        4 <= bit < 32,
        bit != 7,
    ensures
        field(with_flag(w, bit, value), 0, 4) == field(w, 0, 4),
        flag(with_flag(w, bit, value), 7) == flag(w, 7),
{
    crate::bits::lemma_flag_round_trip(w, bit, value);
    lemma_low_field_kept(w, with_flag(w, bit, value));
}

/// Words that agree on bits 0 to 3 and 7 agree on the code and the FD flag.
proof fn lemma_low_field_kept(w: u32, v: u32)
    requires
        forall|b: u32| (b < 4 || b == 7) ==> #[trigger] flag(v, b) == flag(w, b),
    ensures
        field(v, 0, 4) == field(w, 0, 4),
        flag(v, 7) == flag(w, 7),
{
    crate::bits::lemma_low_mask_values();
    assert(flag(v, 0) == flag(w, 0) && flag(v, 1) == flag(w, 1) && flag(v, 2) == flag(w, 2) && flag(v, 3)
        == flag(w, 3));
    assert(field(v, 0, 4) == field(w, 0, 4)) by (bit_vector)
        requires
            low_mask(4) == 15,
            flag(v, 0) == flag(w, 0) && flag(v, 1) == flag(w, 1) && flag(v, 2) == flag(w, 2) && flag(v, 3)
                == flag(w, 3),
    ;
    assert(flag(v, 7) == flag(w, 7));
}

/// A transmit event object: the header of a sent frame, and its timestamp
/// when the event FIFO stores them.
#[derive(Debug, Clone, Copy, PartialEq, Eq)]
pub struct TxEventObject {
    pub header: TxHeader,
    pub timestamp: Option<u32>,
}

} // verus!
