//! Acceptance filter registers: control groups, filter objects and masks.
use vstd::prelude::*;

use crate::bits::{field, flag, get_field, get_flag, put_field, put_flag, with_field, with_flag};
use crate::memory::controller::fifo::FifoNumber;
use crate::memory::{RegisterValue, RepeatedRegister, SFRAddress};

verus! {

/// One of the eight filter control registers, each for four filters.
#[derive(Clone, Copy, Debug, PartialEq, Eq, Structural)]
pub enum FilterControlNumber {
    FilterControl0,
    FilterControl1,
    FilterControl2,
    FilterControl3,
    FilterControl4,
    FilterControl5,
    FilterControl6,
    FilterControl7,
}

impl FilterControlNumber {
    /// The value that encodes this variant in its register field.
    pub open spec fn spec_value(self) -> u8 {
        match self {
            FilterControlNumber::FilterControl0 => 0,
            FilterControlNumber::FilterControl1 => 1,
            FilterControlNumber::FilterControl2 => 2,
            FilterControlNumber::FilterControl3 => 3,
            FilterControlNumber::FilterControl4 => 4,
            FilterControlNumber::FilterControl5 => 5,
            FilterControlNumber::FilterControl6 => 6,
            FilterControlNumber::FilterControl7 => 7,
        }
    }

    pub fn value(self) -> (r: u8)
        ensures
            r == self.spec_value(),
    {
        match self {
            FilterControlNumber::FilterControl0 => 0,
            FilterControlNumber::FilterControl1 => 1,
            FilterControlNumber::FilterControl2 => 2,
            FilterControlNumber::FilterControl3 => 3,
            FilterControlNumber::FilterControl4 => 4,
            FilterControlNumber::FilterControl5 => 5,
            FilterControlNumber::FilterControl6 => 6,
            FilterControlNumber::FilterControl7 => 7,
        }
    }

    /// The variant that the raw value `v` encodes, if any.
    pub open spec fn spec_from_value(v: u8) -> Option<FilterControlNumber> {
        if v == 0 {
            Some(FilterControlNumber::FilterControl0)
        } else if v == 1 {
            Some(FilterControlNumber::FilterControl1)
        } else if v == 2 {
            Some(FilterControlNumber::FilterControl2)
        } else if v == 3 {
            Some(FilterControlNumber::FilterControl3)
        } else if v == 4 {
            Some(FilterControlNumber::FilterControl4)
        } else if v == 5 {
            Some(FilterControlNumber::FilterControl5)
        } else if v == 6 {
            Some(FilterControlNumber::FilterControl6)
        } else if v == 7 {
            Some(FilterControlNumber::FilterControl7)
        } else {
            None
        }
    }

    /// The variant that `v` encodes, if any.
    pub fn try_from_value(v: u8) -> (r: Option<FilterControlNumber>)
        ensures
            r == Self::spec_from_value(v),
            r matches Some(x) ==> x.spec_value() == v,
    {
        match v {
            0 => Some(FilterControlNumber::FilterControl0),
            1 => Some(FilterControlNumber::FilterControl1),
            2 => Some(FilterControlNumber::FilterControl2),
            3 => Some(FilterControlNumber::FilterControl3),
            4 => Some(FilterControlNumber::FilterControl4),
            5 => Some(FilterControlNumber::FilterControl5),
            6 => Some(FilterControlNumber::FilterControl6),
            7 => Some(FilterControlNumber::FilterControl7),

            _ => None,
        }
    }
}

/// Position of a filter within its control register.
#[derive(Clone, Copy, Debug, PartialEq, Eq, Structural)]
pub enum FilterControlIndex {
    Filter0,
    Filter1,
    Filter2,
    Filter3,
}

impl FilterControlIndex {
    /// The value that encodes this variant in its register field.
    pub open spec fn spec_value(self) -> u8 {
        match self {
            FilterControlIndex::Filter0 => 0,
            FilterControlIndex::Filter1 => 1,
            FilterControlIndex::Filter2 => 2,
            FilterControlIndex::Filter3 => 3,
        }
    }

    pub fn value(self) -> (r: u8)
        ensures
            r == self.spec_value(),
    {
        match self {
            FilterControlIndex::Filter0 => 0,
            FilterControlIndex::Filter1 => 1,
            FilterControlIndex::Filter2 => 2,
            FilterControlIndex::Filter3 => 3,
        }
    }

    /// The variant that the raw value `v` encodes, if any.
    pub open spec fn spec_from_value(v: u8) -> Option<FilterControlIndex> {
        if v == 0 {
            Some(FilterControlIndex::Filter0)
        } else if v == 1 {
            Some(FilterControlIndex::Filter1)
        } else if v == 2 {
            Some(FilterControlIndex::Filter2)
        } else if v == 3 {
            Some(FilterControlIndex::Filter3)
        } else {
            None
        }
    }

    /// The variant that `v` encodes, if any.
    pub fn try_from_value(v: u8) -> (r: Option<FilterControlIndex>)
        ensures
            r == Self::spec_from_value(v),
            r matches Some(x) ==> x.spec_value() == v,
    {
        match v {
            0 => Some(FilterControlIndex::Filter0),
            1 => Some(FilterControlIndex::Filter1),
            2 => Some(FilterControlIndex::Filter2),
            3 => Some(FilterControlIndex::Filter3),

            _ => None,
        }
    }
}

/// One of the 32 acceptance filters.
#[derive(Clone, Copy, Debug, PartialEq, Eq, Structural)]
pub enum FilterNumber {
    Filter0,
    Filter1,
    Filter2,
    Filter3,
    Filter4,
    Filter5,
    Filter6,
    Filter7,
    Filter8,
    Filter9,
    Filter10,
    Filter11,
    Filter12,
    Filter13,
    Filter14,
    Filter15,
    Filter16,
    Filter17,
    Filter18,
    Filter19,
    Filter20,
    Filter21,
    Filter22,
    Filter23,
    Filter24,
    Filter25,
    Filter26,
    Filter27,
    Filter28,
    Filter29,
    Filter30,
    Filter31,
}

impl FilterNumber {
    /// The value that encodes this variant in its register field.
    pub open spec fn spec_value(self) -> u8 {
        match self {
            FilterNumber::Filter0 => 0,
            FilterNumber::Filter1 => 1,
            FilterNumber::Filter2 => 2,
            FilterNumber::Filter3 => 3,
            FilterNumber::Filter4 => 4,
            FilterNumber::Filter5 => 5,
            FilterNumber::Filter6 => 6,
            FilterNumber::Filter7 => 7,
            FilterNumber::Filter8 => 8,
            FilterNumber::Filter9 => 9,
            FilterNumber::Filter10 => 10,
            FilterNumber::Filter11 => 11,
            FilterNumber::Filter12 => 12,
            FilterNumber::Filter13 => 13,
            FilterNumber::Filter14 => 14,
            FilterNumber::Filter15 => 15,
            FilterNumber::Filter16 => 16,
            FilterNumber::Filter17 => 17,
            FilterNumber::Filter18 => 18,
            FilterNumber::Filter19 => 19,
            FilterNumber::Filter20 => 20,
            FilterNumber::Filter21 => 21,
            FilterNumber::Filter22 => 22,
            FilterNumber::Filter23 => 23,
            FilterNumber::Filter24 => 24,
            FilterNumber::Filter25 => 25,
            FilterNumber::Filter26 => 26,
            FilterNumber::Filter27 => 27,
            FilterNumber::Filter28 => 28,
            FilterNumber::Filter29 => 29,
            FilterNumber::Filter30 => 30,
            FilterNumber::Filter31 => 31,
        }
    }

    pub fn value(self) -> (r: u8)
        ensures
            r == self.spec_value(),
    {
        match self {
            FilterNumber::Filter0 => 0,
            FilterNumber::Filter1 => 1,
            FilterNumber::Filter2 => 2,
            FilterNumber::Filter3 => 3,
            FilterNumber::Filter4 => 4,
            FilterNumber::Filter5 => 5,
            FilterNumber::Filter6 => 6,
            FilterNumber::Filter7 => 7,
            FilterNumber::Filter8 => 8,
            FilterNumber::Filter9 => 9,
            FilterNumber::Filter10 => 10,
            FilterNumber::Filter11 => 11,
            FilterNumber::Filter12 => 12,
            FilterNumber::Filter13 => 13,
            FilterNumber::Filter14 => 14,
            FilterNumber::Filter15 => 15,
            FilterNumber::Filter16 => 16,
            FilterNumber::Filter17 => 17,
            FilterNumber::Filter18 => 18,
            FilterNumber::Filter19 => 19,
            FilterNumber::Filter20 => 20,
            FilterNumber::Filter21 => 21,
            FilterNumber::Filter22 => 22,
            FilterNumber::Filter23 => 23,
            FilterNumber::Filter24 => 24,
            FilterNumber::Filter25 => 25,
            FilterNumber::Filter26 => 26,
            FilterNumber::Filter27 => 27,
            FilterNumber::Filter28 => 28,
            FilterNumber::Filter29 => 29,
            FilterNumber::Filter30 => 30,
            FilterNumber::Filter31 => 31,
        }
    }

    /// The variant that the raw value `v` encodes, if any.
    pub open spec fn spec_from_value(v: u8) -> Option<FilterNumber> {
        if v == 0 {
            Some(FilterNumber::Filter0)
        } else if v == 1 {
            Some(FilterNumber::Filter1)
        } else if v == 2 {
            Some(FilterNumber::Filter2)
        } else if v == 3 {
            Some(FilterNumber::Filter3)
        } else if v == 4 {
            Some(FilterNumber::Filter4)
        } else if v == 5 {
            Some(FilterNumber::Filter5)
        } else if v == 6 {
            Some(FilterNumber::Filter6)
        } else if v == 7 {
            Some(FilterNumber::Filter7)
        } else if v == 8 {
            Some(FilterNumber::Filter8)
        } else if v == 9 {
            Some(FilterNumber::Filter9)
        } else if v == 10 {
            Some(FilterNumber::Filter10)
        } else if v == 11 {
            Some(FilterNumber::Filter11)
        } else if v == 12 {
            Some(FilterNumber::Filter12)
        } else if v == 13 {
            Some(FilterNumber::Filter13)
        } else if v == 14 {
            Some(FilterNumber::Filter14)
        } else if v == 15 {
            Some(FilterNumber::Filter15)
        } else if v == 16 {
            Some(FilterNumber::Filter16)
        } else if v == 17 {
            Some(FilterNumber::Filter17)
        } else if v == 18 {
            Some(FilterNumber::Filter18)
        } else if v == 19 {
            Some(FilterNumber::Filter19)
        } else if v == 20 {
            Some(FilterNumber::Filter20)
        } else if v == 21 {
            Some(FilterNumber::Filter21)
        } else if v == 22 {
            Some(FilterNumber::Filter22)
        } else if v == 23 {
            Some(FilterNumber::Filter23)
        } else if v == 24 {
            Some(FilterNumber::Filter24)
        } else if v == 25 {
            Some(FilterNumber::Filter25)
        } else if v == 26 {
            Some(FilterNumber::Filter26)
        } else if v == 27 {
            Some(FilterNumber::Filter27)
        } else if v == 28 {
            Some(FilterNumber::Filter28)
        } else if v == 29 {
            Some(FilterNumber::Filter29)
        } else if v == 30 {
            Some(FilterNumber::Filter30)
        } else if v == 31 {
            Some(FilterNumber::Filter31)
        } else {
            None
        }
    }

    /// The variant that `v` encodes, if any.
    pub fn try_from_value(v: u8) -> (r: Option<FilterNumber>)
        ensures
            r == Self::spec_from_value(v),
            r matches Some(x) ==> x.spec_value() == v,
    {
        match v {
            0 => Some(FilterNumber::Filter0),
            1 => Some(FilterNumber::Filter1),
            2 => Some(FilterNumber::Filter2),
            3 => Some(FilterNumber::Filter3),
            4 => Some(FilterNumber::Filter4),
            5 => Some(FilterNumber::Filter5),
            6 => Some(FilterNumber::Filter6),
            7 => Some(FilterNumber::Filter7),
            8 => Some(FilterNumber::Filter8),
            9 => Some(FilterNumber::Filter9),
            10 => Some(FilterNumber::Filter10),
            11 => Some(FilterNumber::Filter11),
            12 => Some(FilterNumber::Filter12),
            13 => Some(FilterNumber::Filter13),
            14 => Some(FilterNumber::Filter14),
            15 => Some(FilterNumber::Filter15),
            16 => Some(FilterNumber::Filter16),
            17 => Some(FilterNumber::Filter17),
            18 => Some(FilterNumber::Filter18),
            19 => Some(FilterNumber::Filter19),
            20 => Some(FilterNumber::Filter20),
            21 => Some(FilterNumber::Filter21),
            22 => Some(FilterNumber::Filter22),
            23 => Some(FilterNumber::Filter23),
            24 => Some(FilterNumber::Filter24),
            25 => Some(FilterNumber::Filter25),
            26 => Some(FilterNumber::Filter26),
            27 => Some(FilterNumber::Filter27),
            28 => Some(FilterNumber::Filter28),
            29 => Some(FilterNumber::Filter29),
            30 => Some(FilterNumber::Filter30),
            31 => Some(FilterNumber::Filter31),

            _ => None,
        }
    }
}

impl FilterNumber {
    /// The control register that holds filter `n`.
    pub open spec fn spec_control_number(n: FilterNumber) -> FilterControlNumber {
        FilterControlNumber::spec_from_value(n.spec_value() / 4)->Some_0
    }

    /// The control register that holds this filter, and the filter's place in it.
    pub fn get_control_register(&self) -> (r: (FilterControlNumber, FilterControlIndex))
        ensures
            r.0 == Self::spec_control_number(*self),
            r.0.spec_value() == self.spec_value() / 4,
            r.1.spec_value() == self.spec_value() % 4,
    {
        let n = self.value();
        let control_number = match FilterControlNumber::try_from_value(n / 4) {
            Some(c) => c,
            None => FilterControlNumber::FilterControl0,
        };
        let index = match FilterControlIndex::try_from_value(n % 4) {
            Some(i) => i,
            None => FilterControlIndex::Filter0,
        };
        (control_number, index)
    }
}

#[derive(Clone, Copy, Debug, PartialEq, Eq, Structural)]
pub struct FilterControlRegister(pub u32);

impl FilterControlRegister {
    pub fn f0bp(&self) -> (r: u8)
        ensures
            r == field(self.0, 0, 5) as u8,
    {
        get_field(self.0, 0, 5) as u8
    }

    pub fn set_f0bp(&mut self, value: u8)
        ensures
            final(self).0 == with_field(old(self).0, 0, 5, value as u32),
    {
        self.0 = put_field(self.0, 0, 5, value as u32);
    }

    pub fn flten0(&self) -> (r: bool)
        ensures
            r == flag(self.0, 7),
    {
        get_flag(self.0, 7)
    }

    pub fn set_flten0(&mut self, value: bool)
        ensures
            final(self).0 == with_flag(old(self).0, 7, value),
    {
        self.0 = put_flag(self.0, 7, value);
    }

    pub fn f1bp(&self) -> (r: u8)
        ensures
            r == field(self.0, 8, 5) as u8,
    {
        get_field(self.0, 8, 5) as u8
    }

    pub fn set_f1bp(&mut self, value: u8)
        ensures
            final(self).0 == with_field(old(self).0, 8, 5, value as u32),
    {
        self.0 = put_field(self.0, 8, 5, value as u32);
    }

    pub fn flten1(&self) -> (r: bool)
        ensures
            r == flag(self.0, 15),
    {
        get_flag(self.0, 15)
    }

    pub fn set_flten1(&mut self, value: bool)
        ensures
            final(self).0 == with_flag(old(self).0, 15, value),
    {
        self.0 = put_flag(self.0, 15, value);
    }

    pub fn f2bp(&self) -> (r: u8)
        ensures
            r == field(self.0, 16, 5) as u8,
    {
        get_field(self.0, 16, 5) as u8
    }

    pub fn set_f2bp(&mut self, value: u8)
        ensures
            final(self).0 == with_field(old(self).0, 16, 5, value as u32),
    {
        self.0 = put_field(self.0, 16, 5, value as u32);
    }

    pub fn flten2(&self) -> (r: bool)
        ensures
            r == flag(self.0, 23),
    {
        get_flag(self.0, 23)
    }

    pub fn set_flten2(&mut self, value: bool)
        ensures
            final(self).0 == with_flag(old(self).0, 23, value),
    {
        self.0 = put_flag(self.0, 23, value);
    }

    pub fn f3bp(&self) -> (r: u8)
        ensures
            r == field(self.0, 24, 5) as u8,
    {
        get_field(self.0, 24, 5) as u8
    }

    pub fn set_f3bp(&mut self, value: u8)
        ensures
            final(self).0 == with_field(old(self).0, 24, 5, value as u32),
    {
        self.0 = put_field(self.0, 24, 5, value as u32);
    }

    pub fn flten3(&self) -> (r: bool)
        ensures
            r == flag(self.0, 31),
    {
        get_flag(self.0, 31)
    }

    pub fn set_flten3(&mut self, value: bool)
        ensures
            final(self).0 == with_flag(old(self).0, 31, value),
    {
        self.0 = put_flag(self.0, 31, value);
    }
}

impl RegisterValue for FilterControlRegister {
    open spec fn word(&self) -> u32 {
        self.0
    }

    fn from_word(word: u32) -> (r: Self) {
        FilterControlRegister(word)
    }

    fn to_word(&self) -> (r: u32) {
        self.0
    }
}

#[derive(Clone, Copy, Debug, PartialEq, Eq, Structural)]
pub struct FilterObjectRegister(pub u32);

impl FilterObjectRegister {
    pub fn sid(&self) -> (r: u16)
        ensures
            r == field(self.0, 0, 11) as u16,
    {
        get_field(self.0, 0, 11) as u16
    }

    pub fn set_sid(&mut self, value: u16)
        ensures
            final(self).0 == with_field(old(self).0, 0, 11, value as u32),
    {
        self.0 = put_field(self.0, 0, 11, value as u32);
    }

    pub fn eid(&self) -> (r: u32)
        ensures
            r == field(self.0, 11, 18),
    {
        get_field(self.0, 11, 18)
    }

    pub fn set_eid(&mut self, value: u32)
        ensures
            final(self).0 == with_field(old(self).0, 11, 18, value),
    {
        self.0 = put_field(self.0, 11, 18, value);
    }

    pub fn sid11(&self) -> (r: bool)
        ensures
            r == flag(self.0, 29),
    {
        get_flag(self.0, 29)
    }

    pub fn set_sid11(&mut self, value: bool)
        ensures
            final(self).0 == with_flag(old(self).0, 29, value),
    {
        self.0 = put_flag(self.0, 29, value);
    }

    pub fn exide(&self) -> (r: bool)
        ensures
            r == flag(self.0, 30),
    {
        get_flag(self.0, 30)
    }

    pub fn set_exide(&mut self, value: bool)
        ensures
            final(self).0 == with_flag(old(self).0, 30, value),
    {
        self.0 = put_flag(self.0, 30, value);
    }
}

impl RegisterValue for FilterObjectRegister {
    open spec fn word(&self) -> u32 {
        self.0
    }

    fn from_word(word: u32) -> (r: Self) {
        FilterObjectRegister(word)
    }

    fn to_word(&self) -> (r: u32) {
        self.0
    }
}

#[derive(Clone, Copy, Debug, PartialEq, Eq, Structural)]
pub struct MaskRegister(pub u32);

impl MaskRegister {
    pub fn msid(&self) -> (r: u16)
        ensures
            r == field(self.0, 0, 11) as u16,
    {
        get_field(self.0, 0, 11) as u16
    }

    pub fn set_msid(&mut self, value: u16)
        ensures
            final(self).0 == with_field(old(self).0, 0, 11, value as u32),
    {
        self.0 = put_field(self.0, 0, 11, value as u32);
    }

    pub fn meid(&self) -> (r: u32)
        ensures
            r == field(self.0, 11, 18),
    {
        get_field(self.0, 11, 18)
    }

    pub fn set_meid(&mut self, value: u32)
        ensures
            final(self).0 == with_field(old(self).0, 11, 18, value),
    {
        self.0 = put_field(self.0, 11, 18, value);
    }

    pub fn msid11(&self) -> (r: bool)
        ensures
            r == flag(self.0, 29),
    {
        get_flag(self.0, 29)
    }

    pub fn set_msid11(&mut self, value: bool)
        ensures
            final(self).0 == with_flag(old(self).0, 29, value),
    {
        self.0 = put_flag(self.0, 29, value);
    }

    pub fn mide(&self) -> (r: bool)
        ensures
            r == flag(self.0, 30),
    {
        get_flag(self.0, 30)
    }

    pub fn set_mide(&mut self, value: bool)
        ensures
            final(self).0 == with_flag(old(self).0, 30, value),
    {
        self.0 = put_flag(self.0, 30, value);
    }
}

impl RegisterValue for MaskRegister {
    open spec fn word(&self) -> u32 {
        self.0
    }

    fn from_word(word: u32) -> (r: Self) {
        MaskRegister(word)
    }

    fn to_word(&self) -> (r: u32) {
        self.0
    }
}
impl FilterControlRegister {
    /// Whether the filter at `index` is enabled (FLTENn, bit 8n + 7).
    pub fn is_enabled(&self, index: FilterControlIndex) -> (r: bool)
        ensures
            r == flag(self.0, (8 * index.spec_value() + 7) as u32),
    {
        get_flag(self.0, 8 * index.value() as u32 + 7)
    }

    pub fn set_enabled(&mut self, index: FilterControlIndex, enabled: bool)
        ensures
            final(self).0 == with_flag(old(self).0, (8 * index.spec_value() + 7) as u32, enabled),
    {
        self.0 = put_flag(self.0, 8 * index.value() as u32 + 7, enabled);
    }

    /// The FIFO that frames accepted by the filter at `index` go to
    /// (FnBP, bits 8n to 8n + 4); `None` where the field names no FIFO.
    pub fn get_buffer_pointer(&self, index: FilterControlIndex) -> (r: Option<FifoNumber>)
        ensures
            r == FifoNumber::spec_from_value(field(self.0, (8 * index.spec_value()) as u32, 5) as u8),
    {
        FifoNumber::try_from_value(get_field(self.0, 8 * index.value() as u32, 5) as u8)
    }

    pub fn set_buffer_pointer(&mut self, index: FilterControlIndex, fifo_number: FifoNumber)
        ensures
            final(self).0 == with_field(
                old(self).0,
                (8 * index.spec_value()) as u32,
                5,
                fifo_number.spec_value() as u32,
            ),
    {
        self.0 = put_field(self.0, 8 * index.value() as u32, 5, fifo_number.value() as u32);
    }
}

impl RepeatedRegister for FilterControlRegister {
    type Index = FilterControlNumber;

    open spec fn spec_address_for(index: FilterControlNumber) -> SFRAddress {
        match index {
            FilterControlNumber::FilterControl0 => SFRAddress::C1FLTCON0,
            FilterControlNumber::FilterControl1 => SFRAddress::C1FLTCON1,
            FilterControlNumber::FilterControl2 => SFRAddress::C1FLTCON2,
            FilterControlNumber::FilterControl3 => SFRAddress::C1FLTCON3,
            FilterControlNumber::FilterControl4 => SFRAddress::C1FLTCON4,
            FilterControlNumber::FilterControl5 => SFRAddress::C1FLTCON5,
            FilterControlNumber::FilterControl6 => SFRAddress::C1FLTCON6,
            FilterControlNumber::FilterControl7 => SFRAddress::C1FLTCON7,
        }
    }

    fn get_address_for(index: FilterControlNumber) -> (r: SFRAddress) {
        match index {
            FilterControlNumber::FilterControl0 => SFRAddress::C1FLTCON0,
            FilterControlNumber::FilterControl1 => SFRAddress::C1FLTCON1,
            FilterControlNumber::FilterControl2 => SFRAddress::C1FLTCON2,
            FilterControlNumber::FilterControl3 => SFRAddress::C1FLTCON3,
            FilterControlNumber::FilterControl4 => SFRAddress::C1FLTCON4,
            FilterControlNumber::FilterControl5 => SFRAddress::C1FLTCON5,
            FilterControlNumber::FilterControl6 => SFRAddress::C1FLTCON6,
            FilterControlNumber::FilterControl7 => SFRAddress::C1FLTCON7,
        }
    }
}

impl RepeatedRegister for FilterObjectRegister {
    type Index = FilterNumber;

    open spec fn spec_address_for(index: FilterNumber) -> SFRAddress {
        match index {
            FilterNumber::Filter0 => SFRAddress::C1FLTOBJ0,
            FilterNumber::Filter1 => SFRAddress::C1FLTOBJ1,
            FilterNumber::Filter2 => SFRAddress::C1FLTOBJ2,
            FilterNumber::Filter3 => SFRAddress::C1FLTOBJ3,
            FilterNumber::Filter4 => SFRAddress::C1FLTOBJ4,
            FilterNumber::Filter5 => SFRAddress::C1FLTOBJ5,
            FilterNumber::Filter6 => SFRAddress::C1FLTOBJ6,
            FilterNumber::Filter7 => SFRAddress::C1FLTOBJ7,
            FilterNumber::Filter8 => SFRAddress::C1FLTOBJ8,
            FilterNumber::Filter9 => SFRAddress::C1FLTOBJ9,
            FilterNumber::Filter10 => SFRAddress::C1FLTOBJ10,
            FilterNumber::Filter11 => SFRAddress::C1FLTOBJ11,
            FilterNumber::Filter12 => SFRAddress::C1FLTOBJ12,
            FilterNumber::Filter13 => SFRAddress::C1FLTOBJ13,
            FilterNumber::Filter14 => SFRAddress::C1FLTOBJ14,
            FilterNumber::Filter15 => SFRAddress::C1FLTOBJ15,
            FilterNumber::Filter16 => SFRAddress::C1FLTOBJ16,
            FilterNumber::Filter17 => SFRAddress::C1FLTOBJ17,
            FilterNumber::Filter18 => SFRAddress::C1FLTOBJ18,
            FilterNumber::Filter19 => SFRAddress::C1FLTOBJ19,
            FilterNumber::Filter20 => SFRAddress::C1FLTOBJ20,
            FilterNumber::Filter21 => SFRAddress::C1FLTOBJ21,
            FilterNumber::Filter22 => SFRAddress::C1FLTOBJ22,
            FilterNumber::Filter23 => SFRAddress::C1FLTOBJ23,
            FilterNumber::Filter24 => SFRAddress::C1FLTOBJ24,
            FilterNumber::Filter25 => SFRAddress::C1FLTOBJ25,
            FilterNumber::Filter26 => SFRAddress::C1FLTOBJ26,
            FilterNumber::Filter27 => SFRAddress::C1FLTOBJ27,
            FilterNumber::Filter28 => SFRAddress::C1FLTOBJ28,
            FilterNumber::Filter29 => SFRAddress::C1FLTOBJ29,
            FilterNumber::Filter30 => SFRAddress::C1FLTOBJ30,
            FilterNumber::Filter31 => SFRAddress::C1FLTOBJ31,
        }
    }

    fn get_address_for(index: FilterNumber) -> (r: SFRAddress) {
        match index {
            FilterNumber::Filter0 => SFRAddress::C1FLTOBJ0,
            FilterNumber::Filter1 => SFRAddress::C1FLTOBJ1,
            FilterNumber::Filter2 => SFRAddress::C1FLTOBJ2,
            FilterNumber::Filter3 => SFRAddress::C1FLTOBJ3,
            FilterNumber::Filter4 => SFRAddress::C1FLTOBJ4,
            FilterNumber::Filter5 => SFRAddress::C1FLTOBJ5,
            FilterNumber::Filter6 => SFRAddress::C1FLTOBJ6,
            FilterNumber::Filter7 => SFRAddress::C1FLTOBJ7,
            FilterNumber::Filter8 => SFRAddress::C1FLTOBJ8,
            FilterNumber::Filter9 => SFRAddress::C1FLTOBJ9,
            FilterNumber::Filter10 => SFRAddress::C1FLTOBJ10,
            FilterNumber::Filter11 => SFRAddress::C1FLTOBJ11,
            FilterNumber::Filter12 => SFRAddress::C1FLTOBJ12,
            FilterNumber::Filter13 => SFRAddress::C1FLTOBJ13,
            FilterNumber::Filter14 => SFRAddress::C1FLTOBJ14,
            FilterNumber::Filter15 => SFRAddress::C1FLTOBJ15,
            FilterNumber::Filter16 => SFRAddress::C1FLTOBJ16,
            FilterNumber::Filter17 => SFRAddress::C1FLTOBJ17,
            FilterNumber::Filter18 => SFRAddress::C1FLTOBJ18,
            FilterNumber::Filter19 => SFRAddress::C1FLTOBJ19,
            FilterNumber::Filter20 => SFRAddress::C1FLTOBJ20,
            FilterNumber::Filter21 => SFRAddress::C1FLTOBJ21,
            FilterNumber::Filter22 => SFRAddress::C1FLTOBJ22,
            FilterNumber::Filter23 => SFRAddress::C1FLTOBJ23,
            FilterNumber::Filter24 => SFRAddress::C1FLTOBJ24,
            FilterNumber::Filter25 => SFRAddress::C1FLTOBJ25,
            FilterNumber::Filter26 => SFRAddress::C1FLTOBJ26,
            FilterNumber::Filter27 => SFRAddress::C1FLTOBJ27,
            FilterNumber::Filter28 => SFRAddress::C1FLTOBJ28,
            FilterNumber::Filter29 => SFRAddress::C1FLTOBJ29,
            FilterNumber::Filter30 => SFRAddress::C1FLTOBJ30,
            FilterNumber::Filter31 => SFRAddress::C1FLTOBJ31,
        }
    }
}

impl RepeatedRegister for MaskRegister {
    type Index = FilterNumber;

    open spec fn spec_address_for(index: FilterNumber) -> SFRAddress {
        match index {
            FilterNumber::Filter0 => SFRAddress::C1MASK0,
            FilterNumber::Filter1 => SFRAddress::C1MASK1,
            FilterNumber::Filter2 => SFRAddress::C1MASK2,
            FilterNumber::Filter3 => SFRAddress::C1MASK3,
            FilterNumber::Filter4 => SFRAddress::C1MASK4,
            FilterNumber::Filter5 => SFRAddress::C1MASK5,
            FilterNumber::Filter6 => SFRAddress::C1MASK6,
            FilterNumber::Filter7 => SFRAddress::C1MASK7,
            FilterNumber::Filter8 => SFRAddress::C1MASK8,
            FilterNumber::Filter9 => SFRAddress::C1MASK9,
            FilterNumber::Filter10 => SFRAddress::C1MASK10,
            FilterNumber::Filter11 => SFRAddress::C1MASK11,
            FilterNumber::Filter12 => SFRAddress::C1MASK12,
            FilterNumber::Filter13 => SFRAddress::C1MASK13,
            FilterNumber::Filter14 => SFRAddress::C1MASK14,
            FilterNumber::Filter15 => SFRAddress::C1MASK15,
            FilterNumber::Filter16 => SFRAddress::C1MASK16,
            FilterNumber::Filter17 => SFRAddress::C1MASK17,
            FilterNumber::Filter18 => SFRAddress::C1MASK18,
            FilterNumber::Filter19 => SFRAddress::C1MASK19,
            FilterNumber::Filter20 => SFRAddress::C1MASK20,
            FilterNumber::Filter21 => SFRAddress::C1MASK21,
            FilterNumber::Filter22 => SFRAddress::C1MASK22,
            FilterNumber::Filter23 => SFRAddress::C1MASK23,
            FilterNumber::Filter24 => SFRAddress::C1MASK24,
            FilterNumber::Filter25 => SFRAddress::C1MASK25,
            FilterNumber::Filter26 => SFRAddress::C1MASK26,
            FilterNumber::Filter27 => SFRAddress::C1MASK27,
            FilterNumber::Filter28 => SFRAddress::C1MASK28,
            FilterNumber::Filter29 => SFRAddress::C1MASK29,
            FilterNumber::Filter30 => SFRAddress::C1MASK30,
            FilterNumber::Filter31 => SFRAddress::C1MASK31,
        }
    }

    fn get_address_for(index: FilterNumber) -> (r: SFRAddress) {
        match index {
            FilterNumber::Filter0 => SFRAddress::C1MASK0,
            FilterNumber::Filter1 => SFRAddress::C1MASK1,
            FilterNumber::Filter2 => SFRAddress::C1MASK2,
            FilterNumber::Filter3 => SFRAddress::C1MASK3,
            FilterNumber::Filter4 => SFRAddress::C1MASK4,
            FilterNumber::Filter5 => SFRAddress::C1MASK5,
            FilterNumber::Filter6 => SFRAddress::C1MASK6,
            FilterNumber::Filter7 => SFRAddress::C1MASK7,
            FilterNumber::Filter8 => SFRAddress::C1MASK8,
            FilterNumber::Filter9 => SFRAddress::C1MASK9,
            FilterNumber::Filter10 => SFRAddress::C1MASK10,
            FilterNumber::Filter11 => SFRAddress::C1MASK11,
            FilterNumber::Filter12 => SFRAddress::C1MASK12,
            FilterNumber::Filter13 => SFRAddress::C1MASK13,
            FilterNumber::Filter14 => SFRAddress::C1MASK14,
            FilterNumber::Filter15 => SFRAddress::C1MASK15,
            FilterNumber::Filter16 => SFRAddress::C1MASK16,
            FilterNumber::Filter17 => SFRAddress::C1MASK17,
            FilterNumber::Filter18 => SFRAddress::C1MASK18,
            FilterNumber::Filter19 => SFRAddress::C1MASK19,
            FilterNumber::Filter20 => SFRAddress::C1MASK20,
            FilterNumber::Filter21 => SFRAddress::C1MASK21,
            FilterNumber::Filter22 => SFRAddress::C1MASK22,
            FilterNumber::Filter23 => SFRAddress::C1MASK23,
            FilterNumber::Filter24 => SFRAddress::C1MASK24,
            FilterNumber::Filter25 => SFRAddress::C1MASK25,
            FilterNumber::Filter26 => SFRAddress::C1MASK26,
            FilterNumber::Filter27 => SFRAddress::C1MASK27,
            FilterNumber::Filter28 => SFRAddress::C1MASK28,
            FilterNumber::Filter29 => SFRAddress::C1MASK29,
            FilterNumber::Filter30 => SFRAddress::C1MASK30,
            FilterNumber::Filter31 => SFRAddress::C1MASK31,
        }
    }
}

/// The object and mask registers of filter `n` sit at `0x1F0 + 8n` and
/// `0x1F4 + 8n`: one address for each index.
pub proof fn lemma_filter_register_addresses(n: FilterNumber)
    ensures
        FilterObjectRegister::spec_address_for(n).spec_address() == 0x1F0 + 8 * n.spec_value(),
        MaskRegister::spec_address_for(n).spec_address() == 0x1F4 + 8 * n.spec_value(),
{
    match n {
        FilterNumber::Filter0 => {},
        FilterNumber::Filter1 => {},
        FilterNumber::Filter2 => {},
        FilterNumber::Filter3 => {},
        FilterNumber::Filter4 => {},
        FilterNumber::Filter5 => {},
        FilterNumber::Filter6 => {},
        FilterNumber::Filter7 => {},
        FilterNumber::Filter8 => {},
        FilterNumber::Filter9 => {},
        FilterNumber::Filter10 => {},
        FilterNumber::Filter11 => {},
        FilterNumber::Filter12 => {},
        FilterNumber::Filter13 => {},
        FilterNumber::Filter14 => {},
        FilterNumber::Filter15 => {},
        FilterNumber::Filter16 => {},
        FilterNumber::Filter17 => {},
        FilterNumber::Filter18 => {},
        FilterNumber::Filter19 => {},
        FilterNumber::Filter20 => {},
        FilterNumber::Filter21 => {},
        FilterNumber::Filter22 => {},
        FilterNumber::Filter23 => {},
        FilterNumber::Filter24 => {},
        FilterNumber::Filter25 => {},
        FilterNumber::Filter26 => {},
        FilterNumber::Filter27 => {},
        FilterNumber::Filter28 => {},
        FilterNumber::Filter29 => {},
        FilterNumber::Filter30 => {},
        FilterNumber::Filter31 => {},
    }
}

/// Filter control register `c` sits at `0x1D0 + 4c`.
pub proof fn lemma_filter_control_addresses(c: FilterControlNumber)
    ensures
        FilterControlRegister::spec_address_for(c).spec_address() == 0x1D0 + 4 * c.spec_value(),
{
    match c {
        FilterControlNumber::FilterControl0 => {},
        FilterControlNumber::FilterControl1 => {},
        FilterControlNumber::FilterControl2 => {},
        FilterControlNumber::FilterControl3 => {},
        FilterControlNumber::FilterControl4 => {},
        FilterControlNumber::FilterControl5 => {},
        FilterControlNumber::FilterControl6 => {},
        FilterControlNumber::FilterControl7 => {},
    }
}

} // verus!
