//! Transmit request register.
use vstd::prelude::*;

use crate::bits::{field, flag, get_field, get_flag, put_field, put_flag, with_field, with_flag};
use crate::memory::{Register, RegisterValue, SFRAddress};

verus! {

#[derive(Clone, Copy, Debug, PartialEq, Eq, Structural)]
pub struct TransmitRequestRegister(pub u32);

impl TransmitRequestRegister {
    pub fn txreq_txq(&self) -> (r: bool)
        ensures
            r == flag(self.0, 0),
    {
        get_flag(self.0, 0)
    }

    pub fn set_txreq_txq(&mut self)
        ensures
            final(self).0 == with_flag(old(self).0, 0, true),
    {
        self.0 = put_flag(self.0, 0, true);
    }

    pub fn txreq1(&self) -> (r: bool)
        ensures
            r == flag(self.0, 1),
    {
        get_flag(self.0, 1)
    }

    pub fn set_txreq1(&mut self)
        ensures
            final(self).0 == with_flag(old(self).0, 1, true),
    {
        self.0 = put_flag(self.0, 1, true);
    }

    pub fn txreq2(&self) -> (r: bool)
        ensures
            r == flag(self.0, 2),
    {
        get_flag(self.0, 2)
    }

    pub fn set_txreq2(&mut self)
        ensures
            final(self).0 == with_flag(old(self).0, 2, true),
    {
        self.0 = put_flag(self.0, 2, true);
    }

    pub fn txreq3(&self) -> (r: bool)
        ensures
            r == flag(self.0, 3),
    {
        get_flag(self.0, 3)
    }

    pub fn set_txreq3(&mut self)
        ensures
            final(self).0 == with_flag(old(self).0, 3, true),
    {
        self.0 = put_flag(self.0, 3, true);
    }

    pub fn txreq4(&self) -> (r: bool)
        ensures
            r == flag(self.0, 4),
    {
        get_flag(self.0, 4)
    }

    pub fn set_txreq4(&mut self)
        ensures
            final(self).0 == with_flag(old(self).0, 4, true),
    {
        self.0 = put_flag(self.0, 4, true);
    }

    pub fn txreq5(&self) -> (r: bool)
        ensures
            r == flag(self.0, 5),
    {
        get_flag(self.0, 5)
    }

    pub fn set_txreq5(&mut self)
        ensures
            final(self).0 == with_flag(old(self).0, 5, true),
    {
        self.0 = put_flag(self.0, 5, true);
    }

    pub fn txreq6(&self) -> (r: bool)
        ensures
            r == flag(self.0, 6),
    {
        get_flag(self.0, 6)
    }

    pub fn set_txreq6(&mut self)
        ensures
            final(self).0 == with_flag(old(self).0, 6, true),
    {
        self.0 = put_flag(self.0, 6, true);
    }

    pub fn txreq7(&self) -> (r: bool)
        ensures
            r == flag(self.0, 7),
    {
        get_flag(self.0, 7)
    }

    pub fn set_txreq7(&mut self)
        ensures
            final(self).0 == with_flag(old(self).0, 7, true),
    {
        self.0 = put_flag(self.0, 7, true);
    }

    pub fn txreq8(&self) -> (r: bool)
        ensures
            r == flag(self.0, 8),
    {
        get_flag(self.0, 8)
    }

    pub fn set_txreq8(&mut self)
        ensures
            final(self).0 == with_flag(old(self).0, 8, true),
    {
        self.0 = put_flag(self.0, 8, true);
    }

    pub fn txreq9(&self) -> (r: bool)
        ensures
            r == flag(self.0, 9),
    {
        get_flag(self.0, 9)
    }

    pub fn set_txreq9(&mut self)
        ensures
            final(self).0 == with_flag(old(self).0, 9, true),
    {
        self.0 = put_flag(self.0, 9, true);
    }

    pub fn txreq10(&self) -> (r: bool)
        ensures
            r == flag(self.0, 10),
    {
        get_flag(self.0, 10)
    }

    pub fn set_txreq10(&mut self)
        ensures
            final(self).0 == with_flag(old(self).0, 10, true),
    {
        self.0 = put_flag(self.0, 10, true);
    }

    pub fn txreq11(&self) -> (r: bool)
        ensures
            r == flag(self.0, 11),
    {
        get_flag(self.0, 11)
    }

    pub fn set_txreq11(&mut self)
        ensures
            final(self).0 == with_flag(old(self).0, 11, true),
    {
        self.0 = put_flag(self.0, 11, true);
    }

    pub fn txreq12(&self) -> (r: bool)
        ensures
            r == flag(self.0, 12),
    {
        get_flag(self.0, 12)
    }

    pub fn set_txreq12(&mut self)
        ensures
            final(self).0 == with_flag(old(self).0, 12, true),
    {
        self.0 = put_flag(self.0, 12, true);
    }

    pub fn txreq13(&self) -> (r: bool)
        ensures
            r == flag(self.0, 13),
    {
        get_flag(self.0, 13)
    }

    pub fn set_txreq13(&mut self)
        ensures
            final(self).0 == with_flag(old(self).0, 13, true),
    {
        self.0 = put_flag(self.0, 13, true);
    }

    pub fn txreq14(&self) -> (r: bool)
        ensures
            r == flag(self.0, 14),
    {
        get_flag(self.0, 14)
    }

    pub fn set_txreq14(&mut self)
        ensures
            final(self).0 == with_flag(old(self).0, 14, true),
    {
        self.0 = put_flag(self.0, 14, true);
    }

    pub fn txreq15(&self) -> (r: bool)
        ensures
            r == flag(self.0, 15),
    {
        get_flag(self.0, 15)
    }

    pub fn set_txreq15(&mut self)
        ensures
            final(self).0 == with_flag(old(self).0, 15, true),
    {
        self.0 = put_flag(self.0, 15, true);
    }

    pub fn txreq16(&self) -> (r: bool)
        ensures
            r == flag(self.0, 16),
    {
        get_flag(self.0, 16)
    }

    pub fn set_txreq16(&mut self)
        ensures
            final(self).0 == with_flag(old(self).0, 16, true),
    {
        self.0 = put_flag(self.0, 16, true);
    }

    pub fn txreq17(&self) -> (r: bool)
        ensures
            r == flag(self.0, 17),
    {
        get_flag(self.0, 17)
    }

    pub fn set_txreq17(&mut self)
        ensures
            final(self).0 == with_flag(old(self).0, 17, true),
    {
        self.0 = put_flag(self.0, 17, true);
    }

    pub fn txreq18(&self) -> (r: bool)
        ensures
            r == flag(self.0, 18),
    {
        get_flag(self.0, 18)
    }

    pub fn set_txreq18(&mut self)
        ensures
            final(self).0 == with_flag(old(self).0, 18, true),
    {
        self.0 = put_flag(self.0, 18, true);
    }

    pub fn txreq19(&self) -> (r: bool)
        ensures
            r == flag(self.0, 19),
    {
        get_flag(self.0, 19)
    }

    pub fn set_txreq19(&mut self)
        ensures
            final(self).0 == with_flag(old(self).0, 19, true),
    {
        self.0 = put_flag(self.0, 19, true);
    }

    pub fn txreq20(&self) -> (r: bool)
        ensures
            r == flag(self.0, 20),
    {
        get_flag(self.0, 20)
    }

    pub fn set_txreq20(&mut self)
        ensures
            final(self).0 == with_flag(old(self).0, 20, true),
    {
        self.0 = put_flag(self.0, 20, true);
    }

    pub fn txreq21(&self) -> (r: bool)
        ensures
            r == flag(self.0, 21),
    {
        get_flag(self.0, 21)
    }

    pub fn set_txreq21(&mut self)
        ensures
            final(self).0 == with_flag(old(self).0, 21, true),
    {
        self.0 = put_flag(self.0, 21, true);
    }

    pub fn txreq22(&self) -> (r: bool)
        ensures
            r == flag(self.0, 22),
    {
        get_flag(self.0, 22)
    }

    pub fn set_txreq22(&mut self)
        ensures
            final(self).0 == with_flag(old(self).0, 22, true),
    {
        self.0 = put_flag(self.0, 22, true);
    }

    pub fn txreq23(&self) -> (r: bool)
        ensures
            r == flag(self.0, 23),
    {
        get_flag(self.0, 23)
    }

    pub fn set_txreq23(&mut self)
        ensures
            final(self).0 == with_flag(old(self).0, 23, true),
    {
        self.0 = put_flag(self.0, 23, true);
    }

    pub fn txreq24(&self) -> (r: bool)
        ensures
            r == flag(self.0, 24),
    {
        get_flag(self.0, 24)
    }

    pub fn set_txreq24(&mut self)
        ensures
            final(self).0 == with_flag(old(self).0, 24, true),
    {
        self.0 = put_flag(self.0, 24, true);
    }

    pub fn txreq25(&self) -> (r: bool)
        ensures
            r == flag(self.0, 25),
    {
        get_flag(self.0, 25)
    }

    pub fn set_txreq25(&mut self)
        ensures
            final(self).0 == with_flag(old(self).0, 25, true),
    {
        self.0 = put_flag(self.0, 25, true);
    }

    pub fn txreq26(&self) -> (r: bool)
        ensures
            r == flag(self.0, 26),
    {
        get_flag(self.0, 26)
    }

    pub fn set_txreq26(&mut self)
        ensures
            final(self).0 == with_flag(old(self).0, 26, true),
    {
        self.0 = put_flag(self.0, 26, true);
    }

    pub fn txreq27(&self) -> (r: bool)
        ensures
            r == flag(self.0, 27),
    {
        get_flag(self.0, 27)
    }

    pub fn set_txreq27(&mut self)
        ensures
            final(self).0 == with_flag(old(self).0, 27, true),
    {
        self.0 = put_flag(self.0, 27, true);
    }

    pub fn txreq28(&self) -> (r: bool)
        ensures
            r == flag(self.0, 28),
    {
        get_flag(self.0, 28)
    }

    pub fn set_txreq28(&mut self)
        ensures
            final(self).0 == with_flag(old(self).0, 28, true),
    {
        self.0 = put_flag(self.0, 28, true);
    }

    pub fn txreq29(&self) -> (r: bool)
        ensures
            r == flag(self.0, 29),
    {
        get_flag(self.0, 29)
    }

    pub fn set_txreq29(&mut self)
        ensures
            final(self).0 == with_flag(old(self).0, 29, true),
    {
        self.0 = put_flag(self.0, 29, true);
    }

    pub fn txreq30(&self) -> (r: bool)
        ensures
            r == flag(self.0, 30),
    {
        get_flag(self.0, 30)
    }

    pub fn set_txreq30(&mut self)
        ensures
            final(self).0 == with_flag(old(self).0, 30, true),
    {
        self.0 = put_flag(self.0, 30, true);
    }

    pub fn txreq31(&self) -> (r: bool)
        ensures
            r == flag(self.0, 31),
    {
        get_flag(self.0, 31)
    }

    pub fn set_txreq31(&mut self)
        ensures
            final(self).0 == with_flag(old(self).0, 31, true),
    {
        self.0 = put_flag(self.0, 31, true);
    }
}

impl RegisterValue for TransmitRequestRegister {
    open spec fn word(&self) -> u32 {
        self.0
    }

    fn from_word(word: u32) -> (r: Self) {
        TransmitRequestRegister(word)
    }

    fn to_word(&self) -> (r: u32) {
        self.0
    }
}

impl Register for TransmitRequestRegister {
    open spec fn spec_address() -> SFRAddress {
        SFRAddress::C1TXREQ
    }

    fn get_address() -> (r: SFRAddress) {
        SFRAddress::C1TXREQ
    }
}
} // verus!
