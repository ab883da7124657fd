//! Registers and RAM of the controller: addresses and the traits that tie a
//! register view to its address.
use vstd::prelude::*;

pub mod chip;
pub mod controller;

verus! {

/// First byte of the controller's RAM, which backs every FIFO.
pub const RAM_BASE_ADDRESS: u32 = 0x400;

/// Last byte of the controller's RAM.
pub const RAM_END_ADDRESS: u32 = 0xBFF;

/// An access of `data_size` bytes at `address` lies inside the RAM.
pub open spec fn ram_range_ok(address: u32, data_size: usize) -> bool {
    RAM_BASE_ADDRESS <= address && address + data_size <= RAM_END_ADDRESS + 1
}

/// Whether `data_size` bytes starting at `address` all lie in the RAM
/// segment. Makes no bus access; the word alignment of the length is checked
/// by the callers that transfer data.
pub fn is_valid_ram_address(address: u32, data_size: usize) -> (r: bool)
    ensures
        r == ram_range_ok(address, data_size),
{
    address >= RAM_BASE_ADDRESS && address <= RAM_END_ADDRESS + 1 && data_size <= (RAM_END_ADDRESS
        + 1 - address) as usize
}

/// A register view: a typed wrapper over the register's 32-bit word.
pub trait RegisterValue: Sized {
    spec fn word(&self) -> u32;

    fn from_word(word: u32) -> (r: Self)
        ensures
            r.word() == word,
    ;

    fn to_word(&self) -> (r: u32)
        ensures
            r == self.word(),
    ;
}

/// A register with one unique address.
pub trait Register: RegisterValue {
    spec fn spec_address() -> SFRAddress;

    fn get_address() -> (r: SFRAddress)
        ensures
            r == Self::spec_address(),
    ;
}

/// A register layout that is repeated at several addresses, one for each
/// value of `Index`.
pub trait RepeatedRegister: RegisterValue {
    type Index: Copy;

    spec fn spec_address_for(index: Self::Index) -> SFRAddress;

    fn get_address_for(index: Self::Index) -> (r: SFRAddress)
        ensures
            r == Self::spec_address_for(index),
    ;
}

/// The special function registers of the chip and of its CAN controller.
#[derive(Copy, Clone, Debug, PartialEq, Eq, Structural)]
pub enum SFRAddress {
    OSC,
    IOCON,
    CRC,
    ECCCON,
    ECCSTAT,
    DEVID,
    C1CON,
    C1NBTCFG,
    C1DBTCFG,
    C1TDC,
    C1TBC,
    C1TSCON,
    C1VEC,
    C1INT,
    C1RXIF,
    C1TXIF,
    C1RXOVIF,
    C1TXATIF,
    C1TXREQ,
    C1TREC,
    C1BDIAG0,
    C1BDIAG1,
    C1TEFCON,
    C1TEFSTA,
    C1TEFUA,
    C1TXQCON,
    C1TXQSTA,
    C1TXQUA,
    C1FIFOCON1,
    C1FIFOSTA1,
    C1FIFOUA1,
    C1FIFOCON2,
    C1FIFOSTA2,
    C1FIFOUA2,
    C1FIFOCON3,
    C1FIFOSTA3,
    C1FIFOUA3,
    C1FIFOCON4,
    C1FIFOSTA4,
    C1FIFOUA4,
    C1FIFOCON5,
    C1FIFOSTA5,
    C1FIFOUA5,
    C1FIFOCON6,
    C1FIFOSTA6,
    C1FIFOUA6,
    C1FIFOCON7,
    C1FIFOSTA7,
    C1FIFOUA7,
    C1FIFOCON8,
    C1FIFOSTA8,
    C1FIFOUA8,
    C1FIFOCON9,
    C1FIFOSTA9,
    C1FIFOUA9,
    C1FIFOCON10,
    C1FIFOSTA10,
    C1FIFOUA10,
    C1FIFOCON11,
    C1FIFOSTA11,
    C1FIFOUA11,
    C1FIFOCON12,
    C1FIFOSTA12,
    C1FIFOUA12,
    C1FIFOCON13,
    C1FIFOSTA13,
    C1FIFOUA13,
    C1FIFOCON14,
    C1FIFOSTA14,
    C1FIFOUA14,
    C1FIFOCON15,
    C1FIFOSTA15,
    C1FIFOUA15,
    C1FIFOCON16,
    C1FIFOSTA16,
    C1FIFOUA16,
    C1FIFOCON17,
    C1FIFOSTA17,
    C1FIFOUA17,
    C1FIFOCON18,
    C1FIFOSTA18,
    C1FIFOUA18,
    C1FIFOCON19,
    C1FIFOSTA19,
    C1FIFOUA19,
    C1FIFOCON20,
    C1FIFOSTA20,
    C1FIFOUA20,
    C1FIFOCON21,
    C1FIFOSTA21,
    C1FIFOUA21,
    C1FIFOCON22,
    C1FIFOSTA22,
    C1FIFOUA22,
    C1FIFOCON23,
    C1FIFOSTA23,
    C1FIFOUA23,
    C1FIFOCON24,
    C1FIFOSTA24,
    C1FIFOUA24,
    C1FIFOCON25,
    C1FIFOSTA25,
    C1FIFOUA25,
    C1FIFOCON26,
    C1FIFOSTA26,
    C1FIFOUA26,
    C1FIFOCON27,
    C1FIFOSTA27,
    C1FIFOUA27,
    C1FIFOCON28,
    C1FIFOSTA28,
    C1FIFOUA28,
    C1FIFOCON29,
    C1FIFOSTA29,
    C1FIFOUA29,
    C1FIFOCON30,
    C1FIFOSTA30,
    C1FIFOUA30,
    C1FIFOCON31,
    C1FIFOSTA31,
    C1FIFOUA31,
    C1FLTCON0,
    C1FLTCON1,
    C1FLTCON2,
    C1FLTCON3,
    C1FLTCON4,
    C1FLTCON5,
    C1FLTCON6,
    C1FLTCON7,
    C1FLTOBJ0,
    C1MASK0,
    C1FLTOBJ1,
    C1MASK1,
    C1FLTOBJ2,
    C1MASK2,
    C1FLTOBJ3,
    C1MASK3,
    C1FLTOBJ4,
    C1MASK4,
    C1FLTOBJ5,
    C1MASK5,
    C1FLTOBJ6,
    C1MASK6,
    C1FLTOBJ7,
    C1MASK7,
    C1FLTOBJ8,
    C1MASK8,
    C1FLTOBJ9,
    C1MASK9,
    C1FLTOBJ10,
    C1MASK10,
    C1FLTOBJ11,
    C1MASK11,
    C1FLTOBJ12,
    C1MASK12,
    C1FLTOBJ13,
    C1MASK13,
    C1FLTOBJ14,
    C1MASK14,
    C1FLTOBJ15,
    C1MASK15,
    C1FLTOBJ16,
    C1MASK16,
    C1FLTOBJ17,
    C1MASK17,
    C1FLTOBJ18,
    C1MASK18,
    C1FLTOBJ19,
    C1MASK19,
    C1FLTOBJ20,
    C1MASK20,
    C1FLTOBJ21,
    C1MASK21,
    C1FLTOBJ22,
    C1MASK22,
    C1FLTOBJ23,
    C1MASK23,
    C1FLTOBJ24,
    C1MASK24,
    C1FLTOBJ25,
    C1MASK25,
    C1FLTOBJ26,
    C1MASK26,
    C1FLTOBJ27,
    C1MASK27,
    C1FLTOBJ28,
    C1MASK28,
    C1FLTOBJ29,
    C1MASK29,
    C1FLTOBJ30,
    C1MASK30,
    C1FLTOBJ31,
    C1MASK31,
}

impl SFRAddress {
    /// The 12-bit address of the register.
    pub open spec fn spec_address(self) -> u16 {
        match self {
            SFRAddress::OSC => 0xE00,
            SFRAddress::IOCON => 0xE04,
            SFRAddress::CRC => 0xE08,
            SFRAddress::ECCCON => 0xE0C,
            SFRAddress::ECCSTAT => 0xE10,
            SFRAddress::DEVID => 0xE14,
            SFRAddress::C1CON => 0x0,
            SFRAddress::C1NBTCFG => 0x4,
            SFRAddress::C1DBTCFG => 0x8,
            SFRAddress::C1TDC => 0xC,
            SFRAddress::C1TBC => 0x10,
            SFRAddress::C1TSCON => 0x14,
            SFRAddress::C1VEC => 0x18,
            SFRAddress::C1INT => 0x1C,
            SFRAddress::C1RXIF => 0x20,
            SFRAddress::C1TXIF => 0x24,
            SFRAddress::C1RXOVIF => 0x28,
            SFRAddress::C1TXATIF => 0x2C,
            SFRAddress::C1TXREQ => 0x30,
            SFRAddress::C1TREC => 0x34,
            SFRAddress::C1BDIAG0 => 0x38,
            SFRAddress::C1BDIAG1 => 0x3C,
            SFRAddress::C1TEFCON => 0x40,
            SFRAddress::C1TEFSTA => 0x44,
            SFRAddress::C1TEFUA => 0x48,
            SFRAddress::C1TXQCON => 0x50,
            SFRAddress::C1TXQSTA => 0x54,
            SFRAddress::C1TXQUA => 0x58,
            SFRAddress::C1FIFOCON1 => 0x5C,
            SFRAddress::C1FIFOSTA1 => 0x60,
            SFRAddress::C1FIFOUA1 => 0x64,
            SFRAddress::C1FIFOCON2 => 0x68,
            SFRAddress::C1FIFOSTA2 => 0x6C,
            SFRAddress::C1FIFOUA2 => 0x70,
            SFRAddress::C1FIFOCON3 => 0x74,
            SFRAddress::C1FIFOSTA3 => 0x78,
            SFRAddress::C1FIFOUA3 => 0x7C,
            SFRAddress::C1FIFOCON4 => 0x80,
            SFRAddress::C1FIFOSTA4 => 0x84,
            SFRAddress::C1FIFOUA4 => 0x88,
            SFRAddress::C1FIFOCON5 => 0x8C,
            SFRAddress::C1FIFOSTA5 => 0x90,
            SFRAddress::C1FIFOUA5 => 0x94,
            SFRAddress::C1FIFOCON6 => 0x98,
            SFRAddress::C1FIFOSTA6 => 0x9C,
            SFRAddress::C1FIFOUA6 => 0xA0,
            SFRAddress::C1FIFOCON7 => 0xA4,
            SFRAddress::C1FIFOSTA7 => 0xA8,
            SFRAddress::C1FIFOUA7 => 0xAC,
            SFRAddress::C1FIFOCON8 => 0xB0,
            SFRAddress::C1FIFOSTA8 => 0xB4,
            SFRAddress::C1FIFOUA8 => 0xB8,
            SFRAddress::C1FIFOCON9 => 0xBC,
            SFRAddress::C1FIFOSTA9 => 0xC0,
            SFRAddress::C1FIFOUA9 => 0xC4,
            SFRAddress::C1FIFOCON10 => 0xC8,
            SFRAddress::C1FIFOSTA10 => 0xCC,
            SFRAddress::C1FIFOUA10 => 0xD0,
            SFRAddress::C1FIFOCON11 => 0xD4,
            SFRAddress::C1FIFOSTA11 => 0xD8,
            SFRAddress::C1FIFOUA11 => 0xDC,
            SFRAddress::C1FIFOCON12 => 0xE0,
            SFRAddress::C1FIFOSTA12 => 0xE4,
            SFRAddress::C1FIFOUA12 => 0xE8,
            SFRAddress::C1FIFOCON13 => 0xEC,
            SFRAddress::C1FIFOSTA13 => 0xF0,
            SFRAddress::C1FIFOUA13 => 0xF4,
            SFRAddress::C1FIFOCON14 => 0xF8,
            SFRAddress::C1FIFOSTA14 => 0xFC,
            SFRAddress::C1FIFOUA14 => 0x100,
            SFRAddress::C1FIFOCON15 => 0x104,
            SFRAddress::C1FIFOSTA15 => 0x108,
            SFRAddress::C1FIFOUA15 => 0x10C,
            SFRAddress::C1FIFOCON16 => 0x110,
            SFRAddress::C1FIFOSTA16 => 0x114,
            SFRAddress::C1FIFOUA16 => 0x118,
            SFRAddress::C1FIFOCON17 => 0x11C,
            SFRAddress::C1FIFOSTA17 => 0x120,
            SFRAddress::C1FIFOUA17 => 0x124,
            SFRAddress::C1FIFOCON18 => 0x128,
            SFRAddress::C1FIFOSTA18 => 0x12C,
            SFRAddress::C1FIFOUA18 => 0x130,
            SFRAddress::C1FIFOCON19 => 0x134,
            SFRAddress::C1FIFOSTA19 => 0x138,
            SFRAddress::C1FIFOUA19 => 0x13C,
            SFRAddress::C1FIFOCON20 => 0x140,
            SFRAddress::C1FIFOSTA20 => 0x144,
            SFRAddress::C1FIFOUA20 => 0x148,
            SFRAddress::C1FIFOCON21 => 0x14C,
            SFRAddress::C1FIFOSTA21 => 0x150,
            SFRAddress::C1FIFOUA21 => 0x154,
            SFRAddress::C1FIFOCON22 => 0x158,
            SFRAddress::C1FIFOSTA22 => 0x15C,
            SFRAddress::C1FIFOUA22 => 0x160,
            SFRAddress::C1FIFOCON23 => 0x164,
            SFRAddress::C1FIFOSTA23 => 0x168,
            SFRAddress::C1FIFOUA23 => 0x16C,
            SFRAddress::C1FIFOCON24 => 0x170,
            SFRAddress::C1FIFOSTA24 => 0x174,
            SFRAddress::C1FIFOUA24 => 0x178,
            SFRAddress::C1FIFOCON25 => 0x17C,
            SFRAddress::C1FIFOSTA25 => 0x180,
            SFRAddress::C1FIFOUA25 => 0x184,
            SFRAddress::C1FIFOCON26 => 0x188,
            SFRAddress::C1FIFOSTA26 => 0x18C,
            SFRAddress::C1FIFOUA26 => 0x190,
            SFRAddress::C1FIFOCON27 => 0x194,
            SFRAddress::C1FIFOSTA27 => 0x198,
            SFRAddress::C1FIFOUA27 => 0x19C,
            SFRAddress::C1FIFOCON28 => 0x1A0,
            SFRAddress::C1FIFOSTA28 => 0x1A4,
            SFRAddress::C1FIFOUA28 => 0x1A8,
            SFRAddress::C1FIFOCON29 => 0x1AC,
            SFRAddress::C1FIFOSTA29 => 0x1B0,
            SFRAddress::C1FIFOUA29 => 0x1B4,
            SFRAddress::C1FIFOCON30 => 0x1B8,
            SFRAddress::C1FIFOSTA30 => 0x1BC,
            SFRAddress::C1FIFOUA30 => 0x1C0,
            SFRAddress::C1FIFOCON31 => 0x1C4,
            SFRAddress::C1FIFOSTA31 => 0x1C8,
            SFRAddress::C1FIFOUA31 => 0x1CC,
            SFRAddress::C1FLTCON0 => 0x1D0,
            SFRAddress::C1FLTCON1 => 0x1D4,
            SFRAddress::C1FLTCON2 => 0x1D8,
            SFRAddress::C1FLTCON3 => 0x1DC,
            SFRAddress::C1FLTCON4 => 0x1E0,
            SFRAddress::C1FLTCON5 => 0x1E4,
            SFRAddress::C1FLTCON6 => 0x1E8,
            SFRAddress::C1FLTCON7 => 0x1EC,
            SFRAddress::C1FLTOBJ0 => 0x1F0,
            SFRAddress::C1MASK0 => 0x1F4,
            SFRAddress::C1FLTOBJ1 => 0x1F8,
            SFRAddress::C1MASK1 => 0x1FC,
            SFRAddress::C1FLTOBJ2 => 0x200,
            SFRAddress::C1MASK2 => 0x204,
            SFRAddress::C1FLTOBJ3 => 0x208,
            SFRAddress::C1MASK3 => 0x20C,
            SFRAddress::C1FLTOBJ4 => 0x210,
            SFRAddress::C1MASK4 => 0x214,
            SFRAddress::C1FLTOBJ5 => 0x218,
            SFRAddress::C1MASK5 => 0x21C,
            SFRAddress::C1FLTOBJ6 => 0x220,
            SFRAddress::C1MASK6 => 0x224,
            SFRAddress::C1FLTOBJ7 => 0x228,
            SFRAddress::C1MASK7 => 0x22C,
            SFRAddress::C1FLTOBJ8 => 0x230,
            SFRAddress::C1MASK8 => 0x234,
            SFRAddress::C1FLTOBJ9 => 0x238,
            SFRAddress::C1MASK9 => 0x23C,
            SFRAddress::C1FLTOBJ10 => 0x240,
            SFRAddress::C1MASK10 => 0x244,
            SFRAddress::C1FLTOBJ11 => 0x248,
            SFRAddress::C1MASK11 => 0x24C,
            SFRAddress::C1FLTOBJ12 => 0x250,
            SFRAddress::C1MASK12 => 0x254,
            SFRAddress::C1FLTOBJ13 => 0x258,
            SFRAddress::C1MASK13 => 0x25C,
            SFRAddress::C1FLTOBJ14 => 0x260,
            SFRAddress::C1MASK14 => 0x264,
            SFRAddress::C1FLTOBJ15 => 0x268,
            SFRAddress::C1MASK15 => 0x26C,
            SFRAddress::C1FLTOBJ16 => 0x270,
            SFRAddress::C1MASK16 => 0x274,
            SFRAddress::C1FLTOBJ17 => 0x278,
            SFRAddress::C1MASK17 => 0x27C,
            SFRAddress::C1FLTOBJ18 => 0x280,
            SFRAddress::C1MASK18 => 0x284,
            SFRAddress::C1FLTOBJ19 => 0x288,
            SFRAddress::C1MASK19 => 0x28C,
            SFRAddress::C1FLTOBJ20 => 0x290,
            SFRAddress::C1MASK20 => 0x294,
            SFRAddress::C1FLTOBJ21 => 0x298,
            SFRAddress::C1MASK21 => 0x29C,
            SFRAddress::C1FLTOBJ22 => 0x2A0,
            SFRAddress::C1MASK22 => 0x2A4,
            SFRAddress::C1FLTOBJ23 => 0x2A8,
            SFRAddress::C1MASK23 => 0x2AC,
            SFRAddress::C1FLTOBJ24 => 0x2B0,
            SFRAddress::C1MASK24 => 0x2B4,
            SFRAddress::C1FLTOBJ25 => 0x2B8,
            SFRAddress::C1MASK25 => 0x2BC,
            SFRAddress::C1FLTOBJ26 => 0x2C0,
            SFRAddress::C1MASK26 => 0x2C4,
            SFRAddress::C1FLTOBJ27 => 0x2C8,
            SFRAddress::C1MASK27 => 0x2CC,
            SFRAddress::C1FLTOBJ28 => 0x2D0,
            SFRAddress::C1MASK28 => 0x2D4,
            SFRAddress::C1FLTOBJ29 => 0x2D8,
            SFRAddress::C1MASK29 => 0x2DC,
            SFRAddress::C1FLTOBJ30 => 0x2E0,
            SFRAddress::C1MASK30 => 0x2E4,
            SFRAddress::C1FLTOBJ31 => 0x2E8,
            SFRAddress::C1MASK31 => 0x2EC,
        }
    }

    pub fn address(&self) -> (r: u16)
        ensures
            r == self.spec_address(),
            r < 0x1000,
    {
        match self {
            SFRAddress::OSC => 0xE00,
            SFRAddress::IOCON => 0xE04,
            SFRAddress::CRC => 0xE08,
            SFRAddress::ECCCON => 0xE0C,
            SFRAddress::ECCSTAT => 0xE10,
            SFRAddress::DEVID => 0xE14,
            SFRAddress::C1CON => 0x0,
            SFRAddress::C1NBTCFG => 0x4,
            SFRAddress::C1DBTCFG => 0x8,
            SFRAddress::C1TDC => 0xC,
            SFRAddress::C1TBC => 0x10,
            SFRAddress::C1TSCON => 0x14,
            SFRAddress::C1VEC => 0x18,
            SFRAddress::C1INT => 0x1C,
            SFRAddress::C1RXIF => 0x20,
            SFRAddress::C1TXIF => 0x24,
            SFRAddress::C1RXOVIF => 0x28,
            SFRAddress::C1TXATIF => 0x2C,
            SFRAddress::C1TXREQ => 0x30,
            SFRAddress::C1TREC => 0x34,
            SFRAddress::C1BDIAG0 => 0x38,
            SFRAddress::C1BDIAG1 => 0x3C,
            SFRAddress::C1TEFCON => 0x40,
            SFRAddress::C1TEFSTA => 0x44,
            SFRAddress::C1TEFUA => 0x48,
            SFRAddress::C1TXQCON => 0x50,
            SFRAddress::C1TXQSTA => 0x54,
            SFRAddress::C1TXQUA => 0x58,
            SFRAddress::C1FIFOCON1 => 0x5C,
            SFRAddress::C1FIFOSTA1 => 0x60,
            SFRAddress::C1FIFOUA1 => 0x64,
            SFRAddress::C1FIFOCON2 => 0x68,
            SFRAddress::C1FIFOSTA2 => 0x6C,
            SFRAddress::C1FIFOUA2 => 0x70,
            SFRAddress::C1FIFOCON3 => 0x74,
            SFRAddress::C1FIFOSTA3 => 0x78,
            SFRAddress::C1FIFOUA3 => 0x7C,
            SFRAddress::C1FIFOCON4 => 0x80,
            SFRAddress::C1FIFOSTA4 => 0x84,
            SFRAddress::C1FIFOUA4 => 0x88,
            SFRAddress::C1FIFOCON5 => 0x8C,
            SFRAddress::C1FIFOSTA5 => 0x90,
            SFRAddress::C1FIFOUA5 => 0x94,
            SFRAddress::C1FIFOCON6 => 0x98,
            SFRAddress::C1FIFOSTA6 => 0x9C,
            SFRAddress::C1FIFOUA6 => 0xA0,
            SFRAddress::C1FIFOCON7 => 0xA4,
            SFRAddress::C1FIFOSTA7 => 0xA8,
            SFRAddress::C1FIFOUA7 => 0xAC,
            SFRAddress::C1FIFOCON8 => 0xB0,
            SFRAddress::C1FIFOSTA8 => 0xB4,
            SFRAddress::C1FIFOUA8 => 0xB8,
            SFRAddress::C1FIFOCON9 => 0xBC,
            SFRAddress::C1FIFOSTA9 => 0xC0,
            SFRAddress::C1FIFOUA9 => 0xC4,
            SFRAddress::C1FIFOCON10 => 0xC8,
            SFRAddress::C1FIFOSTA10 => 0xCC,
            SFRAddress::C1FIFOUA10 => 0xD0,
            SFRAddress::C1FIFOCON11 => 0xD4,
            SFRAddress::C1FIFOSTA11 => 0xD8,
            SFRAddress::C1FIFOUA11 => 0xDC,
            SFRAddress::C1FIFOCON12 => 0xE0,
            SFRAddress::C1FIFOSTA12 => 0xE4,
            SFRAddress::C1FIFOUA12 => 0xE8,
            SFRAddress::C1FIFOCON13 => 0xEC,
            SFRAddress::C1FIFOSTA13 => 0xF0,
            SFRAddress::C1FIFOUA13 => 0xF4,
            SFRAddress::C1FIFOCON14 => 0xF8,
            SFRAddress::C1FIFOSTA14 => 0xFC,
            SFRAddress::C1FIFOUA14 => 0x100,
            SFRAddress::C1FIFOCON15 => 0x104,
            SFRAddress::C1FIFOSTA15 => 0x108,
            SFRAddress::C1FIFOUA15 => 0x10C,
            SFRAddress::C1FIFOCON16 => 0x110,
            SFRAddress::C1FIFOSTA16 => 0x114,
            SFRAddress::C1FIFOUA16 => 0x118,
            SFRAddress::C1FIFOCON17 => 0x11C,
            SFRAddress::C1FIFOSTA17 => 0x120,
            SFRAddress::C1FIFOUA17 => 0x124,
            SFRAddress::C1FIFOCON18 => 0x128,
            SFRAddress::C1FIFOSTA18 => 0x12C,
            SFRAddress::C1FIFOUA18 => 0x130,
            SFRAddress::C1FIFOCON19 => 0x134,
            SFRAddress::C1FIFOSTA19 => 0x138,
            SFRAddress::C1FIFOUA19 => 0x13C,
            SFRAddress::C1FIFOCON20 => 0x140,
            SFRAddress::C1FIFOSTA20 => 0x144,
            SFRAddress::C1FIFOUA20 => 0x148,
            SFRAddress::C1FIFOCON21 => 0x14C,
            SFRAddress::C1FIFOSTA21 => 0x150,
            SFRAddress::C1FIFOUA21 => 0x154,
            SFRAddress::C1FIFOCON22 => 0x158,
            SFRAddress::C1FIFOSTA22 => 0x15C,
            SFRAddress::C1FIFOUA22 => 0x160,
            SFRAddress::C1FIFOCON23 => 0x164,
            SFRAddress::C1FIFOSTA23 => 0x168,
            SFRAddress::C1FIFOUA23 => 0x16C,
            SFRAddress::C1FIFOCON24 => 0x170,
            SFRAddress::C1FIFOSTA24 => 0x174,
            SFRAddress::C1FIFOUA24 => 0x178,
            SFRAddress::C1FIFOCON25 => 0x17C,
            SFRAddress::C1FIFOSTA25 => 0x180,
            SFRAddress::C1FIFOUA25 => 0x184,
            SFRAddress::C1FIFOCON26 => 0x188,
            SFRAddress::C1FIFOSTA26 => 0x18C,
            SFRAddress::C1FIFOUA26 => 0x190,
            SFRAddress::C1FIFOCON27 => 0x194,
            SFRAddress::C1FIFOSTA27 => 0x198,
            SFRAddress::C1FIFOUA27 => 0x19C,
            SFRAddress::C1FIFOCON28 => 0x1A0,
            SFRAddress::C1FIFOSTA28 => 0x1A4,
            SFRAddress::C1FIFOUA28 => 0x1A8,
            SFRAddress::C1FIFOCON29 => 0x1AC,
            SFRAddress::C1FIFOSTA29 => 0x1B0,
            SFRAddress::C1FIFOUA29 => 0x1B4,
            SFRAddress::C1FIFOCON30 => 0x1B8,
            SFRAddress::C1FIFOSTA30 => 0x1BC,
            SFRAddress::C1FIFOUA30 => 0x1C0,
            SFRAddress::C1FIFOCON31 => 0x1C4,
            SFRAddress::C1FIFOSTA31 => 0x1C8,
            SFRAddress::C1FIFOUA31 => 0x1CC,
            SFRAddress::C1FLTCON0 => 0x1D0,
            SFRAddress::C1FLTCON1 => 0x1D4,
            SFRAddress::C1FLTCON2 => 0x1D8,
            SFRAddress::C1FLTCON3 => 0x1DC,
            SFRAddress::C1FLTCON4 => 0x1E0,
            SFRAddress::C1FLTCON5 => 0x1E4,
            SFRAddress::C1FLTCON6 => 0x1E8,
            SFRAddress::C1FLTCON7 => 0x1EC,
            SFRAddress::C1FLTOBJ0 => 0x1F0,
            SFRAddress::C1MASK0 => 0x1F4,
            SFRAddress::C1FLTOBJ1 => 0x1F8,
            SFRAddress::C1MASK1 => 0x1FC,
            SFRAddress::C1FLTOBJ2 => 0x200,
            SFRAddress::C1MASK2 => 0x204,
            SFRAddress::C1FLTOBJ3 => 0x208,
            SFRAddress::C1MASK3 => 0x20C,
            SFRAddress::C1FLTOBJ4 => 0x210,
            SFRAddress::C1MASK4 => 0x214,
            SFRAddress::C1FLTOBJ5 => 0x218,
            SFRAddress::C1MASK5 => 0x21C,
            SFRAddress::C1FLTOBJ6 => 0x220,
            SFRAddress::C1MASK6 => 0x224,
            SFRAddress::C1FLTOBJ7 => 0x228,
            SFRAddress::C1MASK7 => 0x22C,
            SFRAddress::C1FLTOBJ8 => 0x230,
            SFRAddress::C1MASK8 => 0x234,
            SFRAddress::C1FLTOBJ9 => 0x238,
            SFRAddress::C1MASK9 => 0x23C,
            SFRAddress::C1FLTOBJ10 => 0x240,
            SFRAddress::C1MASK10 => 0x244,
            SFRAddress::C1FLTOBJ11 => 0x248,
            SFRAddress::C1MASK11 => 0x24C,
            SFRAddress::C1FLTOBJ12 => 0x250,
            SFRAddress::C1MASK12 => 0x254,
            SFRAddress::C1FLTOBJ13 => 0x258,
            SFRAddress::C1MASK13 => 0x25C,
            SFRAddress::C1FLTOBJ14 => 0x260,
            SFRAddress::C1MASK14 => 0x264,
            SFRAddress::C1FLTOBJ15 => 0x268,
            SFRAddress::C1MASK15 => 0x26C,
            SFRAddress::C1FLTOBJ16 => 0x270,
            SFRAddress::C1MASK16 => 0x274,
            SFRAddress::C1FLTOBJ17 => 0x278,
            SFRAddress::C1MASK17 => 0x27C,
            SFRAddress::C1FLTOBJ18 => 0x280,
            SFRAddress::C1MASK18 => 0x284,
            SFRAddress::C1FLTOBJ19 => 0x288,
            SFRAddress::C1MASK19 => 0x28C,
            SFRAddress::C1FLTOBJ20 => 0x290,
            SFRAddress::C1MASK20 => 0x294,
            SFRAddress::C1FLTOBJ21 => 0x298,
            SFRAddress::C1MASK21 => 0x29C,
            SFRAddress::C1FLTOBJ22 => 0x2A0,
            SFRAddress::C1MASK22 => 0x2A4,
            SFRAddress::C1FLTOBJ23 => 0x2A8,
            SFRAddress::C1MASK23 => 0x2AC,
            SFRAddress::C1FLTOBJ24 => 0x2B0,
            SFRAddress::C1MASK24 => 0x2B4,
            SFRAddress::C1FLTOBJ25 => 0x2B8,
            SFRAddress::C1MASK25 => 0x2BC,
            SFRAddress::C1FLTOBJ26 => 0x2C0,
            SFRAddress::C1MASK26 => 0x2C4,
            SFRAddress::C1FLTOBJ27 => 0x2C8,
            SFRAddress::C1MASK27 => 0x2CC,
            SFRAddress::C1FLTOBJ28 => 0x2D0,
            SFRAddress::C1MASK28 => 0x2D4,
            SFRAddress::C1FLTOBJ29 => 0x2D8,
            SFRAddress::C1MASK29 => 0x2DC,
            SFRAddress::C1FLTOBJ30 => 0x2E0,
            SFRAddress::C1MASK30 => 0x2E4,
            SFRAddress::C1FLTOBJ31 => 0x2E8,
            SFRAddress::C1MASK31 => 0x2EC,
        }
    }
}

} // verus!
