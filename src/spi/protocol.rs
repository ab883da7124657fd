//! The transactions the driver issues, as a ghost trace, and what each
//! operation's transactions and result are for the answers the chip gives.
use vstd::prelude::*;

use crate::bits::{field, flag, with_flag};
use crate::bits::with_field;
use crate::memory::controller::configuration::{
    reported_mode, CanControlRegister, OperationMode, TransmitterDelayCompensationMode,
};
use crate::memory::chip::{IoControlRegister, OscillatorControlRegister};
use crate::memory::controller::configuration::{
    TimeStampControlRegister, DataBitTimeConfigurationRegister, NominalBitTimeConfigurationRegister,
    TransmitterDelayCompensationRegister,
};
use crate::memory::controller::fifo::fsize_field_for;
use crate::settings::{
    BitTimeConfiguration, DataBitTimeConfiguration, IoConfiguration, NominalBitTimeConfiguration,
    TxEventFifoConfiguration, TxQueueConfiguration,
};
use crate::settings::{OscillatorConfiguration, Pll, SysClkDivider};
use crate::memory::controller::fifo::{
    FifoControlRegister, FifoNumber, FifoStatusRegister, PayloadSize, TxQueueControlRegister,
    TxQueueStatusRegister, UserAddressKind, UserAddressRegister,
};
use crate::memory::controller::interrupt::{
    InterruptCodeRegister, InterruptRegister, RxInterruptStatusRegister,
    RxOverflowInterruptStatusRegister, TxAttemptInterruptStatusRegister, TxInterruptStatusRegister,
};
use crate::memory::controller::filter::{
    FilterControlRegister, FilterNumber, FilterObjectRegister, MaskRegister,
};
use crate::settings::{Settings, FifoConfiguration, FifoMode, FilterConfiguration, FilterMatchMode};
use crate::message::tx::{id_word, CanId};
use crate::message::rx::{rx_payload, rx_payload_len, RxHeader, RxMessage};
use crate::message::tx::{TxEventObject, TxHeader, TxMessage};
use crate::message::{len_for_dlc, payload_len_of_dlc};
use crate::memory::controller::fifo::{TxEventFifoControlRegister, TxEventFifoStatusRegister};
use crate::memory::{RAM_BASE_ADDRESS, ram_range_ok, is_valid_ram_address, Register, RegisterValue, RepeatedRegister, SFRAddress};
use crate::message::{le_bytes, le_word_at, lemma_le_round_trip, read_le_word};

use crate::spi::{ConfigError, Error, OPCODE_READ, OPCODE_WRITE, instruction_bytes};

verus! {

/// One transaction the driver handed to the transport.
pub enum BusOp {
    /// The instruction, then a read of `len` bytes; `data` holds them when
    /// the transport delivered exactly `len` bytes.
    Read { instruction: Seq<u8>, len: nat, data: Option<Seq<u8>> },
    /// The instruction, then `data`; `ok` when the transport reported success.
    Write { instruction: Seq<u8>, data: Seq<u8>, ok: bool },
    /// A pause between two polls.
    Delay { us: u32 },
}

pub open spec fn read_op(address: u16, len: nat, data: Option<Seq<u8>>) -> BusOp {
    BusOp::Read { instruction: instruction_bytes(OPCODE_READ, address), len, data }
}

pub open spec fn write_op(address: u16, data: Seq<u8>, ok: bool) -> BusOp {
    BusOp::Write { instruction: instruction_bytes(OPCODE_WRITE, address), data, ok }
}

/// A read of register `a` that gave `value`, or failed where `value` is `None`.
pub open spec fn sfr_read(a: SFRAddress, value: Option<u32>) -> BusOp {
    read_op(
        a.spec_address(),
        4,
        match value {
            Some(v) => Some(le_bytes(v)),
            None => None,
        },
    )
}

/// A write of `value` to register `a`.
pub open spec fn sfr_write(a: SFRAddress, value: u32, ok: bool) -> BusOp {
    write_op(a.spec_address(), le_bytes(value), ok)
}

/// The word a four-byte read delivered.
pub open spec fn read_result(op: BusOp) -> Option<u32> {
    match op {
        BusOp::Read { data: Some(d), .. } => if d.len() == 4 {
            Some(le_word_at(d, 0))
        } else {
            None
        },
        _ => None,
    }
}

/// The trace `t` starts with a read of register `a`.
pub open spec fn starts_with_read(t: Seq<BusOp>, a: SFRAddress) -> bool {
    t.len() > 0 && t[0] == sfr_read(a, read_result(t[0]))
}

/// Reading register `a`, then applying `f` to the word and writing it back:
/// the transactions `t` and the result `r` of doing so.
pub open spec fn modify_spec(t: Seq<BusOp>, a: SFRAddress, f: spec_fn(u32) -> u32, r: Result<(), Error>) -> bool {
    starts_with_read(t, a) && match read_result(t[0]) {
        None => t.len() == 1 && r == Err::<(), Error>(Error::SPIRead),
        Some(v) => t.len() == 2 && t[1] == sfr_write(a, f(v), r is Ok) && (r is Err ==> r == Err::<
            (),
            Error,
        >(Error::SPIWrite)),
    }
}

/// The word of a register value read, if the read succeeded.
pub open spec fn word_of<R: RegisterValue>(r: Result<R, Error>) -> Option<u32> {
    match r {
        Ok(x) => Some(x.word()),
        Err(_) => None,
    }
}

/// The bytes a RAM read delivered, if it succeeded.
pub open spec fn bytes_of(r: &Result<Vec<u8>, Error>) -> Option<Seq<u8>> {
    match r {
        Ok(v) => Some(v@),
        Err(_) => None,
    }
}

/// `new` is `old` with transactions appended.
pub open spec fn appended(new: Seq<BusOp>, old: Seq<BusOp>) -> bool {
    old.len() <= new.len() && new.subrange(0, old.len() as int) == old
}

/// The transactions appended to `old` to give `new`.
pub open spec fn suffix(new: Seq<BusOp>, old: Seq<BusOp>) -> Seq<BusOp> {
    new.subrange(old.len() as int, new.len() as int)
}

/// `t[i]` is a read of register `a`.
pub open spec fn read_at(t: Seq<BusOp>, i: int, a: SFRAddress) -> bool {
    0 <= i < t.len() && t[i] == sfr_read(a, read_result(t[i]))
}

/// `n` rounded up to a multiple of 4.
pub open spec fn round_up4(n: nat) -> nat {
    ((n + 3) / 4 * 4) as nat
}

/// The bytes written to RAM for a transmit object: header and payload,
/// padded with zeros to a multiple of four bytes.
pub open spec fn tx_object_bytes(msg: TxMessage) -> Seq<u8> {
    (le_bytes(msg.spec_header().0[0]) + le_bytes(msg.spec_header().0[1]) + msg.spec_data() + Seq::new(
        (64 - msg.spec_data().len()) as nat,
        |i: int| 0u8,
    )).subrange(0, round_up4(8 + msg.spec_data().len()) as int)
}

/// The 16-bit RAM address that a user address register value points at.
pub open spec fn ram_slot(ua: u32) -> u16 {
    ((ua + RAM_BASE_ADDRESS) % 0x1_0000_0000) as u16
}

/// Payload bytes that a FIFO control word allows.
pub open spec fn payload_capacity(control: u32) -> usize {
    PayloadSize::spec_from_value(field(control, 29, 3) as u8)->Some_0.spec_num_bytes()
}

/// From `t[i]` on: the object for `msg` is written at the slot that `ua`
/// points at, then the control word `control` is written back to `ctl` with
/// its increment bit set. A failed transfer ends the push.
pub open spec fn push_tail(
    t: Seq<BusOp>,
    i: int,
    ua: u32,
    msg: TxMessage,
    ctl: SFRAddress,
    control: u32,
    r: Result<(), Error>,
) -> bool {
    let address = ram_slot(ua);
    let bytes = tx_object_bytes(msg);
    if !ram_range_ok(address as u32, bytes.len() as usize) {
        t.len() == i && r == Err::<(), Error>(Error::InvalidRamAddress(address))
    } else {
        ||| (t.len() == i + 1 && t[i] == write_op(address, bytes, false) && r == Err::<(), Error>(
            Error::SPIWrite,
        ))
        ||| (t.len() == i + 2 && t[i] == write_op(address, bytes, true) && t[i + 1] == sfr_write(
            ctl,
            with_flag(control, 8, true),
            r is Ok,
        ) && (r is Err ==> r == Err::<(), Error>(Error::SPIWrite)))
    }
}

/// From `t[i]` on, the control word `control` of a transmit queue or FIFO
/// having been read: the payload capacity is checked, then the status
/// register `sta` is read and its not-full flag checked, then the user
/// address register `ua` is read and the object pushed.
pub open spec fn push_after_control(
    t: Seq<BusOp>,
    i: int,
    msg: TxMessage,
    ctl: SFRAddress,
    control: u32,
    sta: SFRAddress,
    ua: SFRAddress,
    r: Result<(), Error>,
) -> bool {
    if payload_capacity(control) < msg.spec_data().len() {
        t.len() == i && r == Err::<(), Error>(Error::FifoTooSmall)
    } else {
        read_at(t, i, sta) && match read_result(t[i]) {
            None => t.len() == i + 1 && r == Err::<(), Error>(Error::SPIRead),
            Some(status) => if !flag(status, 0) {
                t.len() == i + 1 && r == Err::<(), Error>(Error::FifoFull)
            } else {
                read_at(t, i + 1, ua) && match read_result(t[i + 1]) {
                    None => t.len() == i + 2 && r == Err::<(), Error>(Error::SPIRead),
                    Some(pointer) => push_tail(t, i + 2, pointer, msg, ctl, control, r),
                }
            },
        }
    }
}

/// Pushing `msg` into the transmit queue: the transactions `t` and result `r`.
pub open spec fn tx_queue_push_spec(t: Seq<BusOp>, msg: TxMessage, r: Result<(), Error>) -> bool {
    read_at(t, 0, SFRAddress::C1CON) && match read_result(t[0]) {
        None => t.len() == 1 && r == Err::<(), Error>(Error::SPIRead),
        Some(con) => if !flag(con, 20) {
            t.len() == 1 && r == Err::<(), Error>(Error::TxQueueDisabled)
        } else {
            read_at(t, 1, SFRAddress::C1TXQCON) && match read_result(t[1]) {
                None => t.len() == 2 && r == Err::<(), Error>(Error::SPIRead),
                Some(control) => push_after_control(
                    t,
                    2,
                    msg,
                    SFRAddress::C1TXQCON,
                    control,
                    SFRAddress::C1TXQSTA,
                    SFRAddress::C1TXQUA,
                    r,
                ),
            }
        },
    }
}

/// Pushing `msg` into FIFO `n`: the transactions `t` and result `r`.
pub open spec fn tx_fifo_push_spec(t: Seq<BusOp>, n: FifoNumber, msg: TxMessage, r: Result<(), Error>) -> bool {
    let ctl = <FifoControlRegister as RepeatedRegister>::spec_address_for(n);
    read_at(t, 0, ctl) && match read_result(t[0]) {
        None => t.len() == 1 && r == Err::<(), Error>(Error::SPIRead),
        Some(control) => if !flag(control, 7) {
            t.len() == 1 && r == Err::<(), Error>(Error::FifoNotTx)
        } else {
            push_after_control(
                t,
                1,
                msg,
                ctl,
                control,
                <FifoStatusRegister as RepeatedRegister>::spec_address_for(n),
                <UserAddressRegister as RepeatedRegister>::spec_address_for(UserAddressKind::Fifo(n)),
                r,
            )
        },
    }
}

/// `push_after_control` read at an offset: what holds of the transactions
/// `u` holds of `t` from `t[d]` on when `t` is `u` after `d` others.
pub proof fn lemma_push_after_control_shift(
    t: Seq<BusOp>,
    u: Seq<BusOp>,
    d: int,
    msg: TxMessage,
    ctl: SFRAddress,
    control: u32,
    sta: SFRAddress,
    ua: SFRAddress,
    r: Result<(), Error>,
)
    requires
        0 <= d,
        t.len() == u.len() + d,
        forall|k: int| 0 <= k < u.len() ==> t[k + d] == u[k],
        push_after_control(u, 0, msg, ctl, control, sta, ua, r),
    ensures
        push_after_control(t, d, msg, ctl, control, sta, ua, r),
{
    if u.len() > 0 {
        assert(t[d] == u[0]);
    }
    if u.len() > 1 {
        assert(t[d + 1] == u[1]);
    }
    if u.len() > 2 {
        assert(t[d + 2] == u[2]);
    }
    if u.len() > 3 {
        assert(t[d + 3] == u[3]);
    }
}

/// `t` is a push given by `push` followed, when the push succeeded, by a
/// read-modify-write of `ctl` that sets the transmit request bit.
pub open spec fn transmit_spec(
    t: Seq<BusOp>,
    ctl: SFRAddress,
    push: spec_fn(Seq<BusOp>, Result<(), Error>) -> bool,
    r: Result<(), Error>,
) -> bool {
    exists|i: int, pushed: Result<(), Error>|
        0 <= i <= t.len() && #[trigger] push(t.subrange(0, i), pushed) && match pushed {
            Err(e) => i == t.len() && r == Err::<(), Error>(e),
            Ok(()) => modify_spec(t.subrange(i, t.len() as int), ctl, |w: u32| with_flag(w, 9, true), r),
        }
}

/// The bytes a RAM read delivered, if `op` is a read that succeeded.
pub open spec fn ram_data(op: BusOp) -> Option<Seq<u8>> {
    match op {
        BusOp::Read { data, .. } => data,
        _ => None,
    }
}

/// `t[i]` is a read of `len` bytes of RAM at `address`.
pub open spec fn ram_read_at(t: Seq<BusOp>, i: int, address: u16, len: nat) -> bool {
    0 <= i < t.len() && t[i] == read_op(address, len, ram_data(t[i]))
}

/// `slot + offset`, on 16 bits.
pub open spec fn slot_offset(slot: u16, offset: u16) -> u16 {
    ((slot + offset) % 0x10000) as u16
}

/// Checking whether the transmit event FIFO holds an object: the
/// transactions `t` and the result `r`.
pub open spec fn tef_has_next_spec(t: Seq<BusOp>, r: Result<bool, Error>) -> bool {
    read_at(t, 0, SFRAddress::C1TEFSTA) && t.len() == 1 && match read_result(t[0]) {
        None => r == Err::<bool, Error>(Error::SPIRead),
        Some(status) => r == Ok::<bool, Error>(flag(status, 0)),
    }
}

/// Reading the next transmit event object without removing it.
pub open spec fn tef_peek_spec(t: Seq<BusOp>, r: Result<Option<TxEventObject>, Error>) -> bool {
    read_at(t, 0, SFRAddress::C1TEFSTA) && match read_result(t[0]) {
        None => t.len() == 1 && r == Err::<Option<TxEventObject>, Error>(Error::SPIRead),
        Some(status) => if !flag(status, 0) {
            t.len() == 1 && r == Ok::<Option<TxEventObject>, Error>(None)
        } else {
            read_at(t, 1, SFRAddress::C1TEFUA) && match read_result(t[1]) {
                None => t.len() == 2 && r == Err::<Option<TxEventObject>, Error>(Error::SPIRead),
                Some(pointer) => read_at(t, 2, SFRAddress::C1TEFCON) && match read_result(t[2]) {
                    None => t.len() == 3 && r == Err::<Option<TxEventObject>, Error>(Error::SPIRead),
                    Some(control) => {
                        let slot = ram_slot(pointer);
                        let len: nat = if flag(control, 5) { 12 } else { 8 };
                        if !ram_range_ok(slot as u32, len as usize) {
                            t.len() == 3 && r == Err::<Option<TxEventObject>, Error>(Error::InvalidRamAddress(slot))
                        } else {
                            t.len() == 4 && ram_read_at(t, 3, slot, len) && match ram_data(t[3]) {
                                None => r == Err::<Option<TxEventObject>, Error>(Error::SPIRead),
                                Some(b) => r == Ok::<Option<TxEventObject>, Error>(
                                    Some(
                                        TxEventObject {
                                            header: TxHeader([le_word_at(b, 0), le_word_at(b, 4)]),
                                            timestamp: if flag(control, 5) {
                                                Some(le_word_at(b, 8))
                                            } else {
                                                None
                                            },
                                        },
                                    ),
                                ),
                            }
                        }
                    },
                },
            }
        },
    }
}

/// A read-modify-write of `ctl` that sets the increment bit (UINC).
pub open spec fn increment_spec(t: Seq<BusOp>, ctl: SFRAddress, r: Result<(), Error>) -> bool {
    modify_spec(t, ctl, |v: u32| with_flag(v, 8, true), r)
}

/// A read `peek` given by its spec, followed, when it gave an object, by a
/// read-modify-write of `ctl` that sets the increment bit; the object is
/// the result unless that write fails.
pub open spec fn pop_spec<T>(
    t: Seq<BusOp>,
    ctl: SFRAddress,
    peek: spec_fn(Seq<BusOp>, Result<Option<T>, Error>) -> bool,
    r: Result<Option<T>, Error>,
) -> bool {
    exists|i: int, peeked: Result<Option<T>, Error>|
        0 <= i <= t.len() && #[trigger] peek(t.subrange(0, i), peeked) && match peeked {
            Ok(Some(x)) => exists|w: Result<(), Error>|
                #[trigger] increment_spec(t.subrange(i, t.len() as int), ctl, w) && match w {
                    Ok(()) => r == Ok::<Option<T>, Error>(Some(x)),
                    Err(e) => r == Err::<Option<T>, Error>(e),
                },
            _ => i == t.len() && r == peeked,
        }
}

/// Checking whether receive FIFO `n` holds a frame.
pub open spec fn rx_has_next_spec(t: Seq<BusOp>, n: FifoNumber, r: Result<bool, Error>) -> bool {
    read_at(t, 0, FifoControlRegister::spec_address_for(n)) && match read_result(t[0]) {
        None => t.len() == 1 && r == Err::<bool, Error>(Error::SPIRead),
        Some(control) => if flag(control, 7) {
            t.len() == 1 && r == Err::<bool, Error>(Error::FifoNotRx)
        } else {
            read_at(t, 1, FifoStatusRegister::spec_address_for(n)) && t.len() == 2 && match read_result(t[1]) {
                None => r == Err::<bool, Error>(Error::SPIRead),
                Some(status) => r == Ok::<bool, Error>(flag(status, 0)),
            }
        },
    }
}

/// From `t[i]` on: the payload of a frame with `header` and `timestamp`
/// is read at `address`, its length rounded up to a multiple of four and no
/// read made for an empty payload.
pub open spec fn rx_payload_spec(
    t: Seq<BusOp>,
    i: int,
    address: u16,
    header: RxHeader,
    timestamp: Option<u32>,
    r: Result<Option<RxMessage>, Error>,
) -> bool {
    let len = rx_payload_len(header);
    let read_len = round_up4(len);
    if read_len == 0 {
        t.len() == i && (r matches Ok(Some(m)) && m.spec_header() == header && m.spec_timestamp() == timestamp
            && m.spec_data() == rx_payload(header, Seq::empty()))
    } else if !ram_range_ok(address as u32, read_len as usize) {
        t.len() == i && r == Err::<Option<RxMessage>, Error>(Error::InvalidRamAddress(address))
    } else {
        t.len() == i + 1 && ram_read_at(t, i, address, read_len) && match ram_data(t[i]) {
            None => r == Err::<Option<RxMessage>, Error>(Error::SPIRead),
            Some(b) => (r matches Ok(Some(m)) && m.spec_header() == header && m.spec_timestamp() == timestamp
                && m.spec_data() == b.subrange(0, len as int)),
        }
    }
}

/// From `t[i]` on: the receive object at `slot` of FIFO `n` is read, header
/// first, then the control register for the timestamp setting, then the
/// timestamp if stored, then the payload.
pub open spec fn rx_object_spec(
    t: Seq<BusOp>,
    i: int,
    slot: u16,
    n: FifoNumber,
    r: Result<Option<RxMessage>, Error>,
) -> bool {
    if !ram_range_ok(slot as u32, 8) {
        t.len() == i && r == Err::<Option<RxMessage>, Error>(Error::InvalidRamAddress(slot))
    } else {
        ram_read_at(t, i, slot, 8) && match ram_data(t[i]) {
            None => t.len() == i + 1 && r == Err::<Option<RxMessage>, Error>(Error::SPIRead),
            Some(hb) => {
                let header = RxHeader([le_word_at(hb, 0), le_word_at(hb, 4)]);
                read_at(t, i + 1, FifoControlRegister::spec_address_for(n)) && match read_result(t[i + 1]) {
                    None => t.len() == i + 2 && r == Err::<Option<RxMessage>, Error>(Error::SPIRead),
                    Some(control) => if flag(control, 5) {
                        let ts_address = slot_offset(slot, 8);
                        if !ram_range_ok(ts_address as u32, 4) {
                            t.len() == i + 2 && r == Err::<Option<RxMessage>, Error>(
                                Error::InvalidRamAddress(ts_address),
                            )
                        } else {
                            ram_read_at(t, i + 2, ts_address, 4) && match ram_data(t[i + 2]) {
                                None => t.len() == i + 3 && r == Err::<Option<RxMessage>, Error>(Error::SPIRead),
                                Some(tb) => rx_payload_spec(
                                    t,
                                    i + 3,
                                    slot_offset(slot, 12),
                                    header,
                                    Some(le_word_at(tb, 0)),
                                    r,
                                ),
                            }
                        }
                    } else {
                        rx_payload_spec(t, i + 2, slot_offset(slot, 8), header, None, r)
                    },
                }
            },
        }
    }
}

/// Reading the next frame of receive FIFO `n` without removing it.
pub open spec fn rx_peek_spec(t: Seq<BusOp>, n: FifoNumber, r: Result<Option<RxMessage>, Error>) -> bool {
    read_at(t, 0, FifoControlRegister::spec_address_for(n)) && match read_result(t[0]) {
        None => t.len() == 1 && r == Err::<Option<RxMessage>, Error>(Error::SPIRead),
        Some(control) => if flag(control, 7) {
            t.len() == 1 && r == Err::<Option<RxMessage>, Error>(Error::FifoNotRx)
        } else {
            read_at(t, 1, FifoStatusRegister::spec_address_for(n)) && match read_result(t[1]) {
                None => t.len() == 2 && r == Err::<Option<RxMessage>, Error>(Error::SPIRead),
                Some(status) => if !flag(status, 0) {
                    t.len() == 2 && r == Ok::<Option<RxMessage>, Error>(None)
                } else {
                    read_at(t, 2, UserAddressRegister::spec_address_for(UserAddressKind::Fifo(n))) && match read_result(t[2]) {
                        None => t.len() == 3 && r == Err::<Option<RxMessage>, Error>(Error::SPIRead),
                        Some(pointer) => rx_object_spec(t, 3, ram_slot(pointer), n, r),
                    }
                },
            }
        },
    }
}

/// A chain that succeeded, followed by a one-step chain, is the chain of
/// both.
pub proof fn lemma_chain_append(
    t1: Seq<BusOp>,
    s1: Seq<(SFRAddress, spec_fn(u32) -> u32)>,
    t2: Seq<BusOp>,
    step: (SFRAddress, spec_fn(u32) -> u32),
    r1: Result<(), ConfigError>,
    r: Result<(), ConfigError>,
)
    requires
        r1 is Ok,
        modify_chain(t1, s1, r1),
        modify_chain(t2, seq![step], r),
    ensures
        modify_chain(t1 + t2, s1.push(step), r),
    decreases s1.len(),
{
    if s1.len() == 0 {
        assert(t1 + t2 =~= t2);
        assert(s1.push(step) =~= seq![step]);
    } else {
        let rest = t1.subrange(2, t1.len() as int);
        lemma_chain_append(rest, s1.drop_first(), t2, step, r1, r);
        assert((t1 + t2).subrange(2, (t1 + t2).len() as int) =~= rest + t2);
        assert(s1.push(step).drop_first() =~= s1.drop_first().push(step));
        assert((t1 + t2)[0] == t1[0]);
        assert((t1 + t2)[1] == t1[1]);
    }
}

/// A chain that failed stays failed whatever steps are listed after it.
pub proof fn lemma_chain_err_extend(
    t: Seq<BusOp>,
    s1: Seq<(SFRAddress, spec_fn(u32) -> u32)>,
    s2: Seq<(SFRAddress, spec_fn(u32) -> u32)>,
    r: Result<(), ConfigError>,
)
    requires
        modify_chain(t, s1, r),
        r is Err,
    ensures
        modify_chain(t, s1 + s2, r),
    decreases s1.len(),
{
    if s1.len() > 0 {
        assert((s1 + s2)[0] == s1[0]);
        let v = read_result(t[0]);
        if v is Some && write_ok(t[1]) {
            lemma_chain_err_extend(t.subrange(2, t.len() as int), s1.drop_first(), s2, r);
            assert((s1 + s2).drop_first() =~= s1.drop_first() + s2);
        }
    }
}

/// Whether a write transaction succeeded.
pub open spec fn write_ok(op: BusOp) -> bool {
    match op {
        BusOp::Write { ok, .. } => ok,
        _ => false,
    }
}

/// Read-modify-writes of the configuration sequence, in order: each
/// register is read, its word transformed and written back. The first failed
/// transfer ends the chain, reported as a configuration-mode timeout.
pub open spec fn modify_chain(
    t: Seq<BusOp>,
    steps: Seq<(SFRAddress, spec_fn(u32) -> u32)>,
    r: Result<(), ConfigError>,
) -> bool
    decreases steps.len(),
{
    if steps.len() == 0 {
        t.len() == 0 && r is Ok
    } else {
        let a = steps[0].0;
        let f = steps[0].1;
        read_at(t, 0, a) && match read_result(t[0]) {
            None => t.len() == 1 && r == Err::<(), ConfigError>(ConfigError::ConfigurationModeTimeout),
            Some(v) => t.len() >= 2 && t[1] == sfr_write(a, f(v), write_ok(t[1])) && if !write_ok(t[1]) {
                t.len() == 2 && r == Err::<(), ConfigError>(ConfigError::ConfigurationModeTimeout)
            } else {
                modify_chain(t.subrange(2, t.len() as int), steps.drop_first(), r)
            },
        }
    }
}

/// Polling register `a` up to `attempts` times, 500 µs apart, until `done`
/// holds of its word; `timeout` when it never does, a configuration-mode
/// timeout when a read fails.
pub open spec fn poll_spec(
    t: Seq<BusOp>,
    a: SFRAddress,
    done: spec_fn(u32) -> bool,
    attempts: nat,
    timeout: ConfigError,
    r: Result<(), ConfigError>,
) -> bool
    decreases attempts,
{
    read_at(t, 0, a) && match read_result(t[0]) {
        None => t.len() == 1 && r == Err::<(), ConfigError>(ConfigError::ConfigurationModeTimeout),
        Some(v) => if done(v) {
            t.len() == 1 && r is Ok
        } else if attempts <= 1 {
            t.len() == 1 && r == Err::<(), ConfigError>(timeout)
        } else {
            t.len() >= 2 && t[1] == (BusOp::Delay { us: 500 }) && poll_spec(
                t.subrange(2, t.len() as int),
                a,
                done,
                (attempts - 1) as nat,
                timeout,
                r,
            )
        },
    }
}

/// `first` then, when it succeeded, `rest`: the transactions split at some
/// point, the first part described by `first`, the remainder by `rest`.
pub open spec fn then_spec(
    t: Seq<BusOp>,
    first: spec_fn(Seq<BusOp>, Result<(), ConfigError>) -> bool,
    rest: spec_fn(Seq<BusOp>, Result<(), ConfigError>) -> bool,
    r: Result<(), ConfigError>,
) -> bool {
    exists|i: int, r1: Result<(), ConfigError>|
        0 <= i <= t.len() && #[trigger] first(t.subrange(0, i), r1) && match r1 {
            Err(e) => i == t.len() && r == Err::<(), ConfigError>(e),
            Ok(()) => rest(t.subrange(i, t.len() as int), r),
        }
}

pub proof fn lemma_then_intro(
    t: Seq<BusOp>,
    first: spec_fn(Seq<BusOp>, Result<(), ConfigError>) -> bool,
    rest: spec_fn(Seq<BusOp>, Result<(), ConfigError>) -> bool,
    i: int,
    r1: Result<(), ConfigError>,
    r: Result<(), ConfigError>,
)
    requires
        0 <= i <= t.len(),
        first(t.subrange(0, i), r1),
        match r1 {
            Err(e) => i == t.len() && r == Err::<(), ConfigError>(e),
            Ok(()) => rest(t.subrange(i, t.len() as int), r),
        },
    ensures
        then_spec(t, first, rest, r),
{
}

/// The oscillator word for `cfg`: PLL enable, clock divider, oscillator on.
pub open spec fn osc_word(w: u32, cfg: OscillatorConfiguration) -> u32 {
    with_flag(with_flag(with_flag(w, 0, cfg.pll == Pll::On), 4, cfg.divider == SysClkDivider::DivByTwo), 2, false)
}

pub open spec fn osc_steps(cfg: OscillatorConfiguration) -> Seq<(SFRAddress, spec_fn(u32) -> u32)> {
    seq![(SFRAddress::OSC, |w: u32| osc_word(w, cfg))]
}

/// Setting the oscillator for `cfg`, then, with the PLL on, waiting up to
/// three polls for PLL ready.
pub open spec fn osc_spec(t: Seq<BusOp>, cfg: OscillatorConfiguration, r: Result<(), ConfigError>) -> bool {
    if cfg.pll == Pll::On {
        then_spec(
            t,
            |u: Seq<BusOp>, q: Result<(), ConfigError>| modify_chain(u, osc_steps(cfg), q),
            |u: Seq<BusOp>, q: Result<(), ConfigError>|
                poll_spec(u, SFRAddress::OSC, |w: u32| flag(w, 8), 3, ConfigError::PLLNotReady, q),
            r,
        )
    } else {
        modify_chain(t, osc_steps(cfg), r)
    }
}

/// Requesting `mode`, then waiting up to five polls for the controller to
/// report it.
pub open spec fn set_op_mode_spec(t: Seq<BusOp>, mode: OperationMode, r: Result<(), ConfigError>) -> bool {
    then_spec(
        t,
        |u: Seq<BusOp>, q: Result<(), ConfigError>|
            modify_chain(u, seq![(SFRAddress::C1CON, |w: u32| with_field(w, 24, 3, mode.spec_value() as u32))], q),
        |u: Seq<BusOp>, q: Result<(), ConfigError>|
            poll_spec(u, SFRAddress::C1CON, |w: u32| reported_mode(w) == mode, 5, ConfigError::ChangeOpModeTimeout, q),
        r,
    )
}

/// The pin control word for `cfg`.
pub open spec fn io_word(w: u32, cfg: IoConfiguration) -> u32 {
    with_flag(
        with_flag(
            with_flag(with_flag(w, 6, cfg.enable_tx_standby_pin), 28, cfg.tx_can_open_drain),
            29,
            cfg.start_of_frame_on_clko,
        ),
        30,
        cfg.interrupt_pin_open_drain,
    )
}

pub open spec fn io_steps(cfg: IoConfiguration) -> Seq<(SFRAddress, spec_fn(u32) -> u32)> {
    seq![(SFRAddress::IOCON, |w: u32| io_word(w, cfg))]
}

/// The nominal bit time word: prescaler, segments and jump width.
pub open spec fn nbt_word(w: u32, n: NominalBitTimeConfiguration) -> u32 {
    with_field(
        with_field(with_field(with_field(w, 24, 8, n.baud_rate_prescaler as u32), 16, 8, n.time_segment_1 as u32), 8, 7, n.time_segment_2 as u32),
        0,
        7,
        n.synchronization_jump_width as u32,
    )
}

/// The data bit time word: prescaler, segments and jump width.
pub open spec fn dbt_word(w: u32, d: DataBitTimeConfiguration) -> u32 {
    with_field(
        with_field(with_field(with_field(w, 24, 8, d.baud_rate_prescaler as u32), 16, 5, d.time_segment_1 as u32), 8, 4, d.time_segment_2 as u32),
        0,
        4,
        d.synchronization_jump_width as u32,
    )
}

/// The delay compensation word: automatic mode, the configured offset and
/// a zero compensation value.
pub open spec fn tdc_word(w: u32, d: DataBitTimeConfiguration) -> u32 {
    with_field(with_field(with_field(w, 16, 2, 2), 8, 6, d.transmitter_delay_compensation_offset as u32), 0, 6, 0)
}

pub open spec fn bit_timing_steps(cfg: BitTimeConfiguration) -> Seq<(SFRAddress, spec_fn(u32) -> u32)> {
    seq![
        (SFRAddress::C1NBTCFG, |w: u32| nbt_word(w, cfg.nominal)),
        (SFRAddress::C1DBTCFG, |w: u32| dbt_word(w, cfg.data)),
        (SFRAddress::C1TDC, |w: u32| tdc_word(w, cfg.data)),
    ]
}

/// The transmit event FIFO control word for `c`.
pub open spec fn tef_word(w: u32, c: TxEventFifoConfiguration) -> u32 {
    with_flag(
        with_flag(
            with_flag(
                with_flag(with_flag(with_field(w, 24, 5, fsize_field_for(c.fifo_size)), 5, c.enable_timestamps), 3, c.enable_fifo_overflow_interrupt),
                2,
                c.enable_fifo_full_interrupt,
            ),
            1,
            c.enable_fifo_half_full_interrupt,
        ),
        0,
        c.enable_fifo_not_empty_interrupt,
    )
}

/// Enabling the transmit event FIFO (STEF) as `cfg` asks, then sizing it.
pub open spec fn tef_steps(cfg: Option<TxEventFifoConfiguration>) -> Seq<(SFRAddress, spec_fn(u32) -> u32)> {
    match cfg {
        None => seq![(SFRAddress::C1CON, |w: u32| with_flag(w, 19, false))],
        Some(c) => seq![
            (SFRAddress::C1CON, |w: u32| with_flag(w, 19, true)),
            (SFRAddress::C1TEFCON, |w: u32| tef_word(w, c)),
        ],
    }
}

/// The transmit queue control word for `c`.
pub open spec fn txq_word(w: u32, c: TxQueueConfiguration) -> u32 {
    with_flag(
        with_flag(
            with_flag(
                with_field(
                    with_field(
                        with_field(with_field(w, 21, 2, c.retransmission_attempts.spec_value() as u32), 16, 5, c.message_priority as u32),
                        24,
                        5,
                        fsize_field_for(c.fifo_size),
                    ),
                    29,
                    3,
                    c.payload_size.spec_value() as u32,
                ),
                4,
                c.enable_transmit_attempts_exhausted_interrupt,
            ),
            2,
            c.enable_queue_empty_interrupt,
        ),
        0,
        c.enable_queue_not_full_interrupt,
    )
}

/// Enabling the transmit queue (TXQEN) as `cfg` asks, then configuring it.
pub open spec fn txq_steps(cfg: Option<TxQueueConfiguration>) -> Seq<(SFRAddress, spec_fn(u32) -> u32)> {
    match cfg {
        None => seq![(SFRAddress::C1CON, |w: u32| with_flag(w, 20, false))],
        Some(c) => seq![
            (SFRAddress::C1CON, |w: u32| with_flag(w, 20, true)),
            (SFRAddress::C1TXQCON, |w: u32| txq_word(w, c)),
        ],
    }
}

/// The FIFO control word for `cfg`: depth, payload size, then the
/// direction and its settings.
pub open spec fn fifo_word(w: u32, cfg: FifoConfiguration) -> u32 {
    let sized = with_field(with_field(w, 24, 5, fsize_field_for(cfg.fifo_size)), 29, 3, cfg.payload_size.spec_value() as u32);
    match cfg.mode {
        FifoMode::Transmit(tx) => with_flag(
            with_flag(
                with_flag(
                    with_flag(
                        with_flag(
                            with_field(with_field(with_flag(sized, 7, true), 16, 5, tx.priority as u32), 21, 2, tx.retransmission_attempts.spec_value() as u32),
                            6,
                            tx.enable_auto_rtr,
                        ),
                        4,
                        tx.enable_transmit_attempts_exhausted_interrupt,
                    ),
                    2,
                    tx.enable_fifo_empty_interrupt,
                ),
                1,
                tx.enable_fifo_half_empty_interrupt,
            ),
            0,
            tx.enable_fifo_not_full_interrupt,
        ),
        FifoMode::Receive(rx) => with_flag(
            with_flag(
                with_flag(
                    with_flag(with_flag(with_flag(sized, 7, false), 5, rx.enable_message_timestamps), 3, rx.enable_fifo_overflow_interrupt),
                    2,
                    rx.enable_fifo_full_interrupt,
                ),
                1,
                rx.enable_fifo_half_full_interrupt,
            ),
            0,
            rx.enable_fifo_not_empty_interrupt,
        ),
    }
}

/// Reading register `a`, writing back `f` of its word, then, when both
/// transfers succeeded, what `rest` says of the remaining transactions.
pub open spec fn modify_then(
    t: Seq<BusOp>,
    a: SFRAddress,
    f: spec_fn(u32) -> u32,
    rest: spec_fn(Seq<BusOp>, Result<(), Error>) -> bool,
    r: Result<(), Error>,
) -> bool {
    read_at(t, 0, a) && match read_result(t[0]) {
        None => t.len() == 1 && r == Err::<(), Error>(Error::SPIRead),
        Some(v) => t.len() >= 2 && t[1] == sfr_write(a, f(v), write_ok(t[1])) && if !write_ok(t[1]) {
            t.len() == 2 && r == Err::<(), Error>(Error::SPIWrite)
        } else {
            rest(t.subrange(2, t.len() as int), r)
        },
    }
}

/// The standard part and the 18-bit extension of an identifier as filter
/// and mask registers hold them: the extension is zero for a standard one.
pub open spec fn id_parts(id: CanId) -> (u32, u32) {
    match id {
        CanId::Standard(raw) => (raw as u32, 0),
        CanId::Extended(raw) => (raw >> 18, raw & 0x3FFFF),
    }
}

/// The filter object word: identifier bits, and EXIDE for extended-only.
pub open spec fn filter_object_word(w: u32, cfg: FilterConfiguration) -> u32 {
    with_flag(
        with_field(with_field(w, 0, 11, id_parts(cfg.filter_bits).0), 11, 18, id_parts(cfg.filter_bits).1),
        30,
        cfg.mode == FilterMatchMode::ExtendedOnly,
    )
}

/// The mask word: mask bits, and MIDE unless both formats match.
pub open spec fn mask_word(w: u32, cfg: FilterConfiguration) -> u32 {
    with_flag(
        with_field(with_field(w, 0, 11, id_parts(cfg.mask_bits).0), 11, 18, id_parts(cfg.mask_bits).1),
        30,
        cfg.mode != FilterMatchMode::Both,
    )
}

/// A read-modify-write given by `modify_spec`, then `rest`, is `modify_then`.
pub proof fn lemma_modify_then_intro(
    t: Seq<BusOp>,
    k: int,
    a: SFRAddress,
    f: spec_fn(u32) -> u32,
    rest: spec_fn(Seq<BusOp>, Result<(), Error>) -> bool,
    step: Result<(), Error>,
    r: Result<(), Error>,
)
    requires
        0 <= k <= t.len(),
        modify_spec(t.subrange(0, k), a, f, step),
        step is Err ==> k == t.len() && r == step,
        step is Ok ==> rest(t.subrange(k, t.len() as int), r),
    ensures
        modify_then(t, a, f, rest, r),
{
    let u = t.subrange(0, k);
    assert(t[0] == u[0]);
    if u.len() == 2 {
        assert(t[1] == u[1]);
    }
}

/// The parts of a valid identifier fit the 11-bit and 18-bit fields.
pub proof fn lemma_filter_id_fits(id: CanId)
    requires
        id.wf(),
    ensures
        id is Extended ==> (id->Extended_0 >> 18) <= 0x7FF,
{
    if let CanId::Extended(raw) = id {
        assert((raw >> 18) <= 0x7FF) by (bit_vector)
            requires
                raw <= 0x1FFF_FFFF,
        ;
    }
}

/// Configuring filter `n`: disable it in its control register; then, with a
/// configuration, write object and mask, and set its FIFO and enable it.
pub open spec fn filter_spec(t: Seq<BusOp>, n: FilterNumber, cfg: Option<FilterConfiguration>, r: Result<(), Error>) -> bool {
    let c = FilterControlRegister::spec_address_for(
        FilterNumber::spec_control_number(n),
    );
    let bit = (8 * (n.spec_value() % 4) + 7) as u32;
    let lo = (8 * (n.spec_value() % 4)) as u32;
    modify_then(
        t,
        c,
        |w: u32| with_flag(w, bit, false),
        |t1: Seq<BusOp>, r1: Result<(), Error>|
            match cfg {
                None => t1.len() == 0 && r1 is Ok,
                Some(fc) => modify_then(
                    t1,
                    FilterObjectRegister::spec_address_for(n),
                    |w: u32| filter_object_word(w, fc),
                    |t2: Seq<BusOp>, r2: Result<(), Error>|
                        modify_then(
                            t2,
                            MaskRegister::spec_address_for(n),
                            |w: u32| mask_word(w, fc),
                            |t3: Seq<BusOp>, r3: Result<(), Error>|
                                modify_then(
                                    t3,
                                    c,
                                    |w: u32| with_flag(with_field(w, lo, 5, fc.buffer_pointer.spec_value() as u32), bit, true),
                                    |t4: Seq<BusOp>, r4: Result<(), Error>| t4.len() == 0 && r4 is Ok,
                                    r3,
                                ),
                            r2,
                        ),
                    r1,
                ),
            },
        r,
    )
}

/// The echo test from bit `i` on: the word with bit `i` set is written to
/// the first RAM word and read back; a failed transfer ends the test as a
/// configuration-mode timeout, a mismatch as `SPIFailedRAMEcho`.
pub open spec fn echo_spec(t: Seq<BusOp>, i: u32, r: Result<(), ConfigError>) -> bool
    decreases 32 - i,
{
    if i >= 32 {
        t.len() == 0 && r is Ok
    } else {
        t.len() >= 1 && t[0] == write_op(RAM_BASE_ADDRESS as u16, le_bytes(1u32 << i), write_ok(t[0])) && if !write_ok(t[0]) {
            t.len() == 1 && r == Err::<(), ConfigError>(ConfigError::ConfigurationModeTimeout)
        } else {
            ram_read_at(t, 1, RAM_BASE_ADDRESS as u16, 4) && match ram_data(t[1]) {
                None => t.len() == 2 && r == Err::<(), ConfigError>(ConfigError::ConfigurationModeTimeout),
                Some(b) => if le_word_at(b, 0) != (1u32 << i) {
                    t.len() == 2 && r == Err::<(), ConfigError>(ConfigError::SPIFailedRAMEcho)
                } else {
                    echo_spec(t.subrange(2, t.len() as int), (i + 1) as u32, r)
                },
            }
        }
    }
}

/// The 128-byte pattern of the long echo test: the words with bit 0 to bit
/// 31 set, least significant byte first.
pub open spec fn echo_pattern() -> Seq<u8> {
    Seq::new(128, |j: int| le_bytes(1u32 << ((j / 4) as u32))[j % 4])
}

/// The long echo test: the whole pattern written at the RAM base in one
/// transfer, read back in one, and compared.
pub open spec fn long_echo_spec(t: Seq<BusOp>, r: Result<(), ConfigError>) -> bool {
    t.len() >= 1 && t[0] == write_op(RAM_BASE_ADDRESS as u16, echo_pattern(), write_ok(t[0])) && if !write_ok(t[0]) {
        t.len() == 1 && r == Err::<(), ConfigError>(ConfigError::ConfigurationModeTimeout)
    } else {
        t.len() == 2 && ram_read_at(t, 1, RAM_BASE_ADDRESS as u16, 128) && match ram_data(t[1]) {
            None => r == Err::<(), ConfigError>(ConfigError::ConfigurationModeTimeout),
            Some(b) => if b == echo_pattern() {
                r is Ok
            } else {
                r == Err::<(), ConfigError>(ConfigError::SPIFailedRAMEcho)
            },
        }
    }
}

/// A chain that succeeded followed by another chain is the chain of both.
pub proof fn lemma_chain_concat(
    t1: Seq<BusOp>,
    s1: Seq<(SFRAddress, spec_fn(u32) -> u32)>,
    r1: Result<(), ConfigError>,
    t2: Seq<BusOp>,
    s2: Seq<(SFRAddress, spec_fn(u32) -> u32)>,
    r: Result<(), ConfigError>,
)
    requires
        r1 is Ok,
        modify_chain(t1, s1, r1),
        modify_chain(t2, s2, r),
    ensures
        modify_chain(t1 + t2, s1 + s2, r),
    decreases s1.len(),
{
    if s1.len() == 0 {
        assert(t1 + t2 =~= t2);
        assert(s1 + s2 =~= s2);
    } else {
        let rest = t1.subrange(2, t1.len() as int);
        lemma_chain_concat(rest, s1.drop_first(), r1, t2, s2, r);
        assert((t1 + t2).subrange(2, (t1 + t2).len() as int) =~= rest + t2);
        assert((s1 + s2).drop_first() =~= s1.drop_first() + s2);
        assert((t1 + t2)[0] == t1[0]);
        assert((t1 + t2)[1] == t1[1]);
        assert((s1 + s2)[0] == s1[0]);
    }
}

/// The interrupt enable word: receive and transmit always, and the error,
/// SPI CRC, ECC and time base interrupts as `s` asks.
pub open spec fn int_word(w: u32, s: Settings) -> u32 {
    let a = with_flag(with_flag(w, 17, true), 16, true);
    let b = if s.enable_can_error_interrupts {
        with_flag(with_flag(with_flag(a, 31, true), 29, true), 28, true)
    } else {
        a
    };
    let c = if s.enable_spi_error_interrupt { with_flag(b, 25, true) } else { b };
    let d = if s.enable_ecc_error_interrupt { with_flag(c, 24, true) } else { c };
    if s.enable_time_based_counter { with_flag(d, 18, true) } else { d }
}

/// The last steps of the sequence: time base counter, filter data bit
/// count, retransmission attempts, interrupts.
pub open spec fn tail_steps(s: Settings) -> Seq<(SFRAddress, spec_fn(u32) -> u32)> {
    (if s.enable_time_based_counter {
        seq![(SFRAddress::C1TSCON, |w: u32| with_flag(w, 16, true))]
    } else {
        Seq::empty()
    }) + (match s.data_bits_to_match {
        Some(d) => seq![(SFRAddress::C1CON, |w: u32| with_field(w, 0, 5, d.spec_value() as u32))],
        None => Seq::empty(),
    }) + seq![(SFRAddress::C1CON, |w: u32| with_flag(w, 16, true)), (SFRAddress::C1INT, |w: u32| int_word(w, s))]
}

/// Every read-modify-write of the sequence after the oscillator, in order.
pub open spec fn config_steps(s: Settings) -> Seq<(SFRAddress, spec_fn(u32) -> u32)> {
    io_steps(s.io_configuration) + bit_timing_steps(s.bit_time_configuration) + tef_steps(s.tx_event_fifo) + txq_steps(
        s.tx_queue,
    ) + tail_steps(s)
}

/// Forcing configuration mode; any failure is reported as a
/// configuration-mode timeout.
pub open spec fn mode_phase(t: Seq<BusOp>, r: Result<(), ConfigError>) -> bool {
    exists|r0: Result<(), ConfigError>|
        #[trigger] set_op_mode_spec(t, OperationMode::Configuration, r0) && (r0 is Ok ==> r is Ok) && (r0 is Err
            ==> r == Err::<(), ConfigError>(ConfigError::ConfigurationModeTimeout))
}

/// The configuration sequence: configuration mode, the echo test, the
/// oscillator, then the read-modify-writes of `config_steps`; the first
/// failure ends it.
pub open spec fn configure_spec(t: Seq<BusOp>, settings: Settings, r: Result<(), ConfigError>) -> bool {
    then_spec(
        t,
        |u: Seq<BusOp>, q: Result<(), ConfigError>| mode_phase(u, q),
        |u: Seq<BusOp>, q: Result<(), ConfigError>|
            then_spec(
                u,
                |u2: Seq<BusOp>, q2: Result<(), ConfigError>| echo_spec(u2, 0, q2),
                |u2: Seq<BusOp>, q2: Result<(), ConfigError>|
                    then_spec(
                        u2,
                        |u3: Seq<BusOp>, q3: Result<(), ConfigError>| osc_spec(u3, settings.oscillator, q3),
                        |u3: Seq<BusOp>, q3: Result<(), ConfigError>| modify_chain(u3, config_steps(settings), q3),
                        q2,
                    ),
                q,
            ),
        r,
    )
}

/// The phases of the configuration sequence, split at `k1`, `k2` and `k3`,
/// give `configure_spec`.
pub proof fn lemma_configure_compose(
    t: Seq<BusOp>,
    settings: Settings,
    k1: int,
    m1: Result<(), ConfigError>,
    k2: int,
    m2: Result<(), ConfigError>,
    k3: int,
    m3: Result<(), ConfigError>,
    r: Result<(), ConfigError>,
)
    requires
        0 <= k1 <= k2 <= k3 <= t.len(),
        mode_phase(t.subrange(0, k1), m1),
        m1 is Err ==> k1 == t.len() && r == m1,
        m1 is Ok ==> echo_spec(t.subrange(k1, k2), 0, m2),
        m1 is Ok && m2 is Err ==> k2 == t.len() && r == m2,
        m1 is Ok && m2 is Ok ==> osc_spec(t.subrange(k2, k3), settings.oscillator, m3),
        m1 is Ok && m2 is Ok && m3 is Err ==> k3 == t.len() && r == m3,
        m1 is Ok && m2 is Ok && m3 is Ok ==> modify_chain(t.subrange(k3, t.len() as int), config_steps(settings), r),
    ensures
        configure_spec(t, settings, r),
{
    let p3 = |u3: Seq<BusOp>, q3: Result<(), ConfigError>| osc_spec(u3, settings.oscillator, q3);
    let p4 = |u3: Seq<BusOp>, q3: Result<(), ConfigError>| modify_chain(u3, config_steps(settings), q3);
    let p2 = |u2: Seq<BusOp>, q2: Result<(), ConfigError>| echo_spec(u2, 0, q2);
    let c3 = |u2: Seq<BusOp>, q2: Result<(), ConfigError>| then_spec(u2, p3, p4, q2);
    let p1 = |u: Seq<BusOp>, q: Result<(), ConfigError>| mode_phase(u, q);
    let c2 = |u: Seq<BusOp>, q: Result<(), ConfigError>| then_spec(u, p2, c3, q);
    if m1 is Ok {
        let u = t.subrange(k1, t.len() as int);
        assert(u.subrange(0, k2 - k1) =~= t.subrange(k1, k2));
        if m2 is Ok {
            let u2 = t.subrange(k2, t.len() as int);
            assert(u.subrange(k2 - k1, u.len() as int) =~= u2);
            assert(u2.subrange(0, k3 - k2) =~= t.subrange(k2, k3));
            assert(u2.subrange(k3 - k2, u2.len() as int) =~= t.subrange(k3, t.len() as int));
            lemma_then_intro(u2, p3, p4, k3 - k2, m3, r);
        } else {
            assert(u.subrange(k2 - k1, u.len() as int) =~= Seq::<BusOp>::empty());
        }
        lemma_then_intro(u, p2, c3, k2 - k1, m2, r);
    }
    lemma_then_intro(t, p1, c2, k1, m1, r);
}

/// Only reads: no transaction of `t` writes.
pub open spec fn only_reads(t: Seq<BusOp>) -> bool {
    forall|k: int| 0 <= k < t.len() ==> (#[trigger] t[k]) is Read
}

/// A push refused for a disabled queue, a FIFO that is not a transmit FIFO,
/// a payload above the payload size or a full queue writes nothing: not the
/// RAM, not the pointer.
pub proof fn lemma_refused_push_writes_nothing(
    t: Seq<BusOp>,
    n: FifoNumber,
    msg: TxMessage,
    r: Result<(), Error>,
)
    requires
        tx_queue_push_spec(t, msg, r) || tx_fifo_push_spec(t, n, msg, r),
        r == Err::<(), Error>(Error::TxQueueDisabled) || r == Err::<(), Error>(Error::FifoNotTx) || r == Err::<
            (),
            Error,
        >(Error::FifoTooSmall) || r == Err::<(), Error>(Error::FifoFull),
    ensures
        only_reads(t),
        t.len() <= 3,
{
    assert forall|k: int| 0 <= k < t.len() implies (#[trigger] t[k]) is Read by {
        if k == 0 {
        } else if k == 1 {
        } else {
        }
    }
}

/// Peeking reads only: the pointer is never advanced, so peeking again at
/// unchanged hardware reads the same object. Two peeks that saw the same
/// answers return the same frame.
pub proof fn lemma_rx_peek_reads_only(t: Seq<BusOp>, n: FifoNumber, r1: Result<Option<RxMessage>, Error>, r2: Result<
    Option<RxMessage>,
    Error,
>)
    requires
        rx_peek_spec(t, n, r1),
        rx_peek_spec(t, n, r2),
    ensures
        only_reads(t),
        r1 is Ok <==> r2 is Ok,
        r1 is Err ==> r1 == r2,
        r1 matches Ok(None) ==> r2 == r1,
        r1 matches Ok(Some(m1)) ==> r2 matches Ok(Some(m2)) && m1.spec_header() == m2.spec_header()
            && m1.spec_timestamp() == m2.spec_timestamp() && m1.spec_data() == m2.spec_data(),
{
    assert forall|k: int| 0 <= k < t.len() implies (#[trigger] t[k]) is Read by {
        if k == 0 {
        } else if k == 1 {
        } else if k == 2 {
        } else if k == 3 {
        } else if k == 4 {
        } else if k == 5 {
        } else {
        }
    }
}

/// Peeking at the transmit event FIFO reads only, and two peeks that saw
/// the same answers return the same object.
pub proof fn lemma_tef_peek_reads_only(t: Seq<BusOp>, r1: Result<Option<TxEventObject>, Error>, r2: Result<
    Option<TxEventObject>,
    Error,
>)
    requires
        tef_peek_spec(t, r1),
        tef_peek_spec(t, r2),
    ensures
        only_reads(t),
        r1 == r2,
{
    assert forall|k: int| 0 <= k < t.len() implies (#[trigger] t[k]) is Read by {
        if k == 0 {
        } else if k == 1 {
        } else if k == 2 {
        } else {
        }
    }
}

/// Popping a frame that was read issues exactly one write, last: the
/// control register written back with the increment bit set.
pub proof fn lemma_rx_pop_increments_once(t: Seq<BusOp>, n: FifoNumber, r: Result<Option<RxMessage>, Error>)
    requires
        pop_spec(
            t,
            FifoControlRegister::spec_address_for(n),
            |u: Seq<BusOp>, p: Result<Option<RxMessage>, Error>| rx_peek_spec(u, n, p),
            r,
        ),
        r matches Ok(Some(_)),
    ensures
        t.len() >= 2,
        only_reads(t.drop_last()),
        read_at(t, t.len() - 2, FifoControlRegister::spec_address_for(n)),
        read_result(t[t.len() - 2]) matches Some(v) && t.last() == sfr_write(
            FifoControlRegister::spec_address_for(n),
            with_flag(v, 8, true),
            true,
        ),
{
    let peek = |u: Seq<BusOp>, p: Result<Option<RxMessage>, Error>| rx_peek_spec(u, n, p);
    let (i, peeked) = choose|i: int, peeked: Result<Option<RxMessage>, Error>|
        0 <= i <= t.len() && #[trigger] peek(t.subrange(0, i), peeked) && match peeked {
            Ok(Some(x)) => exists|w: Result<(), Error>|
                #[trigger] increment_spec(t.subrange(i, t.len() as int), FifoControlRegister::spec_address_for(n), w)
                    && match w {
                    Ok(()) => r == Ok::<Option<RxMessage>, Error>(Some(x)),
                    Err(e) => r == Err::<Option<RxMessage>, Error>(e),
                },
            _ => i == t.len() && r == peeked,
        };
    let u = t.subrange(0, i);
    lemma_rx_peek_reads_only(u, n, peeked, peeked);
    match peeked {
        Ok(Some(x)) => {
            let w = choose|w: Result<(), Error>|
                #[trigger] increment_spec(t.subrange(i, t.len() as int), FifoControlRegister::spec_address_for(n), w)
                    && match w {
                    Ok(()) => r == Ok::<Option<RxMessage>, Error>(Some(x)),
                    Err(e) => r == Err::<Option<RxMessage>, Error>(e),
                };
            let v = t.subrange(i, t.len() as int);
            assert(v[0] == t[i]);
            assert(v[1] == t[i + 1]);
            assert(t.len() == i + 2);
            assert forall|k: int| 0 <= k < t.drop_last().len() implies (#[trigger] t.drop_last()[k]) is Read by {
                if k < i {
                    assert(t.drop_last()[k] == u[k]);
                }
            }
        },
        _ => {
            assert(false);
        },
    }
}

/// Polling whose reads all succeed without `done` ever holding ends in
/// `timeout`.
pub proof fn lemma_poll_never_done(
    t: Seq<BusOp>,
    a: SFRAddress,
    done: spec_fn(u32) -> bool,
    attempts: nat,
    timeout: ConfigError,
    r: Result<(), ConfigError>,
)
    requires
        poll_spec(t, a, done, attempts, timeout, r),
        forall|k: int| 0 <= k < t.len() && (#[trigger] t[k]) is Read ==> (read_result(t[k]) matches Some(v) && !done(v)),
    ensures
        r == Err::<(), ConfigError>(timeout),
    decreases attempts,
{
    assert(t[0] is Read);
    if attempts > 1 {
        let rest = t.subrange(2, t.len() as int);
        assert forall|k: int| 0 <= k < rest.len() && (#[trigger] rest[k]) is Read implies (read_result(rest[k]) matches Some(v)
            && !done(v)) by {
            assert(rest[k] == t[k + 2]);
        }
        lemma_poll_never_done(rest, a, done, (attempts - 1) as nat, timeout, r);
    }
}

/// A mode change that the controller never acknowledges, over a transport
/// that never fails, ends in `ChangeOpModeTimeout` rather than a transfer
/// error.
pub proof fn lemma_unacknowledged_mode_change_times_out(t: Seq<BusOp>, mode: OperationMode, r: Result<(), ConfigError>)
    requires
        set_op_mode_spec(t, mode, r),
        forall|k: int|
            0 <= k < t.len() && (#[trigger] t[k]) is Read ==> (read_result(t[k]) matches Some(v) && reported_mode(v)
                != mode),
        forall|k: int| 0 <= k < t.len() && (#[trigger] t[k]) is Write ==> write_ok(t[k]),
    ensures
        r == Err::<(), ConfigError>(ConfigError::ChangeOpModeTimeout),
{
    let request = |u: Seq<BusOp>, q: Result<(), ConfigError>|
        modify_chain(u, seq![(SFRAddress::C1CON, |w: u32| with_field(w, 24, 3, mode.spec_value() as u32))], q);
    let poll = |u: Seq<BusOp>, q: Result<(), ConfigError>|
        poll_spec(u, SFRAddress::C1CON, |w: u32| reported_mode(w) == mode, 5, ConfigError::ChangeOpModeTimeout, q);
    let (i, r1) = choose|i: int, r1: Result<(), ConfigError>|
        0 <= i <= t.len() && #[trigger] request(t.subrange(0, i), r1) && match r1 {
            Err(e) => i == t.len() && r == Err::<(), ConfigError>(e),
            Ok(()) => poll(t.subrange(i, t.len() as int), r),
        };
    let u = t.subrange(0, i);
    assert(u[0] == t[0]);
    assert(t[0] is Read);
    reveal_with_fuel(modify_chain, 2);
    if u.len() >= 2 {
        assert(u[1] == t[1]);
        assert(t[1] is Write);
    }
    assert(r1 is Ok);
    let rest = t.subrange(i, t.len() as int);
    assert forall|k: int| 0 <= k < rest.len() && (#[trigger] rest[k]) is Read implies (read_result(rest[k]) matches Some(v)
        && !((|w: u32| reported_mode(w) == mode)(v))) by {
        assert(rest[k] == t[k + i]);
    }
    lemma_poll_never_done(rest, SFRAddress::C1CON, |w: u32| reported_mode(w) == mode, 5, ConfigError::ChangeOpModeTimeout, r);
}

} // verus!
