use mcp2518fd::message::rx::{RxHeader, RxMessage};
use mcp2518fd::message::tx::{CanId, TxMessage};
use mcp2518fd::message::{dlc_for_len, len_for_dlc};

#[test]
fn small_lengths_are_their_own_code_in_both_formats() {
    for l in 0..=8usize {
        let fd = dlc_for_len(l, true).unwrap();
        assert_eq!(fd as usize, l);
        assert_eq!(len_for_dlc(fd, true), Some(l));
        let classic = dlc_for_len(l, false).unwrap();
        assert_eq!(classic as usize, l);
        assert_eq!(len_for_dlc(classic, false), Some(l));
    }
}

#[test]
fn fd_lengths_round_trip_through_their_code() {
    let table = [(12usize, 9u8), (16, 10), (20, 11), (24, 12), (32, 13), (48, 14), (64, 15)];
    for (len, dlc) in table {
        assert_eq!(dlc_for_len(len, true), Some(dlc));
        assert_eq!(len_for_dlc(dlc, true), Some(len));
    }
}

#[test]
fn fd_lengths_outside_the_table_have_no_code() {
    for len in [9usize, 10, 11, 13, 33, 63, 65, 100] {
        assert_eq!(dlc_for_len(len, true), None);
    }
}

#[test]
fn classic_lengths_above_eight_have_no_code() {
    for len in 9..=63usize {
        assert_eq!(dlc_for_len(len, false), None);
    }
}

#[test]
fn classic_codes_above_eight_denote_eight_bytes() {
    for dlc in 9..=15u8 {
        assert_eq!(len_for_dlc(dlc, false), Some(8));
    }
}

#[test]
fn codes_above_fifteen_denote_nothing() {
    assert_eq!(len_for_dlc(16, true), None);
    assert_eq!(len_for_dlc(16, false), None);
    assert_eq!(len_for_dlc(255, true), None);
}

#[test]
fn standard_frame_header_holds_id_and_code() {
    let data = [1u8, 2, 3, 4, 5];
    let msg = TxMessage::new_2_0(CanId::Standard(0x123), &data).unwrap();
    assert_eq!(msg.header().sid(), 0x123);
    assert_eq!(msg.header().eid(), 0);
    assert!(!msg.header().ide());
    assert_eq!(msg.header().dlc(), 5);
    assert!(!msg.header().fdf());
    assert!(!msg.header().rtr());
    assert_eq!(msg.data(), &data[..]);
    assert_eq!(msg.header().0, [0x123, 5]);
    assert_eq!(msg.id(), CanId::Standard(0x123));
}

#[test]
fn extended_frame_header_splits_the_id() {
    let raw = 0x1ABC_DEF1u32;
    let msg = TxMessage::new_fd(CanId::Extended(raw), &[0u8; 12]).unwrap();
    assert_eq!(msg.header().sid() as u32, raw >> 18);
    assert_eq!(msg.header().eid(), raw & 0x3FFFF);
    assert!(msg.header().ide());
    assert!(msg.header().fdf());
    assert_eq!(msg.header().dlc(), 9);
    assert_eq!(msg.id(), CanId::Extended(raw));
    assert_eq!(msg.header().raw_id(), raw);
}

#[test]
fn frames_with_unrepresentable_lengths_are_refused() {
    assert!(TxMessage::new_2_0(CanId::Standard(1), &[0u8; 9]).is_none());
    assert!(TxMessage::new_fd(CanId::Standard(1), &[0u8; 13]).is_none());
    assert!(TxMessage::new_fd(CanId::Standard(1), &[0u8; 64]).is_some());
    assert!(TxMessage::new_fd(CanId::Standard(1), &[0u8; 65]).is_none());
}

#[test]
fn remote_frames_carry_the_requested_length() {
    let msg = TxMessage::new_remote(CanId::Standard(0x7FF), 3).unwrap();
    assert!(msg.header().rtr());
    assert_eq!(msg.header().dlc(), 3);
    assert_eq!(msg.data(), &[0u8, 0, 0][..]);
    assert!(TxMessage::new_remote(CanId::Standard(0x7FF), 9).is_none());
}

#[test]
fn builders_set_flags_and_sequence_number() {
    let msg = TxMessage::new_fd(CanId::Standard(5), &[9u8; 8])
        .unwrap()
        .with_bit_rate_switched(true)
        .with_error_status_indicator(true)
        .with_sequence_number(0x12_3456);
    assert!(msg.header().brs());
    assert!(msg.header().esi());
    assert_eq!(msg.header().seq(), 0x12_3456);
    assert_eq!(msg.header().dlc(), 8);
    let cut = TxMessage::new_fd(CanId::Standard(5), &[]).unwrap().with_sequence_number(0xFFFF_FFFF);
    assert_eq!(cut.header().seq(), 0x7F_FFFF);
    assert_eq!(cut.header().dlc(), 0);
}

#[test]
fn transmit_object_bytes_are_little_endian_header_then_payload() {
    let msg = TxMessage::new_2_0(CanId::Standard(0x123), &[0xAA, 0xBB, 0xCC]).unwrap();
    let (len, bytes) = msg.as_bytes();
    assert_eq!(len, 11);
    assert_eq!(bytes.len(), 72);
    assert_eq!(&bytes[0..4], &[0x23, 0x01, 0, 0]);
    assert_eq!(&bytes[4..8], &[3, 0, 0, 0]);
    assert_eq!(&bytes[8..11], &[0xAA, 0xBB, 0xCC]);
    assert!(bytes[11..].iter().all(|b| *b == 0));
}

#[test]
fn can_id_constructors_check_the_width() {
    assert_eq!(CanId::new_standard(0x7FF), Some(CanId::Standard(0x7FF)));
    assert_eq!(CanId::new_standard(0x800), None);
    assert_eq!(CanId::new_extended(0x1FFF_FFFF), Some(CanId::Extended(0x1FFF_FFFF)));
    assert_eq!(CanId::new_extended(0x2000_0000), None);
}

#[test]
fn received_frame_payload_follows_the_code() {
    let header = RxHeader([0x55, 0x80 | 9]);
    let data: Vec<u8> = (0..12u8).collect();
    let msg = RxMessage::new(header, Some(77), &data).unwrap();
    assert!(msg.is_fd());
    assert_eq!(msg.timestamp(), Some(77));
    assert_eq!(msg.data(), &data[..]);
    assert_eq!(msg.header().sid(), 0x55);

    let short = RxMessage::new(RxHeader([0, 4]), None, &[1, 2]).unwrap();
    assert_eq!(short.data(), &[1, 2, 0, 0][..]);
    assert!(!short.is_fd());

    assert!(RxMessage::new(header, None, &[0u8; 65]).is_none());
}

#[test]
fn received_header_reports_the_filter_hit() {
    let header = RxHeader([0, 17 << 11]);
    assert_eq!(header.filter_hit().value(), 17);
}
