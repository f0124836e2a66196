use peak_can::frame::{
    calc_dlc, dlc_len, CanFdFrame, CanFrame, FrameConstructionError, MessageType, MESSAGE_BRS,
    MESSAGE_EXTENDED, MESSAGE_FD, MESSAGE_STANDARD,
};

#[test]
fn can_frame_new_001() {
    let can_frame_1 =
        CanFrame::new(0x20, MessageType::Standard, &[0, 1, 2, 3, 4, 5, 6, 7]).unwrap();

    let can_frame_2 =
        CanFrame::new(0x20, MessageType::Standard, &[0, 1, 2, 3, 4, 5, 6, 7]).unwrap();

    assert_eq!(can_frame_1, can_frame_2);
}

#[test]
fn can_frame_new_002() {
    let can_frame_1 =
        CanFrame::new(0x20, MessageType::Extended, &[0, 1, 2, 3, 4, 5, 6, 7]).unwrap();

    let can_frame_2 =
        CanFrame::new(0x20, MessageType::Extended, &[0, 1, 2, 3, 4, 5, 6, 7]).unwrap();

    assert_eq!(can_frame_1, can_frame_2);
}

#[test]
#[should_panic]
fn can_frame_new_003() {
    let _can_frame_1 =
        CanFrame::new(0x20, MessageType::Standard, &[0, 1, 2, 3, 4, 5, 6, 7, 8]).unwrap();
}

#[test]
#[should_panic]
fn can_frame_new_004() {
    let _can_frame_1 =
        CanFrame::new(0x20, MessageType::Extended, &[0, 1, 2, 3, 4, 5, 6, 7, 8]).unwrap();
}

#[test]
fn can_frame_new_005() {
    let extended_id = 0x1E_C5_7E_D0;
    // the extended identifier masked to 11 bits
    let standard_id = 0x06_D0;

    let can_frame_1 = CanFrame::new(extended_id, MessageType::Standard, &[0, 1, 2]).unwrap();
    assert_eq!(can_frame_1.can_id(), standard_id);

    let can_frame_2 = CanFrame::new(extended_id, MessageType::Extended, &[0, 1, 2]).unwrap();
    assert_eq!(can_frame_2.can_id(), extended_id);
}

#[test]
fn can_frame_new_006() {
    let can_frame_1 = CanFrame::new(0x01_23, MessageType::Standard, &[0, 1, 2]).unwrap();
    assert!(can_frame_1.is_standard_frame());

    let can_frame_2 = CanFrame::new(0x1f_ff_00_ff, MessageType::Extended, &[0, 1, 2]).unwrap();
    assert!(can_frame_2.is_extended_frame());
}

#[test]
fn can_fd_frame_new_001() {
    let can_frame_1 =
        CanFdFrame::new(0x20, MessageType::Standard, &(0..64u8).collect::<Vec<_>>()).unwrap();

    let can_frame_2 =
        CanFdFrame::new(0x20, MessageType::Standard, &(0..64u8).collect::<Vec<_>>()).unwrap();

    assert_eq!(can_frame_1, can_frame_2);
}

#[test]
fn can_fd_frame_new_002() {
    let can_frame_1 =
        CanFdFrame::new(0x20, MessageType::Extended, &(0..64u8).collect::<Vec<_>>()).unwrap();

    let can_frame_2 =
        CanFdFrame::new(0x20, MessageType::Extended, &(0..64u8).collect::<Vec<_>>()).unwrap();

    assert_eq!(can_frame_1, can_frame_2);
}

#[test]
#[should_panic]
fn can_fd_frame_new_003() {
    let _can_frame_1 =
        CanFdFrame::new(0x20, MessageType::Standard, &(0..65u8).collect::<Vec<_>>()).unwrap();
}

#[test]
#[should_panic]
fn can_fd_frame_new_004() {
    let _can_frame_1 =
        CanFrame::new(0x20, MessageType::Extended, &(0..65u8).collect::<Vec<_>>()).unwrap();
}

#[test]
fn can_fd_frame_new_005() {
    let extended_id = 0x1E_C5_7E_D0;
    // the extended identifier masked to 11 bits
    let standard_id = 0x06_D0;

    let can_frame_1 = CanFdFrame::new(
        extended_id,
        MessageType::Standard,
        &(0..64u8).collect::<Vec<_>>(),
    )
    .unwrap();
    assert_eq!(can_frame_1.can_id(), standard_id);

    let can_frame_2 = CanFdFrame::new(
        extended_id,
        MessageType::Extended,
        &(0..64u8).collect::<Vec<_>>(),
    )
    .unwrap();

    assert_eq!(can_frame_2.can_id(), extended_id);
}

#[test]
fn identifier_is_masked_by_mode() {
    let ids = [0u32, 0x7FF, 0x800, 0x1FFF_FFFF, 0x2000_0000, 0xFFFF_FFFF, 0x1234_5678];
    for id in ids {
        let s = CanFrame::new(id, MessageType::Standard, &[]).unwrap();
        assert_eq!(s.can_id(), id & 0x7FF);
        let e = CanFrame::new(id, MessageType::Extended, &[]).unwrap();
        assert_eq!(e.can_id(), id & 0x1FFF_FFFF);
        let fs = CanFdFrame::new_with_flags(id, MessageType::Standard, &[1], true, true).unwrap();
        assert_eq!(fs.can_id(), id & 0x7FF);
        let fe = CanFdFrame::new_with_flags(id, MessageType::Extended, &[1], true, false).unwrap();
        assert_eq!(fe.can_id(), id & 0x1FFF_FFFF);
    }
}

#[test]
fn classic_data_is_exactly_the_payload() {
    for n in 0..=8usize {
        let data: Vec<u8> = (0..n as u8).map(|x| x + 100).collect();
        let f = CanFrame::new(0x55, MessageType::Standard, &data).unwrap();
        assert_eq!(f.data(), &data[..]);
        assert_eq!(f.dlc() as usize, n);
    }
}

#[test]
fn too_much_data_is_refused() {
    assert_eq!(
        CanFrame::new(1, MessageType::Standard, &[0u8; 9]).unwrap_err(),
        FrameConstructionError::TooMuchData
    );
    assert_eq!(
        CanFdFrame::new(1, MessageType::Extended, &[0u8; 65]).unwrap_err(),
        FrameConstructionError::TooMuchData
    );
    assert!(CanFrame::new(1, MessageType::Standard, &[0u8; 8]).is_ok());
    assert!(CanFdFrame::new(1, MessageType::Standard, &[0u8; 64]).is_ok());
}

#[test]
fn dlc_round_trip_on_representable_lengths() {
    for len in [0usize, 1, 2, 3, 4, 5, 6, 7, 8, 12, 16, 20, 24, 32, 48, 64] {
        assert_eq!(dlc_len(calc_dlc(len)), len);
    }
    for dlc in 0..=15u8 {
        assert_eq!(calc_dlc(dlc_len(dlc)), dlc);
    }
}

#[test]
fn dlc_rounds_up_inside_gaps() {
    assert_eq!(calc_dlc(10), 9);
    assert_eq!(dlc_len(9), 12);
    assert_eq!(calc_dlc(9), 9);
    assert_eq!(calc_dlc(13), 10);
    assert_eq!(calc_dlc(30), 13);
    assert_eq!(calc_dlc(40), 14);
    assert_eq!(calc_dlc(49), 15);
    assert_eq!(dlc_len(15), 64);
}

#[test]
fn fd_frame_grows_to_next_length_with_zeros() {
    let data: Vec<u8> = (1..=10u8).collect();
    let f = CanFdFrame::new(0x10, MessageType::Standard, &data).unwrap();
    assert_eq!(f.dlc(), 9);
    assert_eq!(f.len(), 12);
    assert_eq!(f.data(), &[1, 2, 3, 4, 5, 6, 7, 8, 9, 10, 0, 0]);
}

#[test]
fn fd_flags_are_combined() {
    let f = CanFdFrame::new_with_flags(0x10, MessageType::Extended, &[1, 2], true, true).unwrap();
    assert_eq!(f.msg_type(), MESSAGE_EXTENDED | MESSAGE_FD | MESSAGE_BRS);
    assert!(f.is_extended_frame());
    assert!(!f.is_standard_frame());
    let g = CanFdFrame::new(0x10, MessageType::Standard, &[1, 2]).unwrap();
    assert_eq!(g.msg_type(), MESSAGE_STANDARD);
    assert!(g.is_standard_frame());
}

#[test]
fn equality_ignores_bytes_past_the_length() {
    let built = CanFrame::new(0x42, MessageType::Standard, &[1, 2, 3]).unwrap();
    let padded = CanFrame::from_parts(0x42, MESSAGE_STANDARD, 3, [1, 2, 3, 9, 9, 9, 9, 9]).unwrap();
    assert_eq!(built, padded);
    let other = CanFrame::from_parts(0x42, MESSAGE_STANDARD, 4, [1, 2, 3, 9, 9, 9, 9, 9]).unwrap();
    assert_ne!(built, other);
    let mut buf = [7u8; 64];
    buf[0] = 5;
    let fd_built = CanFdFrame::new(0x42, MessageType::Standard, &[5]).unwrap();
    let fd_padded = CanFdFrame::from_parts(0x42, MESSAGE_STANDARD, 1, buf).unwrap();
    assert_eq!(fd_built, fd_padded);
}

#[test]
fn from_parts_refuses_bad_lengths() {
    assert!(CanFrame::from_parts(1, 0, 9, [0; 8]).is_none());
    assert!(CanFdFrame::from_parts(1, 0, 16, [0; 64]).is_none());
}

#[test]
fn mut_data_writes_in_place() {
    let mut f = CanFrame::new(1, MessageType::Standard, &[1, 2, 3]).unwrap();
    f.mut_data()[1] = 20;
    assert_eq!(f.data(), &[1, 20, 3]);
    assert_eq!(f.mut_data().len(), 3);
    let mut g = CanFdFrame::new(1, MessageType::Standard, &[1; 10]).unwrap();
    assert_eq!(g.mut_data().len(), 12);
    g.mut_data()[11] = 4;
    assert_eq!(g.data()[11], 4);
}

#[test]
fn default_frames_are_empty() {
    let f = CanFrame::default();
    assert_eq!(f.dlc(), 0);
    assert_eq!(f.can_id(), 0);
    assert!(f.is_standard_frame());
    let g = CanFdFrame::default();
    assert_eq!(g.len(), 0);
}

#[test]
fn mut_data_keeps_identifier_and_length() {
    let mut f = CanFrame::new(0x123, MessageType::Extended, &[0, 0]).unwrap();
    let w = [9u8, 8];
    f.mut_data().copy_from_slice(&w);
    assert_eq!(f.data(), &w);
    assert_eq!(f.dlc(), 2);
    assert_eq!(f.can_id(), 0x123);
    assert!(f.is_extended_frame());
}
