use peak_can::bus::{DngBus, IsaBus, LanBus, PccBus, PciBus, UsbBus};
use peak_can::df::{acceptance_filter, decode_acceptance_filter, FILTER_CLOSE, FILTER_CUSTOM, FILTER_OPEN};
use peak_can::error::{check_status, CanError, CanOkError, ERROR_ANYBUSERR, ERROR_OK};
use peak_can::frame::{MESSAGE_BRS, MESSAGE_EXTENDED, MESSAGE_FD, MESSAGE_RTR, MESSAGE_STANDARD};
use peak_can::hw::{decode_channel_condition, ChannelConditionStatus, ChannelInformation};
use peak_can::info::{decode_bitrate_info, decode_version, FEATURE_DELAY_CAPABLE, FEATURE_FD_CAPABLE, FEATURE_IO_CAPABLE};
use peak_can::io::{decode_pin_mode, decode_pin_value, pin_bit, set_pin_bit, IOConfig, IOValue};
use peak_can::param::{
    decode_equals, decode_flag, decode_on_off, decode_text, decode_u32, encode_on_off, trim_nul,
    u16_from_le, u32_from_le, u32_to_le, PARAMETER_OFF, PARAMETER_ON,
};
use peak_can::socket::{Baudrate, CanSocket, UsbCanSocket};
use peak_can::trace::{decode_trace_configuration, TraceFile};

const ALL_ERRORS: [CanError; 26] = [
    CanError::XmtFull,
    CanError::Overrun,
    CanError::BusLight,
    CanError::BusHeavy,
    CanError::BusPassive,
    CanError::BusOff,
    CanError::AnyBusErr,
    CanError::QrcvEmpty,
    CanError::QOverrun,
    CanError::QxmtFull,
    CanError::RegTest,
    CanError::NoDriver,
    CanError::HwInUse,
    CanError::NetInUse,
    CanError::IllHw,
    CanError::IllNet,
    CanError::IllClient,
    CanError::Resource,
    CanError::IllParamType,
    CanError::IllParamVal,
    CanError::Unknown,
    CanError::IllData,
    CanError::IllMode,
    CanError::Caution,
    CanError::Initialize,
    CanError::IllOperation,
];

#[test]
fn error_codes_match_the_driver() {
    assert_eq!(ERROR_OK, peak_can_sys::PEAK_ERROR_OK);
    assert_eq!(CanError::XmtFull.code(), peak_can_sys::PEAK_ERROR_XMTFULL);
    assert_eq!(CanError::Overrun.code(), peak_can_sys::PEAK_ERROR_OVERRUN);
    assert_eq!(CanError::BusLight.code(), peak_can_sys::PEAK_ERROR_BUSLIGHT);
    assert_eq!(CanError::BusHeavy.code(), peak_can_sys::PEAK_ERROR_BUSHEAVY);
    assert_eq!(CanError::BusPassive.code(), peak_can_sys::PEAK_ERROR_BUSPASSIVE);
    assert_eq!(CanError::BusOff.code(), peak_can_sys::PEAK_ERROR_BUSOFF);
    assert_eq!(CanError::AnyBusErr.code(), peak_can_sys::PEAK_ERROR_ANYBUSERR);
    assert_eq!(CanError::QrcvEmpty.code(), peak_can_sys::PEAK_ERROR_QRCVEMPTY);
    assert_eq!(CanError::QOverrun.code(), peak_can_sys::PEAK_ERROR_QOVERRUN);
    assert_eq!(CanError::QxmtFull.code(), peak_can_sys::PEAK_ERROR_QXMTFULL);
    assert_eq!(CanError::RegTest.code(), peak_can_sys::PEAK_ERROR_REGTEST);
    assert_eq!(CanError::NoDriver.code(), peak_can_sys::PEAK_ERROR_NODRIVER);
    assert_eq!(CanError::HwInUse.code(), peak_can_sys::PEAK_ERROR_HWINUSE);
    assert_eq!(CanError::NetInUse.code(), peak_can_sys::PEAK_ERROR_NETINUSE);
    assert_eq!(CanError::IllHw.code(), peak_can_sys::PEAK_ERROR_ILLHW);
    assert_eq!(CanError::IllNet.code(), peak_can_sys::PEAK_ERROR_ILLNET);
    assert_eq!(CanError::IllClient.code(), peak_can_sys::PEAK_ERROR_ILLCLIENT);
    assert_eq!(CanError::Resource.code(), peak_can_sys::PEAK_ERROR_RESOURCE);
    assert_eq!(CanError::IllParamType.code(), peak_can_sys::PEAK_ERROR_ILLPARAMTYPE);
    assert_eq!(CanError::IllParamVal.code(), peak_can_sys::PEAK_ERROR_ILLPARAMVAL);
    assert_eq!(CanError::Unknown.code(), peak_can_sys::PEAK_ERROR_UNKNOWN);
    assert_eq!(CanError::IllData.code(), peak_can_sys::PEAK_ERROR_ILLDATA);
    assert_eq!(CanError::IllMode.code(), peak_can_sys::PEAK_ERROR_ILLMODE);
    assert_eq!(CanError::Caution.code(), peak_can_sys::PEAK_ERROR_CAUTION);
    assert_eq!(CanError::Initialize.code(), peak_can_sys::PEAK_ERROR_INITIALIZE);
    assert_eq!(CanError::IllOperation.code(), peak_can_sys::PEAK_ERROR_ILLOPERATION);
    let any = peak_can_sys::PEAK_ERROR_BUSWARNING
        | peak_can_sys::PEAK_ERROR_BUSLIGHT
        | peak_can_sys::PEAK_ERROR_BUSHEAVY
        | peak_can_sys::PEAK_ERROR_BUSOFF
        | peak_can_sys::PEAK_ERROR_BUSPASSIVE;
    assert_eq!(ERROR_ANYBUSERR, any);
}

#[test]
fn error_codes_round_trip() {
    for e in ALL_ERRORS {
        assert_eq!(CanError::from_code(e.code()), Some(e));
        assert_eq!(CanOkError::from_code(e.code()), Some(CanOkError::Failure(e)));
        assert_eq!(CanOkError::Failure(e).code(), e.code());
        assert_eq!(check_status(e.code()), Err(e));
    }
    assert_eq!(CanOkError::from_code(0), Some(CanOkError::Success));
    assert_eq!(CanOkError::Success.code(), 0);
    assert_eq!(CanError::from_code(0), None);
    assert_eq!(CanError::from_code(3), None);
    assert_eq!(CanOkError::from_code(3), None);
    assert_eq!(check_status(0), Ok(()));
    assert_eq!(check_status(3), Err(CanError::Unknown));
}

#[test]
fn frame_flags_match_the_driver() {
    assert_eq!(MESSAGE_STANDARD as u32, peak_can_sys::PEAK_MESSAGE_STANDARD);
    assert_eq!(MESSAGE_RTR as u32, peak_can_sys::PEAK_MESSAGE_RTR);
    assert_eq!(MESSAGE_EXTENDED as u32, peak_can_sys::PEAK_MESSAGE_EXTENDED);
    assert_eq!(MESSAGE_FD as u32, peak_can_sys::PEAK_MESSAGE_FD);
    assert_eq!(MESSAGE_BRS as u32, peak_can_sys::PEAK_MESSAGE_BRS);
}

#[test]
fn bus_handles_match_the_driver() {
    let usb = [
        (UsbBus::USB1, peak_can_sys::PEAK_USBBUS1),
        (UsbBus::USB2, peak_can_sys::PEAK_USBBUS2),
        (UsbBus::USB3, peak_can_sys::PEAK_USBBUS3),
        (UsbBus::USB4, peak_can_sys::PEAK_USBBUS4),
        (UsbBus::USB5, peak_can_sys::PEAK_USBBUS5),
        (UsbBus::USB6, peak_can_sys::PEAK_USBBUS6),
        (UsbBus::USB7, peak_can_sys::PEAK_USBBUS7),
        (UsbBus::USB8, peak_can_sys::PEAK_USBBUS8),
        (UsbBus::USB9, peak_can_sys::PEAK_USBBUS9),
        (UsbBus::USB10, peak_can_sys::PEAK_USBBUS10),
        (UsbBus::USB11, peak_can_sys::PEAK_USBBUS11),
        (UsbBus::USB12, peak_can_sys::PEAK_USBBUS12),
        (UsbBus::USB13, peak_can_sys::PEAK_USBBUS13),
        (UsbBus::USB14, peak_can_sys::PEAK_USBBUS14),
        (UsbBus::USB15, peak_can_sys::PEAK_USBBUS15),
        (UsbBus::USB16, peak_can_sys::PEAK_USBBUS16),
    ];
    for (b, h) in usb {
        assert_eq!(b.handle() as u32, h);
        assert_eq!(UsbBus::from_handle(h as u16), Some(b));
    }
    let pci = [
        (PciBus::PCI1, peak_can_sys::PEAK_PCIBUS1),
        (PciBus::PCI8, peak_can_sys::PEAK_PCIBUS8),
        (PciBus::PCI9, peak_can_sys::PEAK_PCIBUS9),
        (PciBus::PCI16, peak_can_sys::PEAK_PCIBUS16),
    ];
    for (b, h) in pci {
        assert_eq!(b.handle() as u32, h);
        assert_eq!(PciBus::from_handle(h as u16), Some(b));
    }
    let lan = [
        (LanBus::LAN1, peak_can_sys::PEAK_LANBUS1),
        (LanBus::LAN9, peak_can_sys::PEAK_LANBUS9),
        (LanBus::LAN16, peak_can_sys::PEAK_LANBUS16),
    ];
    for (b, h) in lan {
        assert_eq!(b.handle() as u32, h);
        assert_eq!(LanBus::from_handle(h as u16), Some(b));
    }
    assert_eq!(IsaBus::ISA1.handle() as u32, peak_can_sys::PEAK_ISABUS1);
    assert_eq!(IsaBus::ISA8.handle() as u32, peak_can_sys::PEAK_ISABUS8);
    assert_eq!(PccBus::PCC1.handle() as u32, peak_can_sys::PEAK_PCCBUS1);
    assert_eq!(PccBus::PCC2.handle() as u32, peak_can_sys::PEAK_PCCBUS2);
    assert_eq!(DngBus::DNG1.handle() as u32, peak_can_sys::PEAK_DNGBUS1);
    assert_eq!(UsbBus::from_handle(0), None);
    assert_eq!(IsaBus::from_handle(peak_can_sys::PEAK_USBBUS1 as u16), None);
}

#[test]
fn baudrates_match_the_driver() {
    let bauds = [
        (Baudrate::Baud1M, peak_can_sys::PEAK_BAUD_1M),
        (Baudrate::Baud800K, peak_can_sys::PEAK_BAUD_800K),
        (Baudrate::Baud500K, peak_can_sys::PEAK_BAUD_500K),
        (Baudrate::Baud250K, peak_can_sys::PEAK_BAUD_250K),
        (Baudrate::Baud125K, peak_can_sys::PEAK_BAUD_125K),
        (Baudrate::Baud100K, peak_can_sys::PEAK_BAUD_100K),
        (Baudrate::Baud95K, peak_can_sys::PEAK_BAUD_95K),
        (Baudrate::Baud83K, peak_can_sys::PEAK_BAUD_83K),
        (Baudrate::Baud50K, peak_can_sys::PEAK_BAUD_50K),
        (Baudrate::Baud47K, peak_can_sys::PEAK_BAUD_47K),
        (Baudrate::Baud33K, peak_can_sys::PEAK_BAUD_33K),
        (Baudrate::Baud20K, peak_can_sys::PEAK_BAUD_20K),
        (Baudrate::Baud10K, peak_can_sys::PEAK_BAUD_10K),
        (Baudrate::Baud5K, peak_can_sys::PEAK_BAUD_5K),
    ];
    for (b, c) in bauds {
        assert_eq!(b.code() as u32, c);
    }
}

#[test]
fn parameter_values_match_the_driver() {
    assert_eq!(PARAMETER_ON, peak_can_sys::PEAK_PARAMETER_ON);
    assert_eq!(PARAMETER_OFF, peak_can_sys::PEAK_PARAMETER_OFF);
    assert_eq!(FILTER_OPEN, peak_can_sys::PEAK_FILTER_OPEN);
    assert_eq!(FILTER_CLOSE, peak_can_sys::PEAK_FILTER_CLOSE);
    assert_eq!(FILTER_CUSTOM, peak_can_sys::PEAK_FILTER_CUSTOM);
    assert_eq!(FEATURE_FD_CAPABLE, peak_can_sys::FEATURE_FD_CAPABLE);
    assert_eq!(FEATURE_DELAY_CAPABLE, peak_can_sys::FEATURE_DELAY_CAPABLE);
    assert_eq!(FEATURE_IO_CAPABLE, peak_can_sys::FEATURE_IO_CAPABLE);
    assert_eq!(ChannelConditionStatus::Unavailable.code(), peak_can_sys::PEAK_CHANNEL_UNAVAILABLE);
    assert_eq!(ChannelConditionStatus::Available.code(), peak_can_sys::PEAK_CHANNEL_AVAILABLE);
    assert_eq!(ChannelConditionStatus::Occupied.code(), peak_can_sys::PEAK_CHANNEL_OCCUPIED);
    assert_eq!(ChannelConditionStatus::CanView.code(), peak_can_sys::PEAK_CHANNEL_PEAKVIEW);
    assert_eq!(TraceFile::Single.code(), peak_can_sys::TRACE_FILE_SINGLE);
    assert_eq!(TraceFile::Segmented.code(), peak_can_sys::TRACE_FILE_SEGMENTED);
    assert_eq!(TraceFile::Date.code(), peak_can_sys::TRACE_FILE_DATE);
    assert_eq!(TraceFile::Time.code(), peak_can_sys::TRACE_FILE_TIME);
    assert_eq!(TraceFile::Overwrite.code(), peak_can_sys::TRACE_FILE_OVERWRITE);
}

#[test]
fn little_endian_buffers() {
    assert_eq!(u32_from_le([0x78, 0x56, 0x34, 0x12]), 0x1234_5678);
    assert_eq!(u32_to_le(0x1234_5678), [0x78, 0x56, 0x34, 0x12]);
    assert_eq!(u32_to_le(0xDEAD_BEEF), 0xDEAD_BEEFu32.to_le_bytes());
    assert_eq!(u16_from_le(0x34, 0x12), 0x1234);
    assert_eq!(encode_on_off(true), [1, 0, 0, 0]);
    assert_eq!(encode_on_off(false), [0, 0, 0, 0]);
}

#[test]
fn get_answers_are_decoded() {
    let busoff = CanError::BusOff.code();
    assert_eq!(decode_u32(0, [1, 2, 0, 0]), Ok(0x0201));
    assert_eq!(decode_u32(busoff, [1, 2, 0, 0]), Err(CanError::BusOff));
    assert_eq!(decode_on_off(0, [1, 0, 0, 0]), Ok(true));
    assert_eq!(decode_on_off(0, [0, 0, 0, 0]), Ok(false));
    assert_eq!(decode_on_off(0, [2, 0, 0, 0]), Err(CanError::Unknown));
    assert_eq!(decode_on_off(3, [1, 0, 0, 0]), Err(CanError::Unknown));
    assert_eq!(decode_flag(0, [5, 0, 0, 0], FEATURE_IO_CAPABLE), Ok(true));
    assert_eq!(decode_flag(0, [5, 0, 0, 0], FEATURE_DELAY_CAPABLE), Ok(false));
    assert_eq!(decode_equals(0, [1, 0, 0, 0], FILTER_OPEN), Ok(true));
    assert_eq!(decode_equals(0, [2, 0, 0, 0], FILTER_OPEN), Ok(false));
    assert_eq!(decode_channel_condition(0, [2, 0, 0, 0]), Ok(ChannelConditionStatus::Occupied));
    assert_eq!(decode_channel_condition(0, [9, 0, 0, 0]), Err(CanError::Unknown));
    assert_eq!(decode_trace_configuration(0, [0x80, 0, 0, 0]), Ok(TraceFile::Overwrite));
    assert_eq!(decode_trace_configuration(0, [3, 0, 0, 0]), Err(CanError::Unknown));
    assert_eq!(decode_bitrate_info(0, [0x14, 0x00, 0x1C, 0x00]), Ok((0x14, 0x1C)));
    assert_eq!(decode_pin_mode(0, [0b100, 0, 0, 0], 2), Ok(IOConfig::InOut));
    assert_eq!(decode_pin_mode(0, [0b100, 0, 0, 0], 1), Ok(IOConfig::In));
    assert_eq!(decode_pin_value(0, [0, 0, 0, 0x80], 31), Ok(IOValue::High));
    assert_eq!(decode_pin_value(busoff, [0, 0, 0, 0x80], 31), Err(CanError::BusOff));
}

#[test]
fn pins_and_io_codes() {
    assert!(pin_bit(0b1000, 3));
    assert!(!pin_bit(0b1000, 2));
    assert_eq!(set_pin_bit(0b1000, 0, true), 0b1001);
    assert_eq!(set_pin_bit(0b1001, 3, false), 0b0001);
    assert_eq!(set_pin_bit(0xFFFF_FFFF, 31, false), 0x7FFF_FFFF);
    assert_eq!(IOConfig::from_code(1), Some(IOConfig::InOut));
    assert_eq!(IOConfig::from_code(2), None);
    assert_eq!(IOValue::High.code(), 1);
    assert_eq!(IOValue::from_code(0), Some(IOValue::Low));
}

#[test]
fn acceptance_filters() {
    let buf = acceptance_filter(&[0x100, 0x101, 0x103], 0x7FF);
    let mask = 0x100 ^ 0x101 ^ 0x103;
    let code = 0x100 & 0x101 & 0x103;
    assert_eq!(&buf[0..4], &u32_to_le(mask));
    assert_eq!(&buf[4..8], &u32_to_le(code));
    let empty = acceptance_filter(&[], 0x7FF);
    assert_eq!(empty, [0, 0, 0, 0, 0xFF, 0xFF, 0xFF, 0xFF]);
    let masked = acceptance_filter(&[0xFFFF_FFFF], 0x1FFF_FFFF);
    assert_eq!(masked, [0xFF, 0xFF, 0xFF, 0x1F, 0xFF, 0xFF, 0xFF, 0x1F]);
    assert_eq!(decode_acceptance_filter(0, buf), Ok((mask, code)));
}

#[test]
fn text_parameters_lose_their_padding() {
    assert_eq!(trim_nul(&[0, 0, b'a', 0, b'b', 0, 0]), vec![b'a', 0, b'b']);
    assert_eq!(trim_nul(&[0, 0, 0]), Vec::<u8>::new());
    assert_eq!(trim_nul(&[]), Vec::<u8>::new());
    assert_eq!(decode_text(0, b"PCAN-USB\0\0\0"), Ok(b"PCAN-USB".to_vec()));
    assert_eq!(decode_text(CanError::IllHw.code(), b"x"), Err(CanError::IllHw));
}

#[test]
fn device_name_is_trimmed() {
    let mut info = ChannelInformation::new();
    assert_eq!(info.device_name(), "");
    let name = b"PCAN-USB FD";
    info.device_name[..name.len()].copy_from_slice(name);
    assert_eq!(info.device_name(), "PCAN-USB FD");
    info.device_name[20] = 0xE9;
    assert_eq!(info.device_name(), format!("PCAN-USB FD{}{}", "\0".repeat(9), '\u{e9}'));
}

#[test]
fn sockets_open_on_success_only() {
    let s = UsbCanSocket::opened(UsbBus::USB2, 0).unwrap();
    assert_eq!(s.handle(), UsbBus::USB2.handle());
    assert_eq!(UsbCanSocket::opened(UsbBus::USB2, CanError::HwInUse.code()), Err(CanError::HwInUse));
    assert_eq!(CanSocket::opened(0x51, 7), Err(CanError::Unknown));
    assert_eq!(CanSocket::opened(0x51, 0).unwrap().handle(), 0x51);
    assert_eq!(UsbCanSocket::open_with_usb_bus(UsbBus::USB16).handle(), 0x510);
}

#[test]
fn version_text_has_three_lines() {
    let mut data = b"PCAN driver 4.2\r\n2024\nPEAK-System, Darmstadt".to_vec();
    data.resize(64, 0);
    let (a, b, c) = decode_version(0, &data).unwrap();
    assert_eq!(a, b"PCAN driver 4.2".to_vec());
    assert_eq!(b, b"2024".to_vec());
    assert_eq!(c, b"PEAK-System, Darmstadt".to_vec());
    let ended = b"one\ntwo\nthree\n".to_vec();
    assert_eq!(
        decode_version(0, &ended),
        Ok((b"one".to_vec(), b"two".to_vec(), b"three".to_vec()))
    );
    assert_eq!(decode_version(0, b"one\ntwo"), Err(CanError::Unknown));
    assert_eq!(decode_version(0, b"a\nb\nc\nd"), Err(CanError::Unknown));
    assert_eq!(decode_version(CanError::IllClient.code(), b"a\nb\nc"), Err(CanError::IllClient));
}
