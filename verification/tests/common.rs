use smpp_codec::common::get_status_description;
use smpp_codec::common::BindMode;
use smpp_codec::common::MessageState;
use smpp_codec::common::Npi;
use smpp_codec::common::SmppFfiError;
use smpp_codec::common::Ton;
use smpp_codec::common::CMD_BIND_RECEIVER;
use smpp_codec::common::CMD_BIND_RECEIVER_RESP;
use smpp_codec::common::HEADER_LEN;
use smpp_codec::common::SMPP_INTERFACE_VERSION_34;
use smpp_codec::common::SMPP_INTERFACE_VERSION_50;

#[test]
fn test_ton_conversions() {
    let ton_list = vec![
        (Ton::Unknown, 0x00u8),
        (Ton::International, 0x01),
        (Ton::National, 0x02),
        (Ton::NetworkSpecific, 0x03),
        (Ton::SubscriberNumber, 0x04),
        (Ton::Alphanumeric, 0x05),
        (Ton::Abbreviated, 0x06),
    ];

    for (ton, byte) in ton_list {
        assert_eq!(ton.to_byte(), byte);
        assert_eq!(Ton::from_byte(byte), Some(ton));
    }
    assert_eq!(Ton::from_byte(0x07), None);
}

#[test]
fn test_npi_conversions() {
    let npi_list = vec![
        (Npi::Unknown, 0x00u8),
        (Npi::Isdn, 0x01),
        (Npi::Data, 0x03),
        (Npi::Telex, 0x04),
        (Npi::LandMobile, 0x06),
        (Npi::National, 0x08),
        (Npi::Private, 0x09),
        (Npi::Ermes, 0x0A),
        (Npi::Internet, 0x0E),
        (Npi::Wap, 0x12),
    ];

    for (npi, byte) in npi_list {
        assert_eq!(npi.to_byte(), byte);
        assert_eq!(Npi::from_byte(byte), Some(npi));
    }
    assert_eq!(Npi::from_byte(0x02), None);
}

#[test]
fn test_bind_mode_conversions() {
    let mode_list = vec![
        (BindMode::Receiver, 0x00000001u32),
        (BindMode::Transmitter, 0x00000002),
        (BindMode::Transceiver, 0x00000009),
    ];

    for (mode, id) in mode_list {
        assert_eq!(mode.to_command(), id);
        assert_eq!(BindMode::from_command(id), Some(mode));
    }
    assert_eq!(BindMode::from_command(0x00000004), None);
}

#[test]
fn test_message_state_conversions() {
    let state_list = vec![
        (MessageState::Enroute, 1u8),
        (MessageState::Delivered, 2),
        (MessageState::Expired, 3),
        (MessageState::Deleted, 4),
        (MessageState::Undeliverable, 5),
        (MessageState::Accepted, 6),
        (MessageState::Unknown, 7),
        (MessageState::Rejected, 8),
    ];

    for (state, byte) in state_list {
        assert_eq!(state.to_byte(), byte);
        assert_eq!(MessageState::from_byte(byte), Some(state));
    }
    assert_eq!(MessageState::from_byte(0), None);
    assert_eq!(MessageState::from_byte(9), None);
}

#[test]
fn test_error_display() {
    let err = SmppFfiError::Generic {
        msg: "test error".to_string(),
    };
    assert_eq!(err.message(), "test error");
}

#[test]
fn test_constants() {
    assert_eq!(CMD_BIND_RECEIVER, 0x00000001);
    assert_eq!(CMD_BIND_RECEIVER_RESP, 0x80000001);
    assert_eq!(HEADER_LEN, 16);
    assert_eq!(SMPP_INTERFACE_VERSION_34, 0x34);
    assert_eq!(SMPP_INTERFACE_VERSION_50, 0x50);
}

#[test]
fn test_status_descriptions() {
    assert_eq!(get_status_description(0), "ESME_ROK");
    assert_eq!(get_status_description(1), "ESME_RINVMSGLEN");
    assert_eq!(get_status_description(0x0D), "ESME_RBINDFAIL");
    assert_eq!(get_status_description(0xDEAD_BEEF), "UNKNOWN");
}
