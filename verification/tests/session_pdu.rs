use smpp_codec::common::BindMode;
use smpp_codec::common::Npi;
use smpp_codec::common::Ton;
use smpp_codec::session::decode_bind_request;
use smpp_codec::session::decode_bind_response;
use smpp_codec::session::decode_enquire_link;
use smpp_codec::session::decode_enquire_link_response;
use smpp_codec::session::decode_generic_nack;
use smpp_codec::session::decode_outbind;
use smpp_codec::session::decode_unbind;
use smpp_codec::session::decode_unbind_response;
use smpp_codec::session::encode_bind_request;
use smpp_codec::session::encode_bind_response;
use smpp_codec::session::encode_enquire_link;
use smpp_codec::session::encode_enquire_link_response;
use smpp_codec::session::encode_generic_nack;
use smpp_codec::session::encode_outbind;
use smpp_codec::session::encode_unbind;
use smpp_codec::session::encode_unbind_response;
use smpp_codec::session::BindRequest;
use smpp_codec::session::BindResponse;
use smpp_codec::session::EnquireLink;
use smpp_codec::session::EnquireLinkResponse;
use smpp_codec::session::GenericNack;
use smpp_codec::session::Outbind;
use smpp_codec::session::Unbind;
use smpp_codec::session::UnbindResponse;

#[test]
fn test_bind_request() {
    let req = BindRequest {
        sequence_number: 1,
        mode: BindMode::Transceiver,
        system_id: "test".to_string(),
        password: "pass".to_string(),
        system_type: "type".to_string(),
        interface_version: 0x34,
        addr_ton: Ton::International,
        addr_npi: Npi::Isdn,
        address_range: "123".to_string(),
    };

    let encoded = encode_bind_request(&req);
    assert!(!encoded.is_empty());

    let decoded = decode_bind_request(&encoded).expect("Failed to decode BindRequest");
    assert_eq!(decoded.sequence_number, 1);
    assert_eq!(decoded.system_id, "test");
    assert_eq!(decoded.mode, BindMode::Transceiver);
}

#[test]
fn test_enquire_link() {
    let req = EnquireLink { sequence_number: 2 };
    let encoded = encode_enquire_link(&req);
    assert!(!encoded.is_empty());

    let decoded = decode_enquire_link(&encoded).expect("Failed to decode EnquireLink");
    assert_eq!(decoded.sequence_number, 2);
}

#[test]
fn test_outbind() {
    let req = Outbind {
        sequence_number: 3,
        system_id: "sys".to_string(),
    };
    let encoded = encode_outbind(&req);
    assert!(!encoded.is_empty());

    let decoded = decode_outbind(&encoded).expect("Failed to decode Outbind");
    assert_eq!(decoded.sequence_number, 3);
    assert_eq!(decoded.system_id, "sys");
}

#[test]
fn test_unbind() {
    let req = Unbind { sequence_number: 4 };
    let encoded = encode_unbind(&req);
    let decoded = decode_unbind(&encoded).expect("Failed to decode Unbind");
    assert_eq!(decoded.sequence_number, 4);
}

#[test]
fn test_generic_nack() {
    let req = GenericNack {
        sequence_number: 5,
        command_status: 0x00000001, // Invalid Message Length
    };
    let encoded = encode_generic_nack(&req);
    let decoded = decode_generic_nack(&encoded).expect("Failed to decode GenericNack");
    assert_eq!(decoded.sequence_number, 5);
    assert_eq!(decoded.command_status, 0x00000001);
}

#[test]
fn test_bind_response() {
    let resp = BindResponse {
        sequence_number: 6,
        command_status: 0,
        system_id: "server".to_string(),
    };
    let encoded = encode_bind_response(&resp);
    let decoded = decode_bind_response(&encoded).expect("Failed to decode BindResponse");
    assert_eq!(decoded.sequence_number, 6);
    assert_eq!(decoded.system_id, "server");
}

#[test]
fn test_enquire_link_response() {
    let resp = EnquireLinkResponse {
        sequence_number: 7,
        command_status: 0,
    };
    let encoded = encode_enquire_link_response(&resp);
    let decoded =
        decode_enquire_link_response(&encoded).expect("Failed to decode EnquireLinkResponse");
    assert_eq!(decoded.sequence_number, 7);
}

#[test]
fn test_unbind_response() {
    let resp = UnbindResponse {
        sequence_number: 8,
        command_status: 0,
    };
    let encoded = encode_unbind_response(&resp);
    let decoded = decode_unbind_response(&encoded).expect("Failed to decode UnbindResponse");
    assert_eq!(decoded.sequence_number, 8);
}

#[test]
fn test_bind_request_wire_layout() {
    let req = BindRequest {
        sequence_number: 9,
        mode: BindMode::Receiver,
        system_id: "id".to_string(),
        password: "".to_string(),
        system_type: "".to_string(),
        interface_version: 0x34,
        addr_ton: Ton::Unknown,
        addr_npi: Npi::Unknown,
        address_range: "".to_string(),
    };
    let encoded = encode_bind_request(&req);
    // Header: length, bind-receiver identity, zero status, sequence number.
    let expected: Vec<u8> = vec![
        0, 0, 0, 25, // 16 header bytes + 9 body bytes
        0, 0, 0, 1, // bind receiver
        0, 0, 0, 0, // status
        0, 0, 0, 9, // sequence number
        b'i', b'd', 0, // system_id
        0, // password
        0, // system_type
        0x34, // interface_version
        0, 0, // ton, npi
        0, // address_range
    ];
    assert_eq!(encoded, expected);
}

#[test]
fn test_bind_response_accepts_all_bind_identities() {
    let resp = BindResponse {
        sequence_number: 10,
        command_status: 0,
        system_id: "x".to_string(),
    };
    let mut encoded = encode_bind_response(&resp);
    // The encoder writes the transceiver response identity; patch in the
    // receiver and transmitter response identities in turn.
    for last in [0x01u8, 0x02, 0x09] {
        encoded[4] = 0x80;
        encoded[5] = 0;
        encoded[6] = 0;
        encoded[7] = last;
        let decoded = decode_bind_response(&encoded).expect("Failed to decode BindResponse");
        assert_eq!(decoded.system_id, "x");
    }
    // A non-bind identity is refused.
    encoded[7] = 0x04;
    assert!(decode_bind_response(&encoded).is_err());
}

#[test]
fn test_truncated_pdu_rejected() {
    let req = BindRequest {
        sequence_number: 11,
        mode: BindMode::Transmitter,
        system_id: "abc".to_string(),
        password: "pw".to_string(),
        system_type: "t".to_string(),
        interface_version: 0x50,
        addr_ton: Ton::National,
        addr_npi: Npi::National,
        address_range: "99".to_string(),
    };
    let encoded = encode_bind_request(&req);
    for cut in 0..encoded.len() {
        assert!(decode_bind_request(&encoded[..cut]).is_err());
    }
    let enq = encode_enquire_link(&EnquireLink { sequence_number: 1 });
    for cut in 0..enq.len() {
        assert!(decode_enquire_link(&enq[..cut]).is_err());
    }
}

#[test]
fn test_header_length_must_match() {
    let req = Unbind { sequence_number: 12 };
    let mut encoded = encode_unbind(&req);
    // Declare one byte more than the buffer holds.
    encoded[3] = 17;
    assert!(decode_unbind(&encoded).is_err());
}
