use smpp_codec::common::Npi;
use smpp_codec::common::Ton;
use smpp_codec::data_sm::decode_data_sm;
use smpp_codec::data_sm::decode_data_sm_response;
use smpp_codec::data_sm::encode_data_sm;
use smpp_codec::data_sm::encode_data_sm_response;
use smpp_codec::data_sm::DataSm;
use smpp_codec::data_sm::DataSmResponse;
use smpp_codec::delivery::decode_deliver_sm;
use smpp_codec::delivery::decode_delivery_sm_response;
use smpp_codec::delivery::encode_deliver_sm;
use smpp_codec::delivery::encode_delivery_sm_response;
use smpp_codec::delivery::DeliverSmRequest;
use smpp_codec::delivery::DeliverSmResponse;
use smpp_codec::receipt::encode_delivery_receipt;
use smpp_codec::receipt::DeliveryReceipt;
use smpp_codec::tlv::tlv_new_u8;

#[test]
fn test_deliver_sm_encoding_decoding() {
    let request = DeliverSmRequest {
        sequence_number: 54321,
        service_type: "CMT".to_string(),
        source_addr_ton: Ton::International,
        source_addr_npi: Npi::Isdn,
        source_addr: "1234567890".to_string(),
        dest_addr_ton: Ton::National,
        dest_addr_npi: Npi::Isdn,
        dest_addr: "0987654321".to_string(),
        esm_class: 0,
        protocol_id: 0,
        priority_flag: 0,
        schedule_delivery_time: None,
        validity_period: None,
        registered_delivery: 1,
        replace_if_present_flag: 0,
        data_coding: 0,
        sm_default_msg_id: 0,
        short_message: b"Delivery Message".to_vec(),
        optional_params: vec![],
    };

    let encoded = encode_deliver_sm(&request);
    let decoded = decode_deliver_sm(&encoded).expect("Failed to decode DeliverSmRequest");

    assert_eq!(request, decoded);
}

#[test]
fn test_data_sm_encoding_decoding() {
    let tlv = tlv_new_u8(0x0424, 1); // Message Payload type or similar
    let request = DataSm {
        sequence_number: 99999,
        service_type: "DATA".to_string(),
        source_addr_ton: Ton::Alphanumeric,
        source_addr_npi: Npi::Unknown,
        source_addr: "DataSrc".to_string(),
        dest_addr_ton: Ton::Alphanumeric,
        dest_addr_npi: Npi::Unknown,
        dest_addr: "DataDest".to_string(),
        esm_class: 0,
        registered_delivery: 0,
        data_coding: 0,
        optional_params: vec![tlv],
    };

    let encoded = encode_data_sm(&request);
    let decoded = decode_data_sm(&encoded).expect("Failed to decode DataSm");

    assert_eq!(request, decoded);
}

#[test]
fn test_delivery_receipt_encoding() {
    let receipt = DeliveryReceipt {
        message_id: "msg123".to_string(),
        submitted_count: 1,
        delivered_count: 1,
        submit_date: "2206121200".to_string(),
        done_date: "2206121201".to_string(),
        status: "DELIVRD".to_string(),
        error_code: 0,
        text: "id:msg123 sub:001 dlvrd:001 submit date:2206121200 done date:2206121201 stat:DELIVRD err:000 text:".to_string(),
    };

    // The receipt has no decoder; it renders to the receipt text's bytes.
    let encoded = encode_delivery_receipt(&receipt);
    let string_receipt = String::from_utf8(encoded).expect("Failed to convert receipt to string");

    assert!(string_receipt.contains("id:msg123"));
    assert!(string_receipt.contains("stat:DELIVRD"));
}

#[test]
fn test_deliver_sm_response() {
    let response = DeliverSmResponse {
        sequence_number: 12345,
        command_status: 0,
        message_id: "".to_string(),
        status_description: "ESME_ROK".to_string(),
    };

    let encoded = encode_delivery_sm_response(&response);
    let decoded =
        decode_delivery_sm_response(&encoded).expect("Failed to decode DeliverSmResponse");

    assert_eq!(response, decoded);
}

#[test]
fn test_data_sm_response() {
    let response = DataSmResponse {
        sequence_number: 9876,
        command_status: 0,
        message_id: "data_resp".to_string(),
        status_description: "ESME_ROK".to_string(),
        optional_params: vec![],
    };

    let encoded = encode_data_sm_response(&response);
    let decoded = decode_data_sm_response(&encoded).expect("Failed to decode DataSmResponse");

    assert_eq!(response, decoded);
}

#[test]
fn test_delivery_receipt_exact_text() {
    let receipt = DeliveryReceipt {
        message_id: "ab12".to_string(),
        submitted_count: 3,
        delivered_count: 12,
        submit_date: "2401010930".to_string(),
        done_date: "2401010931".to_string(),
        status: "EXPIRED".to_string(),
        error_code: 1042,
        text: "short text".to_string(),
    };
    let encoded = encode_delivery_receipt(&receipt);
    let s = String::from_utf8(encoded).unwrap();
    assert_eq!(
        s,
        "id:ab12 sub:003 dlvrd:012 submit date:2401010930 done date:2401010931 \
         stat:EXPIRED err:1042 text:short text"
    );
}

#[test]
fn test_deliver_sm_optional_fields_roundtrip() {
    let request = DeliverSmRequest {
        sequence_number: 2,
        service_type: "".to_string(),
        source_addr_ton: Ton::Unknown,
        source_addr_npi: Npi::Unknown,
        source_addr: "".to_string(),
        dest_addr_ton: Ton::Unknown,
        dest_addr_npi: Npi::Unknown,
        dest_addr: "".to_string(),
        esm_class: 4,
        protocol_id: 0,
        priority_flag: 0,
        schedule_delivery_time: Some("220612123000000+".to_string()),
        validity_period: None,
        registered_delivery: 0,
        replace_if_present_flag: 0,
        data_coding: 0,
        sm_default_msg_id: 0,
        short_message: vec![],
        optional_params: vec![tlv_new_u8(0x0427, 2)],
    };
    let encoded = encode_deliver_sm(&request);
    let decoded = decode_deliver_sm(&encoded).unwrap();
    assert_eq!(request, decoded);
}

#[test]
fn test_data_sm_truncation_rejected() {
    let request = DataSm {
        sequence_number: 5,
        service_type: "".to_string(),
        source_addr_ton: Ton::Unknown,
        source_addr_npi: Npi::Unknown,
        source_addr: "a".to_string(),
        dest_addr_ton: Ton::Unknown,
        dest_addr_npi: Npi::Unknown,
        dest_addr: "b".to_string(),
        esm_class: 0,
        registered_delivery: 0,
        data_coding: 0,
        optional_params: vec![tlv_new_u8(0x0424, 9)],
    };
    let encoded = encode_data_sm(&request);
    for cut in 0..encoded.len() {
        assert!(decode_data_sm(&encoded[..cut]).is_err());
    }
}
