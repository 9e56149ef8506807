use smpp_codec::broadcast::decode_broadcast_sm_request;
use smpp_codec::broadcast::decode_broadcast_sm_response;
use smpp_codec::broadcast::encode_broadcast_sm_request;
use smpp_codec::broadcast::encode_broadcast_sm_response;
use smpp_codec::broadcast::BroadcastSmRequest;
use smpp_codec::broadcast::BroadcastSmResponse;
use smpp_codec::common::Npi;
use smpp_codec::common::Ton;
use smpp_codec::tlv::tlv_new_u16;
use smpp_codec::tlv::Tags;

#[test]
fn test_broadcast_sm() {
    let req = BroadcastSmRequest {
        sequence_number: 100,
        service_type: "CMT".to_string(),
        source_addr_ton: Ton::International,
        source_addr_npi: Npi::Isdn,
        source_addr: "12345".to_string(),
        message_id: "msg_bcast".to_string(),
        priority_flag: 1,
        schedule_delivery_time: None,
        validity_period: None,
        replace_if_present_flag: 0,
        data_coding: 0,
        sm_default_msg_id: 0,
        optional_params: vec![],
    };

    let encoded = encode_broadcast_sm_request(&req);
    let decoded =
        decode_broadcast_sm_request(&encoded).expect("Failed to decode BroadcastSmRequest");
    assert_eq!(req, decoded);

    let resp = BroadcastSmResponse {
        sequence_number: 100,
        command_status: 0,
        status_description: "ESME_ROK".to_string(),
        message_id: "msg_bcast".to_string(),
        optional_params: vec![],
    };
    let encoded_resp = encode_broadcast_sm_response(&resp);
    let decoded_resp =
        decode_broadcast_sm_response(&encoded_resp).expect("Failed to decode BroadcastSmResponse");
    println!("Decoded BroadcastSmResponse: {:?}", decoded_resp);
    assert_eq!(resp, decoded_resp);
}

#[test]
fn test_broadcast_sm_with_params_roundtrip() {
    let req = BroadcastSmRequest {
        sequence_number: 101,
        service_type: "".to_string(),
        source_addr_ton: Ton::Unknown,
        source_addr_npi: Npi::Unknown,
        source_addr: "".to_string(),
        message_id: "b2".to_string(),
        priority_flag: 0,
        schedule_delivery_time: Some("220612123000000+".to_string()),
        validity_period: Some("220613123000000+".to_string()),
        replace_if_present_flag: 1,
        data_coding: 8,
        sm_default_msg_id: 0,
        optional_params: vec![
            tlv_new_u16(Tags::BROADCAST_REP_NUM, 3),
            tlv_new_u16(Tags::SMS_SIGNAL, 0x1234),
        ],
    };
    let encoded = encode_broadcast_sm_request(&req);
    let decoded = decode_broadcast_sm_request(&encoded).unwrap();
    assert_eq!(req, decoded);

    for cut in 0..encoded.len() {
        assert!(decode_broadcast_sm_request(&encoded[..cut]).is_err());
    }
}
