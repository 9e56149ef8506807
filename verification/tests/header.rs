use smpp_codec::header::decode_header;
use smpp_codec::header::encode_header;
use smpp_codec::header::Header;
use smpp_codec::session::encode_enquire_link;
use smpp_codec::session::EnquireLink;
use smpp_codec::submission::encode_submit_sm_request;
use smpp_codec::submission::SubmitSmRequest;

#[test]
fn test_header_roundtrip() {
    let h = Header {
        command_length: 16,
        command_id: 0x00000015,
        command_status: 0,
        sequence_number: 0xDEADBEEF,
    };
    let encoded = encode_header(&h);
    assert_eq!(
        encoded,
        vec![0, 0, 0, 16, 0, 0, 0, 0x15, 0, 0, 0, 0, 0xDE, 0xAD, 0xBE, 0xEF]
    );
    let decoded = decode_header(&encoded).unwrap();
    assert_eq!(decoded, h);
}

#[test]
fn test_header_truncated() {
    let h = Header {
        command_length: 16,
        command_id: 0x00000006,
        command_status: 0,
        sequence_number: 1,
    };
    let encoded = encode_header(&h);
    for cut in 0..16 {
        assert!(decode_header(&encoded[..cut]).is_err());
    }
}

#[test]
fn test_declared_length_matches_buffer() {
    // For any successfully encoded PDU the declared total length is the
    // 16 header bytes plus the body length, which is the buffer length.
    let enq = encode_enquire_link(&EnquireLink { sequence_number: 3 });
    let h = decode_header(&enq).unwrap();
    assert_eq!(h.command_length as usize, enq.len());

    let sub = encode_submit_sm_request(&SubmitSmRequest {
        sequence_number: 4,
        service_type: "CMT".to_string(),
        source_addr_ton: smpp_codec::common::Ton::Unknown,
        source_addr_npi: smpp_codec::common::Npi::Unknown,
        source_addr: "a".to_string(),
        dest_addr_ton: smpp_codec::common::Ton::Unknown,
        dest_addr_npi: smpp_codec::common::Npi::Unknown,
        destination_addr: "b".to_string(),
        esm_class: 0,
        protocol_id: 0,
        priority_flag: 0,
        schedule_delivery_time: None,
        validity_period: None,
        registered_delivery: 0,
        replace_if_present_flag: 0,
        data_coding: 0,
        sm_default_msg_id: 0,
        short_message: vec![9, 8, 7],
        tlvs: vec![],
    });
    let h2 = decode_header(&sub).unwrap();
    assert_eq!(h2.command_length as usize, sub.len());
}
