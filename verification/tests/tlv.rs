use smpp_codec::tlv::get_tag_by_name;
use smpp_codec::tlv::tlv_decode;
use smpp_codec::tlv::tlv_decode_stream;
use smpp_codec::tlv::tlv_encode;
use smpp_codec::tlv::tlv_new;
use smpp_codec::tlv::tlv_new_from_name;
use smpp_codec::tlv::tlv_new_payload;
use smpp_codec::tlv::tlv_new_string;
use smpp_codec::tlv::tlv_new_u16;
use smpp_codec::tlv::tlv_new_u16_from_name;
use smpp_codec::tlv::tlv_new_u8;
use smpp_codec::tlv::tlv_new_u8_from_name;
use smpp_codec::tlv::tlv_value_as_string;
use smpp_codec::tlv::tlv_value_as_u16;
use smpp_codec::tlv::tlv_value_as_u8;
use smpp_codec::tlv::Tags;
use smpp_codec::tlv::TlvDecodeOutcome;

#[test]
fn test_tlv_new_methods() {
    let tlv_u8 = tlv_new_u8(Tags::SAR_TOTAL_SEGMENTS, 5);
    assert_eq!(tlv_u8.tag, Tags::SAR_TOTAL_SEGMENTS);
    assert_eq!(tlv_u8.length, 1);
    assert_eq!(tlv_u8.value, vec![5]);

    let tlv_u16 = tlv_new_u16(Tags::SAR_MSG_REF_NUM, 1234);
    assert_eq!(tlv_u16.tag, Tags::SAR_MSG_REF_NUM);
    assert_eq!(tlv_u16.length, 2);
    assert_eq!(tlv_u16.value, vec![4, 210]); // 1234 in big endian

    let tlv_string = tlv_new_string(Tags::RECEIPTED_MESSAGE_ID, "msg123".to_string());
    assert_eq!(tlv_string.tag, Tags::RECEIPTED_MESSAGE_ID);
    assert_eq!(tlv_string.value, "msg123\0".as_bytes()); // C-string with null terminator

    let tlv_payload = tlv_new_payload(Tags::MESSAGE_PAYLOAD, vec![1, 2, 3]);
    assert_eq!(tlv_payload.tag, Tags::MESSAGE_PAYLOAD);
    assert_eq!(tlv_payload.value, vec![1, 2, 3]);
}

#[test]
fn test_tlv_from_name() {
    let tlv = tlv_new_u8_from_name("sar_total_segments", 10);
    assert_eq!(tlv.tag, Tags::SAR_TOTAL_SEGMENTS);
    assert_eq!(tlv.value, vec![10]);

    let tlv_u16 = tlv_new_u16_from_name("sar_msg_ref_num", 500);
    assert_eq!(tlv_u16.tag, Tags::SAR_MSG_REF_NUM);
    assert_eq!(tlv_u16.value, vec![1, 244]);
}

#[test]
fn test_tlv_encode_decode() {
    let tlv = tlv_new_u16(Tags::USER_MESSAGE_REFERENCE, 42);
    let bytes = tlv_encode(&tlv);

    // Tag (2) + Length (2) + Value (2) = 6 bytes
    assert_eq!(bytes.len(), 6);

    let decoded = tlv_decode(&bytes).unwrap();
    assert_eq!(decoded.tag, tlv.tag);
    assert_eq!(decoded.length, tlv.length);
    assert_eq!(decoded.value, tlv.value);
}

#[test]
fn test_tlv_value_conversions() {
    let tlv_u8 = tlv_new_u8(Tags::SAR_TOTAL_SEGMENTS, 2);
    assert_eq!(tlv_value_as_u8(&tlv_u8).unwrap(), 2);

    let tlv_u16 = tlv_new_u16(Tags::SAR_MSG_REF_NUM, 1000);
    assert_eq!(tlv_value_as_u16(&tlv_u16).unwrap(), 1000);

    let tlv_string = tlv_new_string(Tags::RECEIPTED_MESSAGE_ID, "test".to_string());
    assert_eq!(tlv_value_as_string(&tlv_string).unwrap(), "test");
}

#[test]
fn test_tlv_decode_errors() {
    let short_buffer = vec![0x00, 0x01]; // Too short for header
    let result = tlv_decode(&short_buffer);
    assert!(result.is_err());

    let invalid_data = vec![0x02, 0x01, 0x00, 0x05, 0x00]; // Length 5 but only 1 byte follows
    let result = tlv_decode(&invalid_data);
    assert!(result.is_err());
}

#[test]
fn test_tag_names() {
    assert_eq!(get_tag_by_name("sar_msg_ref_num"), Tags::SAR_MSG_REF_NUM);
    assert_eq!(
        get_tag_by_name("dest_addr_subunit"),
        Tags::DEST_ADDR_SUBUNIT
    );
}

#[test]
fn test_tag_registry_entries() {
    let entries: Vec<(&str, u16)> = vec![
        ("dest_addr_subunit", Tags::DEST_ADDR_SUBUNIT),
        ("dest_network_type", Tags::DEST_NETWORK_TYPE),
        ("dest_bearer_type", Tags::DEST_BEARER_TYPE),
        ("dest_telematics_id", Tags::DEST_TELEMATICS_ID),
        ("source_addr_subunit", Tags::SOURCE_ADDR_SUBUNIT),
        ("source_network_type", Tags::SOURCE_NETWORK_TYPE),
        ("source_bearer_type", Tags::SOURCE_BEARER_TYPE),
        ("source_telematics_id", Tags::SOURCE_TELEMATICS_ID),
        ("qos_time_to_live", Tags::QOS_TIME_TO_LIVE),
        ("payload_type", Tags::PAYLOAD_TYPE),
        ("additional_status_info_text", Tags::ADDITIONAL_STATUS_INFO_TEXT),
        ("receipted_message_id", Tags::RECEIPTED_MESSAGE_ID),
        ("ms_msg_wait_facilities", Tags::MS_MSG_WAIT_FACILITIES),
        ("privacy_indicator", Tags::PRIVACY_INDICATOR),
        ("source_subaddress", Tags::SOURCE_SUBADDRESS),
        ("dest_subaddress", Tags::DEST_SUBADDRESS),
        ("user_message_reference", Tags::USER_MESSAGE_REFERENCE),
        ("user_response_code", Tags::USER_RESPONSE_CODE),
        ("source_port", Tags::SOURCE_PORT),
        ("destination_port", Tags::DESTINATION_PORT),
        ("sar_msg_ref_num", Tags::SAR_MSG_REF_NUM),
        ("language_indicator", Tags::LANGUAGE_INDICATOR),
        ("sar_total_segments", Tags::SAR_TOTAL_SEGMENTS),
        ("sar_segment_seqnum", Tags::SAR_SEGMENT_SEQNUM),
        ("sc_interface_version", Tags::SC_INTERFACE_VERSION),
        ("callback_num_pres_ind", Tags::CALLBACK_NUM_PRES_IND),
        ("callback_num_atag", Tags::CALLBACK_NUM_ATAG),
        ("number_of_messages", Tags::NUMBER_OF_MESSAGES),
        ("callback_num", Tags::CALLBACK_NUM),
        ("dpf_result", Tags::DPF_RESULT),
        ("set_dpf", Tags::SET_DPF),
        ("ms_availability_status", Tags::MS_AVAILABILITY_STATUS),
        ("network_error_code", Tags::NETWORK_ERROR_CODE),
        ("message_payload", Tags::MESSAGE_PAYLOAD),
        ("delivery_failure_reason", Tags::DELIVERY_FAILURE_REASON),
        ("more_messages_to_send", Tags::MORE_MESSAGES_TO_SEND),
        ("message_state", Tags::MESSAGE_STATE),
        ("congestion_state", Tags::CONGESTION_STATE),
        ("ussd_service_op", Tags::USSD_SERVICE_OP),
        ("broadcast_channel_indicator", Tags::BROADCAST_CHANNEL_INDICATOR),
        ("broadcast_content_type", Tags::BROADCAST_CONTENT_TYPE),
        ("broadcast_rep_num", Tags::BROADCAST_REP_NUM),
        ("broadcast_frequency_interval", Tags::BROADCAST_FREQUENCY_INTERVAL),
        ("broadcast_area_identifier", Tags::BROADCAST_AREA_IDENTIFIER),
        ("broadcast_area_success", Tags::BROADCAST_AREA_SUCCESS),
        ("broadcast_end_time", Tags::BROADCAST_END_TIME),
        ("broadcast_service_group", Tags::BROADCAST_SERVICE_GROUP),
        ("display_time", Tags::DISPLAY_TIME),
        ("sms_signal", Tags::SMS_SIGNAL),
        ("ms_validity", Tags::MS_VALIDITY),
        ("alert_on_message_delivery", Tags::ALERT_ON_MESSAGE_DELIVERY),
        ("its_reply_type", Tags::ITS_REPLY_TYPE),
        ("its_session_info", Tags::ITS_SESSION_INFO),
    ];

    // Forward lookups hit, the mapping has no duplicate tags, and an
    // unknown name yields the sentinel.
    for (name, tag) in &entries {
        assert_eq!(get_tag_by_name(name), *tag);
    }
    for i in 0..entries.len() {
        for j in 0..entries.len() {
            if i != j {
                assert_ne!(entries[i].1, entries[j].1);
            }
        }
    }
    assert_eq!(get_tag_by_name("no_such_tag_name"), 0);
    let unknown = tlv_new_from_name("no_such_tag_name", vec![1]);
    assert_eq!(unknown.tag, 0);
}

#[test]
fn test_tlv_roundtrip_widths() {
    // Value widths 0, 1, 2 and N bytes all survive the round trip, with
    // the decoded length equal to the value's length.
    let samples = vec![
        tlv_new(0x0205, vec![]),
        tlv_new_u8(Tags::SAR_TOTAL_SEGMENTS, 9),
        tlv_new_u16(Tags::SAR_MSG_REF_NUM, 0xBEEF),
        tlv_new_payload(Tags::MESSAGE_PAYLOAD, vec![0, 1, 2, 3, 4, 5, 6, 7, 8, 9]),
    ];
    for tlv in samples {
        let bytes = tlv_encode(&tlv);
        assert_eq!(bytes.len(), 4 + tlv.value.len());
        let decoded = tlv_decode(&bytes).unwrap();
        assert_eq!(decoded, tlv);
        assert_eq!(decoded.length as usize, decoded.value.len());
    }
}

#[test]
fn test_tlv_truncation_rejected() {
    let tlv = tlv_new_payload(Tags::MESSAGE_PAYLOAD, vec![10, 20, 30, 40]);
    let bytes = tlv_encode(&tlv);
    for cut in 0..bytes.len() {
        assert!(tlv_decode(&bytes[..cut]).is_err());
    }
}

#[test]
fn test_tlv_decode_stream_outcomes() {
    let tlv = tlv_new_u16(Tags::USER_MESSAGE_REFERENCE, 7);
    let bytes = tlv_encode(&tlv);

    match tlv_decode_stream(&bytes) {
        TlvDecodeOutcome::Decoded { tlv: t, consumed } => {
            assert_eq!(t, tlv);
            assert_eq!(consumed, 6);
        }
        _ => panic!("expected a decoded parameter"),
    }

    // Fewer than four header bytes only means more data is wanted.
    assert_eq!(tlv_decode_stream(&bytes[..3]), TlvDecodeOutcome::NeedMoreData);

    // A declared length running past the buffer is malformed.
    assert_eq!(tlv_decode_stream(&bytes[..5]), TlvDecodeOutcome::Malformed);
}

#[test]
fn test_tlv_value_extractor_errors() {
    let tlv = tlv_new_payload(Tags::MESSAGE_PAYLOAD, vec![1, 2, 3]);
    assert!(tlv_value_as_u8(&tlv).is_err());
    assert!(tlv_value_as_u16(&tlv).is_err());
    assert!(tlv_value_as_string(&tlv).is_err());

    // A value with an interior null byte is not a C string.
    let bad = tlv_new(0x0001, vec![65, 0, 66, 0]);
    assert!(tlv_value_as_string(&bad).is_err());
}
