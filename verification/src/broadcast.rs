//! Broadcast PDUs: submitting a broadcast message and its response.

use vstd::prelude::*;

use crate::common::{
    get_status_description, status_text, CMD_BROADCAST_SM, CMD_BROADCAST_SM_RESP, Npi,
    npi_of_value, npi_value, Ton, ton_of_value, ton_value,
};
use crate::header::{frame_consistent, frame_pdu, lemma_p_frame, p_frame, pdu_frame, rd_frame};
use crate::tlv::{
    lemma_p_tlvs, p_tlvs, put_tlvs, rd_tlvs, tlv_views, tlvs_enc, wf_tlvs, Tlv, TlvV,
};
use crate::wire::{
    cstr_enc, lemma_opt_roundtrip, lemma_p_cstr, lemma_p_u8, opt_chars, opt_of_chars,
    opt_str_view, p_cstr, p_u8, put_cstr, put_opt_cstr, put_u8, rd_cstr, rd_opt_cstr, rd_u8,
    wf_cstr, wf_opt_cstr,
};

verus! {

/// A broadcast-sm request.
#[derive(Debug, Clone, PartialEq)]
pub struct BroadcastSmRequest {
    /// The sequence number of the PDU.
    pub sequence_number: u32,
    /// The service type.
    pub service_type: String,
    /// The type of number for the source address.
    pub source_addr_ton: Ton,
    /// The numbering plan indicator for the source address.
    pub source_addr_npi: Npi,
    /// The source address.
    pub source_addr: String,
    /// The message identifier.
    pub message_id: String,
    /// The priority flag.
    pub priority_flag: u8,
    /// The schedule delivery time, absent for immediate delivery.
    pub schedule_delivery_time: Option<String>,
    /// The validity period, absent for the default.
    pub validity_period: Option<String>,
    /// The replace-if-present flag.
    pub replace_if_present_flag: u8,
    /// The data coding scheme.
    pub data_coding: u8,
    /// The default message identifier.
    pub sm_default_msg_id: u8,
    /// Optional TLV parameters.
    pub optional_params: Vec<Tlv>,
}

/// Model of a [`BroadcastSmRequest`].
pub struct BroadcastSmRequestV {
    /// The sequence number of the PDU.
    pub sequence_number: u32,
    /// The service type.
    pub service_type: Seq<char>,
    /// The source type of number.
    pub source_addr_ton: Ton,
    /// The source numbering plan indicator.
    pub source_addr_npi: Npi,
    /// The source address.
    pub source_addr: Seq<char>,
    /// The message identifier.
    pub message_id: Seq<char>,
    /// The priority flag.
    pub priority_flag: u8,
    /// The schedule delivery time.
    pub schedule_delivery_time: Option<Seq<char>>,
    /// The validity period.
    pub validity_period: Option<Seq<char>>,
    /// The replace-if-present flag.
    pub replace_if_present_flag: u8,
    /// The data coding scheme.
    pub data_coding: u8,
    /// The default message identifier.
    pub sm_default_msg_id: u8,
    /// Optional TLV parameters.
    pub optional_params: Seq<TlvV>,
}

impl View for BroadcastSmRequest {
    type V = BroadcastSmRequestV;

    open spec fn view(&self) -> BroadcastSmRequestV {
        BroadcastSmRequestV {
            sequence_number: self.sequence_number,
            service_type: self.service_type@,
            source_addr_ton: self.source_addr_ton,
            source_addr_npi: self.source_addr_npi,
            source_addr: self.source_addr@,
            message_id: self.message_id@,
            priority_flag: self.priority_flag,
            schedule_delivery_time: opt_str_view(self.schedule_delivery_time),
            validity_period: opt_str_view(self.validity_period),
            replace_if_present_flag: self.replace_if_present_flag,
            data_coding: self.data_coding,
            sm_default_msg_id: self.sm_default_msg_id,
            optional_params: tlv_views(self.optional_params@),
        }
    }
}

/// Body bytes of a broadcast-sm request.
pub open spec fn broadcast_sm_request_body(m: BroadcastSmRequestV) -> Seq<u8> {
    cstr_enc(m.service_type) + seq![ton_value(m.source_addr_ton), npi_value(m.source_addr_npi)]
        + cstr_enc(m.source_addr) + cstr_enc(m.message_id) + seq![m.priority_flag] + cstr_enc(
        opt_chars(m.schedule_delivery_time),
    ) + cstr_enc(opt_chars(m.validity_period)) + seq![
        m.replace_if_present_flag,
        m.data_coding,
        m.sm_default_msg_id,
    ] + tlvs_enc(m.optional_params)
}

/// Field bounds of a broadcast-sm request.
pub open spec fn wf_broadcast_sm_request(m: BroadcastSmRequestV) -> bool {
    &&& wf_cstr(m.service_type, 6)
    &&& wf_cstr(m.source_addr, 21)
    &&& wf_cstr(m.message_id, 65)
    &&& wf_opt_cstr(m.schedule_delivery_time, 17)
    &&& wf_opt_cstr(m.validity_period, 17)
    &&& wf_tlvs(m.optional_params)
    &&& 16 + broadcast_sm_request_body(m).len() <= 0xFFFF_FFFF
}

/// Wire bytes of a broadcast-sm request.
pub open spec fn broadcast_sm_request_enc(m: BroadcastSmRequestV) -> Seq<u8> {
    pdu_frame(CMD_BROADCAST_SM, 0, m.sequence_number, broadcast_sm_request_body(m))
}

/// Parses a broadcast-sm request buffer.
pub open spec fn p_broadcast_sm_request(b: Seq<u8>) -> Option<BroadcastSmRequestV> {
    match p_frame(b) {
        None => None,
        Some((h, body)) => if h.command_id != CMD_BROADCAST_SM {
            None
        } else {
            match p_cstr(body, 6) {
                None => None,
                Some((service_type, r0)) => match p_u8(r0) {
                    None => None,
                    Some((tb, r1)) => match ton_of_value(tb) {
                        None => None,
                        Some(source_addr_ton) => match p_u8(r1) {
                            None => None,
                            Some((nb, r2)) => match npi_of_value(nb) {
                                None => None,
                                Some(source_addr_npi) => match p_cstr(r2, 21) {
                                    None => None,
                                    Some((source_addr, r3)) => match p_cstr(r3, 65) {
                                        None => None,
                                        Some((message_id, r4)) => match p_u8(r4) {
                                            None => None,
                                            Some((priority_flag, r5)) => match p_cstr(r5, 17) {
                                                None => None,
                                                Some((sched, r6)) => match p_cstr(r6, 17) {
                                                    None => None,
                                                    Some((valid, r7)) => match p_u8(r7) {
                                                        None => None,
                                                        Some((replace_if_present_flag, r8)) =>
                                                            match p_u8(r8) {
                                                            None => None,
                                                            Some((data_coding, r9)) => match p_u8(
                                                                r9,
                                                            ) {
                                                                None => None,
                                                                Some((sm_default_msg_id, r10)) =>
                                                                    match p_tlvs(r10) {
                                                                    None => None,
                                                                    Some(optional_params) => Some(
                                                                        BroadcastSmRequestV {
                                                                            sequence_number:
                                                                                h.sequence_number,
                                                                            service_type,
                                                                            source_addr_ton,
                                                                            source_addr_npi,
                                                                            source_addr,
                                                                            message_id,
                                                                            priority_flag,
                                                                            schedule_delivery_time:
                                                                                opt_of_chars(sched),
                                                                            validity_period:
                                                                                opt_of_chars(valid),
                                                                            replace_if_present_flag,
                                                                            data_coding,
                                                                            sm_default_msg_id,
                                                                            optional_params,
                                                                        },
                                                                    ),
                                                                },
                                                            },
                                                        },
                                                    },
                                                },
                                            },
                                        },
                                    },
                                },
                            },
                        },
                    },
                },
            }
        },
    }
}

/// Encodes a `BroadcastSmRequest` into a byte vector.
pub fn encode_broadcast_sm_request(request: &BroadcastSmRequest) -> (r: Vec<u8>)
    requires
        wf_broadcast_sm_request(request@),
    ensures
        r@ == broadcast_sm_request_enc(request@),
{
    let mut body: Vec<u8> = Vec::new();
    put_cstr(&mut body, request.service_type.as_str());
    put_u8(&mut body, request.source_addr_ton.to_byte());
    put_u8(&mut body, request.source_addr_npi.to_byte());
    put_cstr(&mut body, request.source_addr.as_str());
    put_cstr(&mut body, request.message_id.as_str());
    put_u8(&mut body, request.priority_flag);
    put_opt_cstr(&mut body, &request.schedule_delivery_time);
    put_opt_cstr(&mut body, &request.validity_period);
    put_u8(&mut body, request.replace_if_present_flag);
    put_u8(&mut body, request.data_coding);
    put_u8(&mut body, request.sm_default_msg_id);
    put_tlvs(&mut body, &request.optional_params);
    assert(body@ =~= broadcast_sm_request_body(request@));
    frame_pdu(CMD_BROADCAST_SM, 0, request.sequence_number, body)
}

/// Decodes a byte buffer into a `BroadcastSmRequest`.
pub fn decode_broadcast_sm_request(buffer: &[u8]) -> (r: Result<BroadcastSmRequest, String>)
    ensures
        r is Ok <==> p_broadcast_sm_request(buffer@) is Some,
        r matches Ok(m) ==> p_broadcast_sm_request(buffer@) == Some(m@),
        r is Ok ==> frame_consistent(buffer@),
{
    let h = match rd_frame(buffer) {
        None => {
            return Err(String::from_str("broadcast sm: bad frame"));
        },
        Some(h) => h,
    };
    if h.command_id != CMD_BROADCAST_SM {
        return Err(String::from_str("broadcast sm: wrong command"));
    }
    let (service_type, i0) = match rd_cstr(buffer, 16, 6) {
        None => {
            return Err(String::from_str("broadcast sm: malformed buffer"));
        },
        Some(x) => x,
    };
    let (tb, i1) = match rd_u8(buffer, i0) {
        None => {
            return Err(String::from_str("broadcast sm: malformed buffer"));
        },
        Some(x) => x,
    };
    let source_addr_ton = match Ton::from_byte(tb) {
        None => {
            return Err(String::from_str("broadcast sm: malformed buffer"));
        },
        Some(x) => x,
    };
    let (nb, i2) = match rd_u8(buffer, i1) {
        None => {
            return Err(String::from_str("broadcast sm: malformed buffer"));
        },
        Some(x) => x,
    };
    let source_addr_npi = match Npi::from_byte(nb) {
        None => {
            return Err(String::from_str("broadcast sm: malformed buffer"));
        },
        Some(x) => x,
    };
    let (source_addr, i3) = match rd_cstr(buffer, i2, 21) {
        None => {
            return Err(String::from_str("broadcast sm: malformed buffer"));
        },
        Some(x) => x,
    };
    let (message_id, i4) = match rd_cstr(buffer, i3, 65) {
        None => {
            return Err(String::from_str("broadcast sm: malformed buffer"));
        },
        Some(x) => x,
    };
    let (priority_flag, i5) = match rd_u8(buffer, i4) {
        None => {
            return Err(String::from_str("broadcast sm: malformed buffer"));
        },
        Some(x) => x,
    };
    let (schedule_delivery_time, i6) = match rd_opt_cstr(buffer, i5, 17) {
        None => {
            return Err(String::from_str("broadcast sm: malformed buffer"));
        },
        Some(x) => x,
    };
    let (validity_period, i7) = match rd_opt_cstr(buffer, i6, 17) {
        None => {
            return Err(String::from_str("broadcast sm: malformed buffer"));
        },
        Some(x) => x,
    };
    let (replace_if_present_flag, i8) = match rd_u8(buffer, i7) {
        None => {
            return Err(String::from_str("broadcast sm: malformed buffer"));
        },
        Some(x) => x,
    };
    let (data_coding, i9) = match rd_u8(buffer, i8) {
        None => {
            return Err(String::from_str("broadcast sm: malformed buffer"));
        },
        Some(x) => x,
    };
    let (sm_default_msg_id, i10) = match rd_u8(buffer, i9) {
        None => {
            return Err(String::from_str("broadcast sm: malformed buffer"));
        },
        Some(x) => x,
    };
    let optional_params = match rd_tlvs(buffer, i10) {
        None => {
            return Err(String::from_str("broadcast sm: malformed buffer"));
        },
        Some(x) => x,
    };
    let req = BroadcastSmRequest {
        sequence_number: h.sequence_number,
        service_type,
        source_addr_ton,
        source_addr_npi,
        source_addr,
        message_id,
        priority_flag,
        schedule_delivery_time,
        validity_period,
        replace_if_present_flag,
        data_coding,
        sm_default_msg_id,
        optional_params,
    };
    proof {
        crate::header::lemma_frame_consistent(buffer@);
        assert(p_broadcast_sm_request(buffer@) == Some(req@));
    }
    Ok(req)
}

/// Parsing the encoding of a well-formed broadcast-sm request yields it
/// back.
#[verifier::rlimit(100)]
pub proof fn lemma_broadcast_sm_request_roundtrip(m: BroadcastSmRequestV)
    requires
        wf_broadcast_sm_request(m),
    ensures
        p_broadcast_sm_request(broadcast_sm_request_enc(m)) == Some(m),
{
    let body = broadcast_sm_request_body(m);
    lemma_p_frame(CMD_BROADCAST_SM, 0, m.sequence_number, body);
    let tail11 = tlvs_enc(m.optional_params);
    let tail10 = seq![m.sm_default_msg_id] + tail11;
    let tail9 = seq![m.data_coding] + tail10;
    let tail8 = seq![m.replace_if_present_flag] + tail9;
    let tail7 = cstr_enc(opt_chars(m.validity_period)) + tail8;
    let tail6 = cstr_enc(opt_chars(m.schedule_delivery_time)) + tail7;
    let tail5 = seq![m.priority_flag] + tail6;
    let tail4 = cstr_enc(m.message_id) + tail5;
    let tail3 = cstr_enc(m.source_addr) + tail4;
    let tail2 = seq![npi_value(m.source_addr_npi)] + tail3;
    let tail1 = seq![ton_value(m.source_addr_ton)] + tail2;
    assert(body =~= cstr_enc(m.service_type) + tail1);
    lemma_p_cstr(m.service_type, 6, tail1);
    lemma_p_u8(ton_value(m.source_addr_ton), tail2);
    crate::common::lemma_ton_roundtrip(m.source_addr_ton);
    lemma_p_u8(npi_value(m.source_addr_npi), tail3);
    crate::common::lemma_npi_roundtrip(m.source_addr_npi);
    lemma_p_cstr(m.source_addr, 21, tail4);
    lemma_p_cstr(m.message_id, 65, tail5);
    lemma_p_u8(m.priority_flag, tail6);
    lemma_opt_roundtrip(m.schedule_delivery_time, 17);
    lemma_p_cstr(opt_chars(m.schedule_delivery_time), 17, tail7);
    lemma_opt_roundtrip(m.validity_period, 17);
    lemma_p_cstr(opt_chars(m.validity_period), 17, tail8);
    lemma_p_u8(m.replace_if_present_flag, tail9);
    lemma_p_u8(m.data_coding, tail10);
    lemma_p_u8(m.sm_default_msg_id, tail11);
    lemma_p_tlvs(m.optional_params);
}

/// A broadcast-sm response.
#[derive(Debug, Clone, PartialEq)]
pub struct BroadcastSmResponse {
    /// The sequence number of the PDU.
    pub sequence_number: u32,
    /// The command status.
    pub command_status: u32,
    /// The human-readable name of the command status.
    pub status_description: String,
    /// The message identifier.
    pub message_id: String,
    /// Optional TLV parameters.
    pub optional_params: Vec<Tlv>,
}

/// Model of a [`BroadcastSmResponse`].
pub struct BroadcastSmResponseV {
    /// The sequence number of the PDU.
    pub sequence_number: u32,
    /// The command status.
    pub command_status: u32,
    /// The human-readable name of the command status.
    pub status_description: Seq<char>,
    /// The message identifier.
    pub message_id: Seq<char>,
    /// Optional TLV parameters.
    pub optional_params: Seq<TlvV>,
}

impl View for BroadcastSmResponse {
    type V = BroadcastSmResponseV;

    open spec fn view(&self) -> BroadcastSmResponseV {
        BroadcastSmResponseV {
            sequence_number: self.sequence_number,
            command_status: self.command_status,
            status_description: self.status_description@,
            message_id: self.message_id@,
            optional_params: tlv_views(self.optional_params@),
        }
    }
}

/// Body bytes of a broadcast-sm response.
pub open spec fn broadcast_sm_response_body(m: BroadcastSmResponseV) -> Seq<u8> {
    cstr_enc(m.message_id) + tlvs_enc(m.optional_params)
}

/// Field bounds of a broadcast-sm response.
pub open spec fn wf_broadcast_sm_response(m: BroadcastSmResponseV) -> bool {
    &&& wf_cstr(m.message_id, 65)
    &&& wf_tlvs(m.optional_params)
    &&& m.status_description == status_text(m.command_status)
    &&& 16 + broadcast_sm_response_body(m).len() <= 0xFFFF_FFFF
}

/// Wire bytes of a broadcast-sm response.
pub open spec fn broadcast_sm_response_enc(m: BroadcastSmResponseV) -> Seq<u8> {
    pdu_frame(
        CMD_BROADCAST_SM_RESP,
        m.command_status,
        m.sequence_number,
        broadcast_sm_response_body(m),
    )
}

/// Parses a broadcast-sm response buffer.
pub open spec fn p_broadcast_sm_response(b: Seq<u8>) -> Option<BroadcastSmResponseV> {
    match p_frame(b) {
        None => None,
        Some((h, body)) => if h.command_id != CMD_BROADCAST_SM_RESP {
            None
        } else {
            match p_cstr(body, 65) {
                None => None,
                Some((message_id, r1)) => match p_tlvs(r1) {
                    None => None,
                    Some(optional_params) => Some(
                        BroadcastSmResponseV {
                            sequence_number: h.sequence_number,
                            command_status: h.command_status,
                            status_description: status_text(h.command_status),
                            message_id,
                            optional_params,
                        },
                    ),
                },
            }
        },
    }
}

/// Encodes a `BroadcastSmResponse` into a byte vector.
pub fn encode_broadcast_sm_response(response: &BroadcastSmResponse) -> (r: Vec<u8>)
    requires
        wf_broadcast_sm_response(response@),
    ensures
        r@ == broadcast_sm_response_enc(response@),
{
    let mut body: Vec<u8> = Vec::new();
    put_cstr(&mut body, response.message_id.as_str());
    put_tlvs(&mut body, &response.optional_params);
    assert(body@ =~= broadcast_sm_response_body(response@));
    frame_pdu(CMD_BROADCAST_SM_RESP, response.command_status, response.sequence_number, body)
}

/// Decodes a byte buffer into a `BroadcastSmResponse`.
pub fn decode_broadcast_sm_response(buffer: &[u8]) -> (r: Result<BroadcastSmResponse, String>)
    ensures
        r is Ok <==> p_broadcast_sm_response(buffer@) is Some,
        r matches Ok(m) ==> p_broadcast_sm_response(buffer@) == Some(m@),
        r is Ok ==> frame_consistent(buffer@),
{
    let h = match rd_frame(buffer) {
        None => {
            return Err(String::from_str("broadcast sm response: bad frame"));
        },
        Some(h) => h,
    };
    if h.command_id != CMD_BROADCAST_SM_RESP {
        return Err(String::from_str("broadcast sm response: wrong command"));
    }
    let (message_id, i1) = match rd_cstr(buffer, 16, 65) {
        None => {
            return Err(String::from_str("broadcast sm response: malformed buffer"));
        },
        Some(x) => x,
    };
    let optional_params = match rd_tlvs(buffer, i1) {
        None => {
            return Err(String::from_str("broadcast sm response: malformed buffer"));
        },
        Some(x) => x,
    };
    let resp = BroadcastSmResponse {
        sequence_number: h.sequence_number,
        command_status: h.command_status,
        status_description: get_status_description(h.command_status),
        message_id,
        optional_params,
    };
    proof {
        crate::header::lemma_frame_consistent(buffer@);
        assert(p_broadcast_sm_response(buffer@) == Some(resp@));
    }
    Ok(resp)
}

/// Parsing the encoding of a well-formed broadcast-sm response yields it
/// back.
pub proof fn lemma_broadcast_sm_response_roundtrip(m: BroadcastSmResponseV)
    requires
        wf_broadcast_sm_response(m),
    ensures
        p_broadcast_sm_response(broadcast_sm_response_enc(m)) == Some(m),
{
    let body = broadcast_sm_response_body(m);
    lemma_p_frame(CMD_BROADCAST_SM_RESP, m.command_status, m.sequence_number, body);
    let tail0 = tlvs_enc(m.optional_params);
    assert(body =~= cstr_enc(m.message_id) + tail0);
    lemma_p_cstr(m.message_id, 65, tail0);
    lemma_p_tlvs(m.optional_params);
}

} // verus!
