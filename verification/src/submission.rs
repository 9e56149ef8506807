//! Submission PDUs: the submit-sm request and its response.

use vstd::prelude::*;

use crate::common::{
    get_status_description, status_text, CMD_SUBMIT_SM, CMD_SUBMIT_SM_RESP, Npi, npi_of_value,
    npi_value, Ton, ton_of_value, ton_value,
};
use crate::header::{frame_consistent, frame_pdu, lemma_p_frame, p_frame, pdu_frame, rd_frame};
use crate::tlv::{
    lemma_p_tlvs, p_tlvs, put_tlvs, rd_tlvs, tlv_views, tlvs_enc, wf_tlvs, Tlv, TlvV,
};
use crate::wire::{
    cstr_enc, lemma_opt_roundtrip, lemma_p_cstr, lemma_p_fixed, lemma_p_u8, opt_chars,
    opt_of_chars, opt_str_view, p_cstr, p_fixed, p_u8, put_bytes, put_cstr, put_opt_cstr, put_u8,
    rd_cstr, rd_fixed, rd_opt_cstr, rd_u8, wf_cstr, wf_opt_cstr,
};

verus! {

// ---------------------------------------------------------------------------
// Submit SM
// ---------------------------------------------------------------------------

/// A submit-sm request.
#[derive(Debug, Clone, PartialEq)]
pub struct SubmitSmRequest {
    /// The sequence number of the PDU.
    pub sequence_number: u32,
    /// The service type.
    pub service_type: String,
    /// The type of number for the source address.
    pub source_addr_ton: Ton,
    /// The numbering plan indicator for the source address.
    pub source_addr_npi: Npi,
    /// The source address.
    pub source_addr: String,
    /// The type of number for the destination address.
    pub dest_addr_ton: Ton,
    /// The numbering plan indicator for the destination address.
    pub dest_addr_npi: Npi,
    /// The destination address.
    pub destination_addr: String,
    /// The ESM class.
    pub esm_class: u8,
    /// The protocol identifier.
    pub protocol_id: u8,
    /// The priority flag.
    pub priority_flag: u8,
    /// The schedule delivery time, absent for immediate delivery.
    pub schedule_delivery_time: Option<String>,
    /// The validity period, absent for the default.
    pub validity_period: Option<String>,
    /// The registered delivery flag.
    pub registered_delivery: u8,
    /// The replace-if-present flag.
    pub replace_if_present_flag: u8,
    /// The data coding scheme.
    pub data_coding: u8,
    /// The default message identifier.
    pub sm_default_msg_id: u8,
    /// The short message content.
    pub short_message: Vec<u8>,
    /// Optional TLV parameters.
    pub tlvs: Vec<Tlv>,
}

/// Model of a [`SubmitSmRequest`].
pub struct SubmitSmRequestV {
    /// The sequence number of the PDU.
    pub sequence_number: u32,
    /// The service type.
    pub service_type: Seq<char>,
    /// The source type of number.
    pub source_addr_ton: Ton,
    /// The source numbering plan indicator.
    pub source_addr_npi: Npi,
    /// The source address.
    pub source_addr: Seq<char>,
    /// The destination type of number.
    pub dest_addr_ton: Ton,
    /// The destination numbering plan indicator.
    pub dest_addr_npi: Npi,
    /// The destination address.
    pub destination_addr: Seq<char>,
    /// The ESM class.
    pub esm_class: u8,
    /// The protocol identifier.
    pub protocol_id: u8,
    /// The priority flag.
    pub priority_flag: u8,
    /// The schedule delivery time.
    pub schedule_delivery_time: Option<Seq<char>>,
    /// The validity period.
    pub validity_period: Option<Seq<char>>,
    /// The registered delivery flag.
    pub registered_delivery: u8,
    /// The replace-if-present flag.
    pub replace_if_present_flag: u8,
    /// The data coding scheme.
    pub data_coding: u8,
    /// The default message identifier.
    pub sm_default_msg_id: u8,
    /// The short message content.
    pub short_message: Seq<u8>,
    /// Optional TLV parameters.
    pub tlvs: Seq<TlvV>,
}

impl View for SubmitSmRequest {
    type V = SubmitSmRequestV;

    open spec fn view(&self) -> SubmitSmRequestV {
        SubmitSmRequestV {
            sequence_number: self.sequence_number,
            service_type: self.service_type@,
            source_addr_ton: self.source_addr_ton,
            source_addr_npi: self.source_addr_npi,
            source_addr: self.source_addr@,
            dest_addr_ton: self.dest_addr_ton,
            dest_addr_npi: self.dest_addr_npi,
            destination_addr: self.destination_addr@,
            esm_class: self.esm_class,
            protocol_id: self.protocol_id,
            priority_flag: self.priority_flag,
            schedule_delivery_time: opt_str_view(self.schedule_delivery_time),
            validity_period: opt_str_view(self.validity_period),
            registered_delivery: self.registered_delivery,
            replace_if_present_flag: self.replace_if_present_flag,
            data_coding: self.data_coding,
            sm_default_msg_id: self.sm_default_msg_id,
            short_message: self.short_message@,
            tlvs: tlv_views(self.tlvs@),
        }
    }
}

/// Bytes of a submit-sm body from the schedule delivery time on.
pub open spec fn submit_sm_tail_bytes(m: SubmitSmRequestV) -> Seq<u8> {
    cstr_enc(opt_chars(m.schedule_delivery_time)) + cstr_enc(opt_chars(m.validity_period)) + seq![
        m.registered_delivery,
        m.replace_if_present_flag,
        m.data_coding,
        m.sm_default_msg_id,
        m.short_message.len() as u8,
    ] + m.short_message + tlvs_enc(m.tlvs)
}

/// Bytes of a submit-sm body from the destination address on.
pub open spec fn submit_sm_mid_bytes(m: SubmitSmRequestV) -> Seq<u8> {
    seq![ton_value(m.dest_addr_ton), npi_value(m.dest_addr_npi)] + cstr_enc(m.destination_addr)
        + seq![m.esm_class, m.protocol_id, m.priority_flag] + submit_sm_tail_bytes(m)
}

/// Body bytes of a submit-sm request.
pub open spec fn submit_sm_body(m: SubmitSmRequestV) -> Seq<u8> {
    cstr_enc(m.service_type) + seq![ton_value(m.source_addr_ton), npi_value(m.source_addr_npi)]
        + cstr_enc(m.source_addr) + submit_sm_mid_bytes(m)
}

/// Field bounds of a submit-sm request.
pub open spec fn wf_submit_sm_request(m: SubmitSmRequestV) -> bool {
    &&& wf_cstr(m.service_type, 6)
    &&& wf_cstr(m.source_addr, 21)
    &&& wf_cstr(m.destination_addr, 21)
    &&& wf_opt_cstr(m.schedule_delivery_time, 17)
    &&& wf_opt_cstr(m.validity_period, 17)
    &&& m.short_message.len() <= 255
    &&& wf_tlvs(m.tlvs)
    &&& 16 + submit_sm_body(m).len() <= 0xFFFF_FFFF
}

/// Wire bytes of a submit-sm request.
pub open spec fn submit_sm_request_enc(m: SubmitSmRequestV) -> Seq<u8> {
    pdu_frame(CMD_SUBMIT_SM, 0, m.sequence_number, submit_sm_body(m))
}

/// Parses a submit-sm request buffer.
pub open spec fn p_submit_sm_request(b: Seq<u8>) -> Option<SubmitSmRequestV> {
    match p_frame(b) {
        None => None,
        Some((h, body)) => if h.command_id != CMD_SUBMIT_SM {
            None
        } else {
            match p_cstr(body, 6) {
                None => None,
                Some((service_type, r0)) => match p_u8(r0) {
                    None => None,
                    Some((tb, r1)) => match ton_of_value(tb) {
                        None => None,
                        Some(source_addr_ton) => match p_u8(r1) {
                            None => None,
                            Some((nb, r2)) => match npi_of_value(nb) {
                                None => None,
                                Some(source_addr_npi) => match p_cstr(r2, 21) {
                                    None => None,
                                    Some((source_addr, r3)) => p_submit_sm_mid(
                                        h.sequence_number,
                                        service_type,
                                        source_addr_ton,
                                        source_addr_npi,
                                        source_addr,
                                        r3,
                                    ),
                                },
                            },
                        },
                    },
                },
            }
        },
    }
}

/// Parses the middle of a submit-sm body: the destination address and the
/// three flag bytes after it.
pub open spec fn p_submit_sm_mid(
    seqno: u32,
    service_type: Seq<char>,
    source_addr_ton: Ton,
    source_addr_npi: Npi,
    source_addr: Seq<char>,
    r3: Seq<u8>,
) -> Option<SubmitSmRequestV> {
    match p_u8(r3) {
        None => None,
        Some((tb2, r4)) => match ton_of_value(tb2) {
            None => None,
            Some(dest_addr_ton) => match p_u8(r4) {
                None => None,
                Some((nb2, r5)) => match npi_of_value(nb2) {
                    None => None,
                    Some(dest_addr_npi) => match p_cstr(r5, 21) {
                        None => None,
                        Some((destination_addr, r6)) => match p_u8(r6) {
                            None => None,
                            Some((esm_class, r7)) => match p_u8(r7) {
                                None => None,
                                Some((protocol_id, r8)) => match p_u8(r8) {
                                    None => None,
                                    Some((priority_flag, r9)) => p_submit_sm_tail(
                                        seqno,
                                        service_type,
                                        source_addr_ton,
                                        source_addr_npi,
                                        source_addr,
                                        dest_addr_ton,
                                        dest_addr_npi,
                                        destination_addr,
                                        esm_class,
                                        protocol_id,
                                        priority_flag,
                                        r9,
                                    ),
                                },
                            },
                        },
                    },
                },
            },
        },
    }
}

/// Parses the tail of a submit-sm body, from the schedule delivery time
/// on.
pub open spec fn p_submit_sm_tail(
    seqno: u32,
    service_type: Seq<char>,
    source_addr_ton: Ton,
    source_addr_npi: Npi,
    source_addr: Seq<char>,
    dest_addr_ton: Ton,
    dest_addr_npi: Npi,
    destination_addr: Seq<char>,
    esm_class: u8,
    protocol_id: u8,
    priority_flag: u8,
    r9: Seq<u8>,
) -> Option<SubmitSmRequestV> {
    match p_cstr(r9, 17) {
        None => None,
        Some((sched, r10)) => match p_cstr(r10, 17) {
            None => None,
            Some((valid, r11)) => match p_u8(r11) {
                None => None,
                Some((registered_delivery, r12)) => match p_u8(r12) {
                    None => None,
                    Some((replace_if_present_flag, r13)) => match p_u8(r13) {
                        None => None,
                        Some((data_coding, r14)) => match p_u8(r14) {
                            None => None,
                            Some((sm_default_msg_id, r15)) => match p_u8(r15) {
                                None => None,
                                Some((sm_len, r16)) => match p_fixed(r16, sm_len as nat) {
                                    None => None,
                                    Some((short_message, r17)) => match p_tlvs(r17) {
                                        None => None,
                                        Some(tlvs) => Some(
                                            SubmitSmRequestV {
                                                sequence_number: seqno,
                                                service_type,
                                                source_addr_ton,
                                                source_addr_npi,
                                                source_addr,
                                                dest_addr_ton,
                                                dest_addr_npi,
                                                destination_addr,
                                                esm_class,
                                                protocol_id,
                                                priority_flag,
                                                schedule_delivery_time: opt_of_chars(sched),
                                                validity_period: opt_of_chars(valid),
                                                registered_delivery,
                                                replace_if_present_flag,
                                                data_coding,
                                                sm_default_msg_id,
                                                short_message,
                                                tlvs,
                                            },
                                        ),
                                    },
                                },
                            },
                        },
                    },
                },
            },
        },
    }
}

/// Encodes a `SubmitSmRequest` into a byte vector.
#[verifier::rlimit(100)]
pub fn encode_submit_sm_request(request: &SubmitSmRequest) -> (r: Vec<u8>)
    requires
        wf_submit_sm_request(request@),
    ensures
        r@ == submit_sm_request_enc(request@),
{
    let mut body: Vec<u8> = Vec::new();
    put_cstr(&mut body, request.service_type.as_str());
    put_u8(&mut body, request.source_addr_ton.to_byte());
    put_u8(&mut body, request.source_addr_npi.to_byte());
    put_cstr(&mut body, request.source_addr.as_str());
    put_u8(&mut body, request.dest_addr_ton.to_byte());
    put_u8(&mut body, request.dest_addr_npi.to_byte());
    put_cstr(&mut body, request.destination_addr.as_str());
    put_u8(&mut body, request.esm_class);
    put_u8(&mut body, request.protocol_id);
    put_u8(&mut body, request.priority_flag);
    put_opt_cstr(&mut body, &request.schedule_delivery_time);
    put_opt_cstr(&mut body, &request.validity_period);
    put_u8(&mut body, request.registered_delivery);
    put_u8(&mut body, request.replace_if_present_flag);
    put_u8(&mut body, request.data_coding);
    put_u8(&mut body, request.sm_default_msg_id);
    put_u8(&mut body, request.short_message.len() as u8);
    put_bytes(&mut body, request.short_message.as_slice());
    put_tlvs(&mut body, &request.tlvs);
    assert(body@ =~= submit_sm_body(request@));
    frame_pdu(CMD_SUBMIT_SM, 0, request.sequence_number, body)
}

/// Decodes a byte buffer into a `SubmitSmRequest`.
#[verifier::rlimit(100)]
pub fn decode_submit_sm_request(buffer: &[u8]) -> (r: Result<SubmitSmRequest, String>)
    ensures
        r is Ok <==> p_submit_sm_request(buffer@) is Some,
        r matches Ok(m) ==> p_submit_sm_request(buffer@) == Some(m@),
        r is Ok ==> frame_consistent(buffer@),
{
    let h = match rd_frame(buffer) {
        None => {
            return Err(String::from_str("submit sm: bad frame"));
        },
        Some(h) => h,
    };
    if h.command_id != CMD_SUBMIT_SM {
        return Err(String::from_str("submit sm: wrong command"));
    }
    let (service_type, i0) = match rd_cstr(buffer, 16, 6) {
        None => {
            return Err(String::from_str("submit sm: malformed buffer"));
        },
        Some(x) => x,
    };
    let (tb, i1) = match rd_u8(buffer, i0) {
        None => {
            return Err(String::from_str("submit sm: malformed buffer"));
        },
        Some(x) => x,
    };
    let source_addr_ton = match Ton::from_byte(tb) {
        None => {
            return Err(String::from_str("submit sm: malformed buffer"));
        },
        Some(x) => x,
    };
    let (nb, i2) = match rd_u8(buffer, i1) {
        None => {
            return Err(String::from_str("submit sm: malformed buffer"));
        },
        Some(x) => x,
    };
    let source_addr_npi = match Npi::from_byte(nb) {
        None => {
            return Err(String::from_str("submit sm: malformed buffer"));
        },
        Some(x) => x,
    };
    let (source_addr, i3) = match rd_cstr(buffer, i2, 21) {
        None => {
            return Err(String::from_str("submit sm: malformed buffer"));
        },
        Some(x) => x,
    };
    let (tb2, i4) = match rd_u8(buffer, i3) {
        None => {
            return Err(String::from_str("submit sm: malformed buffer"));
        },
        Some(x) => x,
    };
    let dest_addr_ton = match Ton::from_byte(tb2) {
        None => {
            return Err(String::from_str("submit sm: malformed buffer"));
        },
        Some(x) => x,
    };
    let (nb2, i5) = match rd_u8(buffer, i4) {
        None => {
            return Err(String::from_str("submit sm: malformed buffer"));
        },
        Some(x) => x,
    };
    let dest_addr_npi = match Npi::from_byte(nb2) {
        None => {
            return Err(String::from_str("submit sm: malformed buffer"));
        },
        Some(x) => x,
    };
    let (destination_addr, i6) = match rd_cstr(buffer, i5, 21) {
        None => {
            return Err(String::from_str("submit sm: malformed buffer"));
        },
        Some(x) => x,
    };
    let (esm_class, i7) = match rd_u8(buffer, i6) {
        None => {
            return Err(String::from_str("submit sm: malformed buffer"));
        },
        Some(x) => x,
    };
    let (protocol_id, i8) = match rd_u8(buffer, i7) {
        None => {
            return Err(String::from_str("submit sm: malformed buffer"));
        },
        Some(x) => x,
    };
    let (priority_flag, i9) = match rd_u8(buffer, i8) {
        None => {
            return Err(String::from_str("submit sm: malformed buffer"));
        },
        Some(x) => x,
    };
    let (schedule_delivery_time, i10) = match rd_opt_cstr(buffer, i9, 17) {
        None => {
            return Err(String::from_str("submit sm: malformed buffer"));
        },
        Some(x) => x,
    };
    let (validity_period, i11) = match rd_opt_cstr(buffer, i10, 17) {
        None => {
            return Err(String::from_str("submit sm: malformed buffer"));
        },
        Some(x) => x,
    };
    let (registered_delivery, i12) = match rd_u8(buffer, i11) {
        None => {
            return Err(String::from_str("submit sm: malformed buffer"));
        },
        Some(x) => x,
    };
    let (replace_if_present_flag, i13) = match rd_u8(buffer, i12) {
        None => {
            return Err(String::from_str("submit sm: malformed buffer"));
        },
        Some(x) => x,
    };
    let (data_coding, i14) = match rd_u8(buffer, i13) {
        None => {
            return Err(String::from_str("submit sm: malformed buffer"));
        },
        Some(x) => x,
    };
    let (sm_default_msg_id, i15) = match rd_u8(buffer, i14) {
        None => {
            return Err(String::from_str("submit sm: malformed buffer"));
        },
        Some(x) => x,
    };
    let (sm_len, i16) = match rd_u8(buffer, i15) {
        None => {
            return Err(String::from_str("submit sm: malformed buffer"));
        },
        Some(x) => x,
    };
    let (short_message, i17) = match rd_fixed(buffer, i16, sm_len as usize) {
        None => {
            return Err(String::from_str("submit sm: malformed buffer"));
        },
        Some(x) => x,
    };
    let tlvs = match rd_tlvs(buffer, i17) {
        None => {
            return Err(String::from_str("submit sm: malformed buffer"));
        },
        Some(x) => x,
    };
    let req = SubmitSmRequest {
        sequence_number: h.sequence_number,
        service_type,
        source_addr_ton,
        source_addr_npi,
        source_addr,
        dest_addr_ton,
        dest_addr_npi,
        destination_addr,
        esm_class,
        protocol_id,
        priority_flag,
        schedule_delivery_time,
        validity_period,
        registered_delivery,
        replace_if_present_flag,
        data_coding,
        sm_default_msg_id,
        short_message,
        tlvs,
    };
    proof {
        crate::header::lemma_frame_consistent(buffer@);
        assert(p_submit_sm_request(buffer@) == Some(req@));
    }
    Ok(req)
}

/// Parsing the tail bytes of a well-formed submit-sm request yields it
/// back.
#[verifier::rlimit(100)]
pub proof fn lemma_submit_sm_tail_roundtrip(m: SubmitSmRequestV)
    requires
        wf_submit_sm_request(m),
    ensures
        p_submit_sm_tail(
            m.sequence_number,
            m.service_type,
            m.source_addr_ton,
            m.source_addr_npi,
            m.source_addr,
            m.dest_addr_ton,
            m.dest_addr_npi,
            m.destination_addr,
            m.esm_class,
            m.protocol_id,
            m.priority_flag,
            submit_sm_tail_bytes(m),
        ) == Some(m),
{
    let tail17 = tlvs_enc(m.tlvs);
    let tail16 = m.short_message + tail17;
    let tail15 = seq![m.short_message.len() as u8] + tail16;
    let tail14 = seq![m.sm_default_msg_id] + tail15;
    let tail13 = seq![m.data_coding] + tail14;
    let tail12 = seq![m.replace_if_present_flag] + tail13;
    let tail11 = seq![m.registered_delivery] + tail12;
    let tail10 = cstr_enc(opt_chars(m.validity_period)) + tail11;
    assert(submit_sm_tail_bytes(m) =~= cstr_enc(opt_chars(m.schedule_delivery_time)) + tail10);
    lemma_opt_roundtrip(m.schedule_delivery_time, 17);
    lemma_p_cstr(opt_chars(m.schedule_delivery_time), 17, tail10);
    lemma_opt_roundtrip(m.validity_period, 17);
    lemma_p_cstr(opt_chars(m.validity_period), 17, tail11);
    lemma_p_u8(m.registered_delivery, tail12);
    lemma_p_u8(m.replace_if_present_flag, tail13);
    lemma_p_u8(m.data_coding, tail14);
    lemma_p_u8(m.sm_default_msg_id, tail15);
    lemma_p_u8(m.short_message.len() as u8, tail16);
    lemma_p_fixed(m.short_message, tail17);
    assert((m.short_message.len() as u8) as nat == m.short_message.len());
    lemma_p_tlvs(m.tlvs);
}

/// Parsing the middle bytes of a well-formed submit-sm request yields it
/// back.
#[verifier::rlimit(100)]
pub proof fn lemma_submit_sm_mid_roundtrip(m: SubmitSmRequestV)
    requires
        wf_submit_sm_request(m),
    ensures
        p_submit_sm_mid(
            m.sequence_number,
            m.service_type,
            m.source_addr_ton,
            m.source_addr_npi,
            m.source_addr,
            submit_sm_mid_bytes(m),
        ) == Some(m),
{
    let tail9 = submit_sm_tail_bytes(m);
    let tail8 = seq![m.priority_flag] + tail9;
    let tail7 = seq![m.protocol_id] + tail8;
    let tail6 = seq![m.esm_class] + tail7;
    let tail5 = cstr_enc(m.destination_addr) + tail6;
    let tail4 = seq![npi_value(m.dest_addr_npi)] + tail5;
    assert(submit_sm_mid_bytes(m) =~= seq![ton_value(m.dest_addr_ton)] + tail4);
    lemma_p_u8(ton_value(m.dest_addr_ton), tail4);
    crate::common::lemma_ton_roundtrip(m.dest_addr_ton);
    lemma_p_u8(npi_value(m.dest_addr_npi), tail5);
    crate::common::lemma_npi_roundtrip(m.dest_addr_npi);
    lemma_p_cstr(m.destination_addr, 21, tail6);
    lemma_p_u8(m.esm_class, tail7);
    lemma_p_u8(m.protocol_id, tail8);
    lemma_p_u8(m.priority_flag, tail9);
    lemma_submit_sm_tail_roundtrip(m);
}

/// Parsing the encoding of a well-formed submit-sm request yields it back.
#[verifier::rlimit(100)]
pub proof fn lemma_submit_sm_request_roundtrip(m: SubmitSmRequestV)
    requires
        wf_submit_sm_request(m),
    ensures
        p_submit_sm_request(submit_sm_request_enc(m)) == Some(m),
{
    let body = submit_sm_body(m);
    lemma_p_frame(CMD_SUBMIT_SM, 0, m.sequence_number, body);
    let tail3 = submit_sm_mid_bytes(m);
    let tail2 = cstr_enc(m.source_addr) + tail3;
    let tail1 = seq![npi_value(m.source_addr_npi)] + tail2;
    let tail0 = seq![ton_value(m.source_addr_ton)] + tail1;
    assert(body =~= cstr_enc(m.service_type) + tail0);
    lemma_p_cstr(m.service_type, 6, tail0);
    lemma_p_u8(ton_value(m.source_addr_ton), tail1);
    crate::common::lemma_ton_roundtrip(m.source_addr_ton);
    lemma_p_u8(npi_value(m.source_addr_npi), tail2);
    crate::common::lemma_npi_roundtrip(m.source_addr_npi);
    lemma_p_cstr(m.source_addr, 21, tail3);
    lemma_submit_sm_mid_roundtrip(m);
}

// ---------------------------------------------------------------------------
// Submit SM response
// ---------------------------------------------------------------------------

/// A submit-sm response.
#[derive(Debug, Clone, PartialEq)]
pub struct SubmitSmResponse {
    /// The sequence number of the PDU.
    pub sequence_number: u32,
    /// The command status.
    pub command_status: u32,
    /// The message identifier assigned to the submission.
    pub message_id: String,
    /// The human-readable name of the command status.
    pub status_description: String,
}

/// Model of a [`SubmitSmResponse`].
pub struct SubmitSmResponseV {
    /// The sequence number of the PDU.
    pub sequence_number: u32,
    /// The command status.
    pub command_status: u32,
    /// The message identifier.
    pub message_id: Seq<char>,
    /// The human-readable name of the command status.
    pub status_description: Seq<char>,
}

impl View for SubmitSmResponse {
    type V = SubmitSmResponseV;

    open spec fn view(&self) -> SubmitSmResponseV {
        SubmitSmResponseV {
            sequence_number: self.sequence_number,
            command_status: self.command_status,
            message_id: self.message_id@,
            status_description: self.status_description@,
        }
    }
}

/// Field bounds of a submit-sm response.
pub open spec fn wf_submit_sm_response(m: SubmitSmResponseV) -> bool {
    &&& wf_cstr(m.message_id, 65)
    &&& m.status_description == status_text(m.command_status)
}

/// Wire bytes of a submit-sm response.
pub open spec fn submit_sm_response_enc(m: SubmitSmResponseV) -> Seq<u8> {
    pdu_frame(CMD_SUBMIT_SM_RESP, m.command_status, m.sequence_number, cstr_enc(m.message_id))
}

/// Parses a submit-sm response buffer.
pub open spec fn p_submit_sm_response(b: Seq<u8>) -> Option<SubmitSmResponseV> {
    match p_frame(b) {
        None => None,
        Some((h, body)) => if h.command_id != CMD_SUBMIT_SM_RESP {
            None
        } else {
            match p_cstr(body, 65) {
                None => None,
                Some((message_id, r1)) => if r1.len() == 0 {
                    Some(
                        SubmitSmResponseV {
                            sequence_number: h.sequence_number,
                            command_status: h.command_status,
                            message_id,
                            status_description: status_text(h.command_status),
                        },
                    )
                } else {
                    None
                },
            }
        },
    }
}

/// Encodes a `SubmitSmResponse` into a byte vector. The status description
/// is not written: it is derived from the command status on decode.
pub fn encode_submit_sm_response(response: &SubmitSmResponse) -> (r: Vec<u8>)
    requires
        wf_submit_sm_response(response@),
    ensures
        r@ == submit_sm_response_enc(response@),
{
    let mut body: Vec<u8> = Vec::new();
    put_cstr(&mut body, response.message_id.as_str());
    frame_pdu(CMD_SUBMIT_SM_RESP, response.command_status, response.sequence_number, body)
}

/// Decodes a byte buffer into a `SubmitSmResponse`.
pub fn decode_submit_sm_response(buffer: &[u8]) -> (r: Result<SubmitSmResponse, String>)
    ensures
        r is Ok <==> p_submit_sm_response(buffer@) is Some,
        r matches Ok(m) ==> p_submit_sm_response(buffer@) == Some(m@),
        r is Ok ==> frame_consistent(buffer@),
{
    let h = match rd_frame(buffer) {
        None => {
            return Err(String::from_str("submit sm response: bad frame"));
        },
        Some(h) => h,
    };
    if h.command_id != CMD_SUBMIT_SM_RESP {
        return Err(String::from_str("submit sm response: wrong command"));
    }
    let (message_id, i1) = match rd_cstr(buffer, 16, 65) {
        None => {
            return Err(String::from_str("submit sm response: bad message_id"));
        },
        Some(x) => x,
    };
    if i1 != buffer.len() {
        assert(buffer@.skip(i1 as int).len() > 0);
        return Err(String::from_str("submit sm response: residual bytes"));
    }
    assert(buffer@.skip(i1 as int).len() == 0);
    let resp = SubmitSmResponse {
        sequence_number: h.sequence_number,
        command_status: h.command_status,
        message_id,
        status_description: get_status_description(h.command_status),
    };
    proof {
        crate::header::lemma_frame_consistent(buffer@);
        assert(p_submit_sm_response(buffer@) == Some(resp@));
    }
    Ok(resp)
}

/// Parsing the encoding of a well-formed submit-sm response yields it
/// back.
pub proof fn lemma_submit_sm_response_roundtrip(m: SubmitSmResponseV)
    requires
        wf_submit_sm_response(m),
    ensures
        p_submit_sm_response(submit_sm_response_enc(m)) == Some(m),
{
    let body = cstr_enc(m.message_id);
    assert(body.len() <= 65);
    lemma_p_frame(CMD_SUBMIT_SM_RESP, m.command_status, m.sequence_number, body);
    assert(body =~= cstr_enc(m.message_id) + Seq::<u8>::empty());
    lemma_p_cstr(m.message_id, 65, Seq::empty());
}

} // verus!
