//! Ancillary submission PDUs: query, cancel and replace, for both short
//! messages and broadcasts.

use vstd::prelude::*;

use crate::common::{
    status_text, CMD_CANCEL_BROADCAST_SM, CMD_CANCEL_BROADCAST_SM_RESP, CMD_CANCEL_SM,
    CMD_CANCEL_SM_RESP, CMD_QUERY_BROADCAST_SM, CMD_QUERY_BROADCAST_SM_RESP, CMD_QUERY_SM,
    CMD_QUERY_SM_RESP, CMD_REPLACE_SM, CMD_REPLACE_SM_RESP, get_status_description, Npi,
    npi_of_value, npi_value, Ton, ton_of_value, ton_value,
};
use crate::header::{frame_consistent, frame_pdu, lemma_p_frame, p_frame, pdu_frame, rd_frame};
use crate::tlv::{
    lemma_p_tlvs, p_tlvs, put_tlvs, rd_tlvs, tlv_views, tlvs_enc, wf_tlvs, Tlv, TlvV,
};
use crate::wire::{
    cstr_enc, lemma_p_cstr, lemma_p_fixed, lemma_p_u8, p_cstr, p_fixed, p_u8, put_bytes, put_cstr,
    put_u8, rd_cstr, rd_fixed, rd_u8, wf_cstr,
};

verus! {

// ---------------------------------------------------------------------------
// Query SM
// ---------------------------------------------------------------------------

/// A query-sm request.
#[derive(Debug, Clone, PartialEq)]
pub struct QuerySmRequest {
    /// The sequence number of the PDU.
    pub sequence_number: u32,
    /// The message identifier being queried.
    pub message_id: String,
    /// The type of number for the source address.
    pub source_addr_ton: Ton,
    /// The numbering plan indicator for the source address.
    pub source_addr_npi: Npi,
    /// The source address.
    pub source_addr: String,
}

/// Model of a [`QuerySmRequest`].
pub struct QuerySmRequestV {
    /// The sequence number of the PDU.
    pub sequence_number: u32,
    /// The message identifier.
    pub message_id: Seq<char>,
    /// The type of number.
    pub source_addr_ton: Ton,
    /// The numbering plan indicator.
    pub source_addr_npi: Npi,
    /// The source address.
    pub source_addr: Seq<char>,
}

impl View for QuerySmRequest {
    type V = QuerySmRequestV;

    open spec fn view(&self) -> QuerySmRequestV {
        QuerySmRequestV {
            sequence_number: self.sequence_number,
            message_id: self.message_id@,
            source_addr_ton: self.source_addr_ton,
            source_addr_npi: self.source_addr_npi,
            source_addr: self.source_addr@,
        }
    }
}

/// Field bounds of a query-sm request.
pub open spec fn wf_query_sm_request(m: QuerySmRequestV) -> bool {
    &&& wf_cstr(m.message_id, 65)
    &&& wf_cstr(m.source_addr, 21)
}

/// Body bytes of a query-sm request.
pub open spec fn query_sm_request_body(m: QuerySmRequestV) -> Seq<u8> {
    cstr_enc(m.message_id) + seq![ton_value(m.source_addr_ton), npi_value(m.source_addr_npi)]
        + cstr_enc(m.source_addr)
}

/// Wire bytes of a query-sm request.
pub open spec fn query_sm_request_enc(m: QuerySmRequestV) -> Seq<u8> {
    pdu_frame(CMD_QUERY_SM, 0, m.sequence_number, query_sm_request_body(m))
}

/// Parses a query-sm request buffer.
pub open spec fn p_query_sm_request(b: Seq<u8>) -> Option<QuerySmRequestV> {
    match p_frame(b) {
        None => None,
        Some((h, body)) => if h.command_id != CMD_QUERY_SM {
            None
        } else {
            match p_cstr(body, 65) {
                None => None,
                Some((message_id, r1)) => match p_u8(r1) {
                    None => None,
                    Some((tb, r2)) => match ton_of_value(tb) {
                        None => None,
                        Some(source_addr_ton) => match p_u8(r2) {
                            None => None,
                            Some((nb, r3)) => match npi_of_value(nb) {
                                None => None,
                                Some(source_addr_npi) => match p_cstr(r3, 21) {
                                    None => None,
                                    Some((source_addr, r4)) => if r4.len() == 0 {
                                        Some(
                                            QuerySmRequestV {
                                                sequence_number: h.sequence_number,
                                                message_id,
                                                source_addr_ton,
                                                source_addr_npi,
                                                source_addr,
                                            },
                                        )
                                    } else {
                                        None
                                    },
                                },
                            },
                        },
                    },
                },
            }
        },
    }
}

/// Encodes a `QuerySmRequest` into a byte vector.
pub fn encode_query_sm_request(request: &QuerySmRequest) -> (r: Vec<u8>)
    requires
        wf_query_sm_request(request@),
    ensures
        r@ == query_sm_request_enc(request@),
{
    let mut body: Vec<u8> = Vec::new();
    put_cstr(&mut body, request.message_id.as_str());
    put_u8(&mut body, request.source_addr_ton.to_byte());
    put_u8(&mut body, request.source_addr_npi.to_byte());
    put_cstr(&mut body, request.source_addr.as_str());
    assert(body@ =~= query_sm_request_body(request@));
    frame_pdu(CMD_QUERY_SM, 0, request.sequence_number, body)
}

/// Decodes a byte buffer into a `QuerySmRequest`.
pub fn decode_query_sm_request(buffer: &[u8]) -> (r: Result<
    QuerySmRequest,
    crate::common::SmppFfiError,
>)
    ensures
        r is Ok <==> p_query_sm_request(buffer@) is Some,
        r matches Ok(m) ==> p_query_sm_request(buffer@) == Some(m@),
        r is Ok ==> frame_consistent(buffer@),
{
    let h = match rd_frame(buffer) {
        None => {
            return Err(
                crate::common::SmppFfiError::Generic {
                    msg: String::from_str("query sm: bad frame"),
                },
            );
        },
        Some(h) => h,
    };
    if h.command_id != CMD_QUERY_SM {
        return Err(
            crate::common::SmppFfiError::Generic {
                msg: String::from_str("query sm: wrong command"),
            },
        );
    }
    let (message_id, i1) = match rd_cstr(buffer, 16, 65) {
        None => {
            return Err(
                crate::common::SmppFfiError::Generic {
                    msg: String::from_str("query sm: bad message_id"),
                },
            );
        },
        Some(x) => x,
    };
    let (tb, i2) = match rd_u8(buffer, i1) {
        None => {
            return Err(
                crate::common::SmppFfiError::Generic {
                    msg: String::from_str("query sm: missing source_addr_ton"),
                },
            );
        },
        Some(x) => x,
    };
    let source_addr_ton = match Ton::from_byte(tb) {
        None => {
            return Err(
                crate::common::SmppFfiError::Generic {
                    msg: String::from_str("query sm: bad source_addr_ton"),
                },
            );
        },
        Some(x) => x,
    };
    let (nb, i3) = match rd_u8(buffer, i2) {
        None => {
            return Err(
                crate::common::SmppFfiError::Generic {
                    msg: String::from_str("query sm: missing source_addr_npi"),
                },
            );
        },
        Some(x) => x,
    };
    let source_addr_npi = match Npi::from_byte(nb) {
        None => {
            return Err(
                crate::common::SmppFfiError::Generic {
                    msg: String::from_str("query sm: bad source_addr_npi"),
                },
            );
        },
        Some(x) => x,
    };
    let (source_addr, i4) = match rd_cstr(buffer, i3, 21) {
        None => {
            return Err(
                crate::common::SmppFfiError::Generic {
                    msg: String::from_str("query sm: bad source_addr"),
                },
            );
        },
        Some(x) => x,
    };
    if i4 != buffer.len() {
        assert(buffer@.skip(i4 as int).len() > 0);
        return Err(
            crate::common::SmppFfiError::Generic {
                msg: String::from_str("query sm: residual bytes"),
            },
        );
    }
    assert(buffer@.skip(i4 as int).len() == 0);
    let req = QuerySmRequest {
        sequence_number: h.sequence_number,
        message_id,
        source_addr_ton,
        source_addr_npi,
        source_addr,
    };
    proof {
        crate::header::lemma_frame_consistent(buffer@);
        assert(p_query_sm_request(buffer@) == Some(req@));
    }
    Ok(req)
}

/// Parsing the encoding of a well-formed query-sm request yields it back.
#[verifier::rlimit(50)]
pub proof fn lemma_query_sm_request_roundtrip(m: QuerySmRequestV)
    requires
        wf_query_sm_request(m),
    ensures
        p_query_sm_request(query_sm_request_enc(m)) == Some(m),
{
    let body = query_sm_request_body(m);
    assert(body.len() <= 88);
    lemma_p_frame(CMD_QUERY_SM, 0, m.sequence_number, body);
    let tail3 = Seq::<u8>::empty();
    let tail2 = cstr_enc(m.source_addr) + tail3;
    let tail1 = seq![npi_value(m.source_addr_npi)] + tail2;
    let tail0 = seq![ton_value(m.source_addr_ton)] + tail1;
    assert(body =~= cstr_enc(m.message_id) + tail0);
    lemma_p_cstr(m.message_id, 65, tail0);
    lemma_p_u8(ton_value(m.source_addr_ton), tail1);
    crate::common::lemma_ton_roundtrip(m.source_addr_ton);
    lemma_p_u8(npi_value(m.source_addr_npi), tail2);
    crate::common::lemma_npi_roundtrip(m.source_addr_npi);
    assert(tail2 =~= cstr_enc(m.source_addr));
    lemma_p_cstr(m.source_addr, 21, tail3);
    assert(cstr_enc(m.source_addr) + tail3 =~= cstr_enc(m.source_addr));
}

/// A query-sm response.
#[derive(Debug, Clone, PartialEq)]
pub struct QuerySmResponse {
    /// The sequence number of the PDU.
    pub sequence_number: u32,
    /// The command status.
    pub command_status: u32,
    /// The message identifier.
    pub message_id: String,
    /// The final date, empty when the message has no final state yet.
    pub final_date: String,
    /// The message state byte.
    pub message_state: u8,
    /// The network error code byte.
    pub error_code: u8,
    /// The human-readable name of the command status.
    pub status_description: String,
}

/// Model of a [`QuerySmResponse`].
pub struct QuerySmResponseV {
    /// The sequence number of the PDU.
    pub sequence_number: u32,
    /// The command status.
    pub command_status: u32,
    /// The message identifier.
    pub message_id: Seq<char>,
    /// The final date.
    pub final_date: Seq<char>,
    /// The message state byte.
    pub message_state: u8,
    /// The network error code byte.
    pub error_code: u8,
    /// The human-readable name of the command status.
    pub status_description: Seq<char>,
}

impl View for QuerySmResponse {
    type V = QuerySmResponseV;

    open spec fn view(&self) -> QuerySmResponseV {
        QuerySmResponseV {
            sequence_number: self.sequence_number,
            command_status: self.command_status,
            message_id: self.message_id@,
            final_date: self.final_date@,
            message_state: self.message_state,
            error_code: self.error_code,
            status_description: self.status_description@,
        }
    }
}

/// Field bounds of a query-sm response. The status description is not a
/// wire field: it must be the name its command status looks up to.
pub open spec fn wf_query_sm_response(m: QuerySmResponseV) -> bool {
    &&& wf_cstr(m.message_id, 65)
    &&& wf_cstr(m.final_date, 17)
    &&& m.status_description == status_text(m.command_status)
}

/// Body bytes of a query-sm response.
pub open spec fn query_sm_response_body(m: QuerySmResponseV) -> Seq<u8> {
    cstr_enc(m.message_id) + cstr_enc(m.final_date) + seq![m.message_state, m.error_code]
}

/// Wire bytes of a query-sm response.
pub open spec fn query_sm_response_enc(m: QuerySmResponseV) -> Seq<u8> {
    pdu_frame(CMD_QUERY_SM_RESP, m.command_status, m.sequence_number, query_sm_response_body(m))
}

/// Parses a query-sm response buffer. The status description is filled from
/// the status lookup, not from the wire.
pub open spec fn p_query_sm_response(b: Seq<u8>) -> Option<QuerySmResponseV> {
    match p_frame(b) {
        None => None,
        Some((h, body)) => if h.command_id != CMD_QUERY_SM_RESP {
            None
        } else {
            match p_cstr(body, 65) {
                None => None,
                Some((message_id, r1)) => match p_cstr(r1, 17) {
                    None => None,
                    Some((final_date, r2)) => match p_u8(r2) {
                        None => None,
                        Some((message_state, r3)) => match p_u8(r3) {
                            None => None,
                            Some((error_code, r4)) => if r4.len() == 0 {
                                Some(
                                    QuerySmResponseV {
                                        sequence_number: h.sequence_number,
                                        command_status: h.command_status,
                                        message_id,
                                        final_date,
                                        message_state,
                                        error_code,
                                        status_description: status_text(h.command_status),
                                    },
                                )
                            } else {
                                None
                            },
                        },
                    },
                },
            }
        },
    }
}

/// Encodes a `QuerySmResponse` into a byte vector. The status description
/// is not written: it is derived from the command status on decode.
pub fn encode_query_sm_response(response: &QuerySmResponse) -> (r: Vec<u8>)
    requires
        wf_query_sm_response(response@),
    ensures
        r@ == query_sm_response_enc(response@),
{
    let mut body: Vec<u8> = Vec::new();
    put_cstr(&mut body, response.message_id.as_str());
    put_cstr(&mut body, response.final_date.as_str());
    put_u8(&mut body, response.message_state);
    put_u8(&mut body, response.error_code);
    assert(body@ =~= query_sm_response_body(response@));
    frame_pdu(CMD_QUERY_SM_RESP, response.command_status, response.sequence_number, body)
}

/// Decodes a byte buffer into a `QuerySmResponse`.
pub fn decode_query_sm_response(buffer: &[u8]) -> (r: Result<
    QuerySmResponse,
    crate::common::SmppFfiError,
>)
    ensures
        r is Ok <==> p_query_sm_response(buffer@) is Some,
        r matches Ok(m) ==> p_query_sm_response(buffer@) == Some(m@),
        r is Ok ==> frame_consistent(buffer@),
{
    let h = match rd_frame(buffer) {
        None => {
            return Err(
                crate::common::SmppFfiError::Generic {
                    msg: String::from_str("query sm response: bad frame"),
                },
            );
        },
        Some(h) => h,
    };
    if h.command_id != CMD_QUERY_SM_RESP {
        return Err(
            crate::common::SmppFfiError::Generic {
                msg: String::from_str("query sm response: wrong command"),
            },
        );
    }
    let (message_id, i1) = match rd_cstr(buffer, 16, 65) {
        None => {
            return Err(
                crate::common::SmppFfiError::Generic {
                    msg: String::from_str("query sm response: bad message_id"),
                },
            );
        },
        Some(x) => x,
    };
    let (final_date, i2) = match rd_cstr(buffer, i1, 17) {
        None => {
            return Err(
                crate::common::SmppFfiError::Generic {
                    msg: String::from_str("query sm response: bad final_date"),
                },
            );
        },
        Some(x) => x,
    };
    let (message_state, i3) = match rd_u8(buffer, i2) {
        None => {
            return Err(
                crate::common::SmppFfiError::Generic {
                    msg: String::from_str("query sm response: missing message_state"),
                },
            );
        },
        Some(x) => x,
    };
    let (error_code, i4) = match rd_u8(buffer, i3) {
        None => {
            return Err(
                crate::common::SmppFfiError::Generic {
                    msg: String::from_str("query sm response: missing error_code"),
                },
            );
        },
        Some(x) => x,
    };
    if i4 != buffer.len() {
        assert(buffer@.skip(i4 as int).len() > 0);
        return Err(
            crate::common::SmppFfiError::Generic {
                msg: String::from_str("query sm response: residual bytes"),
            },
        );
    }
    assert(buffer@.skip(i4 as int).len() == 0);
    let resp = QuerySmResponse {
        sequence_number: h.sequence_number,
        command_status: h.command_status,
        message_id,
        final_date,
        message_state,
        error_code,
        status_description: get_status_description(h.command_status),
    };
    proof {
        crate::header::lemma_frame_consistent(buffer@);
        assert(p_query_sm_response(buffer@) == Some(resp@));
    }
    Ok(resp)
}

/// Parsing the encoding of a well-formed query-sm response yields it back.
pub proof fn lemma_query_sm_response_roundtrip(m: QuerySmResponseV)
    requires
        wf_query_sm_response(m),
    ensures
        p_query_sm_response(query_sm_response_enc(m)) == Some(m),
{
    let body = query_sm_response_body(m);
    assert(body.len() <= 84);
    lemma_p_frame(CMD_QUERY_SM_RESP, m.command_status, m.sequence_number, body);
    let tail3 = Seq::<u8>::empty();
    let tail2 = seq![m.error_code] + tail3;
    let tail1 = seq![m.message_state] + tail2;
    let tail0 = cstr_enc(m.final_date) + tail1;
    assert(body =~= cstr_enc(m.message_id) + tail0);
    lemma_p_cstr(m.message_id, 65, tail0);
    lemma_p_cstr(m.final_date, 17, tail1);
    lemma_p_u8(m.message_state, tail2);
    lemma_p_u8(m.error_code, tail3);
    assert(tail3.len() == 0);
}

// ---------------------------------------------------------------------------
// Cancel SM
// ---------------------------------------------------------------------------

/// A cancel-sm request.
#[derive(Debug, Clone, PartialEq)]
pub struct CancelSmRequest {
    /// The sequence number of the PDU.
    pub sequence_number: u32,
    /// The service type.
    pub service_type: String,
    /// The message identifier being cancelled.
    pub message_id: String,
    /// The type of number for the source address.
    pub source_addr_ton: Ton,
    /// The numbering plan indicator for the source address.
    pub source_addr_npi: Npi,
    /// The source address.
    pub source_addr: String,
    /// The type of number for the destination address.
    pub dest_addr_ton: Ton,
    /// The numbering plan indicator for the destination address.
    pub dest_addr_npi: Npi,
    /// The destination address.
    pub dest_addr: String,
}

/// Model of a [`CancelSmRequest`].
pub struct CancelSmRequestV {
    /// The sequence number of the PDU.
    pub sequence_number: u32,
    /// The service type.
    pub service_type: Seq<char>,
    /// The message identifier.
    pub message_id: Seq<char>,
    /// The source type of number.
    pub source_addr_ton: Ton,
    /// The source numbering plan indicator.
    pub source_addr_npi: Npi,
    /// The source address.
    pub source_addr: Seq<char>,
    /// The destination type of number.
    pub dest_addr_ton: Ton,
    /// The destination numbering plan indicator.
    pub dest_addr_npi: Npi,
    /// The destination address.
    pub dest_addr: Seq<char>,
}

impl View for CancelSmRequest {
    type V = CancelSmRequestV;

    open spec fn view(&self) -> CancelSmRequestV {
        CancelSmRequestV {
            sequence_number: self.sequence_number,
            service_type: self.service_type@,
            message_id: self.message_id@,
            source_addr_ton: self.source_addr_ton,
            source_addr_npi: self.source_addr_npi,
            source_addr: self.source_addr@,
            dest_addr_ton: self.dest_addr_ton,
            dest_addr_npi: self.dest_addr_npi,
            dest_addr: self.dest_addr@,
        }
    }
}

/// Field bounds of a cancel-sm request.
pub open spec fn wf_cancel_sm_request(m: CancelSmRequestV) -> bool {
    &&& wf_cstr(m.service_type, 6)
    &&& wf_cstr(m.message_id, 65)
    &&& wf_cstr(m.source_addr, 21)
    &&& wf_cstr(m.dest_addr, 21)
}

/// Body bytes of a cancel-sm request.
pub open spec fn cancel_sm_request_body(m: CancelSmRequestV) -> Seq<u8> {
    cstr_enc(m.service_type) + cstr_enc(m.message_id) + seq![
        ton_value(m.source_addr_ton),
        npi_value(m.source_addr_npi),
    ] + cstr_enc(m.source_addr) + seq![ton_value(m.dest_addr_ton), npi_value(m.dest_addr_npi)]
        + cstr_enc(m.dest_addr)
}

/// Wire bytes of a cancel-sm request.
pub open spec fn cancel_sm_request_enc(m: CancelSmRequestV) -> Seq<u8> {
    pdu_frame(CMD_CANCEL_SM, 0, m.sequence_number, cancel_sm_request_body(m))
}

/// Parses a cancel-sm request buffer.
pub open spec fn p_cancel_sm_request(b: Seq<u8>) -> Option<CancelSmRequestV> {
    match p_frame(b) {
        None => None,
        Some((h, body)) => if h.command_id != CMD_CANCEL_SM {
            None
        } else {
            match p_cstr(body, 6) {
                None => None,
                Some((service_type, r0)) => match p_cstr(r0, 65) {
                    None => None,
                    Some((message_id, r1)) => match p_u8(r1) {
                        None => None,
                        Some((tb, r2)) => match ton_of_value(tb) {
                            None => None,
                            Some(source_addr_ton) => match p_u8(r2) {
                                None => None,
                                Some((nb, r3)) => match npi_of_value(nb) {
                                    None => None,
                                    Some(source_addr_npi) => match p_cstr(r3, 21) {
                                        None => None,
                                        Some((source_addr, r4)) => match p_u8(r4) {
                                            None => None,
                                            Some((tb2, r5)) => match ton_of_value(tb2) {
                                                None => None,
                                                Some(dest_addr_ton) => match p_u8(r5) {
                                                    None => None,
                                                    Some((nb2, r6)) => match npi_of_value(nb2) {
                                                        None => None,
                                                        Some(dest_addr_npi) => match p_cstr(
                                                            r6,
                                                            21,
                                                        ) {
                                                            None => None,
                                                            Some((dest_addr, r7)) => if r7.len()
                                                                == 0 {
                                                                Some(
                                                                    CancelSmRequestV {
                                                                        sequence_number:
                                                                            h.sequence_number,
                                                                        service_type,
                                                                        message_id,
                                                                        source_addr_ton,
                                                                        source_addr_npi,
                                                                        source_addr,
                                                                        dest_addr_ton,
                                                                        dest_addr_npi,
                                                                        dest_addr,
                                                                    },
                                                                )
                                                            } else {
                                                                None
                                                            },
                                                        },
                                                    },
                                                },
                                            },
                                        },
                                    },
                                },
                            },
                        },
                    },
                },
            }
        },
    }
}

/// Encodes a `CancelSmRequest` into a byte vector.
pub fn encode_cancel_sm_request(request: &CancelSmRequest) -> (r: Vec<u8>)
    requires
        wf_cancel_sm_request(request@),
    ensures
        r@ == cancel_sm_request_enc(request@),
{
    let mut body: Vec<u8> = Vec::new();
    put_cstr(&mut body, request.service_type.as_str());
    put_cstr(&mut body, request.message_id.as_str());
    put_u8(&mut body, request.source_addr_ton.to_byte());
    put_u8(&mut body, request.source_addr_npi.to_byte());
    put_cstr(&mut body, request.source_addr.as_str());
    put_u8(&mut body, request.dest_addr_ton.to_byte());
    put_u8(&mut body, request.dest_addr_npi.to_byte());
    put_cstr(&mut body, request.dest_addr.as_str());
    assert(body@ =~= cancel_sm_request_body(request@));
    frame_pdu(CMD_CANCEL_SM, 0, request.sequence_number, body)
}

/// Decodes a byte buffer into a `CancelSmRequest`.
pub fn decode_cancel_sm_request(buffer: &[u8]) -> (r: Result<
    CancelSmRequest,
    crate::common::SmppFfiError,
>)
    ensures
        r is Ok <==> p_cancel_sm_request(buffer@) is Some,
        r matches Ok(m) ==> p_cancel_sm_request(buffer@) == Some(m@),
        r is Ok ==> frame_consistent(buffer@),
{
    let err = || crate::common::SmppFfiError::Generic {
        msg: String::from_str("cancel sm: malformed buffer"),
    };
    let h = match rd_frame(buffer) {
        None => {
            return Err(
                crate::common::SmppFfiError::Generic {
                    msg: String::from_str("cancel sm: bad frame"),
                },
            );
        },
        Some(h) => h,
    };
    if h.command_id != CMD_CANCEL_SM {
        return Err(
            crate::common::SmppFfiError::Generic {
                msg: String::from_str("cancel sm: wrong command"),
            },
        );
    }
    let (service_type, i0) = match rd_cstr(buffer, 16, 6) {
        None => {
            return Err(err());
        },
        Some(x) => x,
    };
    let (message_id, i1) = match rd_cstr(buffer, i0, 65) {
        None => {
            return Err(err());
        },
        Some(x) => x,
    };
    let (tb, i2) = match rd_u8(buffer, i1) {
        None => {
            return Err(err());
        },
        Some(x) => x,
    };
    let source_addr_ton = match Ton::from_byte(tb) {
        None => {
            return Err(err());
        },
        Some(x) => x,
    };
    let (nb, i3) = match rd_u8(buffer, i2) {
        None => {
            return Err(err());
        },
        Some(x) => x,
    };
    let source_addr_npi = match Npi::from_byte(nb) {
        None => {
            return Err(err());
        },
        Some(x) => x,
    };
    let (source_addr, i4) = match rd_cstr(buffer, i3, 21) {
        None => {
            return Err(err());
        },
        Some(x) => x,
    };
    let (tb2, i5) = match rd_u8(buffer, i4) {
        None => {
            return Err(err());
        },
        Some(x) => x,
    };
    let dest_addr_ton = match Ton::from_byte(tb2) {
        None => {
            return Err(err());
        },
        Some(x) => x,
    };
    let (nb2, i6) = match rd_u8(buffer, i5) {
        None => {
            return Err(err());
        },
        Some(x) => x,
    };
    let dest_addr_npi = match Npi::from_byte(nb2) {
        None => {
            return Err(err());
        },
        Some(x) => x,
    };
    let (dest_addr, i7) = match rd_cstr(buffer, i6, 21) {
        None => {
            return Err(err());
        },
        Some(x) => x,
    };
    if i7 != buffer.len() {
        assert(buffer@.skip(i7 as int).len() > 0);
        return Err(err());
    }
    assert(buffer@.skip(i7 as int).len() == 0);
    let req = CancelSmRequest {
        sequence_number: h.sequence_number,
        service_type,
        message_id,
        source_addr_ton,
        source_addr_npi,
        source_addr,
        dest_addr_ton,
        dest_addr_npi,
        dest_addr,
    };
    proof {
        crate::header::lemma_frame_consistent(buffer@);
        assert(p_cancel_sm_request(buffer@) == Some(req@));
    }
    Ok(req)
}

/// Parsing the encoding of a well-formed cancel-sm request yields it back.
#[verifier::rlimit(50)]
pub proof fn lemma_cancel_sm_request_roundtrip(m: CancelSmRequestV)
    requires
        wf_cancel_sm_request(m),
    ensures
        p_cancel_sm_request(cancel_sm_request_enc(m)) == Some(m),
{
    let body = cancel_sm_request_body(m);
    assert(body.len() <= 117);
    lemma_p_frame(CMD_CANCEL_SM, 0, m.sequence_number, body);
    let tail7 = Seq::<u8>::empty();
    let tail6 = cstr_enc(m.dest_addr) + tail7;
    let tail5 = seq![npi_value(m.dest_addr_npi)] + tail6;
    let tail4 = seq![ton_value(m.dest_addr_ton)] + tail5;
    let tail3 = cstr_enc(m.source_addr) + tail4;
    let tail2 = seq![npi_value(m.source_addr_npi)] + tail3;
    let tail1 = seq![ton_value(m.source_addr_ton)] + tail2;
    let tail0 = cstr_enc(m.message_id) + tail1;
    assert(body =~= cstr_enc(m.service_type) + tail0);
    lemma_p_cstr(m.service_type, 6, tail0);
    lemma_p_cstr(m.message_id, 65, tail1);
    lemma_p_u8(ton_value(m.source_addr_ton), tail2);
    crate::common::lemma_ton_roundtrip(m.source_addr_ton);
    lemma_p_u8(npi_value(m.source_addr_npi), tail3);
    crate::common::lemma_npi_roundtrip(m.source_addr_npi);
    lemma_p_cstr(m.source_addr, 21, tail4);
    lemma_p_u8(ton_value(m.dest_addr_ton), tail5);
    crate::common::lemma_ton_roundtrip(m.dest_addr_ton);
    lemma_p_u8(npi_value(m.dest_addr_npi), tail6);
    crate::common::lemma_npi_roundtrip(m.dest_addr_npi);
    assert(tail6 =~= cstr_enc(m.dest_addr));
    lemma_p_cstr(m.dest_addr, 21, tail7);
    assert(cstr_enc(m.dest_addr) + tail7 =~= cstr_enc(m.dest_addr));
}

/// A cancel-sm response; its body is empty.
#[derive(Debug, Clone, PartialEq)]
pub struct CancelSmResponse {
    /// The sequence number of the PDU.
    pub sequence_number: u32,
    /// The command status.
    pub command_status: u32,
    /// The human-readable name of the command status.
    pub status_description: String,
}

/// Model of a [`CancelSmResponse`].
pub struct CancelSmResponseV {
    /// The sequence number of the PDU.
    pub sequence_number: u32,
    /// The command status.
    pub command_status: u32,
    /// The human-readable name of the command status.
    pub status_description: Seq<char>,
}

impl View for CancelSmResponse {
    type V = CancelSmResponseV;

    open spec fn view(&self) -> CancelSmResponseV {
        CancelSmResponseV {
            sequence_number: self.sequence_number,
            command_status: self.command_status,
            status_description: self.status_description@,
        }
    }
}

/// A cancel-sm response is well formed when its status description is the
/// name its command status looks up to.
pub open spec fn wf_cancel_sm_response(m: CancelSmResponseV) -> bool {
    m.status_description == status_text(m.command_status)
}

/// Wire bytes of a cancel-sm response: a bare header carrying the status.
pub open spec fn cancel_sm_response_enc(m: CancelSmResponseV) -> Seq<u8> {
    pdu_frame(CMD_CANCEL_SM_RESP, m.command_status, m.sequence_number, Seq::empty())
}

/// Parses a cancel-sm response buffer.
pub open spec fn p_cancel_sm_response(b: Seq<u8>) -> Option<CancelSmResponseV> {
    match p_frame(b) {
        None => None,
        Some((h, body)) => if h.command_id == CMD_CANCEL_SM_RESP && body.len() == 0 {
            Some(
                CancelSmResponseV {
                    sequence_number: h.sequence_number,
                    command_status: h.command_status,
                    status_description: status_text(h.command_status),
                },
            )
        } else {
            None
        },
    }
}

/// Encodes a `CancelSmResponse` into a byte vector.
pub fn encode_cancel_sm_response(response: &CancelSmResponse) -> (r: Vec<u8>)
    ensures
        r@ == cancel_sm_response_enc(response@),
{
    let body: Vec<u8> = Vec::new();
    frame_pdu(CMD_CANCEL_SM_RESP, response.command_status, response.sequence_number, body)
}

/// Decodes a byte buffer into a `CancelSmResponse`.
pub fn decode_cancel_sm_response(buffer: &[u8]) -> (r: Result<
    CancelSmResponse,
    crate::common::SmppFfiError,
>)
    ensures
        r is Ok <==> p_cancel_sm_response(buffer@) is Some,
        r matches Ok(m) ==> p_cancel_sm_response(buffer@) == Some(m@),
        r is Ok ==> frame_consistent(buffer@),
{
    let h = match rd_frame(buffer) {
        None => {
            return Err(
                crate::common::SmppFfiError::Generic {
                    msg: String::from_str("cancel sm response: bad frame"),
                },
            );
        },
        Some(h) => h,
    };
    if h.command_id != CMD_CANCEL_SM_RESP {
        return Err(
            crate::common::SmppFfiError::Generic {
                msg: String::from_str("cancel sm response: wrong command"),
            },
        );
    }
    if buffer.len() != 16 {
        assert(buffer@.skip(16).len() > 0);
        return Err(
            crate::common::SmppFfiError::Generic {
                msg: String::from_str("cancel sm response: residual bytes"),
            },
        );
    }
    assert(buffer@.skip(16).len() == 0);
    let resp = CancelSmResponse {
        sequence_number: h.sequence_number,
        command_status: h.command_status,
        status_description: get_status_description(h.command_status),
    };
    proof {
        crate::header::lemma_frame_consistent(buffer@);
        assert(p_cancel_sm_response(buffer@) == Some(resp@));
    }
    Ok(resp)
}

/// Parsing the encoding of a well-formed cancel-sm response yields it back.
pub proof fn lemma_cancel_sm_response_roundtrip(m: CancelSmResponseV)
    requires
        wf_cancel_sm_response(m),
    ensures
        p_cancel_sm_response(cancel_sm_response_enc(m)) == Some(m),
{
    lemma_p_frame(CMD_CANCEL_SM_RESP, m.command_status, m.sequence_number, Seq::empty());
}

// ---------------------------------------------------------------------------
// Replace SM
// ---------------------------------------------------------------------------

/// A replace-sm request.
#[derive(Debug, Clone, PartialEq)]
pub struct ReplaceSmRequest {
    /// The sequence number of the PDU.
    pub sequence_number: u32,
    /// The message identifier being replaced.
    pub message_id: String,
    /// The type of number for the source address.
    pub source_addr_ton: Ton,
    /// The numbering plan indicator for the source address.
    pub source_addr_npi: Npi,
    /// The source address.
    pub source_addr: String,
    /// The schedule delivery time, empty for immediate delivery.
    pub schedule_delivery_time: String,
    /// The validity period, empty for the default.
    pub validity_period: String,
    /// The registered delivery flag.
    pub registered_delivery: u8,
    /// The default message identifier.
    pub sm_default_msg_id: u8,
    /// The replacement short message content.
    pub short_message: Vec<u8>,
}

/// Model of a [`ReplaceSmRequest`].
pub struct ReplaceSmRequestV {
    /// The sequence number of the PDU.
    pub sequence_number: u32,
    /// The message identifier.
    pub message_id: Seq<char>,
    /// The source type of number.
    pub source_addr_ton: Ton,
    /// The source numbering plan indicator.
    pub source_addr_npi: Npi,
    /// The source address.
    pub source_addr: Seq<char>,
    /// The schedule delivery time.
    pub schedule_delivery_time: Seq<char>,
    /// The validity period.
    pub validity_period: Seq<char>,
    /// The registered delivery flag.
    pub registered_delivery: u8,
    /// The default message identifier.
    pub sm_default_msg_id: u8,
    /// The replacement short message content.
    pub short_message: Seq<u8>,
}

impl View for ReplaceSmRequest {
    type V = ReplaceSmRequestV;

    open spec fn view(&self) -> ReplaceSmRequestV {
        ReplaceSmRequestV {
            sequence_number: self.sequence_number,
            message_id: self.message_id@,
            source_addr_ton: self.source_addr_ton,
            source_addr_npi: self.source_addr_npi,
            source_addr: self.source_addr@,
            schedule_delivery_time: self.schedule_delivery_time@,
            validity_period: self.validity_period@,
            registered_delivery: self.registered_delivery,
            sm_default_msg_id: self.sm_default_msg_id,
            short_message: self.short_message@,
        }
    }
}

/// Field bounds of a replace-sm request; the short message carries a
/// one-byte length, so at most 255 bytes.
pub open spec fn wf_replace_sm_request(m: ReplaceSmRequestV) -> bool {
    &&& wf_cstr(m.message_id, 65)
    &&& wf_cstr(m.source_addr, 21)
    &&& wf_cstr(m.schedule_delivery_time, 17)
    &&& wf_cstr(m.validity_period, 17)
    &&& m.short_message.len() <= 255
}

/// Body bytes of a replace-sm request.
pub open spec fn replace_sm_request_body(m: ReplaceSmRequestV) -> Seq<u8> {
    cstr_enc(m.message_id) + seq![ton_value(m.source_addr_ton), npi_value(m.source_addr_npi)]
        + cstr_enc(m.source_addr) + cstr_enc(m.schedule_delivery_time) + cstr_enc(
        m.validity_period,
    ) + seq![m.registered_delivery, m.sm_default_msg_id, m.short_message.len() as u8]
        + m.short_message
}

/// Wire bytes of a replace-sm request.
pub open spec fn replace_sm_request_enc(m: ReplaceSmRequestV) -> Seq<u8> {
    pdu_frame(CMD_REPLACE_SM, 0, m.sequence_number, replace_sm_request_body(m))
}

/// Parses a replace-sm request buffer.
pub open spec fn p_replace_sm_request(b: Seq<u8>) -> Option<ReplaceSmRequestV> {
    match p_frame(b) {
        None => None,
        Some((h, body)) => if h.command_id != CMD_REPLACE_SM {
            None
        } else {
            match p_cstr(body, 65) {
                None => None,
                Some((message_id, r1)) => match p_u8(r1) {
                    None => None,
                    Some((tb, r2)) => match ton_of_value(tb) {
                        None => None,
                        Some(source_addr_ton) => match p_u8(r2) {
                            None => None,
                            Some((nb, r3)) => match npi_of_value(nb) {
                                None => None,
                                Some(source_addr_npi) => match p_cstr(r3, 21) {
                                    None => None,
                                    Some((source_addr, r4)) => match p_cstr(r4, 17) {
                                        None => None,
                                        Some((schedule_delivery_time, r5)) => match p_cstr(
                                            r5,
                                            17,
                                        ) {
                                            None => None,
                                            Some((validity_period, r6)) => match p_u8(r6) {
                                                None => None,
                                                Some((registered_delivery, r7)) => match p_u8(
                                                    r7,
                                                ) {
                                                    None => None,
                                                    Some((sm_default_msg_id, r8)) => match p_u8(
                                                        r8,
                                                    ) {
                                                        None => None,
                                                        Some((sm_len, r9)) => match p_fixed(
                                                            r9,
                                                            sm_len as nat,
                                                        ) {
                                                            None => None,
                                                            Some((short_message, r10)) => if r10.len()
                                                                == 0 {
                                                                Some(
                                                                    ReplaceSmRequestV {
                                                                        sequence_number:
                                                                            h.sequence_number,
                                                                        message_id,
                                                                        source_addr_ton,
                                                                        source_addr_npi,
                                                                        source_addr,
                                                                        schedule_delivery_time,
                                                                        validity_period,
                                                                        registered_delivery,
                                                                        sm_default_msg_id,
                                                                        short_message,
                                                                    },
                                                                )
                                                            } else {
                                                                None
                                                            },
                                                        },
                                                    },
                                                },
                                            },
                                        },
                                    },
                                },
                            },
                        },
                    },
                },
            }
        },
    }
}

/// Encodes a `ReplaceSmRequest` into a byte vector.
pub fn encode_replace_sm_request(request: &ReplaceSmRequest) -> (r: Vec<u8>)
    requires
        wf_replace_sm_request(request@),
    ensures
        r@ == replace_sm_request_enc(request@),
{
    let mut body: Vec<u8> = Vec::new();
    put_cstr(&mut body, request.message_id.as_str());
    put_u8(&mut body, request.source_addr_ton.to_byte());
    put_u8(&mut body, request.source_addr_npi.to_byte());
    put_cstr(&mut body, request.source_addr.as_str());
    put_cstr(&mut body, request.schedule_delivery_time.as_str());
    put_cstr(&mut body, request.validity_period.as_str());
    put_u8(&mut body, request.registered_delivery);
    put_u8(&mut body, request.sm_default_msg_id);
    put_u8(&mut body, request.short_message.len() as u8);
    put_bytes(&mut body, request.short_message.as_slice());
    assert(body@ =~= replace_sm_request_body(request@));
    frame_pdu(CMD_REPLACE_SM, 0, request.sequence_number, body)
}

/// Decodes a byte buffer into a `ReplaceSmRequest`.
pub fn decode_replace_sm_request(buffer: &[u8]) -> (r: Result<
    ReplaceSmRequest,
    crate::common::SmppFfiError,
>)
    ensures
        r is Ok <==> p_replace_sm_request(buffer@) is Some,
        r matches Ok(m) ==> p_replace_sm_request(buffer@) == Some(m@),
        r is Ok ==> frame_consistent(buffer@),
{
    let err = || crate::common::SmppFfiError::Generic {
        msg: String::from_str("replace sm: malformed buffer"),
    };
    let h = match rd_frame(buffer) {
        None => {
            return Err(
                crate::common::SmppFfiError::Generic {
                    msg: String::from_str("replace sm: bad frame"),
                },
            );
        },
        Some(h) => h,
    };
    if h.command_id != CMD_REPLACE_SM {
        return Err(
            crate::common::SmppFfiError::Generic {
                msg: String::from_str("replace sm: wrong command"),
            },
        );
    }
    let (message_id, i1) = match rd_cstr(buffer, 16, 65) {
        None => {
            return Err(err());
        },
        Some(x) => x,
    };
    let (tb, i2) = match rd_u8(buffer, i1) {
        None => {
            return Err(err());
        },
        Some(x) => x,
    };
    let source_addr_ton = match Ton::from_byte(tb) {
        None => {
            return Err(err());
        },
        Some(x) => x,
    };
    let (nb, i3) = match rd_u8(buffer, i2) {
        None => {
            return Err(err());
        },
        Some(x) => x,
    };
    let source_addr_npi = match Npi::from_byte(nb) {
        None => {
            return Err(err());
        },
        Some(x) => x,
    };
    let (source_addr, i4) = match rd_cstr(buffer, i3, 21) {
        None => {
            return Err(err());
        },
        Some(x) => x,
    };
    let (schedule_delivery_time, i5) = match rd_cstr(buffer, i4, 17) {
        None => {
            return Err(err());
        },
        Some(x) => x,
    };
    let (validity_period, i6) = match rd_cstr(buffer, i5, 17) {
        None => {
            return Err(err());
        },
        Some(x) => x,
    };
    let (registered_delivery, i7) = match rd_u8(buffer, i6) {
        None => {
            return Err(err());
        },
        Some(x) => x,
    };
    let (sm_default_msg_id, i8) = match rd_u8(buffer, i7) {
        None => {
            return Err(err());
        },
        Some(x) => x,
    };
    let (sm_len, i9) = match rd_u8(buffer, i8) {
        None => {
            return Err(err());
        },
        Some(x) => x,
    };
    let (short_message, i10) = match rd_fixed(buffer, i9, sm_len as usize) {
        None => {
            return Err(err());
        },
        Some(x) => x,
    };
    if i10 != buffer.len() {
        assert(buffer@.skip(i10 as int).len() > 0);
        return Err(err());
    }
    assert(buffer@.skip(i10 as int).len() == 0);
    let req = ReplaceSmRequest {
        sequence_number: h.sequence_number,
        message_id,
        source_addr_ton,
        source_addr_npi,
        source_addr,
        schedule_delivery_time,
        validity_period,
        registered_delivery,
        sm_default_msg_id,
        short_message,
    };
    proof {
        crate::header::lemma_frame_consistent(buffer@);
        assert(p_replace_sm_request(buffer@) == Some(req@));
    }
    Ok(req)
}

/// Parsing the encoding of a well-formed replace-sm request yields it back.
#[verifier::rlimit(100)]
pub proof fn lemma_replace_sm_request_roundtrip(m: ReplaceSmRequestV)
    requires
        wf_replace_sm_request(m),
    ensures
        p_replace_sm_request(replace_sm_request_enc(m)) == Some(m),
{
    let body = replace_sm_request_body(m);
    assert(body.len() <= 65 + 2 + 21 + 17 + 17 + 3 + 255);
    lemma_p_frame(CMD_REPLACE_SM, 0, m.sequence_number, body);
    let tail10 = Seq::<u8>::empty();
    let tail9 = m.short_message + tail10;
    let tail8 = seq![m.short_message.len() as u8] + tail9;
    let tail7 = seq![m.sm_default_msg_id] + tail8;
    let tail6 = seq![m.registered_delivery] + tail7;
    let tail5 = cstr_enc(m.validity_period) + tail6;
    let tail4 = cstr_enc(m.schedule_delivery_time) + tail5;
    let tail3 = cstr_enc(m.source_addr) + tail4;
    let tail2 = seq![npi_value(m.source_addr_npi)] + tail3;
    let tail1 = seq![ton_value(m.source_addr_ton)] + tail2;
    assert(body =~= cstr_enc(m.message_id) + tail1);
    lemma_p_cstr(m.message_id, 65, tail1);
    lemma_p_u8(ton_value(m.source_addr_ton), tail2);
    crate::common::lemma_ton_roundtrip(m.source_addr_ton);
    lemma_p_u8(npi_value(m.source_addr_npi), tail3);
    crate::common::lemma_npi_roundtrip(m.source_addr_npi);
    lemma_p_cstr(m.source_addr, 21, tail4);
    lemma_p_cstr(m.schedule_delivery_time, 17, tail5);
    lemma_p_cstr(m.validity_period, 17, tail6);
    lemma_p_u8(m.registered_delivery, tail7);
    lemma_p_u8(m.sm_default_msg_id, tail8);
    lemma_p_u8(m.short_message.len() as u8, tail9);
    assert(tail9 =~= m.short_message + tail10);
    lemma_p_fixed(m.short_message, tail10);
    assert((m.short_message.len() as u8) as nat == m.short_message.len());
}

/// A replace-sm response; its body is empty.
#[derive(Debug, Clone, PartialEq)]
pub struct ReplaceSmResponse {
    /// The sequence number of the PDU.
    pub sequence_number: u32,
    /// The command status.
    pub command_status: u32,
    /// The human-readable name of the command status.
    pub status_description: String,
}

/// Model of a [`ReplaceSmResponse`].
pub struct ReplaceSmResponseV {
    /// The sequence number of the PDU.
    pub sequence_number: u32,
    /// The command status.
    pub command_status: u32,
    /// The human-readable name of the command status.
    pub status_description: Seq<char>,
}

impl View for ReplaceSmResponse {
    type V = ReplaceSmResponseV;

    open spec fn view(&self) -> ReplaceSmResponseV {
        ReplaceSmResponseV {
            sequence_number: self.sequence_number,
            command_status: self.command_status,
            status_description: self.status_description@,
        }
    }
}

/// A replace-sm response is well formed when its status description is the
/// name its command status looks up to.
pub open spec fn wf_replace_sm_response(m: ReplaceSmResponseV) -> bool {
    m.status_description == status_text(m.command_status)
}

/// Wire bytes of a replace-sm response: a bare header carrying the status.
pub open spec fn replace_sm_response_enc(m: ReplaceSmResponseV) -> Seq<u8> {
    pdu_frame(CMD_REPLACE_SM_RESP, m.command_status, m.sequence_number, Seq::empty())
}

/// Parses a replace-sm response buffer.
pub open spec fn p_replace_sm_response(b: Seq<u8>) -> Option<ReplaceSmResponseV> {
    match p_frame(b) {
        None => None,
        Some((h, body)) => if h.command_id == CMD_REPLACE_SM_RESP && body.len() == 0 {
            Some(
                ReplaceSmResponseV {
                    sequence_number: h.sequence_number,
                    command_status: h.command_status,
                    status_description: status_text(h.command_status),
                },
            )
        } else {
            None
        },
    }
}

/// Encodes a `ReplaceSmResponse` into a byte vector.
pub fn encode_replace_sm_response(response: &ReplaceSmResponse) -> (r: Vec<u8>)
    ensures
        r@ == replace_sm_response_enc(response@),
{
    let body: Vec<u8> = Vec::new();
    frame_pdu(CMD_REPLACE_SM_RESP, response.command_status, response.sequence_number, body)
}

/// Decodes a byte buffer into a `ReplaceSmResponse`.
pub fn decode_replace_sm_response(buffer: &[u8]) -> (r: Result<
    ReplaceSmResponse,
    crate::common::SmppFfiError,
>)
    ensures
        r is Ok <==> p_replace_sm_response(buffer@) is Some,
        r matches Ok(m) ==> p_replace_sm_response(buffer@) == Some(m@),
        r is Ok ==> frame_consistent(buffer@),
{
    let h = match rd_frame(buffer) {
        None => {
            return Err(
                crate::common::SmppFfiError::Generic {
                    msg: String::from_str("replace sm response: bad frame"),
                },
            );
        },
        Some(h) => h,
    };
    if h.command_id != CMD_REPLACE_SM_RESP {
        return Err(
            crate::common::SmppFfiError::Generic {
                msg: String::from_str("replace sm response: wrong command"),
            },
        );
    }
    if buffer.len() != 16 {
        assert(buffer@.skip(16).len() > 0);
        return Err(
            crate::common::SmppFfiError::Generic {
                msg: String::from_str("replace sm response: residual bytes"),
            },
        );
    }
    assert(buffer@.skip(16).len() == 0);
    let resp = ReplaceSmResponse {
        sequence_number: h.sequence_number,
        command_status: h.command_status,
        status_description: get_status_description(h.command_status),
    };
    proof {
        crate::header::lemma_frame_consistent(buffer@);
        assert(p_replace_sm_response(buffer@) == Some(resp@));
    }
    Ok(resp)
}

/// Parsing the encoding of a well-formed replace-sm response yields it
/// back.
pub proof fn lemma_replace_sm_response_roundtrip(m: ReplaceSmResponseV)
    requires
        wf_replace_sm_response(m),
    ensures
        p_replace_sm_response(replace_sm_response_enc(m)) == Some(m),
{
    lemma_p_frame(CMD_REPLACE_SM_RESP, m.command_status, m.sequence_number, Seq::empty());
}

// ---------------------------------------------------------------------------
// Cancel broadcast SM
// ---------------------------------------------------------------------------

/// A cancel-broadcast-sm request.
#[derive(Debug, Clone, PartialEq)]
pub struct CancelBroadcastSmRequest {
    /// The sequence number of the PDU.
    pub sequence_number: u32,
    /// The service type.
    pub service_type: String,
    /// The message identifier of the broadcast being cancelled.
    pub message_id: String,
    /// The type of number for the source address.
    pub source_addr_ton: Ton,
    /// The numbering plan indicator for the source address.
    pub source_addr_npi: Npi,
    /// The source address.
    pub source_addr: String,
    /// Optional TLV parameters.
    pub optional_params: Vec<Tlv>,
}

/// Model of a [`CancelBroadcastSmRequest`].
pub struct CancelBroadcastSmRequestV {
    /// The sequence number of the PDU.
    pub sequence_number: u32,
    /// The service type.
    pub service_type: Seq<char>,
    /// The message identifier.
    pub message_id: Seq<char>,
    /// The source type of number.
    pub source_addr_ton: Ton,
    /// The source numbering plan indicator.
    pub source_addr_npi: Npi,
    /// The source address.
    pub source_addr: Seq<char>,
    /// Optional TLV parameters.
    pub optional_params: Seq<TlvV>,
}

impl View for CancelBroadcastSmRequest {
    type V = CancelBroadcastSmRequestV;

    open spec fn view(&self) -> CancelBroadcastSmRequestV {
        CancelBroadcastSmRequestV {
            sequence_number: self.sequence_number,
            service_type: self.service_type@,
            message_id: self.message_id@,
            source_addr_ton: self.source_addr_ton,
            source_addr_npi: self.source_addr_npi,
            source_addr: self.source_addr@,
            optional_params: tlv_views(self.optional_params@),
        }
    }
}

/// Body bytes of a cancel-broadcast-sm request.
pub open spec fn cancel_broadcast_sm_request_body(m: CancelBroadcastSmRequestV) -> Seq<u8> {
    cstr_enc(m.service_type) + cstr_enc(m.message_id) + seq![
        ton_value(m.source_addr_ton),
        npi_value(m.source_addr_npi),
    ] + cstr_enc(m.source_addr) + tlvs_enc(m.optional_params)
}

/// Field bounds of a cancel-broadcast-sm request.
pub open spec fn wf_cancel_broadcast_sm_request(m: CancelBroadcastSmRequestV) -> bool {
    &&& wf_cstr(m.service_type, 6)
    &&& wf_cstr(m.message_id, 65)
    &&& wf_cstr(m.source_addr, 21)
    &&& wf_tlvs(m.optional_params)
    &&& 16 + cancel_broadcast_sm_request_body(m).len() <= 0xFFFF_FFFF
}

/// Wire bytes of a cancel-broadcast-sm request.
pub open spec fn cancel_broadcast_sm_request_enc(m: CancelBroadcastSmRequestV) -> Seq<u8> {
    pdu_frame(CMD_CANCEL_BROADCAST_SM, 0, m.sequence_number, cancel_broadcast_sm_request_body(m))
}

/// Parses a cancel-broadcast-sm request buffer.
pub open spec fn p_cancel_broadcast_sm_request(b: Seq<u8>) -> Option<CancelBroadcastSmRequestV> {
    match p_frame(b) {
        None => None,
        Some((h, body)) => if h.command_id != CMD_CANCEL_BROADCAST_SM {
            None
        } else {
            match p_cstr(body, 6) {
                None => None,
                Some((service_type, r0)) => match p_cstr(r0, 65) {
                    None => None,
                    Some((message_id, r1)) => match p_u8(r1) {
                        None => None,
                        Some((tb, r2)) => match ton_of_value(tb) {
                            None => None,
                            Some(source_addr_ton) => match p_u8(r2) {
                                None => None,
                                Some((nb, r3)) => match npi_of_value(nb) {
                                    None => None,
                                    Some(source_addr_npi) => match p_cstr(r3, 21) {
                                        None => None,
                                        Some((source_addr, r4)) => match p_tlvs(r4) {
                                            None => None,
                                            Some(optional_params) => Some(
                                                CancelBroadcastSmRequestV {
                                                    sequence_number: h.sequence_number,
                                                    service_type,
                                                    message_id,
                                                    source_addr_ton,
                                                    source_addr_npi,
                                                    source_addr,
                                                    optional_params,
                                                },
                                            ),
                                        },
                                    },
                                },
                            },
                        },
                    },
                },
            }
        },
    }
}

/// Encodes a `CancelBroadcastSmRequest` into a byte vector.
pub fn encode_cancel_broadcast_sm_request(request: &CancelBroadcastSmRequest) -> (r: Vec<u8>)
    requires
        wf_cancel_broadcast_sm_request(request@),
    ensures
        r@ == cancel_broadcast_sm_request_enc(request@),
{
    let mut body: Vec<u8> = Vec::new();
    put_cstr(&mut body, request.service_type.as_str());
    put_cstr(&mut body, request.message_id.as_str());
    put_u8(&mut body, request.source_addr_ton.to_byte());
    put_u8(&mut body, request.source_addr_npi.to_byte());
    put_cstr(&mut body, request.source_addr.as_str());
    put_tlvs(&mut body, &request.optional_params);
    assert(body@ =~= cancel_broadcast_sm_request_body(request@));
    frame_pdu(CMD_CANCEL_BROADCAST_SM, 0, request.sequence_number, body)
}

/// Decodes a byte buffer into a `CancelBroadcastSmRequest`.
pub fn decode_cancel_broadcast_sm_request(buffer: &[u8]) -> (r: Result<
    CancelBroadcastSmRequest,
    crate::common::SmppFfiError,
>)
    ensures
        r is Ok <==> p_cancel_broadcast_sm_request(buffer@) is Some,
        r matches Ok(m) ==> p_cancel_broadcast_sm_request(buffer@) == Some(m@),
        r is Ok ==> frame_consistent(buffer@),
{
    let err = || crate::common::SmppFfiError::Generic {
        msg: String::from_str("cancel broadcast sm: malformed buffer"),
    };
    let h = match rd_frame(buffer) {
        None => {
            return Err(err());
        },
        Some(h) => h,
    };
    if h.command_id != CMD_CANCEL_BROADCAST_SM {
        return Err(
            crate::common::SmppFfiError::Generic {
                msg: String::from_str("cancel broadcast sm: wrong command"),
            },
        );
    }
    let (service_type, i0) = match rd_cstr(buffer, 16, 6) {
        None => {
            return Err(err());
        },
        Some(x) => x,
    };
    let (message_id, i1) = match rd_cstr(buffer, i0, 65) {
        None => {
            return Err(err());
        },
        Some(x) => x,
    };
    let (tb, i2) = match rd_u8(buffer, i1) {
        None => {
            return Err(err());
        },
        Some(x) => x,
    };
    let source_addr_ton = match Ton::from_byte(tb) {
        None => {
            return Err(err());
        },
        Some(x) => x,
    };
    let (nb, i3) = match rd_u8(buffer, i2) {
        None => {
            return Err(err());
        },
        Some(x) => x,
    };
    let source_addr_npi = match Npi::from_byte(nb) {
        None => {
            return Err(err());
        },
        Some(x) => x,
    };
    let (source_addr, i4) = match rd_cstr(buffer, i3, 21) {
        None => {
            return Err(err());
        },
        Some(x) => x,
    };
    let optional_params = match rd_tlvs(buffer, i4) {
        None => {
            return Err(err());
        },
        Some(x) => x,
    };
    let req = CancelBroadcastSmRequest {
        sequence_number: h.sequence_number,
        service_type,
        message_id,
        source_addr_ton,
        source_addr_npi,
        source_addr,
        optional_params,
    };
    proof {
        crate::header::lemma_frame_consistent(buffer@);
        assert(p_cancel_broadcast_sm_request(buffer@) == Some(req@));
    }
    Ok(req)
}

/// Parsing the encoding of a well-formed cancel-broadcast-sm request yields
/// it back.
#[verifier::rlimit(50)]
pub proof fn lemma_cancel_broadcast_sm_request_roundtrip(m: CancelBroadcastSmRequestV)
    requires
        wf_cancel_broadcast_sm_request(m),
    ensures
        p_cancel_broadcast_sm_request(cancel_broadcast_sm_request_enc(m)) == Some(m),
{
    let body = cancel_broadcast_sm_request_body(m);
    lemma_p_frame(CMD_CANCEL_BROADCAST_SM, 0, m.sequence_number, body);
    let tail4 = tlvs_enc(m.optional_params);
    let tail3 = cstr_enc(m.source_addr) + tail4;
    let tail2 = seq![npi_value(m.source_addr_npi)] + tail3;
    let tail1 = seq![ton_value(m.source_addr_ton)] + tail2;
    let tail0 = cstr_enc(m.message_id) + tail1;
    assert(body =~= cstr_enc(m.service_type) + tail0);
    lemma_p_cstr(m.service_type, 6, tail0);
    lemma_p_cstr(m.message_id, 65, tail1);
    lemma_p_u8(ton_value(m.source_addr_ton), tail2);
    crate::common::lemma_ton_roundtrip(m.source_addr_ton);
    lemma_p_u8(npi_value(m.source_addr_npi), tail3);
    crate::common::lemma_npi_roundtrip(m.source_addr_npi);
    lemma_p_cstr(m.source_addr, 21, tail4);
    lemma_p_tlvs(m.optional_params);
}

/// A cancel-broadcast-sm response; its body is empty.
#[derive(Debug, Clone, PartialEq)]
pub struct CancelBroadcastSmResponse {
    /// The sequence number of the PDU.
    pub sequence_number: u32,
    /// The command status.
    pub command_status: u32,
    /// The human-readable name of the command status.
    pub status_description: String,
}

/// Model of a [`CancelBroadcastSmResponse`].
pub struct CancelBroadcastSmResponseV {
    /// The sequence number of the PDU.
    pub sequence_number: u32,
    /// The command status.
    pub command_status: u32,
    /// The human-readable name of the command status.
    pub status_description: Seq<char>,
}

impl View for CancelBroadcastSmResponse {
    type V = CancelBroadcastSmResponseV;

    open spec fn view(&self) -> CancelBroadcastSmResponseV {
        CancelBroadcastSmResponseV {
            sequence_number: self.sequence_number,
            command_status: self.command_status,
            status_description: self.status_description@,
        }
    }
}

/// A cancel-broadcast-sm response is well formed when its status
/// description is the name its command status looks up to.
pub open spec fn wf_cancel_broadcast_sm_response(m: CancelBroadcastSmResponseV) -> bool {
    m.status_description == status_text(m.command_status)
}

/// Wire bytes of a cancel-broadcast-sm response: a bare header carrying the
/// status.
pub open spec fn cancel_broadcast_sm_response_enc(m: CancelBroadcastSmResponseV) -> Seq<u8> {
    pdu_frame(CMD_CANCEL_BROADCAST_SM_RESP, m.command_status, m.sequence_number, Seq::empty())
}

/// Parses a cancel-broadcast-sm response buffer.
pub open spec fn p_cancel_broadcast_sm_response(b: Seq<u8>) -> Option<CancelBroadcastSmResponseV> {
    match p_frame(b) {
        None => None,
        Some((h, body)) => if h.command_id == CMD_CANCEL_BROADCAST_SM_RESP && body.len() == 0 {
            Some(
                CancelBroadcastSmResponseV {
                    sequence_number: h.sequence_number,
                    command_status: h.command_status,
                    status_description: status_text(h.command_status),
                },
            )
        } else {
            None
        },
    }
}

/// Encodes a `CancelBroadcastSmResponse` into a byte vector.
pub fn encode_cancel_broadcast_sm_response(response: &CancelBroadcastSmResponse) -> (r: Vec<u8>)
    ensures
        r@ == cancel_broadcast_sm_response_enc(response@),
{
    let body: Vec<u8> = Vec::new();
    frame_pdu(CMD_CANCEL_BROADCAST_SM_RESP, response.command_status, response.sequence_number, body)
}

/// Decodes a byte buffer into a `CancelBroadcastSmResponse`.
pub fn decode_cancel_broadcast_sm_response(buffer: &[u8]) -> (r: Result<
    CancelBroadcastSmResponse,
    crate::common::SmppFfiError,
>)
    ensures
        r is Ok <==> p_cancel_broadcast_sm_response(buffer@) is Some,
        r matches Ok(m) ==> p_cancel_broadcast_sm_response(buffer@) == Some(m@),
        r is Ok ==> frame_consistent(buffer@),
{
    let h = match rd_frame(buffer) {
        None => {
            return Err(
                crate::common::SmppFfiError::Generic {
                    msg: String::from_str("cancel broadcast sm response: bad frame"),
                },
            );
        },
        Some(h) => h,
    };
    if h.command_id != CMD_CANCEL_BROADCAST_SM_RESP {
        return Err(
            crate::common::SmppFfiError::Generic {
                msg: String::from_str("cancel broadcast sm response: wrong command"),
            },
        );
    }
    if buffer.len() != 16 {
        assert(buffer@.skip(16).len() > 0);
        return Err(
            crate::common::SmppFfiError::Generic {
                msg: String::from_str("cancel broadcast sm response: residual bytes"),
            },
        );
    }
    assert(buffer@.skip(16).len() == 0);
    let resp = CancelBroadcastSmResponse {
        sequence_number: h.sequence_number,
        command_status: h.command_status,
        status_description: get_status_description(h.command_status),
    };
    proof {
        crate::header::lemma_frame_consistent(buffer@);
        assert(p_cancel_broadcast_sm_response(buffer@) == Some(resp@));
    }
    Ok(resp)
}

/// Parsing the encoding of a well-formed cancel-broadcast-sm response
/// yields it back.
pub proof fn lemma_cancel_broadcast_sm_response_roundtrip(m: CancelBroadcastSmResponseV)
    requires
        wf_cancel_broadcast_sm_response(m),
    ensures
        p_cancel_broadcast_sm_response(cancel_broadcast_sm_response_enc(m)) == Some(m),
{
    lemma_p_frame(CMD_CANCEL_BROADCAST_SM_RESP, m.command_status, m.sequence_number, Seq::empty());
}

// ---------------------------------------------------------------------------
// Query broadcast SM
// ---------------------------------------------------------------------------

/// A query-broadcast-sm request.
#[derive(Debug, Clone, PartialEq)]
pub struct QueryBroadcastSmRequest {
    /// The sequence number of the PDU.
    pub sequence_number: u32,
    /// The message identifier of the broadcast being queried.
    pub message_id: String,
    /// The type of number for the source address.
    pub source_addr_ton: Ton,
    /// The numbering plan indicator for the source address.
    pub source_addr_npi: Npi,
    /// The source address.
    pub source_addr: String,
    /// Optional TLV parameters.
    pub optional_params: Vec<Tlv>,
}

/// Model of a [`QueryBroadcastSmRequest`].
pub struct QueryBroadcastSmRequestV {
    /// The sequence number of the PDU.
    pub sequence_number: u32,
    /// The message identifier.
    pub message_id: Seq<char>,
    /// The source type of number.
    pub source_addr_ton: Ton,
    /// The source numbering plan indicator.
    pub source_addr_npi: Npi,
    /// The source address.
    pub source_addr: Seq<char>,
    /// Optional TLV parameters.
    pub optional_params: Seq<TlvV>,
}

impl View for QueryBroadcastSmRequest {
    type V = QueryBroadcastSmRequestV;

    open spec fn view(&self) -> QueryBroadcastSmRequestV {
        QueryBroadcastSmRequestV {
            sequence_number: self.sequence_number,
            message_id: self.message_id@,
            source_addr_ton: self.source_addr_ton,
            source_addr_npi: self.source_addr_npi,
            source_addr: self.source_addr@,
            optional_params: tlv_views(self.optional_params@),
        }
    }
}

/// Body bytes of a query-broadcast-sm request.
pub open spec fn query_broadcast_sm_request_body(m: QueryBroadcastSmRequestV) -> Seq<u8> {
    cstr_enc(m.message_id) + seq![ton_value(m.source_addr_ton), npi_value(m.source_addr_npi)]
        + cstr_enc(m.source_addr) + tlvs_enc(m.optional_params)
}

/// Field bounds of a query-broadcast-sm request.
pub open spec fn wf_query_broadcast_sm_request(m: QueryBroadcastSmRequestV) -> bool {
    &&& wf_cstr(m.message_id, 65)
    &&& wf_cstr(m.source_addr, 21)
    &&& wf_tlvs(m.optional_params)
    &&& 16 + query_broadcast_sm_request_body(m).len() <= 0xFFFF_FFFF
}

/// Wire bytes of a query-broadcast-sm request.
pub open spec fn query_broadcast_sm_request_enc(m: QueryBroadcastSmRequestV) -> Seq<u8> {
    pdu_frame(CMD_QUERY_BROADCAST_SM, 0, m.sequence_number, query_broadcast_sm_request_body(m))
}

/// Parses a query-broadcast-sm request buffer.
pub open spec fn p_query_broadcast_sm_request(b: Seq<u8>) -> Option<QueryBroadcastSmRequestV> {
    match p_frame(b) {
        None => None,
        Some((h, body)) => if h.command_id != CMD_QUERY_BROADCAST_SM {
            None
        } else {
            match p_cstr(body, 65) {
                None => None,
                Some((message_id, r1)) => match p_u8(r1) {
                    None => None,
                    Some((tb, r2)) => match ton_of_value(tb) {
                        None => None,
                        Some(source_addr_ton) => match p_u8(r2) {
                            None => None,
                            Some((nb, r3)) => match npi_of_value(nb) {
                                None => None,
                                Some(source_addr_npi) => match p_cstr(r3, 21) {
                                    None => None,
                                    Some((source_addr, r4)) => match p_tlvs(r4) {
                                        None => None,
                                        Some(optional_params) => Some(
                                            QueryBroadcastSmRequestV {
                                                sequence_number: h.sequence_number,
                                                message_id,
                                                source_addr_ton,
                                                source_addr_npi,
                                                source_addr,
                                                optional_params,
                                            },
                                        ),
                                    },
                                },
                            },
                        },
                    },
                },
            }
        },
    }
}

/// Encodes a `QueryBroadcastSmRequest` into a byte vector.
pub fn encode_query_broadcast_sm_request(request: &QueryBroadcastSmRequest) -> (r: Vec<u8>)
    requires
        wf_query_broadcast_sm_request(request@),
    ensures
        r@ == query_broadcast_sm_request_enc(request@),
{
    let mut body: Vec<u8> = Vec::new();
    put_cstr(&mut body, request.message_id.as_str());
    put_u8(&mut body, request.source_addr_ton.to_byte());
    put_u8(&mut body, request.source_addr_npi.to_byte());
    put_cstr(&mut body, request.source_addr.as_str());
    put_tlvs(&mut body, &request.optional_params);
    assert(body@ =~= query_broadcast_sm_request_body(request@));
    frame_pdu(CMD_QUERY_BROADCAST_SM, 0, request.sequence_number, body)
}

/// Decodes a byte buffer into a `QueryBroadcastSmRequest`.
pub fn decode_query_broadcast_sm_request(buffer: &[u8]) -> (r: Result<
    QueryBroadcastSmRequest,
    crate::common::SmppFfiError,
>)
    ensures
        r is Ok <==> p_query_broadcast_sm_request(buffer@) is Some,
        r matches Ok(m) ==> p_query_broadcast_sm_request(buffer@) == Some(m@),
        r is Ok ==> frame_consistent(buffer@),
{
    let err = || crate::common::SmppFfiError::Generic {
        msg: String::from_str("query broadcast sm: malformed buffer"),
    };
    let h = match rd_frame(buffer) {
        None => {
            return Err(err());
        },
        Some(h) => h,
    };
    if h.command_id != CMD_QUERY_BROADCAST_SM {
        return Err(
            crate::common::SmppFfiError::Generic {
                msg: String::from_str("query broadcast sm: wrong command"),
            },
        );
    }
    let (message_id, i1) = match rd_cstr(buffer, 16, 65) {
        None => {
            return Err(err());
        },
        Some(x) => x,
    };
    let (tb, i2) = match rd_u8(buffer, i1) {
        None => {
            return Err(err());
        },
        Some(x) => x,
    };
    let source_addr_ton = match Ton::from_byte(tb) {
        None => {
            return Err(err());
        },
        Some(x) => x,
    };
    let (nb, i3) = match rd_u8(buffer, i2) {
        None => {
            return Err(err());
        },
        Some(x) => x,
    };
    let source_addr_npi = match Npi::from_byte(nb) {
        None => {
            return Err(err());
        },
        Some(x) => x,
    };
    let (source_addr, i4) = match rd_cstr(buffer, i3, 21) {
        None => {
            return Err(err());
        },
        Some(x) => x,
    };
    let optional_params = match rd_tlvs(buffer, i4) {
        None => {
            return Err(err());
        },
        Some(x) => x,
    };
    let req = QueryBroadcastSmRequest {
        sequence_number: h.sequence_number,
        message_id,
        source_addr_ton,
        source_addr_npi,
        source_addr,
        optional_params,
    };
    proof {
        crate::header::lemma_frame_consistent(buffer@);
        assert(p_query_broadcast_sm_request(buffer@) == Some(req@));
    }
    Ok(req)
}

/// Parsing the encoding of a well-formed query-broadcast-sm request yields
/// it back.
#[verifier::rlimit(50)]
pub proof fn lemma_query_broadcast_sm_request_roundtrip(m: QueryBroadcastSmRequestV)
    requires
        wf_query_broadcast_sm_request(m),
    ensures
        p_query_broadcast_sm_request(query_broadcast_sm_request_enc(m)) == Some(m),
{
    let body = query_broadcast_sm_request_body(m);
    lemma_p_frame(CMD_QUERY_BROADCAST_SM, 0, m.sequence_number, body);
    let tail3 = tlvs_enc(m.optional_params);
    let tail2 = cstr_enc(m.source_addr) + tail3;
    let tail1 = seq![npi_value(m.source_addr_npi)] + tail2;
    let tail0 = seq![ton_value(m.source_addr_ton)] + tail1;
    assert(body =~= cstr_enc(m.message_id) + tail0);
    lemma_p_cstr(m.message_id, 65, tail0);
    lemma_p_u8(ton_value(m.source_addr_ton), tail1);
    crate::common::lemma_ton_roundtrip(m.source_addr_ton);
    lemma_p_u8(npi_value(m.source_addr_npi), tail2);
    crate::common::lemma_npi_roundtrip(m.source_addr_npi);
    lemma_p_cstr(m.source_addr, 21, tail3);
    lemma_p_tlvs(m.optional_params);
}

/// A query-broadcast-sm response.
#[derive(Debug, Clone, PartialEq)]
pub struct QueryBroadcastSmResponse {
    /// The sequence number of the PDU.
    pub sequence_number: u32,
    /// The command status.
    pub command_status: u32,
    /// The human-readable name of the command status.
    pub status_description: String,
    /// The message identifier.
    pub message_id: String,
    /// Optional TLV parameters.
    pub optional_params: Vec<Tlv>,
}

/// Model of a [`QueryBroadcastSmResponse`].
pub struct QueryBroadcastSmResponseV {
    /// The sequence number of the PDU.
    pub sequence_number: u32,
    /// The command status.
    pub command_status: u32,
    /// The human-readable name of the command status.
    pub status_description: Seq<char>,
    /// The message identifier.
    pub message_id: Seq<char>,
    /// Optional TLV parameters.
    pub optional_params: Seq<TlvV>,
}

impl View for QueryBroadcastSmResponse {
    type V = QueryBroadcastSmResponseV;

    open spec fn view(&self) -> QueryBroadcastSmResponseV {
        QueryBroadcastSmResponseV {
            sequence_number: self.sequence_number,
            command_status: self.command_status,
            status_description: self.status_description@,
            message_id: self.message_id@,
            optional_params: tlv_views(self.optional_params@),
        }
    }
}

/// Body bytes of a query-broadcast-sm response.
pub open spec fn query_broadcast_sm_response_body(m: QueryBroadcastSmResponseV) -> Seq<u8> {
    cstr_enc(m.message_id) + tlvs_enc(m.optional_params)
}

/// Field bounds of a query-broadcast-sm response.
pub open spec fn wf_query_broadcast_sm_response(m: QueryBroadcastSmResponseV) -> bool {
    &&& wf_cstr(m.message_id, 65)
    &&& wf_tlvs(m.optional_params)
    &&& m.status_description == status_text(m.command_status)
    &&& 16 + query_broadcast_sm_response_body(m).len() <= 0xFFFF_FFFF
}

/// Wire bytes of a query-broadcast-sm response.
pub open spec fn query_broadcast_sm_response_enc(m: QueryBroadcastSmResponseV) -> Seq<u8> {
    pdu_frame(
        CMD_QUERY_BROADCAST_SM_RESP,
        m.command_status,
        m.sequence_number,
        query_broadcast_sm_response_body(m),
    )
}

/// Parses a query-broadcast-sm response buffer.
pub open spec fn p_query_broadcast_sm_response(b: Seq<u8>) -> Option<QueryBroadcastSmResponseV> {
    match p_frame(b) {
        None => None,
        Some((h, body)) => if h.command_id != CMD_QUERY_BROADCAST_SM_RESP {
            None
        } else {
            match p_cstr(body, 65) {
                None => None,
                Some((message_id, r1)) => match p_tlvs(r1) {
                    None => None,
                    Some(optional_params) => Some(
                        QueryBroadcastSmResponseV {
                            sequence_number: h.sequence_number,
                            command_status: h.command_status,
                            status_description: status_text(h.command_status),
                            message_id,
                            optional_params,
                        },
                    ),
                },
            }
        },
    }
}

/// Encodes a `QueryBroadcastSmResponse` into a byte vector.
pub fn encode_query_broadcast_sm_response(response: &QueryBroadcastSmResponse) -> (r: Vec<u8>)
    requires
        wf_query_broadcast_sm_response(response@),
    ensures
        r@ == query_broadcast_sm_response_enc(response@),
{
    let mut body: Vec<u8> = Vec::new();
    put_cstr(&mut body, response.message_id.as_str());
    put_tlvs(&mut body, &response.optional_params);
    assert(body@ =~= query_broadcast_sm_response_body(response@));
    frame_pdu(
        CMD_QUERY_BROADCAST_SM_RESP,
        response.command_status,
        response.sequence_number,
        body,
    )
}

/// Decodes a byte buffer into a `QueryBroadcastSmResponse`.
pub fn decode_query_broadcast_sm_response(buffer: &[u8]) -> (r: Result<
    QueryBroadcastSmResponse,
    crate::common::SmppFfiError,
>)
    ensures
        r is Ok <==> p_query_broadcast_sm_response(buffer@) is Some,
        r matches Ok(m) ==> p_query_broadcast_sm_response(buffer@) == Some(m@),
        r is Ok ==> frame_consistent(buffer@),
{
    let err = || crate::common::SmppFfiError::Generic {
        msg: String::from_str("query broadcast sm response: malformed buffer"),
    };
    let h = match rd_frame(buffer) {
        None => {
            return Err(err());
        },
        Some(h) => h,
    };
    if h.command_id != CMD_QUERY_BROADCAST_SM_RESP {
        return Err(
            crate::common::SmppFfiError::Generic {
                msg: String::from_str("query broadcast sm response: wrong command"),
            },
        );
    }
    let (message_id, i1) = match rd_cstr(buffer, 16, 65) {
        None => {
            return Err(err());
        },
        Some(x) => x,
    };
    let optional_params = match rd_tlvs(buffer, i1) {
        None => {
            return Err(err());
        },
        Some(x) => x,
    };
    let resp = QueryBroadcastSmResponse {
        sequence_number: h.sequence_number,
        command_status: h.command_status,
        status_description: get_status_description(h.command_status),
        message_id,
        optional_params,
    };
    proof {
        crate::header::lemma_frame_consistent(buffer@);
        assert(p_query_broadcast_sm_response(buffer@) == Some(resp@));
    }
    Ok(resp)
}

/// Parsing the encoding of a well-formed query-broadcast-sm response yields
/// it back.
pub proof fn lemma_query_broadcast_sm_response_roundtrip(m: QueryBroadcastSmResponseV)
    requires
        wf_query_broadcast_sm_response(m),
    ensures
        p_query_broadcast_sm_response(query_broadcast_sm_response_enc(m)) == Some(m),
{
    let body = query_broadcast_sm_response_body(m);
    lemma_p_frame(CMD_QUERY_BROADCAST_SM_RESP, m.command_status, m.sequence_number, body);
    let tail0 = tlvs_enc(m.optional_params);
    assert(body =~= cstr_enc(m.message_id) + tail0);
    lemma_p_cstr(m.message_id, 65, tail0);
    lemma_p_tlvs(m.optional_params);
}

} // verus!
