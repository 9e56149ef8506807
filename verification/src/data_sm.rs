//! Data PDUs: data-sm and its response, whose message content travels in
//! the optional parameters.

use vstd::prelude::*;

use crate::common::{
    get_status_description, status_text, CMD_DATA_SM, CMD_DATA_SM_RESP, Npi, npi_of_value,
    npi_value, SmppFfiError, Ton, ton_of_value, ton_value,
};
use crate::header::{frame_consistent, frame_pdu, lemma_p_frame, p_frame, pdu_frame, rd_frame};
use crate::tlv::{
    lemma_p_tlvs, p_tlvs, put_tlvs, rd_tlvs, tlv_views, tlvs_enc, wf_tlvs, Tlv, TlvV,
};
use crate::wire::{
    cstr_enc, lemma_p_cstr, lemma_p_u8, p_cstr, p_u8, put_cstr, put_u8, rd_cstr, rd_u8, wf_cstr,
};

verus! {

// ---------------------------------------------------------------------------
// Data SM
// ---------------------------------------------------------------------------

/// A data-sm request.
#[derive(Debug, Clone, PartialEq)]
pub struct DataSm {
    /// The sequence number of the PDU.
    pub sequence_number: u32,
    /// The service type.
    pub service_type: String,
    /// The type of number for the source address.
    pub source_addr_ton: Ton,
    /// The numbering plan indicator for the source address.
    pub source_addr_npi: Npi,
    /// The source address.
    pub source_addr: String,
    /// The type of number for the destination address.
    pub dest_addr_ton: Ton,
    /// The numbering plan indicator for the destination address.
    pub dest_addr_npi: Npi,
    /// The destination address.
    pub dest_addr: String,
    /// The ESM class.
    pub esm_class: u8,
    /// The registered delivery flag.
    pub registered_delivery: u8,
    /// The data coding scheme.
    pub data_coding: u8,
    /// Optional TLV parameters; the message content travels here.
    pub optional_params: Vec<Tlv>,
}

/// Model of a [`DataSm`].
pub struct DataSmV {
    /// The sequence number of the PDU.
    pub sequence_number: u32,
    /// The service type.
    pub service_type: Seq<char>,
    /// The source type of number.
    pub source_addr_ton: Ton,
    /// The source numbering plan indicator.
    pub source_addr_npi: Npi,
    /// The source address.
    pub source_addr: Seq<char>,
    /// The destination type of number.
    pub dest_addr_ton: Ton,
    /// The destination numbering plan indicator.
    pub dest_addr_npi: Npi,
    /// The destination address.
    pub dest_addr: Seq<char>,
    /// The ESM class.
    pub esm_class: u8,
    /// The registered delivery flag.
    pub registered_delivery: u8,
    /// The data coding scheme.
    pub data_coding: u8,
    /// Optional TLV parameters.
    pub optional_params: Seq<TlvV>,
}

impl View for DataSm {
    type V = DataSmV;

    open spec fn view(&self) -> DataSmV {
        DataSmV {
            sequence_number: self.sequence_number,
            service_type: self.service_type@,
            source_addr_ton: self.source_addr_ton,
            source_addr_npi: self.source_addr_npi,
            source_addr: self.source_addr@,
            dest_addr_ton: self.dest_addr_ton,
            dest_addr_npi: self.dest_addr_npi,
            dest_addr: self.dest_addr@,
            esm_class: self.esm_class,
            registered_delivery: self.registered_delivery,
            data_coding: self.data_coding,
            optional_params: tlv_views(self.optional_params@),
        }
    }
}

/// Body bytes of a data-sm request.
pub open spec fn data_sm_body(m: DataSmV) -> Seq<u8> {
    cstr_enc(m.service_type) + seq![ton_value(m.source_addr_ton), npi_value(m.source_addr_npi)]
        + cstr_enc(m.source_addr) + data_sm_mid_bytes(m)
}

/// Field bounds of a data-sm request.
pub open spec fn wf_data_sm(m: DataSmV) -> bool {
    &&& wf_cstr(m.service_type, 6)
    &&& wf_cstr(m.source_addr, 21)
    &&& wf_cstr(m.dest_addr, 21)
    &&& wf_tlvs(m.optional_params)
    &&& 16 + data_sm_body(m).len() <= 0xFFFF_FFFF
}

/// Wire bytes of a data-sm request.
pub open spec fn data_sm_enc(m: DataSmV) -> Seq<u8> {
    pdu_frame(CMD_DATA_SM, 0, m.sequence_number, data_sm_body(m))
}

/// Parses a data-sm request buffer.
pub open spec fn p_data_sm(b: Seq<u8>) -> Option<DataSmV> {
    match p_frame(b) {
        None => None,
        Some((h, body)) => if h.command_id != CMD_DATA_SM {
            None
        } else {
            match p_cstr(body, 6) {
                None => None,
                Some((service_type, r0)) => match p_u8(r0) {
                    None => None,
                    Some((tb, r1)) => match ton_of_value(tb) {
                        None => None,
                        Some(source_addr_ton) => match p_u8(r1) {
                            None => None,
                            Some((nb, r2)) => match npi_of_value(nb) {
                                None => None,
                                Some(source_addr_npi) => match p_cstr(r2, 21) {
                                    None => None,
                                    Some((source_addr, r3)) => p_data_sm_mid(
                                        h.sequence_number,
                                        service_type,
                                        source_addr_ton,
                                        source_addr_npi,
                                        source_addr,
                                        r3,
                                    ),
                                },
                            },
                        },
                    },
                },
            }
        },
    }
}

/// Parses the tail of a data-sm body, from the ESM class on.
pub open spec fn p_data_sm_tail(
    seqno: u32,
    service_type: Seq<char>,
    source_addr_ton: Ton,
    source_addr_npi: Npi,
    source_addr: Seq<char>,
    dest_addr_ton: Ton,
    dest_addr_npi: Npi,
    dest_addr: Seq<char>,
    r6: Seq<u8>,
) -> Option<DataSmV> {
    match p_u8(r6) {
        None => None,
        Some((esm_class, r7)) => match p_u8(r7) {
            None => None,
            Some((registered_delivery, r8)) => match p_u8(r8) {
                None => None,
                Some((data_coding, r9)) => match p_tlvs(r9) {
                    None => None,
                    Some(optional_params) => Some(
                        DataSmV {
                            sequence_number: seqno,
                            service_type,
                            source_addr_ton,
                            source_addr_npi,
                            source_addr,
                            dest_addr_ton,
                            dest_addr_npi,
                            dest_addr,
                            esm_class,
                            registered_delivery,
                            data_coding,
                            optional_params,
                        },
                    ),
                },
            },
        },
    }
}

/// Bytes of a data-sm body from the ESM class on.
pub open spec fn data_sm_tail_bytes(m: DataSmV) -> Seq<u8> {
    seq![m.esm_class, m.registered_delivery, m.data_coding] + tlvs_enc(m.optional_params)
}

/// Parsing the tail bytes of a well-formed data-sm request yields it back.
#[verifier::rlimit(50)]
pub proof fn lemma_data_sm_tail_roundtrip(m: DataSmV)
    requires
        wf_data_sm(m),
    ensures
        p_data_sm_tail(
            m.sequence_number,
            m.service_type,
            m.source_addr_ton,
            m.source_addr_npi,
            m.source_addr,
            m.dest_addr_ton,
            m.dest_addr_npi,
            m.dest_addr,
            data_sm_tail_bytes(m),
        ) == Some(m),
{
    let tail9 = tlvs_enc(m.optional_params);
    let tail8 = seq![m.data_coding] + tail9;
    let tail7 = seq![m.registered_delivery] + tail8;
    assert(data_sm_tail_bytes(m) =~= seq![m.esm_class] + tail7);
    lemma_p_u8(m.esm_class, tail7);
    lemma_p_u8(m.registered_delivery, tail8);
    lemma_p_u8(m.data_coding, tail9);
    lemma_p_tlvs(m.optional_params);
}

/// Parses the middle of a data-sm body: the destination address triple.
pub open spec fn p_data_sm_mid(
    seqno: u32,
    service_type: Seq<char>,
    source_addr_ton: Ton,
    source_addr_npi: Npi,
    source_addr: Seq<char>,
    r3: Seq<u8>,
) -> Option<DataSmV> {
    match p_u8(r3) {
        None => None,
        Some((tb2, r4)) => match ton_of_value(tb2) {
            None => None,
            Some(dest_addr_ton) => match p_u8(r4) {
                None => None,
                Some((nb2, r5)) => match npi_of_value(nb2) {
                    None => None,
                    Some(dest_addr_npi) => match p_cstr(r5, 21) {
                        None => None,
                        Some((dest_addr, r6)) => p_data_sm_tail(
                            seqno,
                            service_type,
                            source_addr_ton,
                            source_addr_npi,
                            source_addr,
                            dest_addr_ton,
                            dest_addr_npi,
                            dest_addr,
                            r6,
                        ),
                    },
                },
            },
        },
    }
}

/// Bytes of a data-sm body from the destination address on.
pub open spec fn data_sm_mid_bytes(m: DataSmV) -> Seq<u8> {
    seq![ton_value(m.dest_addr_ton), npi_value(m.dest_addr_npi)] + cstr_enc(m.dest_addr)
        + data_sm_tail_bytes(m)
}

/// Parsing the middle bytes of a well-formed data-sm request yields it
/// back.
#[verifier::rlimit(100)]
pub proof fn lemma_data_sm_mid_roundtrip(m: DataSmV)
    requires
        wf_data_sm(m),
    ensures
        p_data_sm_mid(
            m.sequence_number,
            m.service_type,
            m.source_addr_ton,
            m.source_addr_npi,
            m.source_addr,
            data_sm_mid_bytes(m),
        ) == Some(m),
{
    let tail6 = data_sm_tail_bytes(m);
    let tail5 = cstr_enc(m.dest_addr) + tail6;
    let tail4 = seq![npi_value(m.dest_addr_npi)] + tail5;
    assert(data_sm_mid_bytes(m) =~= seq![ton_value(m.dest_addr_ton)] + tail4);
    lemma_p_u8(ton_value(m.dest_addr_ton), tail4);
    crate::common::lemma_ton_roundtrip(m.dest_addr_ton);
    lemma_p_u8(npi_value(m.dest_addr_npi), tail5);
    crate::common::lemma_npi_roundtrip(m.dest_addr_npi);
    lemma_p_cstr(m.dest_addr, 21, tail6);
    lemma_data_sm_tail_roundtrip(m);
}

/// Encodes a `DataSm` request into a byte vector.
pub fn encode_data_sm(request: &DataSm) -> (r: Vec<u8>)
    requires
        wf_data_sm(request@),
    ensures
        r@ == data_sm_enc(request@),
{
    let mut body: Vec<u8> = Vec::new();
    put_cstr(&mut body, request.service_type.as_str());
    put_u8(&mut body, request.source_addr_ton.to_byte());
    put_u8(&mut body, request.source_addr_npi.to_byte());
    put_cstr(&mut body, request.source_addr.as_str());
    put_u8(&mut body, request.dest_addr_ton.to_byte());
    put_u8(&mut body, request.dest_addr_npi.to_byte());
    put_cstr(&mut body, request.dest_addr.as_str());
    put_u8(&mut body, request.esm_class);
    put_u8(&mut body, request.registered_delivery);
    put_u8(&mut body, request.data_coding);
    put_tlvs(&mut body, &request.optional_params);
    assert(body@ =~= data_sm_body(request@));
    frame_pdu(CMD_DATA_SM, 0, request.sequence_number, body)
}

/// Decodes a byte buffer into a `DataSm` request.
pub fn decode_data_sm(buffer: &[u8]) -> (r: Result<DataSm, SmppFfiError>)
    ensures
        r is Ok <==> p_data_sm(buffer@) is Some,
        r matches Ok(m) ==> p_data_sm(buffer@) == Some(m@),
        r is Ok ==> frame_consistent(buffer@),
{
    let err = || SmppFfiError::Generic {
        msg: String::from_str("data sm: malformed buffer"),
    };
    let h = match rd_frame(buffer) {
        None => {
            return Err(err());
        },
        Some(h) => h,
    };
    if h.command_id != CMD_DATA_SM {
        return Err(SmppFfiError::Generic { msg: String::from_str("data sm: wrong command") });
    }
    let (service_type, i0) = match rd_cstr(buffer, 16, 6) {
        None => {
            return Err(err());
        },
        Some(x) => x,
    };
    let (tb, i1) = match rd_u8(buffer, i0) {
        None => {
            return Err(err());
        },
        Some(x) => x,
    };
    let source_addr_ton = match Ton::from_byte(tb) {
        None => {
            return Err(err());
        },
        Some(x) => x,
    };
    let (nb, i2) = match rd_u8(buffer, i1) {
        None => {
            return Err(err());
        },
        Some(x) => x,
    };
    let source_addr_npi = match Npi::from_byte(nb) {
        None => {
            return Err(err());
        },
        Some(x) => x,
    };
    let (source_addr, i3) = match rd_cstr(buffer, i2, 21) {
        None => {
            return Err(err());
        },
        Some(x) => x,
    };
    let (tb2, i4) = match rd_u8(buffer, i3) {
        None => {
            return Err(err());
        },
        Some(x) => x,
    };
    let dest_addr_ton = match Ton::from_byte(tb2) {
        None => {
            return Err(err());
        },
        Some(x) => x,
    };
    let (nb2, i5) = match rd_u8(buffer, i4) {
        None => {
            return Err(err());
        },
        Some(x) => x,
    };
    let dest_addr_npi = match Npi::from_byte(nb2) {
        None => {
            return Err(err());
        },
        Some(x) => x,
    };
    let (dest_addr, i6) = match rd_cstr(buffer, i5, 21) {
        None => {
            return Err(err());
        },
        Some(x) => x,
    };
    let (esm_class, i7) = match rd_u8(buffer, i6) {
        None => {
            return Err(err());
        },
        Some(x) => x,
    };
    let (registered_delivery, i8) = match rd_u8(buffer, i7) {
        None => {
            return Err(err());
        },
        Some(x) => x,
    };
    let (data_coding, i9) = match rd_u8(buffer, i8) {
        None => {
            return Err(err());
        },
        Some(x) => x,
    };
    let optional_params = match rd_tlvs(buffer, i9) {
        None => {
            return Err(err());
        },
        Some(x) => x,
    };
    let req = DataSm {
        sequence_number: h.sequence_number,
        service_type,
        source_addr_ton,
        source_addr_npi,
        source_addr,
        dest_addr_ton,
        dest_addr_npi,
        dest_addr,
        esm_class,
        registered_delivery,
        data_coding,
        optional_params,
    };
    proof {
        crate::header::lemma_frame_consistent(buffer@);
        assert(p_data_sm(buffer@) == Some(req@));
    }
    Ok(req)
}

/// Parsing the encoding of a well-formed data-sm request yields it back.
#[verifier::rlimit(100)]
pub proof fn lemma_data_sm_roundtrip(m: DataSmV)
    requires
        wf_data_sm(m),
    ensures
        p_data_sm(data_sm_enc(m)) == Some(m),
{
    let body = data_sm_body(m);
    lemma_p_frame(CMD_DATA_SM, 0, m.sequence_number, body);
    let tail3 = data_sm_mid_bytes(m);
    let tail2 = cstr_enc(m.source_addr) + tail3;
    let tail1 = seq![npi_value(m.source_addr_npi)] + tail2;
    let tail0 = seq![ton_value(m.source_addr_ton)] + tail1;
    assert(body =~= cstr_enc(m.service_type) + tail0);
    lemma_p_cstr(m.service_type, 6, tail0);
    lemma_p_u8(ton_value(m.source_addr_ton), tail1);
    crate::common::lemma_ton_roundtrip(m.source_addr_ton);
    lemma_p_u8(npi_value(m.source_addr_npi), tail2);
    crate::common::lemma_npi_roundtrip(m.source_addr_npi);
    lemma_p_cstr(m.source_addr, 21, tail3);
    lemma_data_sm_mid_roundtrip(m);
}

// ---------------------------------------------------------------------------
// Data SM response
// ---------------------------------------------------------------------------

/// A data-sm response.
#[derive(Debug, Clone, PartialEq)]
pub struct DataSmResponse {
    /// The sequence number of the PDU.
    pub sequence_number: u32,
    /// The command status.
    pub command_status: u32,
    /// The message identifier.
    pub message_id: String,
    /// The human-readable name of the command status.
    pub status_description: String,
    /// Optional TLV parameters.
    pub optional_params: Vec<Tlv>,
}

/// Model of a [`DataSmResponse`].
pub struct DataSmResponseV {
    /// The sequence number of the PDU.
    pub sequence_number: u32,
    /// The command status.
    pub command_status: u32,
    /// The message identifier.
    pub message_id: Seq<char>,
    /// The human-readable name of the command status.
    pub status_description: Seq<char>,
    /// Optional TLV parameters.
    pub optional_params: Seq<TlvV>,
}

impl View for DataSmResponse {
    type V = DataSmResponseV;

    open spec fn view(&self) -> DataSmResponseV {
        DataSmResponseV {
            sequence_number: self.sequence_number,
            command_status: self.command_status,
            message_id: self.message_id@,
            status_description: self.status_description@,
            optional_params: tlv_views(self.optional_params@),
        }
    }
}

/// Body bytes of a data-sm response.
pub open spec fn data_sm_response_body(m: DataSmResponseV) -> Seq<u8> {
    cstr_enc(m.message_id) + tlvs_enc(m.optional_params)
}

/// Field bounds of a data-sm response.
pub open spec fn wf_data_sm_response(m: DataSmResponseV) -> bool {
    &&& wf_cstr(m.message_id, 65)
    &&& wf_tlvs(m.optional_params)
    &&& m.status_description == status_text(m.command_status)
    &&& 16 + data_sm_response_body(m).len() <= 0xFFFF_FFFF
}

/// Wire bytes of a data-sm response.
pub open spec fn data_sm_response_enc(m: DataSmResponseV) -> Seq<u8> {
    pdu_frame(CMD_DATA_SM_RESP, m.command_status, m.sequence_number, data_sm_response_body(m))
}

/// Parses a data-sm response buffer.
pub open spec fn p_data_sm_response(b: Seq<u8>) -> Option<DataSmResponseV> {
    match p_frame(b) {
        None => None,
        Some((h, body)) => if h.command_id != CMD_DATA_SM_RESP {
            None
        } else {
            match p_cstr(body, 65) {
                None => None,
                Some((message_id, r1)) => match p_tlvs(r1) {
                    None => None,
                    Some(optional_params) => Some(
                        DataSmResponseV {
                            sequence_number: h.sequence_number,
                            command_status: h.command_status,
                            message_id,
                            status_description: status_text(h.command_status),
                            optional_params,
                        },
                    ),
                },
            }
        },
    }
}

/// Encodes a `DataSmResponse` into a byte vector. The status description is
/// not written: it is derived from the command status on decode.
pub fn encode_data_sm_response(response: &DataSmResponse) -> (r: Vec<u8>)
    requires
        wf_data_sm_response(response@),
    ensures
        r@ == data_sm_response_enc(response@),
{
    let mut body: Vec<u8> = Vec::new();
    put_cstr(&mut body, response.message_id.as_str());
    put_tlvs(&mut body, &response.optional_params);
    assert(body@ =~= data_sm_response_body(response@));
    frame_pdu(CMD_DATA_SM_RESP, response.command_status, response.sequence_number, body)
}

/// Decodes a byte buffer into a `DataSmResponse`.
pub fn decode_data_sm_response(buffer: &[u8]) -> (r: Result<DataSmResponse, SmppFfiError>)
    ensures
        r is Ok <==> p_data_sm_response(buffer@) is Some,
        r matches Ok(m) ==> p_data_sm_response(buffer@) == Some(m@),
        r is Ok ==> frame_consistent(buffer@),
{
    let h = match rd_frame(buffer) {
        None => {
            return Err(
                SmppFfiError::Generic { msg: String::from_str("data sm response: bad frame") },
            );
        },
        Some(h) => h,
    };
    if h.command_id != CMD_DATA_SM_RESP {
        return Err(
            SmppFfiError::Generic { msg: String::from_str("data sm response: wrong command") },
        );
    }
    let (message_id, i1) = match rd_cstr(buffer, 16, 65) {
        None => {
            return Err(
                SmppFfiError::Generic {
                    msg: String::from_str("data sm response: bad message_id"),
                },
            );
        },
        Some(x) => x,
    };
    let optional_params = match rd_tlvs(buffer, i1) {
        None => {
            return Err(
                SmppFfiError::Generic {
                    msg: String::from_str("data sm response: malformed parameters"),
                },
            );
        },
        Some(x) => x,
    };
    let resp = DataSmResponse {
        sequence_number: h.sequence_number,
        command_status: h.command_status,
        message_id,
        status_description: get_status_description(h.command_status),
        optional_params,
    };
    proof {
        crate::header::lemma_frame_consistent(buffer@);
        assert(p_data_sm_response(buffer@) == Some(resp@));
    }
    Ok(resp)
}

/// Parsing the encoding of a well-formed data-sm response yields it back.
pub proof fn lemma_data_sm_response_roundtrip(m: DataSmResponseV)
    requires
        wf_data_sm_response(m),
    ensures
        p_data_sm_response(data_sm_response_enc(m)) == Some(m),
{
    let body = data_sm_response_body(m);
    lemma_p_frame(CMD_DATA_SM_RESP, m.command_status, m.sequence_number, body);
    let tail0 = tlvs_enc(m.optional_params);
    assert(body =~= cstr_enc(m.message_id) + tail0);
    lemma_p_cstr(m.message_id, 65, tail0);
    lemma_p_tlvs(m.optional_params);
}


} // verus!
