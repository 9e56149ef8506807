//! Session management PDUs: bind, unbind, enquire-link, outbind, and the
//! generic negative acknowledgement.

use vstd::prelude::*;

use crate::common::{
    bind_mode_command, bind_mode_of_command, BindMode, CMD_BIND_TRANSCEIVER_RESP,
    CMD_BIND_RECEIVER_RESP, CMD_BIND_TRANSMITTER_RESP, CMD_ENQUIRE_LINK, CMD_ENQUIRE_LINK_RESP,
    CMD_OUTBIND, CMD_UNBIND, CMD_UNBIND_RESP, GENERIC_NACK, Npi, npi_of_value, npi_value, Ton,
    ton_of_value, ton_value,
};
use crate::header::{
    frame_consistent, frame_pdu, lemma_p_frame, p_frame, pdu_frame, rd_frame,
};
use crate::wire::{
    cstr_enc, lemma_p_cstr, lemma_p_u8, p_cstr, p_u8, put_cstr, put_u8, rd_cstr, rd_u8, wf_cstr,
};

verus! {

// ---------------------------------------------------------------------------
// Bind request
// ---------------------------------------------------------------------------

/// A bind request (receiver, transmitter, or transceiver).
#[derive(Debug, Clone, PartialEq)]
pub struct BindRequest {
    /// The sequence number of the PDU.
    pub sequence_number: u32,
    /// The bind mode (transmitter, receiver, or transceiver).
    pub mode: BindMode,
    /// The system identifier (username).
    pub system_id: String,
    /// The password.
    pub password: String,
    /// The system type.
    pub system_type: String,
    /// The interface version.
    pub interface_version: u8,
    /// The type of number for the address range.
    pub addr_ton: Ton,
    /// The numbering plan indicator for the address range.
    pub addr_npi: Npi,
    /// The address range.
    pub address_range: String,
}

/// Model of a [`BindRequest`].
pub struct BindRequestV {
    /// The sequence number of the PDU.
    pub sequence_number: u32,
    /// The bind mode.
    pub mode: BindMode,
    /// The system identifier.
    pub system_id: Seq<char>,
    /// The password.
    pub password: Seq<char>,
    /// The system type.
    pub system_type: Seq<char>,
    /// The interface version.
    pub interface_version: u8,
    /// The type of number.
    pub addr_ton: Ton,
    /// The numbering plan indicator.
    pub addr_npi: Npi,
    /// The address range.
    pub address_range: Seq<char>,
}

impl View for BindRequest {
    type V = BindRequestV;

    open spec fn view(&self) -> BindRequestV {
        BindRequestV {
            sequence_number: self.sequence_number,
            mode: self.mode,
            system_id: self.system_id@,
            password: self.password@,
            system_type: self.system_type@,
            interface_version: self.interface_version,
            addr_ton: self.addr_ton,
            addr_npi: self.addr_npi,
            address_range: self.address_range@,
        }
    }
}

/// Field bounds of a bind request: each string fits its protocol-defined
/// C-octet field.
pub open spec fn wf_bind_request(m: BindRequestV) -> bool {
    &&& wf_cstr(m.system_id, 16)
    &&& wf_cstr(m.password, 9)
    &&& wf_cstr(m.system_type, 13)
    &&& wf_cstr(m.address_range, 41)
}

/// Body bytes of a bind request: three C-octet strings, the interface
/// version, the address type bytes, and the address range.
pub open spec fn bind_request_body(m: BindRequestV) -> Seq<u8> {
    cstr_enc(m.system_id) + cstr_enc(m.password) + cstr_enc(m.system_type) + seq![
        m.interface_version,
        ton_value(m.addr_ton),
        npi_value(m.addr_npi),
    ] + cstr_enc(m.address_range)
}

/// Wire bytes of a bind request; the bind mode selects the command identity.
pub open spec fn bind_request_enc(m: BindRequestV) -> Seq<u8> {
    pdu_frame(bind_mode_command(m.mode), 0, m.sequence_number, bind_request_body(m))
}

/// Parses a bind request buffer.
pub open spec fn p_bind_request(b: Seq<u8>) -> Option<BindRequestV> {
    match p_frame(b) {
        None => None,
        Some((h, body)) => match bind_mode_of_command(h.command_id) {
            None => None,
            Some(mode) => match p_cstr(body, 16) {
                None => None,
                Some((system_id, r1)) => match p_cstr(r1, 9) {
                    None => None,
                    Some((password, r2)) => match p_cstr(r2, 13) {
                        None => None,
                        Some((system_type, r3)) => match p_u8(r3) {
                            None => None,
                            Some((interface_version, r4)) => match p_u8(r4) {
                                None => None,
                                Some((tb, r5)) => match ton_of_value(tb) {
                                    None => None,
                                    Some(addr_ton) => match p_u8(r5) {
                                        None => None,
                                        Some((nb, r6)) => match npi_of_value(nb) {
                                            None => None,
                                            Some(addr_npi) => match p_cstr(r6, 41) {
                                                None => None,
                                                Some((address_range, r7)) => if r7.len() == 0 {
                                                    Some(
                                                        BindRequestV {
                                                            sequence_number: h.sequence_number,
                                                            mode,
                                                            system_id,
                                                            password,
                                                            system_type,
                                                            interface_version,
                                                            addr_ton,
                                                            addr_npi,
                                                            address_range,
                                                        },
                                                    )
                                                } else {
                                                    None
                                                },
                                            },
                                        },
                                    },
                                },
                            },
                        },
                    },
                },
            },
        },
    }
}

/// Encodes a `BindRequest` into a byte vector.
pub fn encode_bind_request(req: &BindRequest) -> (r: Vec<u8>)
    requires
        wf_bind_request(req@),
    ensures
        r@ == bind_request_enc(req@),
{
    let mut body: Vec<u8> = Vec::new();
    put_cstr(&mut body, req.system_id.as_str());
    put_cstr(&mut body, req.password.as_str());
    put_cstr(&mut body, req.system_type.as_str());
    put_u8(&mut body, req.interface_version);
    put_u8(&mut body, req.addr_ton.to_byte());
    put_u8(&mut body, req.addr_npi.to_byte());
    put_cstr(&mut body, req.address_range.as_str());
    assert(body@ =~= bind_request_body(req@));
    frame_pdu(req.mode.to_command(), 0, req.sequence_number, body)
}

/// Decodes a byte buffer into a `BindRequest`.
pub fn decode_bind_request(buffer: &[u8]) -> (r: Result<BindRequest, String>)
    ensures
        r is Ok <==> p_bind_request(buffer@) is Some,
        r matches Ok(m) ==> p_bind_request(buffer@) == Some(m@),
        r is Ok ==> frame_consistent(buffer@),
{
    let h = match rd_frame(buffer) {
        None => {
            return Err(String::from_str("bind request: bad frame"));
        },
        Some(h) => h,
    };
    let mode = match BindMode::from_command(h.command_id) {
        None => {
            return Err(String::from_str("bind request: not a bind command"));
        },
        Some(m) => m,
    };
    let (system_id, i1) = match rd_cstr(buffer, 16, 16) {
        None => {
            return Err(String::from_str("bind request: bad system_id"));
        },
        Some(x) => x,
    };
    let (password, i2) = match rd_cstr(buffer, i1, 9) {
        None => {
            return Err(String::from_str("bind request: bad password"));
        },
        Some(x) => x,
    };
    let (system_type, i3) = match rd_cstr(buffer, i2, 13) {
        None => {
            return Err(String::from_str("bind request: bad system_type"));
        },
        Some(x) => x,
    };
    let (interface_version, i4) = match rd_u8(buffer, i3) {
        None => {
            return Err(String::from_str("bind request: missing interface_version"));
        },
        Some(x) => x,
    };
    let (tb, i5) = match rd_u8(buffer, i4) {
        None => {
            return Err(String::from_str("bind request: missing addr_ton"));
        },
        Some(x) => x,
    };
    let addr_ton = match Ton::from_byte(tb) {
        None => {
            return Err(String::from_str("bind request: bad addr_ton"));
        },
        Some(x) => x,
    };
    let (nb, i6) = match rd_u8(buffer, i5) {
        None => {
            return Err(String::from_str("bind request: missing addr_npi"));
        },
        Some(x) => x,
    };
    let addr_npi = match Npi::from_byte(nb) {
        None => {
            return Err(String::from_str("bind request: bad addr_npi"));
        },
        Some(x) => x,
    };
    let (address_range, i7) = match rd_cstr(buffer, i6, 41) {
        None => {
            return Err(String::from_str("bind request: bad address_range"));
        },
        Some(x) => x,
    };
    if i7 != buffer.len() {
        assert(buffer@.skip(i7 as int).len() > 0);
        return Err(String::from_str("bind request: residual bytes"));
    }
    assert(buffer@.skip(i7 as int).len() == 0);
    let req = BindRequest {
        sequence_number: h.sequence_number,
        mode,
        system_id,
        password,
        system_type,
        interface_version,
        addr_ton,
        addr_npi,
        address_range,
    };
    proof {
        crate::header::lemma_frame_consistent(buffer@);
        assert(p_bind_request(buffer@) == Some(req@));
    }
    Ok(req)
}

/// Parsing the encoding of a well-formed bind request yields it back.
pub proof fn lemma_bind_request_roundtrip(m: BindRequestV)
    requires
        wf_bind_request(m),
    ensures
        p_bind_request(bind_request_enc(m)) == Some(m),
{
    let body = bind_request_body(m);
    assert(body.len() <= 82);
    lemma_p_frame(bind_mode_command(m.mode), 0, m.sequence_number, body);
    crate::common::lemma_bind_mode_roundtrip(m.mode);
    let tail7 = Seq::<u8>::empty();
    let tail6 = cstr_enc(m.address_range) + tail7;
    let tail5 = seq![npi_value(m.addr_npi)] + tail6;
    let tail4 = seq![ton_value(m.addr_ton)] + tail5;
    let tail3 = seq![m.interface_version] + tail4;
    let tail2 = cstr_enc(m.system_type) + tail3;
    let tail1 = cstr_enc(m.password) + tail2;
    assert(body =~= cstr_enc(m.system_id) + tail1);
    lemma_p_cstr(m.system_id, 16, tail1);
    assert(tail1 =~= cstr_enc(m.password) + tail2);
    lemma_p_cstr(m.password, 9, tail2);
    lemma_p_cstr(m.system_type, 13, tail3);
    lemma_p_u8(m.interface_version, tail4);
    lemma_p_u8(ton_value(m.addr_ton), tail5);
    crate::common::lemma_ton_roundtrip(m.addr_ton);
    lemma_p_u8(npi_value(m.addr_npi), tail6);
    crate::common::lemma_npi_roundtrip(m.addr_npi);
    assert(tail6 =~= cstr_enc(m.address_range));
    lemma_p_cstr(m.address_range, 41, tail7);
    assert(cstr_enc(m.address_range) + tail7 =~= cstr_enc(m.address_range));
}

// ---------------------------------------------------------------------------
// Enquire link
// ---------------------------------------------------------------------------

/// An enquire-link request; its body is empty.
#[derive(Debug, Clone, Copy, PartialEq, Eq, Structural)]
pub struct EnquireLink {
    /// The sequence number of the PDU.
    pub sequence_number: u32,
}

/// Wire bytes of an enquire-link request: a bare header.
pub open spec fn enquire_link_enc(m: EnquireLink) -> Seq<u8> {
    pdu_frame(CMD_ENQUIRE_LINK, 0, m.sequence_number, Seq::empty())
}

/// Parses an enquire-link request buffer.
pub open spec fn p_enquire_link(b: Seq<u8>) -> Option<EnquireLink> {
    match p_frame(b) {
        None => None,
        Some((h, body)) => if h.command_id == CMD_ENQUIRE_LINK && body.len() == 0 {
            Some(EnquireLink { sequence_number: h.sequence_number })
        } else {
            None
        },
    }
}

/// Encodes an `EnquireLink` request into a byte vector.
pub fn encode_enquire_link(req: &EnquireLink) -> (r: Vec<u8>)
    ensures
        r@ == enquire_link_enc(*req),
{
    let body: Vec<u8> = Vec::new();
    frame_pdu(CMD_ENQUIRE_LINK, 0, req.sequence_number, body)
}

/// Decodes a byte buffer into an `EnquireLink` request.
pub fn decode_enquire_link(buffer: &[u8]) -> (r: Result<EnquireLink, String>)
    ensures
        r is Ok <==> p_enquire_link(buffer@) is Some,
        r matches Ok(m) ==> p_enquire_link(buffer@) == Some(m),
        r is Ok ==> frame_consistent(buffer@),
{
    let h = match rd_frame(buffer) {
        None => {
            return Err(String::from_str("enquire link: bad frame"));
        },
        Some(h) => h,
    };
    if h.command_id != CMD_ENQUIRE_LINK {
        return Err(String::from_str("enquire link: wrong command"));
    }
    if buffer.len() != 16 {
        assert(buffer@.skip(16).len() > 0);
        return Err(String::from_str("enquire link: residual bytes"));
    }
    assert(buffer@.skip(16).len() == 0);
    proof {
        crate::header::lemma_frame_consistent(buffer@);
    }
    Ok(EnquireLink { sequence_number: h.sequence_number })
}

/// Parsing the encoding of an enquire-link request yields it back.
pub proof fn lemma_enquire_link_roundtrip(m: EnquireLink)
    ensures
        p_enquire_link(enquire_link_enc(m)) == Some(m),
{
    lemma_p_frame(CMD_ENQUIRE_LINK, 0, m.sequence_number, Seq::empty());
}

/// An enquire-link response; its body is empty.
#[derive(Debug, Clone, Copy, PartialEq, Eq, Structural)]
pub struct EnquireLinkResponse {
    /// The sequence number of the PDU.
    pub sequence_number: u32,
    /// The command status.
    pub command_status: u32,
}

/// Wire bytes of an enquire-link response: a bare header carrying the
/// status.
pub open spec fn enquire_link_response_enc(m: EnquireLinkResponse) -> Seq<u8> {
    pdu_frame(CMD_ENQUIRE_LINK_RESP, m.command_status, m.sequence_number, Seq::empty())
}

/// Parses an enquire-link response buffer.
pub open spec fn p_enquire_link_response(b: Seq<u8>) -> Option<EnquireLinkResponse> {
    match p_frame(b) {
        None => None,
        Some((h, body)) => if h.command_id == CMD_ENQUIRE_LINK_RESP && body.len() == 0 {
            Some(
                EnquireLinkResponse {
                    sequence_number: h.sequence_number,
                    command_status: h.command_status,
                },
            )
        } else {
            None
        },
    }
}

/// Encodes an `EnquireLinkResponse` into a byte vector.
pub fn encode_enquire_link_response(req: &EnquireLinkResponse) -> (r: Vec<u8>)
    ensures
        r@ == enquire_link_response_enc(*req),
{
    let body: Vec<u8> = Vec::new();
    frame_pdu(CMD_ENQUIRE_LINK_RESP, req.command_status, req.sequence_number, body)
}

/// Decodes a byte buffer into an `EnquireLinkResponse`.
pub fn decode_enquire_link_response(buffer: &[u8]) -> (r: Result<EnquireLinkResponse, String>)
    ensures
        r is Ok <==> p_enquire_link_response(buffer@) is Some,
        r matches Ok(m) ==> p_enquire_link_response(buffer@) == Some(m),
        r is Ok ==> frame_consistent(buffer@),
{
    let h = match rd_frame(buffer) {
        None => {
            return Err(String::from_str("enquire link response: bad frame"));
        },
        Some(h) => h,
    };
    if h.command_id != CMD_ENQUIRE_LINK_RESP {
        return Err(String::from_str("enquire link response: wrong command"));
    }
    if buffer.len() != 16 {
        assert(buffer@.skip(16).len() > 0);
        return Err(String::from_str("enquire link response: residual bytes"));
    }
    assert(buffer@.skip(16).len() == 0);
    proof {
        crate::header::lemma_frame_consistent(buffer@);
    }
    Ok(
        EnquireLinkResponse {
            sequence_number: h.sequence_number,
            command_status: h.command_status,
        },
    )
}

/// Parsing the encoding of an enquire-link response yields it back.
pub proof fn lemma_enquire_link_response_roundtrip(m: EnquireLinkResponse)
    ensures
        p_enquire_link_response(enquire_link_response_enc(m)) == Some(m),
{
    lemma_p_frame(CMD_ENQUIRE_LINK_RESP, m.command_status, m.sequence_number, Seq::empty());
}

// ---------------------------------------------------------------------------
// Unbind
// ---------------------------------------------------------------------------

/// An unbind request; its body is empty.
#[derive(Debug, Clone, Copy, PartialEq, Eq, Structural)]
pub struct Unbind {
    /// The sequence number of the PDU.
    pub sequence_number: u32,
}

/// Wire bytes of an unbind request: a bare header.
pub open spec fn unbind_enc(m: Unbind) -> Seq<u8> {
    pdu_frame(CMD_UNBIND, 0, m.sequence_number, Seq::empty())
}

/// Parses an unbind request buffer.
pub open spec fn p_unbind(b: Seq<u8>) -> Option<Unbind> {
    match p_frame(b) {
        None => None,
        Some((h, body)) => if h.command_id == CMD_UNBIND && body.len() == 0 {
            Some(Unbind { sequence_number: h.sequence_number })
        } else {
            None
        },
    }
}

/// Encodes an `Unbind` request into a byte vector.
pub fn encode_unbind(req: &Unbind) -> (r: Vec<u8>)
    ensures
        r@ == unbind_enc(*req),
{
    let body: Vec<u8> = Vec::new();
    frame_pdu(CMD_UNBIND, 0, req.sequence_number, body)
}

/// Decodes a byte buffer into an `Unbind` request.
pub fn decode_unbind(buffer: &[u8]) -> (r: Result<Unbind, String>)
    ensures
        r is Ok <==> p_unbind(buffer@) is Some,
        r matches Ok(m) ==> p_unbind(buffer@) == Some(m),
        r is Ok ==> frame_consistent(buffer@),
{
    let h = match rd_frame(buffer) {
        None => {
            return Err(String::from_str("unbind: bad frame"));
        },
        Some(h) => h,
    };
    if h.command_id != CMD_UNBIND {
        return Err(String::from_str("unbind: wrong command"));
    }
    if buffer.len() != 16 {
        assert(buffer@.skip(16).len() > 0);
        return Err(String::from_str("unbind: residual bytes"));
    }
    assert(buffer@.skip(16).len() == 0);
    proof {
        crate::header::lemma_frame_consistent(buffer@);
    }
    Ok(Unbind { sequence_number: h.sequence_number })
}

/// Parsing the encoding of an unbind request yields it back.
pub proof fn lemma_unbind_roundtrip(m: Unbind)
    ensures
        p_unbind(unbind_enc(m)) == Some(m),
{
    lemma_p_frame(CMD_UNBIND, 0, m.sequence_number, Seq::empty());
}

/// An unbind response; its body is empty.
#[derive(Debug, Clone, Copy, PartialEq, Eq, Structural)]
pub struct UnbindResponse {
    /// The sequence number of the PDU.
    pub sequence_number: u32,
    /// The command status.
    pub command_status: u32,
}

/// Wire bytes of an unbind response: a bare header carrying the status.
pub open spec fn unbind_response_enc(m: UnbindResponse) -> Seq<u8> {
    pdu_frame(CMD_UNBIND_RESP, m.command_status, m.sequence_number, Seq::empty())
}

/// Parses an unbind response buffer.
pub open spec fn p_unbind_response(b: Seq<u8>) -> Option<UnbindResponse> {
    match p_frame(b) {
        None => None,
        Some((h, body)) => if h.command_id == CMD_UNBIND_RESP && body.len() == 0 {
            Some(
                UnbindResponse {
                    sequence_number: h.sequence_number,
                    command_status: h.command_status,
                },
            )
        } else {
            None
        },
    }
}

/// Encodes an `UnbindResponse` into a byte vector.
pub fn encode_unbind_response(req: &UnbindResponse) -> (r: Vec<u8>)
    ensures
        r@ == unbind_response_enc(*req),
{
    let body: Vec<u8> = Vec::new();
    frame_pdu(CMD_UNBIND_RESP, req.command_status, req.sequence_number, body)
}

/// Decodes a byte buffer into an `UnbindResponse`.
pub fn decode_unbind_response(buffer: &[u8]) -> (r: Result<UnbindResponse, String>)
    ensures
        r is Ok <==> p_unbind_response(buffer@) is Some,
        r matches Ok(m) ==> p_unbind_response(buffer@) == Some(m),
        r is Ok ==> frame_consistent(buffer@),
{
    let h = match rd_frame(buffer) {
        None => {
            return Err(String::from_str("unbind response: bad frame"));
        },
        Some(h) => h,
    };
    if h.command_id != CMD_UNBIND_RESP {
        return Err(String::from_str("unbind response: wrong command"));
    }
    if buffer.len() != 16 {
        assert(buffer@.skip(16).len() > 0);
        return Err(String::from_str("unbind response: residual bytes"));
    }
    assert(buffer@.skip(16).len() == 0);
    proof {
        crate::header::lemma_frame_consistent(buffer@);
    }
    Ok(UnbindResponse { sequence_number: h.sequence_number, command_status: h.command_status })
}

/// Parsing the encoding of an unbind response yields it back.
pub proof fn lemma_unbind_response_roundtrip(m: UnbindResponse)
    ensures
        p_unbind_response(unbind_response_enc(m)) == Some(m),
{
    lemma_p_frame(CMD_UNBIND_RESP, m.command_status, m.sequence_number, Seq::empty());
}

// ---------------------------------------------------------------------------
// Generic negative acknowledgement
// ---------------------------------------------------------------------------

/// The generic negative acknowledgement; its body is empty, and its status
/// echoes the error being acknowledged.
#[derive(Debug, Clone, Copy, PartialEq, Eq, Structural)]
pub struct GenericNack {
    /// The sequence number of the PDU.
    pub sequence_number: u32,
    /// The command status.
    pub command_status: u32,
}

/// Wire bytes of a generic negative acknowledgement: a bare header.
pub open spec fn generic_nack_enc(m: GenericNack) -> Seq<u8> {
    pdu_frame(GENERIC_NACK, m.command_status, m.sequence_number, Seq::empty())
}

/// Parses a generic negative acknowledgement buffer.
pub open spec fn p_generic_nack(b: Seq<u8>) -> Option<GenericNack> {
    match p_frame(b) {
        None => None,
        Some((h, body)) => if h.command_id == GENERIC_NACK && body.len() == 0 {
            Some(
                GenericNack {
                    sequence_number: h.sequence_number,
                    command_status: h.command_status,
                },
            )
        } else {
            None
        },
    }
}

/// Encodes a `GenericNack` into a byte vector.
pub fn encode_generic_nack(req: &GenericNack) -> (r: Vec<u8>)
    ensures
        r@ == generic_nack_enc(*req),
{
    let body: Vec<u8> = Vec::new();
    frame_pdu(GENERIC_NACK, req.command_status, req.sequence_number, body)
}

/// Decodes a byte buffer into a `GenericNack`.
pub fn decode_generic_nack(buffer: &[u8]) -> (r: Result<GenericNack, String>)
    ensures
        r is Ok <==> p_generic_nack(buffer@) is Some,
        r matches Ok(m) ==> p_generic_nack(buffer@) == Some(m),
        r is Ok ==> frame_consistent(buffer@),
{
    let h = match rd_frame(buffer) {
        None => {
            return Err(String::from_str("generic nack: bad frame"));
        },
        Some(h) => h,
    };
    if h.command_id != GENERIC_NACK {
        return Err(String::from_str("generic nack: wrong command"));
    }
    if buffer.len() != 16 {
        assert(buffer@.skip(16).len() > 0);
        return Err(String::from_str("generic nack: residual bytes"));
    }
    assert(buffer@.skip(16).len() == 0);
    proof {
        crate::header::lemma_frame_consistent(buffer@);
    }
    Ok(GenericNack { sequence_number: h.sequence_number, command_status: h.command_status })
}

/// Parsing the encoding of a generic negative acknowledgement yields it
/// back.
pub proof fn lemma_generic_nack_roundtrip(m: GenericNack)
    ensures
        p_generic_nack(generic_nack_enc(m)) == Some(m),
{
    lemma_p_frame(GENERIC_NACK, m.command_status, m.sequence_number, Seq::empty());
}

// ---------------------------------------------------------------------------
// Outbind
// ---------------------------------------------------------------------------

/// An outbind request. The wire format carries a system identifier and a
/// password; this value keeps only the identifier and writes an empty
/// password.
#[derive(Debug, Clone, PartialEq)]
pub struct Outbind {
    /// The sequence number of the PDU.
    pub sequence_number: u32,
    /// The system identifier.
    pub system_id: String,
}

/// Model of an [`Outbind`].
pub struct OutbindV {
    /// The sequence number of the PDU.
    pub sequence_number: u32,
    /// The system identifier.
    pub system_id: Seq<char>,
}

impl View for Outbind {
    type V = OutbindV;

    open spec fn view(&self) -> OutbindV {
        OutbindV { sequence_number: self.sequence_number, system_id: self.system_id@ }
    }
}

/// Field bounds of an outbind request.
pub open spec fn wf_outbind(m: OutbindV) -> bool {
    wf_cstr(m.system_id, 16)
}

/// Body bytes of an outbind request: the system identifier and an empty
/// password.
pub open spec fn outbind_body(m: OutbindV) -> Seq<u8> {
    cstr_enc(m.system_id) + cstr_enc(Seq::empty())
}

/// Wire bytes of an outbind request.
pub open spec fn outbind_enc(m: OutbindV) -> Seq<u8> {
    pdu_frame(CMD_OUTBIND, 0, m.sequence_number, outbind_body(m))
}

/// Parses an outbind request buffer. The password field is read and
/// discarded.
pub open spec fn p_outbind(b: Seq<u8>) -> Option<OutbindV> {
    match p_frame(b) {
        None => None,
        Some((h, body)) => if h.command_id != CMD_OUTBIND {
            None
        } else {
            match p_cstr(body, 16) {
                None => None,
                Some((system_id, r1)) => match p_cstr(r1, 9) {
                    None => None,
                    Some((_password, r2)) => if r2.len() == 0 {
                        Some(OutbindV { sequence_number: h.sequence_number, system_id })
                    } else {
                        None
                    },
                },
            }
        },
    }
}

/// Encodes an `Outbind` request into a byte vector, with an empty password
/// field.
pub fn encode_outbind(req: &Outbind) -> (r: Vec<u8>)
    requires
        wf_outbind(req@),
    ensures
        r@ == outbind_enc(req@),
{
    let mut body: Vec<u8> = Vec::new();
    put_cstr(&mut body, req.system_id.as_str());
    put_u8(&mut body, 0);
    assert(cstr_enc(Seq::empty()) =~= seq![0u8]);
    assert(body@ =~= outbind_body(req@));
    frame_pdu(CMD_OUTBIND, 0, req.sequence_number, body)
}

/// Decodes a byte buffer into an `Outbind` request, discarding the password
/// field.
pub fn decode_outbind(buffer: &[u8]) -> (r: Result<Outbind, String>)
    ensures
        r is Ok <==> p_outbind(buffer@) is Some,
        r matches Ok(m) ==> p_outbind(buffer@) == Some(m@),
        r is Ok ==> frame_consistent(buffer@),
{
    let h = match rd_frame(buffer) {
        None => {
            return Err(String::from_str("outbind: bad frame"));
        },
        Some(h) => h,
    };
    if h.command_id != CMD_OUTBIND {
        return Err(String::from_str("outbind: wrong command"));
    }
    let (system_id, i1) = match rd_cstr(buffer, 16, 16) {
        None => {
            return Err(String::from_str("outbind: bad system_id"));
        },
        Some(x) => x,
    };
    let (_password, i2) = match rd_cstr(buffer, i1, 9) {
        None => {
            return Err(String::from_str("outbind: bad password"));
        },
        Some(x) => x,
    };
    if i2 != buffer.len() {
        assert(buffer@.skip(i2 as int).len() > 0);
        return Err(String::from_str("outbind: residual bytes"));
    }
    assert(buffer@.skip(i2 as int).len() == 0);
    let req = Outbind { sequence_number: h.sequence_number, system_id };
    proof {
        crate::header::lemma_frame_consistent(buffer@);
        assert(p_outbind(buffer@) == Some(req@));
    }
    Ok(req)
}

/// Parsing the encoding of a well-formed outbind request yields it back.
pub proof fn lemma_outbind_roundtrip(m: OutbindV)
    requires
        wf_outbind(m),
    ensures
        p_outbind(outbind_enc(m)) == Some(m),
{
    let body = outbind_body(m);
    assert(body.len() <= 17);
    lemma_p_frame(CMD_OUTBIND, 0, m.sequence_number, body);
    let tail1 = cstr_enc(Seq::empty());
    assert(body =~= cstr_enc(m.system_id) + tail1);
    lemma_p_cstr(m.system_id, 16, tail1);
    assert(wf_cstr(Seq::empty(), 9));
    assert(tail1 =~= cstr_enc(Seq::empty()) + Seq::<u8>::empty());
    lemma_p_cstr(Seq::empty(), 9, Seq::empty());
}

// ---------------------------------------------------------------------------
// Bind response
// ---------------------------------------------------------------------------

/// A bind response. Encoding writes the transceiver response identity;
/// decoding accepts any of the three bind response identities.
#[derive(Debug, Clone, PartialEq)]
pub struct BindResponse {
    /// The sequence number of the PDU.
    pub sequence_number: u32,
    /// The command status.
    pub command_status: u32,
    /// The system identifier of the responding peer.
    pub system_id: String,
}

/// Model of a [`BindResponse`].
pub struct BindResponseV {
    /// The sequence number of the PDU.
    pub sequence_number: u32,
    /// The command status.
    pub command_status: u32,
    /// The system identifier.
    pub system_id: Seq<char>,
}

impl View for BindResponse {
    type V = BindResponseV;

    open spec fn view(&self) -> BindResponseV {
        BindResponseV {
            sequence_number: self.sequence_number,
            command_status: self.command_status,
            system_id: self.system_id@,
        }
    }
}

/// Field bounds of a bind response.
pub open spec fn wf_bind_response(m: BindResponseV) -> bool {
    wf_cstr(m.system_id, 16)
}

/// Whether `id` is one of the three bind response identities.
pub open spec fn is_bind_response_id(id: u32) -> bool {
    id == CMD_BIND_RECEIVER_RESP || id == CMD_BIND_TRANSMITTER_RESP || id
        == CMD_BIND_TRANSCEIVER_RESP
}

/// Wire bytes of a bind response.
pub open spec fn bind_response_enc(m: BindResponseV) -> Seq<u8> {
    pdu_frame(
        CMD_BIND_TRANSCEIVER_RESP,
        m.command_status,
        m.sequence_number,
        cstr_enc(m.system_id),
    )
}

/// Parses a bind response buffer.
pub open spec fn p_bind_response(b: Seq<u8>) -> Option<BindResponseV> {
    match p_frame(b) {
        None => None,
        Some((h, body)) => if !is_bind_response_id(h.command_id) {
            None
        } else {
            match p_cstr(body, 16) {
                None => None,
                Some((system_id, r1)) => if r1.len() == 0 {
                    Some(
                        BindResponseV {
                            sequence_number: h.sequence_number,
                            command_status: h.command_status,
                            system_id,
                        },
                    )
                } else {
                    None
                },
            }
        },
    }
}

/// Encodes a `BindResponse` into a byte vector.
pub fn encode_bind_response(req: &BindResponse) -> (r: Vec<u8>)
    requires
        wf_bind_response(req@),
    ensures
        r@ == bind_response_enc(req@),
{
    let mut body: Vec<u8> = Vec::new();
    put_cstr(&mut body, req.system_id.as_str());
    frame_pdu(CMD_BIND_TRANSCEIVER_RESP, req.command_status, req.sequence_number, body)
}

/// Decodes a byte buffer into a `BindResponse`.
pub fn decode_bind_response(buffer: &[u8]) -> (r: Result<BindResponse, String>)
    ensures
        r is Ok <==> p_bind_response(buffer@) is Some,
        r matches Ok(m) ==> p_bind_response(buffer@) == Some(m@),
        r is Ok ==> frame_consistent(buffer@),
{
    let h = match rd_frame(buffer) {
        None => {
            return Err(String::from_str("bind response: bad frame"));
        },
        Some(h) => h,
    };
    if !(h.command_id == CMD_BIND_RECEIVER_RESP || h.command_id == CMD_BIND_TRANSMITTER_RESP
        || h.command_id == CMD_BIND_TRANSCEIVER_RESP) {
        return Err(String::from_str("bind response: wrong command"));
    }
    let (system_id, i1) = match rd_cstr(buffer, 16, 16) {
        None => {
            return Err(String::from_str("bind response: bad system_id"));
        },
        Some(x) => x,
    };
    if i1 != buffer.len() {
        assert(buffer@.skip(i1 as int).len() > 0);
        return Err(String::from_str("bind response: residual bytes"));
    }
    assert(buffer@.skip(i1 as int).len() == 0);
    let resp = BindResponse {
        sequence_number: h.sequence_number,
        command_status: h.command_status,
        system_id,
    };
    proof {
        crate::header::lemma_frame_consistent(buffer@);
        assert(p_bind_response(buffer@) == Some(resp@));
    }
    Ok(resp)
}

/// Parsing the encoding of a well-formed bind response yields it back.
pub proof fn lemma_bind_response_roundtrip(m: BindResponseV)
    requires
        wf_bind_response(m),
    ensures
        p_bind_response(bind_response_enc(m)) == Some(m),
{
    let body = cstr_enc(m.system_id);
    assert(body.len() <= 16);
    lemma_p_frame(CMD_BIND_TRANSCEIVER_RESP, m.command_status, m.sequence_number, body);
    assert(body =~= cstr_enc(m.system_id) + Seq::<u8>::empty());
    lemma_p_cstr(m.system_id, 16, Seq::empty());
}

} // verus!
