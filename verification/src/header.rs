//! The fixed 16-byte PDU header: four big-endian 32-bit fields in fixed
//! order (total length, command identity, command status, sequence number),
//! and the framing helpers the body codecs share.

use vstd::prelude::*;

use crate::common::SmppFfiError;
use crate::wire::{be32, lemma_p_be32, p_be32, put_be32, rd_be32};

verus! {

/// The fixed-size header common to every command.
#[derive(Debug, Clone, Copy, PartialEq, Eq, Structural)]
pub struct Header {
    /// Total PDU byte length, the 16 header bytes included.
    pub command_length: u32,
    /// Identity of the PDU type and direction.
    pub command_id: u32,
    /// Zero for requests, an error or status value for responses.
    pub command_status: u32,
    /// Correlates requests to responses.
    pub sequence_number: u32,
}

/// Wire bytes of a header.
pub open spec fn header_enc(h: Header) -> Seq<u8> {
    be32(h.command_length) + be32(h.command_id) + be32(h.command_status) + be32(h.sequence_number)
}

/// Parses the four header fields.
pub open spec fn p_header(b: Seq<u8>) -> Option<(Header, Seq<u8>)> {
    match p_be32(b) {
        None => None,
        Some((len, r1)) => match p_be32(r1) {
            None => None,
            Some((id, r2)) => match p_be32(r2) {
                None => None,
                Some((status, r3)) => match p_be32(r3) {
                    None => None,
                    Some((seqno, r4)) => Some(
                        (
                            Header {
                                command_length: len,
                                command_id: id,
                                command_status: status,
                                sequence_number: seqno,
                            },
                            r4,
                        ),
                    ),
                },
            },
        },
    }
}

/// Parsing the encoding of a header yields it back.
pub proof fn lemma_p_header(h: Header, rest: Seq<u8>)
    ensures
        p_header(header_enc(h) + rest) == Some((h, rest)),
        header_enc(h).len() == 16,
{
    let b3 = be32(h.sequence_number) + rest;
    let b2 = be32(h.command_status) + b3;
    let b1 = be32(h.command_id) + b2;
    assert(header_enc(h) + rest =~= be32(h.command_length) + b1);
    lemma_p_be32(h.command_length, b1);
    assert(b1 =~= be32(h.command_id) + b2);
    lemma_p_be32(h.command_id, b2);
    lemma_p_be32(h.command_status, b3);
    lemma_p_be32(h.sequence_number, rest);
}

/// Encodes a header: the four big-endian fields in fixed order.
pub fn encode_header(h: &Header) -> (r: Vec<u8>)
    ensures
        r@ == header_enc(*h),
{
    let mut out: Vec<u8> = Vec::new();
    put_be32(&mut out, h.command_length);
    put_be32(&mut out, h.command_id);
    put_be32(&mut out, h.command_status);
    put_be32(&mut out, h.sequence_number);
    assert(out@ =~= header_enc(*h));
    out
}

/// Decodes a header from the first 16 bytes of `buffer`; fails when fewer
/// are available. No semantic validation of the fields happens here.
pub fn decode_header(buffer: &[u8]) -> (r: Result<Header, SmppFfiError>)
    ensures
        r is Ok <==> buffer@.len() >= 16,
        r matches Ok(h) ==> p_header(buffer@) == Some((h, buffer@.skip(16))),
{
    assert(buffer@.skip(0) =~= buffer@);
    match rd_header(buffer, 0) {
        None => Err(SmppFfiError::Generic { msg: String::from_str("truncated header") }),
        Some((h, _j)) => {
            assert(buffer@.len() >= 16);
            Ok(h)
        },
    }
}

/// Reads the four header fields at `i`.
pub fn rd_header(b: &[u8], i: usize) -> (r: Option<(Header, usize)>)
    requires
        i <= b@.len(),
    ensures
        r is Some <==> p_header(b@.skip(i as int)) is Some,
        r is Some <==> i + 16 <= b@.len(),
        r matches Some((h, j)) ==> j == i + 16 && j <= b@.len() && p_header(b@.skip(i as int))
            == Some((h, b@.skip(j as int))),
{
    match rd_be32(b, i) {
        None => None,
        Some((len, j1)) => match rd_be32(b, j1) {
            None => None,
            Some((id, j2)) => match rd_be32(b, j2) {
                None => None,
                Some((status, j3)) => match rd_be32(b, j3) {
                    None => None,
                    Some((seqno, j4)) => Some(
                        (
                            Header {
                                command_length: len,
                                command_id: id,
                                command_status: status,
                                sequence_number: seqno,
                            },
                            j4,
                        ),
                    ),
                },
            },
        },
    }
}

// ---------------------------------------------------------------------------
// Framing
// ---------------------------------------------------------------------------

/// A whole PDU: the header, whose length field counts the body plus the 16
/// header bytes, followed by the body.
pub open spec fn pdu_frame(id: u32, status: u32, seqno: u32, body: Seq<u8>) -> Seq<u8> {
    header_enc(
        Header {
            command_length: (16 + body.len()) as u32,
            command_id: id,
            command_status: status,
            sequence_number: seqno,
        },
    ) + body
}

/// Parses the frame of a PDU: the header of a buffer whose length matches
/// the declared total length exactly, and the body after it.
pub open spec fn p_frame(b: Seq<u8>) -> Option<(Header, Seq<u8>)> {
    match p_header(b) {
        None => None,
        Some((h, body)) => if b.len() == h.command_length {
            Some((h, body))
        } else {
            None
        },
    }
}

/// Parsing a framed PDU yields the header fields and the body back.
pub proof fn lemma_p_frame(id: u32, status: u32, seqno: u32, body: Seq<u8>)
    requires
        16 + body.len() <= 0xFFFF_FFFF,
    ensures
        p_frame(pdu_frame(id, status, seqno, body)) == Some(
            (
                Header {
                    command_length: (16 + body.len()) as u32,
                    command_id: id,
                    command_status: status,
                    sequence_number: seqno,
                },
                body,
            ),
        ),
        pdu_frame(id, status, seqno, body).len() == 16 + body.len(),
{
    let h = Header {
        command_length: (16 + body.len()) as u32,
        command_id: id,
        command_status: status,
        sequence_number: seqno,
    };
    lemma_p_header(h, body);
}

/// Header consistency of a whole PDU buffer: the declared total length is
/// exactly the 16 header bytes plus the body length, which is the buffer
/// length.
pub open spec fn frame_consistent(b: Seq<u8>) -> bool {
    &&& b.len() >= 16
    &&& p_header(b) matches Some((h, body)) && h.command_length == 16 + body.len() == b.len()
}

/// A successfully parsed frame is header consistent.
pub proof fn lemma_frame_consistent(b: Seq<u8>)
    requires
        p_frame(b) is Some,
    ensures
        frame_consistent(b),
{
}

/// A header parses exactly when sixteen bytes are available.
pub proof fn lemma_p_header_len(b: Seq<u8>)
    ensures
        p_header(b) is Some <==> b.len() >= 16,
{
}

/// Truncation is rejected: no strict prefix of a buffer that parses as a
/// framed PDU parses as one, because the declared total length no longer
/// matches. Every body codec parses the frame first, so none accepts a
/// strict prefix of a valid PDU.
pub proof fn lemma_frame_truncation(b: Seq<u8>, n: int)
    requires
        p_frame(b) is Some,
        0 <= n < b.len(),
    ensures
        p_frame(b.take(n)) is None,
{
    let t = b.take(n);
    lemma_p_header_len(b);
    lemma_p_header_len(t);
    if n >= 16 {
        assert(forall|i: int| 0 <= i < n ==> t[i] == b[i]);
        let (ht, _rt) = p_header(t).unwrap();
        let (hb, _rb) = p_header(b).unwrap();
        assert(ht.command_length == hb.command_length) by {
            assert(t.skip(2) =~= b.skip(2).take(n - 2));
            assert(t[0] == b[0] && t[1] == b[1] && t[2] == b[2] && t[3] == b[3]);
        }
        assert(hb.command_length == b.len());
        assert(t.len() != ht.command_length);
    }
}

/// Wraps a body with its header.
pub fn frame_pdu(id: u32, status: u32, seqno: u32, body: Vec<u8>) -> (r: Vec<u8>)
    requires
        16 + body@.len() <= 0xFFFF_FFFF,
    ensures
        r@ == pdu_frame(id, status, seqno, body@),
{
    let len: u32 = 16 + (body.len() as u32);
    let mut out: Vec<u8> = Vec::new();
    put_be32(&mut out, len);
    put_be32(&mut out, id);
    put_be32(&mut out, status);
    put_be32(&mut out, seqno);
    crate::wire::put_bytes(&mut out, body.as_slice());
    assert(out@ =~= pdu_frame(id, status, seqno, body@));
    out
}

/// Reads the frame of a whole PDU buffer: the header, with the buffer length
/// equal to the declared total length, and the cursor of the body.
pub fn rd_frame(b: &[u8]) -> (r: Option<Header>)
    ensures
        r is Some <==> p_frame(b@) is Some,
        r matches Some(h) ==> p_frame(b@) == Some((h, b@.skip(16))) && b@.len()
            == h.command_length >= 16,
{
    assert(b@.skip(0) =~= b@);
    match rd_header(b, 0) {
        None => None,
        Some((h, _j)) => {
            let ok: bool = (b.len() as u64) == (h.command_length as u64);
            if ok {
                Some(h)
            } else {
                None
            }
        },
    }
}

} // verus!
