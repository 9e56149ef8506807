//! Submission to multiple recipients: the submit-multi request with its
//! tagged destination list, and its response with the list of addresses
//! that could not be served.

use vstd::prelude::*;

use crate::common::{
    get_status_description, status_text, CMD_SUBMIT_MULTI_SM, CMD_SUBMIT_MULTI_SM_RESP, Npi,
    npi_of_value, npi_value, Ton, ton_of_value, ton_value,
};
use crate::header::{frame_consistent, frame_pdu, lemma_p_frame, p_frame, pdu_frame, rd_frame};
use crate::tlv::{
    lemma_p_tlvs, p_tlvs, put_tlvs, rd_tlvs, tlv_views, tlvs_enc, wf_tlvs, Tlv, TlvV,
};
use crate::wire::{
    be32, cstr_enc, lemma_opt_roundtrip, lemma_p_be32, lemma_p_cstr, lemma_p_fixed, lemma_p_u8,
    opt_chars, opt_of_chars, opt_str_view, p_be32, p_cstr, p_fixed, p_u8, put_be32, put_bytes,
    put_cstr, put_opt_cstr, put_u8, rd_be32, rd_cstr, rd_fixed, rd_opt_cstr, rd_u8, wf_cstr,
    wf_opt_cstr,
};

verus! {

// ---------------------------------------------------------------------------
// Destinations
// ---------------------------------------------------------------------------

/// A destination of a submit-multi request: an addressable endpoint or a
/// named distribution list, told apart by a one-byte wire discriminator.
#[derive(Debug, Clone, PartialEq)]
pub enum Destination {
    /// A short-message-entity address.
    SmeAddress {
        /// The type of number.
        ton: Ton,
        /// The numbering plan indicator.
        npi: Npi,
        /// The address.
        address: String,
    },
    /// A named distribution list.
    DistributionList {
        /// The name of the distribution list.
        name: String,
    },
}

/// Model of a [`Destination`].
pub enum DestinationV {
    /// A short-message-entity address.
    SmeAddress {
        /// The type of number.
        ton: Ton,
        /// The numbering plan indicator.
        npi: Npi,
        /// The address.
        address: Seq<char>,
    },
    /// A named distribution list.
    DistributionList {
        /// The name of the distribution list.
        name: Seq<char>,
    },
}

impl View for Destination {
    type V = DestinationV;

    open spec fn view(&self) -> DestinationV {
        match self {
            Destination::SmeAddress { ton, npi, address } => DestinationV::SmeAddress {
                ton: *ton,
                npi: *npi,
                address: address@,
            },
            Destination::DistributionList { name } => DestinationV::DistributionList {
                name: name@,
            },
        }
    }
}

/// The views of a destination sequence.
pub open spec fn dest_views(v: Seq<Destination>) -> Seq<DestinationV> {
    v.map_values(|d: Destination| d@)
}

/// Field bounds of one destination.
pub open spec fn wf_dest(d: DestinationV) -> bool {
    match d {
        DestinationV::SmeAddress { ton, npi, address } => wf_cstr(address, 21),
        DestinationV::DistributionList { name } => wf_cstr(name, 21),
    }
}

/// Every destination of the sequence is well formed.
pub open spec fn wf_dests(ds: Seq<DestinationV>) -> bool {
    forall|i: int| 0 <= i < ds.len() ==> wf_dest(#[trigger] ds[i])
}

/// Wire bytes of one destination: the discriminator byte, then either the
/// address triple or the list name.
pub open spec fn dest_enc(d: DestinationV) -> Seq<u8> {
    match d {
        DestinationV::SmeAddress { ton, npi, address } => seq![1u8, ton_value(ton), npi_value(npi)]
            + cstr_enc(address),
        DestinationV::DistributionList { name } => seq![2u8] + cstr_enc(name),
    }
}

/// Wire bytes of a destination sequence, in order.
pub open spec fn dests_enc(ds: Seq<DestinationV>) -> Seq<u8>
    decreases ds.len(),
{
    if ds.len() == 0 {
        Seq::empty()
    } else {
        dest_enc(ds[0]) + dests_enc(ds.skip(1))
    }
}

/// Parses one destination.
pub open spec fn p_dest(b: Seq<u8>) -> Option<(DestinationV, Seq<u8>)> {
    match p_u8(b) {
        None => None,
        Some((flag, r0)) => if flag == 1 {
            match p_u8(r0) {
                None => None,
                Some((tb, r1)) => match ton_of_value(tb) {
                    None => None,
                    Some(ton) => match p_u8(r1) {
                        None => None,
                        Some((nb, r2)) => match npi_of_value(nb) {
                            None => None,
                            Some(npi) => match p_cstr(r2, 21) {
                                None => None,
                                Some((address, r3)) => Some(
                                    (DestinationV::SmeAddress { ton, npi, address }, r3),
                                ),
                            },
                        },
                    },
                },
            }
        } else if flag == 2 {
            match p_cstr(r0, 21) {
                None => None,
                Some((name, r1)) => Some((DestinationV::DistributionList { name }, r1)),
            }
        } else {
            None
        },
    }
}

/// Parses exactly `n` destinations.
pub open spec fn p_dests(b: Seq<u8>, n: nat) -> Option<(Seq<DestinationV>, Seq<u8>)>
    decreases n,
{
    if n == 0 {
        Some((Seq::empty(), b))
    } else {
        match p_dest(b) {
            None => None,
            Some((d, r)) => match p_dests(r, (n - 1) as nat) {
                None => None,
                Some((ds, r2)) => Some((seq![d] + ds, r2)),
            },
        }
    }
}

/// Parsing the encoding of a well-formed destination yields it back.
pub proof fn lemma_p_dest(d: DestinationV, rest: Seq<u8>)
    requires
        wf_dest(d),
    ensures
        p_dest(dest_enc(d) + rest) == Some((d, rest)),
{
    match d {
        DestinationV::SmeAddress { ton, npi, address } => {
            let tail2 = cstr_enc(address) + rest;
            let tail1 = seq![npi_value(npi)] + tail2;
            let tail0 = seq![ton_value(ton)] + tail1;
            assert(dest_enc(d) + rest =~= seq![1u8] + tail0);
            lemma_p_u8(1u8, tail0);
            lemma_p_u8(ton_value(ton), tail1);
            crate::common::lemma_ton_roundtrip(ton);
            lemma_p_u8(npi_value(npi), tail2);
            crate::common::lemma_npi_roundtrip(npi);
            lemma_p_cstr(address, 21, rest);
        },
        DestinationV::DistributionList { name } => {
            let tail0 = cstr_enc(name) + rest;
            assert(dest_enc(d) + rest =~= seq![2u8] + tail0);
            lemma_p_u8(2u8, tail0);
            lemma_p_cstr(name, 21, rest);
        },
    }
}

/// Parsing the encoding of a well-formed destination sequence yields it
/// back.
pub proof fn lemma_p_dests(ds: Seq<DestinationV>, rest: Seq<u8>)
    requires
        wf_dests(ds),
    ensures
        p_dests(dests_enc(ds) + rest, ds.len()) == Some((ds, rest)),
    decreases ds.len(),
{
    if ds.len() == 0 {
        assert(dests_enc(ds) + rest =~= rest);
        assert(Seq::<DestinationV>::empty() =~= ds);
    } else {
        let d = ds[0];
        let tail = ds.skip(1);
        assert(wf_dests(tail)) by {
            assert(forall|i: int|
                0 <= i < tail.len() ==> #[trigger] tail[i] == ds[i + 1] && wf_dest(ds[i + 1]));
        }
        assert(dests_enc(ds) + rest =~= dest_enc(d) + (dests_enc(tail) + rest));
        lemma_p_dest(d, dests_enc(tail) + rest);
        lemma_p_dests(tail, rest);
        assert(seq![d] + tail =~= ds);
    }
}

/// Appending one destination to a sequence appends its encoding.
pub proof fn lemma_dests_enc_push(ds: Seq<DestinationV>, d: DestinationV)
    ensures
        dests_enc(ds.push(d)) == dests_enc(ds) + dest_enc(d),
    decreases ds.len(),
{
    if ds.len() == 0 {
        let p = ds.push(d);
        assert(p[0] == d);
        assert(p.skip(1) =~= Seq::<DestinationV>::empty());
        assert(dests_enc(p.skip(1)) == Seq::<u8>::empty());
        assert(dests_enc(p) == dest_enc(d) + Seq::<u8>::empty());
        assert(dest_enc(d) + Seq::<u8>::empty() =~= dest_enc(d));
        assert(dests_enc(ds) + dest_enc(d) =~= dest_enc(d));
    } else {
        assert(ds.push(d)[0] == ds[0]);
        assert(ds.push(d).skip(1) =~= ds.skip(1).push(d));
        lemma_dests_enc_push(ds.skip(1), d);
        assert(dests_enc(ds.push(d)) == dest_enc(ds[0]) + (dests_enc(ds.skip(1)) + dest_enc(d)));
        assert(dest_enc(ds[0]) + (dests_enc(ds.skip(1)) + dest_enc(d)) =~= (dest_enc(ds[0])
            + dests_enc(ds.skip(1))) + dest_enc(d));
    }
}

/// Appends the wire bytes of one destination.
pub fn put_dest(out: &mut Vec<u8>, d: &Destination)
    requires
        wf_dest(d@),
    ensures
        final(out)@ == old(out)@ + dest_enc(d@),
{
    match d {
        Destination::SmeAddress { ton, npi, address } => {
            put_u8(out, 1);
            put_u8(out, ton.to_byte());
            put_u8(out, npi.to_byte());
            put_cstr(out, address.as_str());
            assert(out@ =~= old(out)@ + dest_enc(d@));
        },
        Destination::DistributionList { name } => {
            put_u8(out, 2);
            put_cstr(out, name.as_str());
            assert(out@ =~= old(out)@ + dest_enc(d@));
        },
    }
}

/// Appends the wire bytes of a destination sequence, in order.
pub fn put_dests(out: &mut Vec<u8>, ds: &Vec<Destination>)
    requires
        wf_dests(dest_views(ds@)),
    ensures
        final(out)@ == old(out)@ + dests_enc(dest_views(ds@)),
{
    let mut k: usize = 0;
    while k < ds.len()
        invariant
            k <= ds@.len(),
            wf_dests(dest_views(ds@)),
            out@ == old(out)@ + dests_enc(dest_views(ds@.take(k as int))),
        decreases ds@.len() - k,
    {
        assert(dest_views(ds@)[k as int] == ds@[k as int]@);
        put_dest(out, &ds[k]);
        proof {
            assert(dest_views(ds@.take(k + 1)) =~= dest_views(ds@.take(k as int)).push(
                ds@[k as int]@,
            ));
            lemma_dests_enc_push(dest_views(ds@.take(k as int)), ds@[k as int]@);
        }
        k = k + 1;
    }
    assert(ds@.take(k as int) =~= ds@);
}

/// Reads one destination at `i`.
pub fn rd_dest(b: &[u8], i: usize) -> (r: Option<(Destination, usize)>)
    requires
        i <= b@.len(),
    ensures
        r is Some <==> p_dest(b@.skip(i as int)) is Some,
        r matches Some((d, j)) ==> i < j <= b@.len() && p_dest(b@.skip(i as int)) == Some(
            (d@, b@.skip(j as int)),
        ),
{
    let (flag, i0) = match rd_u8(b, i) {
        None => {
            return None;
        },
        Some(x) => x,
    };
    if flag == 1 {
        let (tb, i1) = match rd_u8(b, i0) {
            None => {
                return None;
            },
            Some(x) => x,
        };
        let ton = match Ton::from_byte(tb) {
            None => {
                return None;
            },
            Some(x) => x,
        };
        let (nb, i2) = match rd_u8(b, i1) {
            None => {
                return None;
            },
            Some(x) => x,
        };
        let npi = match Npi::from_byte(nb) {
            None => {
                return None;
            },
            Some(x) => x,
        };
        let (address, i3) = match rd_cstr(b, i2, 21) {
            None => {
                return None;
            },
            Some(x) => x,
        };
        Some((Destination::SmeAddress { ton, npi, address }, i3))
    } else if flag == 2 {
        let (name, i1) = match rd_cstr(b, i0, 21) {
            None => {
                return None;
            },
            Some(x) => x,
        };
        Some((Destination::DistributionList { name }, i1))
    } else {
        None
    }
}

/// Prepends already-read destinations to the outcome of parsing the rest of
/// a destination run.
pub open spec fn dests_cont(
    pre: Seq<DestinationV>,
    inner: Option<(Seq<DestinationV>, Seq<u8>)>,
) -> Option<(Seq<DestinationV>, Seq<u8>)> {
    match inner {
        None => None,
        Some((ds, r)) => Some((pre + ds, r)),
    }
}

/// Reads exactly `n` destinations from `i`.
pub fn rd_dests(b: &[u8], i: usize, n: u8) -> (r: Option<(Vec<Destination>, usize)>)
    requires
        i <= b@.len(),
    ensures
        r is Some <==> p_dests(b@.skip(i as int), n as nat) is Some,
        r matches Some((ds, j)) ==> i <= j <= b@.len() && p_dests(b@.skip(i as int), n as nat)
            == Some((dest_views(ds@), b@.skip(j as int))),
{
    let mut j: usize = i;
    let mut acc: Vec<Destination> = Vec::new();
    let mut left: u8 = n;
    loop
        invariant
            i <= j <= b@.len(),
            left <= n,
            acc@.len() == n - left,
            p_dests(b@.skip(i as int), n as nat) == dests_cont(
                dest_views(acc@),
                p_dests(b@.skip(j as int), left as nat),
            ),
        decreases left,
    {
        if left == 0 {
            assert(p_dests(b@.skip(j as int), 0) == Some(
                (Seq::<DestinationV>::empty(), b@.skip(j as int)),
            ));
            assert(dest_views(acc@) + Seq::<DestinationV>::empty() =~= dest_views(acc@));
            return Some((acc, j));
        }
        let ghost old_j = j as int;
        let ghost old_acc = acc@;
        match rd_dest(b, j) {
            None => {
                assert(p_dests(b@.skip(j as int), left as nat) is None);
                return None;
            },
            Some((d, j2)) => {
                acc.push(d);
                j = j2;
                left = left - 1;
                proof {
                    assert(p_dests(b@.skip(old_j), (left + 1) as nat) == (match p_dests(
                        b@.skip(j as int),
                        left as nat,
                    ) {
                        None => None::<(Seq<DestinationV>, Seq<u8>)>,
                        Some((ds, r2)) => Some((seq![d@] + ds, r2)),
                    }));
                    assert(dest_views(acc@) =~= dest_views(old_acc).push(d@));
                    match p_dests(b@.skip(j as int), left as nat) {
                        None => {},
                        Some((ds, _r2)) => {
                            assert(old_acc.map_values(|x: Destination| x@) + (seq![d@] + ds)
                                =~= acc@.map_values(|x: Destination| x@) + ds);
                        },
                    }
                }
            },
        }
    }
}

// ---------------------------------------------------------------------------
// Submit multi
// ---------------------------------------------------------------------------

/// A submit-multi request.
#[derive(Debug, Clone, PartialEq)]
pub struct SubmitMultiRequest {
    /// The sequence number of the PDU.
    pub sequence_number: u32,
    /// The service type.
    pub service_type: String,
    /// The type of number for the source address.
    pub source_addr_ton: Ton,
    /// The numbering plan indicator for the source address.
    pub source_addr_npi: Npi,
    /// The source address.
    pub source_addr: String,
    /// The destinations, addresses or distribution lists.
    pub destinations: Vec<Destination>,
    /// The ESM class.
    pub esm_class: u8,
    /// The protocol identifier.
    pub protocol_id: u8,
    /// The priority flag.
    pub priority_flag: u8,
    /// The schedule delivery time, absent for immediate delivery.
    pub schedule_delivery_time: Option<String>,
    /// The validity period, absent for the default.
    pub validity_period: Option<String>,
    /// The registered delivery flag.
    pub registered_delivery: u8,
    /// The replace-if-present flag.
    pub replace_if_present_flag: u8,
    /// The data coding scheme.
    pub data_coding: u8,
    /// The default message identifier.
    pub sm_default_msg_id: u8,
    /// The short message content.
    pub short_message: Vec<u8>,
    /// Optional TLV parameters.
    pub tlvs: Vec<Tlv>,
}

/// Model of a [`SubmitMultiRequest`].
pub struct SubmitMultiRequestV {
    /// The sequence number of the PDU.
    pub sequence_number: u32,
    /// The service type.
    pub service_type: Seq<char>,
    /// The source type of number.
    pub source_addr_ton: Ton,
    /// The source numbering plan indicator.
    pub source_addr_npi: Npi,
    /// The source address.
    pub source_addr: Seq<char>,
    /// The destinations.
    pub destinations: Seq<DestinationV>,
    /// The ESM class.
    pub esm_class: u8,
    /// The protocol identifier.
    pub protocol_id: u8,
    /// The priority flag.
    pub priority_flag: u8,
    /// The schedule delivery time.
    pub schedule_delivery_time: Option<Seq<char>>,
    /// The validity period.
    pub validity_period: Option<Seq<char>>,
    /// The registered delivery flag.
    pub registered_delivery: u8,
    /// The replace-if-present flag.
    pub replace_if_present_flag: u8,
    /// The data coding scheme.
    pub data_coding: u8,
    /// The default message identifier.
    pub sm_default_msg_id: u8,
    /// The short message content.
    pub short_message: Seq<u8>,
    /// Optional TLV parameters.
    pub tlvs: Seq<TlvV>,
}

impl View for SubmitMultiRequest {
    type V = SubmitMultiRequestV;

    open spec fn view(&self) -> SubmitMultiRequestV {
        SubmitMultiRequestV {
            sequence_number: self.sequence_number,
            service_type: self.service_type@,
            source_addr_ton: self.source_addr_ton,
            source_addr_npi: self.source_addr_npi,
            source_addr: self.source_addr@,
            destinations: dest_views(self.destinations@),
            esm_class: self.esm_class,
            protocol_id: self.protocol_id,
            priority_flag: self.priority_flag,
            schedule_delivery_time: opt_str_view(self.schedule_delivery_time),
            validity_period: opt_str_view(self.validity_period),
            registered_delivery: self.registered_delivery,
            replace_if_present_flag: self.replace_if_present_flag,
            data_coding: self.data_coding,
            sm_default_msg_id: self.sm_default_msg_id,
            short_message: self.short_message@,
            tlvs: tlv_views(self.tlvs@),
        }
    }
}

/// Bytes of a submit-multi body from the schedule delivery time on.
pub open spec fn submit_multi_tail_bytes(m: SubmitMultiRequestV) -> Seq<u8> {
    cstr_enc(opt_chars(m.schedule_delivery_time)) + cstr_enc(opt_chars(m.validity_period)) + seq![
        m.registered_delivery,
        m.replace_if_present_flag,
        m.data_coding,
        m.sm_default_msg_id,
        m.short_message.len() as u8,
    ] + m.short_message + tlvs_enc(m.tlvs)
}

/// Bytes of a submit-multi body from the ESM class on.
pub open spec fn submit_multi_mid_bytes(m: SubmitMultiRequestV) -> Seq<u8> {
    seq![m.esm_class, m.protocol_id, m.priority_flag] + submit_multi_tail_bytes(m)
}

/// Body bytes of a submit-multi request: the destination list carries a
/// one-byte count prefix.
pub open spec fn submit_multi_body(m: SubmitMultiRequestV) -> Seq<u8> {
    cstr_enc(m.service_type) + seq![ton_value(m.source_addr_ton), npi_value(m.source_addr_npi)]
        + cstr_enc(m.source_addr) + seq![m.destinations.len() as u8] + dests_enc(m.destinations)
        + submit_multi_mid_bytes(m)
}

/// Field bounds of a submit-multi request.
pub open spec fn wf_submit_multi_request(m: SubmitMultiRequestV) -> bool {
    &&& wf_cstr(m.service_type, 6)
    &&& wf_cstr(m.source_addr, 21)
    &&& m.destinations.len() <= 255
    &&& wf_dests(m.destinations)
    &&& wf_opt_cstr(m.schedule_delivery_time, 17)
    &&& wf_opt_cstr(m.validity_period, 17)
    &&& m.short_message.len() <= 255
    &&& wf_tlvs(m.tlvs)
    &&& 16 + submit_multi_body(m).len() <= 0xFFFF_FFFF
}

/// Wire bytes of a submit-multi request.
pub open spec fn submit_multi_request_enc(m: SubmitMultiRequestV) -> Seq<u8> {
    pdu_frame(CMD_SUBMIT_MULTI_SM, 0, m.sequence_number, submit_multi_body(m))
}

/// Parses a submit-multi request buffer.
pub open spec fn p_submit_multi_request(b: Seq<u8>) -> Option<SubmitMultiRequestV> {
    match p_frame(b) {
        None => None,
        Some((h, body)) => if h.command_id != CMD_SUBMIT_MULTI_SM {
            None
        } else {
            match p_cstr(body, 6) {
                None => None,
                Some((service_type, r0)) => match p_u8(r0) {
                    None => None,
                    Some((tb, r1)) => match ton_of_value(tb) {
                        None => None,
                        Some(source_addr_ton) => match p_u8(r1) {
                            None => None,
                            Some((nb, r2)) => match npi_of_value(nb) {
                                None => None,
                                Some(source_addr_npi) => match p_cstr(r2, 21) {
                                    None => None,
                                    Some((source_addr, r3)) => match p_u8(r3) {
                                        None => None,
                                        Some((count, r4)) => match p_dests(r4, count as nat) {
                                            None => None,
                                            Some((destinations, r5)) => p_submit_multi_mid(
                                                h.sequence_number,
                                                service_type,
                                                source_addr_ton,
                                                source_addr_npi,
                                                source_addr,
                                                destinations,
                                                r5,
                                            ),
                                        },
                                    },
                                },
                            },
                        },
                    },
                },
            }
        },
    }
}

/// Parses the middle of a submit-multi body: the three flag bytes after
/// the destination list.
pub open spec fn p_submit_multi_mid(
    seqno: u32,
    service_type: Seq<char>,
    source_addr_ton: Ton,
    source_addr_npi: Npi,
    source_addr: Seq<char>,
    destinations: Seq<DestinationV>,
    r5: Seq<u8>,
) -> Option<SubmitMultiRequestV> {
    match p_u8(r5) {
        None => None,
        Some((esm_class, r6)) => match p_u8(r6) {
            None => None,
            Some((protocol_id, r7)) => match p_u8(r7) {
                None => None,
                Some((priority_flag, r8)) => p_submit_multi_tail(
                    seqno,
                    service_type,
                    source_addr_ton,
                    source_addr_npi,
                    source_addr,
                    destinations,
                    esm_class,
                    protocol_id,
                    priority_flag,
                    r8,
                ),
            },
        },
    }
}

/// Parses the tail of a submit-multi body, from the schedule delivery time
/// on.
pub open spec fn p_submit_multi_tail(
    seqno: u32,
    service_type: Seq<char>,
    source_addr_ton: Ton,
    source_addr_npi: Npi,
    source_addr: Seq<char>,
    destinations: Seq<DestinationV>,
    esm_class: u8,
    protocol_id: u8,
    priority_flag: u8,
    r8: Seq<u8>,
) -> Option<SubmitMultiRequestV> {
    match p_cstr(r8, 17) {
        None => None,
        Some((sched, r9)) => match p_cstr(r9, 17) {
            None => None,
            Some((valid, r10)) => match p_u8(r10) {
                None => None,
                Some((registered_delivery, r11)) => match p_u8(r11) {
                    None => None,
                    Some((replace_if_present_flag, r12)) => match p_u8(r12) {
                        None => None,
                        Some((data_coding, r13)) => match p_u8(r13) {
                            None => None,
                            Some((sm_default_msg_id, r14)) => match p_u8(r14) {
                                None => None,
                                Some((sm_len, r15)) => match p_fixed(r15, sm_len as nat) {
                                    None => None,
                                    Some((short_message, r16)) => match p_tlvs(r16) {
                                        None => None,
                                        Some(tlvs) => Some(
                                            SubmitMultiRequestV {
                                                sequence_number: seqno,
                                                service_type,
                                                source_addr_ton,
                                                source_addr_npi,
                                                source_addr,
                                                destinations,
                                                esm_class,
                                                protocol_id,
                                                priority_flag,
                                                schedule_delivery_time: opt_of_chars(sched),
                                                validity_period: opt_of_chars(valid),
                                                registered_delivery,
                                                replace_if_present_flag,
                                                data_coding,
                                                sm_default_msg_id,
                                                short_message,
                                                tlvs,
                                            },
                                        ),
                                    },
                                },
                            },
                        },
                    },
                },
            },
        },
    }
}

/// Encodes a `SubmitMultiRequest` into a byte vector.
#[verifier::rlimit(100)]
pub fn encode_submit_multi_request(request: &SubmitMultiRequest) -> (r: Vec<u8>)
    requires
        wf_submit_multi_request(request@),
    ensures
        r@ == submit_multi_request_enc(request@),
{
    let mut body: Vec<u8> = Vec::new();
    put_cstr(&mut body, request.service_type.as_str());
    put_u8(&mut body, request.source_addr_ton.to_byte());
    put_u8(&mut body, request.source_addr_npi.to_byte());
    put_cstr(&mut body, request.source_addr.as_str());
    put_u8(&mut body, request.destinations.len() as u8);
    put_dests(&mut body, &request.destinations);
    put_u8(&mut body, request.esm_class);
    put_u8(&mut body, request.protocol_id);
    put_u8(&mut body, request.priority_flag);
    put_opt_cstr(&mut body, &request.schedule_delivery_time);
    put_opt_cstr(&mut body, &request.validity_period);
    put_u8(&mut body, request.registered_delivery);
    put_u8(&mut body, request.replace_if_present_flag);
    put_u8(&mut body, request.data_coding);
    put_u8(&mut body, request.sm_default_msg_id);
    put_u8(&mut body, request.short_message.len() as u8);
    put_bytes(&mut body, request.short_message.as_slice());
    put_tlvs(&mut body, &request.tlvs);
    assert(body@ =~= submit_multi_body(request@));
    frame_pdu(CMD_SUBMIT_MULTI_SM, 0, request.sequence_number, body)
}

/// Decodes a byte buffer into a `SubmitMultiRequest`.
#[verifier::rlimit(100)]
pub fn decode_submit_multi_request(buffer: &[u8]) -> (r: Result<SubmitMultiRequest, String>)
    ensures
        r is Ok <==> p_submit_multi_request(buffer@) is Some,
        r matches Ok(m) ==> p_submit_multi_request(buffer@) == Some(m@),
        r is Ok ==> frame_consistent(buffer@),
{
    let h = match rd_frame(buffer) {
        None => {
            return Err(String::from_str("submit multi: bad frame"));
        },
        Some(h) => h,
    };
    if h.command_id != CMD_SUBMIT_MULTI_SM {
        return Err(String::from_str("submit multi: wrong command"));
    }
    let (service_type, i0) = match rd_cstr(buffer, 16, 6) {
        None => {
            return Err(String::from_str("submit multi: malformed buffer"));
        },
        Some(x) => x,
    };
    let (tb, i1) = match rd_u8(buffer, i0) {
        None => {
            return Err(String::from_str("submit multi: malformed buffer"));
        },
        Some(x) => x,
    };
    let source_addr_ton = match Ton::from_byte(tb) {
        None => {
            return Err(String::from_str("submit multi: malformed buffer"));
        },
        Some(x) => x,
    };
    let (nb, i2) = match rd_u8(buffer, i1) {
        None => {
            return Err(String::from_str("submit multi: malformed buffer"));
        },
        Some(x) => x,
    };
    let source_addr_npi = match Npi::from_byte(nb) {
        None => {
            return Err(String::from_str("submit multi: malformed buffer"));
        },
        Some(x) => x,
    };
    let (source_addr, i3) = match rd_cstr(buffer, i2, 21) {
        None => {
            return Err(String::from_str("submit multi: malformed buffer"));
        },
        Some(x) => x,
    };
    let (count, i4) = match rd_u8(buffer, i3) {
        None => {
            return Err(String::from_str("submit multi: malformed buffer"));
        },
        Some(x) => x,
    };
    let (destinations, i5) = match rd_dests(buffer, i4, count) {
        None => {
            return Err(String::from_str("submit multi: malformed destinations"));
        },
        Some(x) => x,
    };
    let (esm_class, i6) = match rd_u8(buffer, i5) {
        None => {
            return Err(String::from_str("submit multi: malformed buffer"));
        },
        Some(x) => x,
    };
    let (protocol_id, i7) = match rd_u8(buffer, i6) {
        None => {
            return Err(String::from_str("submit multi: malformed buffer"));
        },
        Some(x) => x,
    };
    let (priority_flag, i8) = match rd_u8(buffer, i7) {
        None => {
            return Err(String::from_str("submit multi: malformed buffer"));
        },
        Some(x) => x,
    };
    let (schedule_delivery_time, i9) = match rd_opt_cstr(buffer, i8, 17) {
        None => {
            return Err(String::from_str("submit multi: malformed buffer"));
        },
        Some(x) => x,
    };
    let (validity_period, i10) = match rd_opt_cstr(buffer, i9, 17) {
        None => {
            return Err(String::from_str("submit multi: malformed buffer"));
        },
        Some(x) => x,
    };
    let (registered_delivery, i11) = match rd_u8(buffer, i10) {
        None => {
            return Err(String::from_str("submit multi: malformed buffer"));
        },
        Some(x) => x,
    };
    let (replace_if_present_flag, i12) = match rd_u8(buffer, i11) {
        None => {
            return Err(String::from_str("submit multi: malformed buffer"));
        },
        Some(x) => x,
    };
    let (data_coding, i13) = match rd_u8(buffer, i12) {
        None => {
            return Err(String::from_str("submit multi: malformed buffer"));
        },
        Some(x) => x,
    };
    let (sm_default_msg_id, i14) = match rd_u8(buffer, i13) {
        None => {
            return Err(String::from_str("submit multi: malformed buffer"));
        },
        Some(x) => x,
    };
    let (sm_len, i15) = match rd_u8(buffer, i14) {
        None => {
            return Err(String::from_str("submit multi: malformed buffer"));
        },
        Some(x) => x,
    };
    let (short_message, i16) = match rd_fixed(buffer, i15, sm_len as usize) {
        None => {
            return Err(String::from_str("submit multi: malformed buffer"));
        },
        Some(x) => x,
    };
    let tlvs = match rd_tlvs(buffer, i16) {
        None => {
            return Err(String::from_str("submit multi: malformed buffer"));
        },
        Some(x) => x,
    };
    let req = SubmitMultiRequest {
        sequence_number: h.sequence_number,
        service_type,
        source_addr_ton,
        source_addr_npi,
        source_addr,
        destinations,
        esm_class,
        protocol_id,
        priority_flag,
        schedule_delivery_time,
        validity_period,
        registered_delivery,
        replace_if_present_flag,
        data_coding,
        sm_default_msg_id,
        short_message,
        tlvs,
    };
    proof {
        crate::header::lemma_frame_consistent(buffer@);
        assert(p_submit_multi_request(buffer@) == Some(req@));
    }
    Ok(req)
}

/// Parsing the tail bytes of a well-formed submit-multi request yields it
/// back.
#[verifier::rlimit(100)]
pub proof fn lemma_submit_multi_tail_roundtrip(m: SubmitMultiRequestV)
    requires
        wf_submit_multi_request(m),
    ensures
        p_submit_multi_tail(
            m.sequence_number,
            m.service_type,
            m.source_addr_ton,
            m.source_addr_npi,
            m.source_addr,
            m.destinations,
            m.esm_class,
            m.protocol_id,
            m.priority_flag,
            submit_multi_tail_bytes(m),
        ) == Some(m),
{
    let tail16 = tlvs_enc(m.tlvs);
    let tail15 = m.short_message + tail16;
    let tail14 = seq![m.short_message.len() as u8] + tail15;
    let tail13 = seq![m.sm_default_msg_id] + tail14;
    let tail12 = seq![m.data_coding] + tail13;
    let tail11 = seq![m.replace_if_present_flag] + tail12;
    let tail10 = seq![m.registered_delivery] + tail11;
    let tail9 = cstr_enc(opt_chars(m.validity_period)) + tail10;
    assert(submit_multi_tail_bytes(m) =~= cstr_enc(opt_chars(m.schedule_delivery_time)) + tail9);
    lemma_opt_roundtrip(m.schedule_delivery_time, 17);
    lemma_p_cstr(opt_chars(m.schedule_delivery_time), 17, tail9);
    lemma_opt_roundtrip(m.validity_period, 17);
    lemma_p_cstr(opt_chars(m.validity_period), 17, tail10);
    lemma_p_u8(m.registered_delivery, tail11);
    lemma_p_u8(m.replace_if_present_flag, tail12);
    lemma_p_u8(m.data_coding, tail13);
    lemma_p_u8(m.sm_default_msg_id, tail14);
    lemma_p_u8(m.short_message.len() as u8, tail15);
    lemma_p_fixed(m.short_message, tail16);
    assert((m.short_message.len() as u8) as nat == m.short_message.len());
    lemma_p_tlvs(m.tlvs);
}

/// Parsing the middle bytes of a well-formed submit-multi request yields
/// it back.
#[verifier::rlimit(100)]
pub proof fn lemma_submit_multi_mid_roundtrip(m: SubmitMultiRequestV)
    requires
        wf_submit_multi_request(m),
    ensures
        p_submit_multi_mid(
            m.sequence_number,
            m.service_type,
            m.source_addr_ton,
            m.source_addr_npi,
            m.source_addr,
            m.destinations,
            submit_multi_mid_bytes(m),
        ) == Some(m),
{
    let tail8 = submit_multi_tail_bytes(m);
    let tail7 = seq![m.priority_flag] + tail8;
    let tail6 = seq![m.protocol_id] + tail7;
    assert(submit_multi_mid_bytes(m) =~= seq![m.esm_class] + tail6);
    lemma_p_u8(m.esm_class, tail6);
    lemma_p_u8(m.protocol_id, tail7);
    lemma_p_u8(m.priority_flag, tail8);
    lemma_submit_multi_tail_roundtrip(m);
}

/// Parsing the encoding of a well-formed submit-multi request yields it
/// back; the count and every destination, address and list alike, survive
/// the trip.
#[verifier::rlimit(100)]
pub proof fn lemma_submit_multi_request_roundtrip(m: SubmitMultiRequestV)
    requires
        wf_submit_multi_request(m),
    ensures
        p_submit_multi_request(submit_multi_request_enc(m)) == Some(m),
{
    let body = submit_multi_body(m);
    lemma_p_frame(CMD_SUBMIT_MULTI_SM, 0, m.sequence_number, body);
    let tail5 = submit_multi_mid_bytes(m);
    let tail4 = dests_enc(m.destinations) + tail5;
    let tail3 = seq![m.destinations.len() as u8] + tail4;
    let tail2 = cstr_enc(m.source_addr) + tail3;
    let tail1 = seq![npi_value(m.source_addr_npi)] + tail2;
    let tail0 = seq![ton_value(m.source_addr_ton)] + tail1;
    assert(body =~= cstr_enc(m.service_type) + tail0);
    lemma_p_cstr(m.service_type, 6, tail0);
    lemma_p_u8(ton_value(m.source_addr_ton), tail1);
    crate::common::lemma_ton_roundtrip(m.source_addr_ton);
    lemma_p_u8(npi_value(m.source_addr_npi), tail2);
    crate::common::lemma_npi_roundtrip(m.source_addr_npi);
    lemma_p_cstr(m.source_addr, 21, tail3);
    lemma_p_u8(m.destinations.len() as u8, tail4);
    lemma_p_dests(m.destinations, tail5);
    assert((m.destinations.len() as u8) as nat == m.destinations.len());
    lemma_submit_multi_mid_roundtrip(m);
}

// ---------------------------------------------------------------------------
// Submit multi response
// ---------------------------------------------------------------------------

/// One address a submit-multi request could not be delivered to.
#[derive(Debug, Clone, PartialEq)]
pub struct UnsuccessfulDelivery {
    /// The type of number of the failed address.
    pub ton: Ton,
    /// The numbering plan indicator of the failed address.
    pub npi: Npi,
    /// The address that failed.
    pub address: String,
    /// The error status for this address.
    pub error_status: u32,
}

/// Model of an [`UnsuccessfulDelivery`].
pub struct UnsuccessfulDeliveryV {
    /// The type of number.
    pub ton: Ton,
    /// The numbering plan indicator.
    pub npi: Npi,
    /// The address.
    pub address: Seq<char>,
    /// The error status.
    pub error_status: u32,
}

impl View for UnsuccessfulDelivery {
    type V = UnsuccessfulDeliveryV;

    open spec fn view(&self) -> UnsuccessfulDeliveryV {
        UnsuccessfulDeliveryV {
            ton: self.ton,
            npi: self.npi,
            address: self.address@,
            error_status: self.error_status,
        }
    }
}

/// The views of an unsuccessful-delivery sequence.
pub open spec fn ud_views(v: Seq<UnsuccessfulDelivery>) -> Seq<UnsuccessfulDeliveryV> {
    v.map_values(|u: UnsuccessfulDelivery| u@)
}

/// Field bounds of one unsuccessful delivery.
pub open spec fn wf_ud(u: UnsuccessfulDeliveryV) -> bool {
    wf_cstr(u.address, 21)
}

/// Every entry of the sequence is well formed.
pub open spec fn wf_uds(us: Seq<UnsuccessfulDeliveryV>) -> bool {
    forall|i: int| 0 <= i < us.len() ==> wf_ud(#[trigger] us[i])
}

/// Wire bytes of one unsuccessful delivery.
pub open spec fn ud_enc(u: UnsuccessfulDeliveryV) -> Seq<u8> {
    seq![ton_value(u.ton), npi_value(u.npi)] + cstr_enc(u.address) + be32(u.error_status)
}

/// Wire bytes of an unsuccessful-delivery sequence, in order.
pub open spec fn uds_enc(us: Seq<UnsuccessfulDeliveryV>) -> Seq<u8>
    decreases us.len(),
{
    if us.len() == 0 {
        Seq::empty()
    } else {
        ud_enc(us[0]) + uds_enc(us.skip(1))
    }
}

/// Parses one unsuccessful delivery.
pub open spec fn p_ud(b: Seq<u8>) -> Option<(UnsuccessfulDeliveryV, Seq<u8>)> {
    match p_u8(b) {
        None => None,
        Some((tb, r0)) => match ton_of_value(tb) {
            None => None,
            Some(ton) => match p_u8(r0) {
                None => None,
                Some((nb, r1)) => match npi_of_value(nb) {
                    None => None,
                    Some(npi) => match p_cstr(r1, 21) {
                        None => None,
                        Some((address, r2)) => match p_be32(r2) {
                            None => None,
                            Some((error_status, r3)) => Some(
                                (UnsuccessfulDeliveryV { ton, npi, address, error_status }, r3),
                            ),
                        },
                    },
                },
            },
        },
    }
}

/// Parses exactly `n` unsuccessful deliveries.
pub open spec fn p_uds(b: Seq<u8>, n: nat) -> Option<(Seq<UnsuccessfulDeliveryV>, Seq<u8>)>
    decreases n,
{
    if n == 0 {
        Some((Seq::empty(), b))
    } else {
        match p_ud(b) {
            None => None,
            Some((u, r)) => match p_uds(r, (n - 1) as nat) {
                None => None,
                Some((us, r2)) => Some((seq![u] + us, r2)),
            },
        }
    }
}

/// Parsing the encoding of a well-formed unsuccessful delivery yields it
/// back.
pub proof fn lemma_p_ud(u: UnsuccessfulDeliveryV, rest: Seq<u8>)
    requires
        wf_ud(u),
    ensures
        p_ud(ud_enc(u) + rest) == Some((u, rest)),
{
    let tail2 = be32(u.error_status) + rest;
    let tail1 = cstr_enc(u.address) + tail2;
    let tail0 = seq![npi_value(u.npi)] + tail1;
    assert(ud_enc(u) + rest =~= seq![ton_value(u.ton)] + tail0);
    lemma_p_u8(ton_value(u.ton), tail0);
    crate::common::lemma_ton_roundtrip(u.ton);
    lemma_p_u8(npi_value(u.npi), tail1);
    crate::common::lemma_npi_roundtrip(u.npi);
    lemma_p_cstr(u.address, 21, tail2);
    lemma_p_be32(u.error_status, rest);
}

/// Parsing the encoding of a well-formed unsuccessful-delivery sequence
/// yields it back.
pub proof fn lemma_p_uds(us: Seq<UnsuccessfulDeliveryV>, rest: Seq<u8>)
    requires
        wf_uds(us),
    ensures
        p_uds(uds_enc(us) + rest, us.len()) == Some((us, rest)),
    decreases us.len(),
{
    if us.len() == 0 {
        assert(uds_enc(us) + rest =~= rest);
        assert(Seq::<UnsuccessfulDeliveryV>::empty() =~= us);
    } else {
        let u = us[0];
        let tail = us.skip(1);
        assert(wf_uds(tail)) by {
            assert(forall|i: int|
                0 <= i < tail.len() ==> #[trigger] tail[i] == us[i + 1] && wf_ud(us[i + 1]));
        }
        assert(uds_enc(us) + rest =~= ud_enc(u) + (uds_enc(tail) + rest));
        lemma_p_ud(u, uds_enc(tail) + rest);
        lemma_p_uds(tail, rest);
        assert(seq![u] + tail =~= us);
    }
}

/// Appending one entry to a sequence appends its encoding.
pub proof fn lemma_uds_enc_push(us: Seq<UnsuccessfulDeliveryV>, u: UnsuccessfulDeliveryV)
    ensures
        uds_enc(us.push(u)) == uds_enc(us) + ud_enc(u),
    decreases us.len(),
{
    if us.len() == 0 {
        let p = us.push(u);
        assert(p[0] == u);
        assert(p.skip(1) =~= Seq::<UnsuccessfulDeliveryV>::empty());
        assert(uds_enc(p.skip(1)) == Seq::<u8>::empty());
        assert(uds_enc(p) == ud_enc(u) + Seq::<u8>::empty());
        assert(ud_enc(u) + Seq::<u8>::empty() =~= ud_enc(u));
        assert(uds_enc(us) + ud_enc(u) =~= ud_enc(u));
    } else {
        assert(us.push(u)[0] == us[0]);
        assert(us.push(u).skip(1) =~= us.skip(1).push(u));
        lemma_uds_enc_push(us.skip(1), u);
        assert(uds_enc(us.push(u)) == ud_enc(us[0]) + (uds_enc(us.skip(1)) + ud_enc(u)));
        assert(ud_enc(us[0]) + (uds_enc(us.skip(1)) + ud_enc(u)) =~= (ud_enc(us[0]) + uds_enc(
            us.skip(1),
        )) + ud_enc(u));
    }
}

/// Appends the wire bytes of one unsuccessful delivery.
pub fn put_ud(out: &mut Vec<u8>, u: &UnsuccessfulDelivery)
    requires
        wf_ud(u@),
    ensures
        final(out)@ == old(out)@ + ud_enc(u@),
{
    put_u8(out, u.ton.to_byte());
    put_u8(out, u.npi.to_byte());
    put_cstr(out, u.address.as_str());
    put_be32(out, u.error_status);
    assert(out@ =~= old(out)@ + ud_enc(u@));
}

/// Appends the wire bytes of an unsuccessful-delivery sequence, in order.
pub fn put_uds(out: &mut Vec<u8>, us: &Vec<UnsuccessfulDelivery>)
    requires
        wf_uds(ud_views(us@)),
    ensures
        final(out)@ == old(out)@ + uds_enc(ud_views(us@)),
{
    let mut k: usize = 0;
    while k < us.len()
        invariant
            k <= us@.len(),
            wf_uds(ud_views(us@)),
            out@ == old(out)@ + uds_enc(ud_views(us@.take(k as int))),
        decreases us@.len() - k,
    {
        assert(ud_views(us@)[k as int] == us@[k as int]@);
        put_ud(out, &us[k]);
        proof {
            assert(ud_views(us@.take(k + 1)) =~= ud_views(us@.take(k as int)).push(us@[k as int]@));
            lemma_uds_enc_push(ud_views(us@.take(k as int)), us@[k as int]@);
        }
        k = k + 1;
    }
    assert(us@.take(k as int) =~= us@);
}

/// Reads one unsuccessful delivery at `i`.
pub fn rd_ud(b: &[u8], i: usize) -> (r: Option<(UnsuccessfulDelivery, usize)>)
    requires
        i <= b@.len(),
    ensures
        r is Some <==> p_ud(b@.skip(i as int)) is Some,
        r matches Some((u, j)) ==> i < j <= b@.len() && p_ud(b@.skip(i as int)) == Some(
            (u@, b@.skip(j as int)),
        ),
{
    let (tb, i0) = match rd_u8(b, i) {
        None => {
            return None;
        },
        Some(x) => x,
    };
    let ton = match Ton::from_byte(tb) {
        None => {
            return None;
        },
        Some(x) => x,
    };
    let (nb, i1) = match rd_u8(b, i0) {
        None => {
            return None;
        },
        Some(x) => x,
    };
    let npi = match Npi::from_byte(nb) {
        None => {
            return None;
        },
        Some(x) => x,
    };
    let (address, i2) = match rd_cstr(b, i1, 21) {
        None => {
            return None;
        },
        Some(x) => x,
    };
    let (error_status, i3) = match rd_be32(b, i2) {
        None => {
            return None;
        },
        Some(x) => x,
    };
    Some((UnsuccessfulDelivery { ton, npi, address, error_status }, i3))
}

/// Prepends already-read entries to the outcome of parsing the rest of an
/// unsuccessful-delivery run.
pub open spec fn uds_cont(
    pre: Seq<UnsuccessfulDeliveryV>,
    inner: Option<(Seq<UnsuccessfulDeliveryV>, Seq<u8>)>,
) -> Option<(Seq<UnsuccessfulDeliveryV>, Seq<u8>)> {
    match inner {
        None => None,
        Some((us, r)) => Some((pre + us, r)),
    }
}

/// Reads exactly `n` unsuccessful deliveries from `i`.
pub fn rd_uds(b: &[u8], i: usize, n: u8) -> (r: Option<(Vec<UnsuccessfulDelivery>, usize)>)
    requires
        i <= b@.len(),
    ensures
        r is Some <==> p_uds(b@.skip(i as int), n as nat) is Some,
        r matches Some((us, j)) ==> i <= j <= b@.len() && p_uds(b@.skip(i as int), n as nat)
            == Some((ud_views(us@), b@.skip(j as int))),
{
    let mut j: usize = i;
    let mut acc: Vec<UnsuccessfulDelivery> = Vec::new();
    let mut left: u8 = n;
    loop
        invariant
            i <= j <= b@.len(),
            left <= n,
            acc@.len() == n - left,
            p_uds(b@.skip(i as int), n as nat) == uds_cont(
                ud_views(acc@),
                p_uds(b@.skip(j as int), left as nat),
            ),
        decreases left,
    {
        if left == 0 {
            assert(p_uds(b@.skip(j as int), 0) == Some(
                (Seq::<UnsuccessfulDeliveryV>::empty(), b@.skip(j as int)),
            ));
            assert(ud_views(acc@) + Seq::<UnsuccessfulDeliveryV>::empty() =~= ud_views(acc@));
            return Some((acc, j));
        }
        let ghost old_j = j as int;
        let ghost old_acc = acc@;
        match rd_ud(b, j) {
            None => {
                assert(p_uds(b@.skip(j as int), left as nat) is None);
                return None;
            },
            Some((u, j2)) => {
                acc.push(u);
                j = j2;
                left = left - 1;
                proof {
                    assert(p_uds(b@.skip(old_j), (left + 1) as nat) == (match p_uds(
                        b@.skip(j as int),
                        left as nat,
                    ) {
                        None => None::<(Seq<UnsuccessfulDeliveryV>, Seq<u8>)>,
                        Some((us, r2)) => Some((seq![u@] + us, r2)),
                    }));
                    assert(ud_views(acc@) =~= ud_views(old_acc).push(u@));
                    match p_uds(b@.skip(j as int), left as nat) {
                        None => {},
                        Some((us, _r2)) => {
                            assert(old_acc.map_values(|x: UnsuccessfulDelivery| x@) + (seq![u@]
                                + us) =~= acc@.map_values(|x: UnsuccessfulDelivery| x@) + us);
                        },
                    }
                }
            },
        }
    }
}

/// A submit-multi response.
#[derive(Debug, Clone, PartialEq)]
pub struct SubmitMultiResponse {
    /// The sequence number of the PDU.
    pub sequence_number: u32,
    /// The command status.
    pub command_status: u32,
    /// The message identifier assigned to the submission.
    pub message_id: String,
    /// The human-readable name of the command status.
    pub status_description: String,
    /// The addresses that could not be served.
    pub unsuccess_smes: Vec<UnsuccessfulDelivery>,
}

/// Model of a [`SubmitMultiResponse`].
pub struct SubmitMultiResponseV {
    /// The sequence number of the PDU.
    pub sequence_number: u32,
    /// The command status.
    pub command_status: u32,
    /// The message identifier.
    pub message_id: Seq<char>,
    /// The human-readable name of the command status.
    pub status_description: Seq<char>,
    /// The addresses that could not be served.
    pub unsuccess_smes: Seq<UnsuccessfulDeliveryV>,
}

impl View for SubmitMultiResponse {
    type V = SubmitMultiResponseV;

    open spec fn view(&self) -> SubmitMultiResponseV {
        SubmitMultiResponseV {
            sequence_number: self.sequence_number,
            command_status: self.command_status,
            message_id: self.message_id@,
            status_description: self.status_description@,
            unsuccess_smes: ud_views(self.unsuccess_smes@),
        }
    }
}

/// Body bytes of a submit-multi response: the unsuccessful-delivery list
/// carries a one-byte count prefix.
pub open spec fn submit_multi_response_body(m: SubmitMultiResponseV) -> Seq<u8> {
    cstr_enc(m.message_id) + seq![m.unsuccess_smes.len() as u8] + uds_enc(m.unsuccess_smes)
}

/// Field bounds of a submit-multi response.
pub open spec fn wf_submit_multi_response(m: SubmitMultiResponseV) -> bool {
    &&& wf_cstr(m.message_id, 65)
    &&& m.unsuccess_smes.len() <= 255
    &&& wf_uds(m.unsuccess_smes)
    &&& m.status_description == status_text(m.command_status)
    &&& 16 + submit_multi_response_body(m).len() <= 0xFFFF_FFFF
}

/// Wire bytes of a submit-multi response.
pub open spec fn submit_multi_response_enc(m: SubmitMultiResponseV) -> Seq<u8> {
    pdu_frame(
        CMD_SUBMIT_MULTI_SM_RESP,
        m.command_status,
        m.sequence_number,
        submit_multi_response_body(m),
    )
}

/// Parses a submit-multi response buffer.
pub open spec fn p_submit_multi_response(b: Seq<u8>) -> Option<SubmitMultiResponseV> {
    match p_frame(b) {
        None => None,
        Some((h, body)) => if h.command_id != CMD_SUBMIT_MULTI_SM_RESP {
            None
        } else {
            match p_cstr(body, 65) {
                None => None,
                Some((message_id, r1)) => match p_u8(r1) {
                    None => None,
                    Some((count, r2)) => match p_uds(r2, count as nat) {
                        None => None,
                        Some((unsuccess_smes, r3)) => if r3.len() == 0 {
                            Some(
                                SubmitMultiResponseV {
                                    sequence_number: h.sequence_number,
                                    command_status: h.command_status,
                                    message_id,
                                    status_description: status_text(h.command_status),
                                    unsuccess_smes,
                                },
                            )
                        } else {
                            None
                        },
                    },
                },
            }
        },
    }
}

/// Encodes a `SubmitMultiResponse` into a byte vector. The status
/// description is not written: it is derived from the command status on
/// decode.
pub fn encode_submit_multi_response(response: &SubmitMultiResponse) -> (r: Vec<u8>)
    requires
        wf_submit_multi_response(response@),
    ensures
        r@ == submit_multi_response_enc(response@),
{
    let mut body: Vec<u8> = Vec::new();
    put_cstr(&mut body, response.message_id.as_str());
    put_u8(&mut body, response.unsuccess_smes.len() as u8);
    put_uds(&mut body, &response.unsuccess_smes);
    assert(body@ =~= submit_multi_response_body(response@));
    frame_pdu(
        CMD_SUBMIT_MULTI_SM_RESP,
        response.command_status,
        response.sequence_number,
        body,
    )
}

/// Decodes a byte buffer into a `SubmitMultiResponse`.
pub fn decode_submit_multi_response(buffer: &[u8]) -> (r: Result<SubmitMultiResponse, String>)
    ensures
        r is Ok <==> p_submit_multi_response(buffer@) is Some,
        r matches Ok(m) ==> p_submit_multi_response(buffer@) == Some(m@),
        r is Ok ==> frame_consistent(buffer@),
{
    let h = match rd_frame(buffer) {
        None => {
            return Err(String::from_str("submit multi response: bad frame"));
        },
        Some(h) => h,
    };
    if h.command_id != CMD_SUBMIT_MULTI_SM_RESP {
        return Err(String::from_str("submit multi response: wrong command"));
    }
    let (message_id, i1) = match rd_cstr(buffer, 16, 65) {
        None => {
            return Err(String::from_str("submit multi response: bad message_id"));
        },
        Some(x) => x,
    };
    let (count, i2) = match rd_u8(buffer, i1) {
        None => {
            return Err(String::from_str("submit multi response: malformed buffer"));
        },
        Some(x) => x,
    };
    let (unsuccess_smes, i3) = match rd_uds(buffer, i2, count) {
        None => {
            return Err(String::from_str("submit multi response: malformed entries"));
        },
        Some(x) => x,
    };
    if i3 != buffer.len() {
        assert(buffer@.skip(i3 as int).len() > 0);
        return Err(String::from_str("submit multi response: residual bytes"));
    }
    assert(buffer@.skip(i3 as int).len() == 0);
    let resp = SubmitMultiResponse {
        sequence_number: h.sequence_number,
        command_status: h.command_status,
        message_id,
        status_description: get_status_description(h.command_status),
        unsuccess_smes,
    };
    proof {
        crate::header::lemma_frame_consistent(buffer@);
        assert(p_submit_multi_response(buffer@) == Some(resp@));
    }
    Ok(resp)
}

/// Parsing the encoding of a well-formed submit-multi response yields it
/// back.
#[verifier::rlimit(50)]
pub proof fn lemma_submit_multi_response_roundtrip(m: SubmitMultiResponseV)
    requires
        wf_submit_multi_response(m),
    ensures
        p_submit_multi_response(submit_multi_response_enc(m)) == Some(m),
{
    let body = submit_multi_response_body(m);
    lemma_p_frame(CMD_SUBMIT_MULTI_SM_RESP, m.command_status, m.sequence_number, body);
    let tail2 = Seq::<u8>::empty();
    let tail1 = uds_enc(m.unsuccess_smes) + tail2;
    let tail0 = seq![m.unsuccess_smes.len() as u8] + tail1;
    assert(body =~= cstr_enc(m.message_id) + tail0);
    lemma_p_cstr(m.message_id, 65, tail0);
    lemma_p_u8(m.unsuccess_smes.len() as u8, tail1);
    assert(tail1 =~= uds_enc(m.unsuccess_smes) + tail2);
    lemma_p_uds(m.unsuccess_smes, tail2);
    assert((m.unsuccess_smes.len() as u8) as nat == m.unsuccess_smes.len());
}

} // verus!
