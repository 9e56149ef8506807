//! The tag-length-value (TLV) optional-parameter codec: a 2-byte big-endian
//! tag, a 2-byte big-endian length, then exactly `length` value bytes.

use vstd::prelude::*;

use crate::common::SmppFfiError;
use crate::wire::{
    be16, cstr_enc, lemma_p_be16, p_be16, put_be16, put_bytes, rd_be16, rd_fixed,
    wf_cstr,
};

verus! {

// ---------------------------------------------------------------------------
// The parameter and its mathematical model
// ---------------------------------------------------------------------------

/// Tag-length-value parameter.
#[derive(Debug, Clone, PartialEq)]
pub struct Tlv {
    /// The tag identifier for the parameter
    pub tag: u16,
    /// The length of the value field
    pub length: u16,
    /// The value of the parameter
    pub value: Vec<u8>,
}

/// Model of a [`Tlv`]: the same fields with the value as a byte sequence.
pub struct TlvV {
    /// The tag identifier for the parameter
    pub tag: u16,
    /// The length of the value field
    pub length: u16,
    /// The value of the parameter
    pub value: Seq<u8>,
}

impl View for Tlv {
    type V = TlvV;

    open spec fn view(&self) -> TlvV {
        TlvV { tag: self.tag, length: self.length, value: self.value@ }
    }
}

/// The views of a sequence of parameters.
pub open spec fn tlv_views(v: Seq<Tlv>) -> Seq<TlvV> {
    v.map_values(|t: Tlv| t@)
}

/// A well-formed parameter keeps its stored length equal to the byte length
/// of its value.
pub open spec fn wf_tlv(t: TlvV) -> bool {
    t.length == t.value.len()
}

/// Every parameter of the sequence is well formed.
pub open spec fn wf_tlvs(ts: Seq<TlvV>) -> bool {
    forall|i: int| 0 <= i < ts.len() ==> wf_tlv(#[trigger] ts[i])
}

// ---------------------------------------------------------------------------
// Spec encoder and parsers
// ---------------------------------------------------------------------------

/// Wire bytes of one parameter. The stored length is written as it stands,
/// whether or not it matches the value.
pub open spec fn tlv_enc(t: TlvV) -> Seq<u8> {
    be16(t.tag) + be16(t.length) + t.value
}

/// Wire bytes of a parameter sequence, in order.
pub open spec fn tlvs_enc(ts: Seq<TlvV>) -> Seq<u8>
    decreases ts.len(),
{
    if ts.len() == 0 {
        Seq::empty()
    } else {
        tlv_enc(ts[0]) + tlvs_enc(ts.skip(1))
    }
}

/// Parses one parameter: 4 header bytes, then as many value bytes as the
/// header declares.
pub open spec fn p_tlv(b: Seq<u8>) -> Option<(TlvV, Seq<u8>)> {
    match p_be16(b) {
        None => None,
        Some((tag, r)) => match p_be16(r) {
            None => None,
            Some((len, r2)) => if r2.len() >= len {
                Some(
                    (
                        TlvV { tag, length: len, value: r2.take(len as int) },
                        r2.skip(len as int),
                    ),
                )
            } else {
                None
            },
        },
    }
}

/// Parses parameters until the input is exhausted; anything short of a full
/// parameter is a failure.
pub open spec fn p_tlvs(b: Seq<u8>) -> Option<Seq<TlvV>>
    decreases b.len(),
{
    if b.len() == 0 {
        Some(Seq::empty())
    } else {
        match p_tlv(b) {
            None => None,
            Some((t, r)) => if r.len() < b.len() {
                match p_tlvs(r) {
                    None => None,
                    Some(ts) => Some(seq![t] + ts),
                }
            } else {
                None
            },
        }
    }
}

// ---------------------------------------------------------------------------
// Round-trip lemmas
// ---------------------------------------------------------------------------

/// Parsing the encoding of a well-formed parameter yields it back.
pub proof fn lemma_p_tlv(t: TlvV, rest: Seq<u8>)
    requires
        wf_tlv(t),
    ensures
        p_tlv(tlv_enc(t) + rest) == Some((t, rest)),
        tlv_enc(t).len() == 4 + t.value.len(),
{
    let b = tlv_enc(t) + rest;
    assert(b =~= be16(t.tag) + (be16(t.length) + (t.value + rest)));
    lemma_p_be16(t.tag, be16(t.length) + (t.value + rest));
    lemma_p_be16(t.length, t.value + rest);
    let r2 = t.value + rest;
    assert(r2.take(t.length as int) =~= t.value);
    assert(r2.skip(t.length as int) =~= rest);
}

/// Parsing the encoding of a well-formed parameter sequence yields it back.
pub proof fn lemma_p_tlvs(ts: Seq<TlvV>)
    requires
        wf_tlvs(ts),
    ensures
        p_tlvs(tlvs_enc(ts)) == Some(ts),
    decreases ts.len(),
{
    if ts.len() == 0 {
        assert(p_tlvs(tlvs_enc(ts)) == Some(Seq::<TlvV>::empty()));
        assert(Seq::<TlvV>::empty() =~= ts);
    } else {
        let t = ts[0];
        let tail = ts.skip(1);
        let b = tlvs_enc(ts);
        assert(b == tlv_enc(t) + tlvs_enc(tail));
        lemma_p_tlv(t, tlvs_enc(tail));
        assert(b.len() == tlv_enc(t).len() + tlvs_enc(tail).len());
        assert(wf_tlvs(tail)) by {
            assert(forall|i: int|
                0 <= i < tail.len() ==> #[trigger] tail[i] == ts[i + 1] && wf_tlv(ts[i + 1]));
        }
        lemma_p_tlvs(tail);
        assert(b.len() > 0);
        assert(tlvs_enc(tail).len() < b.len());
        assert(seq![t] + tail =~= ts);
    }
}

/// Truncation is rejected: no strict prefix of the encoding of a
/// well-formed parameter parses as one.
pub proof fn lemma_tlv_truncation(t: TlvV, n: int)
    requires
        wf_tlv(t),
        0 <= n < tlv_enc(t).len(),
    ensures
        p_tlv(tlv_enc(t).take(n)) is None,
{
    let e = tlv_enc(t);
    let pre = e.take(n);
    assert(e.len() == 4 + t.value.len());
    if n < 2 {
        assert(p_be16(pre) is None);
    } else if n < 4 {
        assert(pre.skip(2).len() < 2);
        assert(p_be16(pre.skip(2)) is None);
    } else {
        lemma_p_tlv(t, Seq::empty());
        assert(e + Seq::<u8>::empty() =~= e);
        // The four header bytes of the prefix are those of the encoding,
        // so the declared length exceeds what the prefix still holds.
        assert(forall|i: int| 0 <= i < n ==> pre[i] == e[i]);
        let (tag1, r1) = p_be16(pre).unwrap();
        let (tagf, rf) = p_be16(e).unwrap();
        assert(r1 =~= e.subrange(2, n));
        assert(rf =~= e.skip(2));
        let (len1, r2) = p_be16(r1).unwrap();
        let (lenf, r2f) = p_be16(rf).unwrap();
        assert(r1[0] == e[2] && r1[1] == e[3]);
        assert(rf[0] == e[2] && rf[1] == e[3]);
        assert(len1 == lenf);
        assert(lenf == t.length);
        assert(r2 =~= e.subrange(4, n));
        assert(r2.len() == n - 4 < t.value.len());
    }
}

/// Appending one parameter to a sequence appends its encoding.
pub proof fn lemma_tlvs_enc_push(ts: Seq<TlvV>, t: TlvV)
    ensures
        tlvs_enc(ts.push(t)) == tlvs_enc(ts) + tlv_enc(t),
    decreases ts.len(),
{
    if ts.len() == 0 {
        let p = ts.push(t);
        assert(p[0] == t);
        assert(p.skip(1) =~= Seq::<TlvV>::empty());
        assert(tlvs_enc(p.skip(1)) == Seq::<u8>::empty());
        assert(tlvs_enc(p) == tlv_enc(t) + Seq::<u8>::empty());
        assert(tlv_enc(t) + Seq::<u8>::empty() =~= tlv_enc(t));
        assert(tlvs_enc(ts) + tlv_enc(t) =~= tlv_enc(t));
    } else {
        assert(ts.push(t)[0] == ts[0]);
        assert(ts.push(t).skip(1) =~= ts.skip(1).push(t));
        lemma_tlvs_enc_push(ts.skip(1), t);
        assert(tlvs_enc(ts.push(t)) == tlv_enc(ts[0]) + (tlvs_enc(ts.skip(1)) + tlv_enc(t)));
        assert(tlv_enc(ts[0]) + (tlvs_enc(ts.skip(1)) + tlv_enc(t)) =~= (tlv_enc(ts[0])
            + tlvs_enc(ts.skip(1))) + tlv_enc(t));
    }
}

// ---------------------------------------------------------------------------
// Executable helpers
// ---------------------------------------------------------------------------

/// Appends the wire bytes of one parameter.
pub fn put_tlv(out: &mut Vec<u8>, t: &Tlv)
    ensures
        final(out)@ == old(out)@ + tlv_enc(t@),
{
    put_be16(out, t.tag);
    put_be16(out, t.length);
    put_bytes(out, t.value.as_slice());
    assert(out@ =~= old(out)@ + tlv_enc(t@));
}

/// Appends the wire bytes of a parameter sequence, in order.
pub fn put_tlvs(out: &mut Vec<u8>, ts: &Vec<Tlv>)
    ensures
        final(out)@ == old(out)@ + tlvs_enc(tlv_views(ts@)),
{
    let mut k: usize = 0;
    while k < ts.len()
        invariant
            k <= ts@.len(),
            out@ == old(out)@ + tlvs_enc(tlv_views(ts@.take(k as int))),
        decreases ts@.len() - k,
    {
        put_tlv(out, &ts[k]);
        proof {
            assert(tlv_views(ts@.take(k + 1)) =~= tlv_views(ts@.take(k as int)).push(ts@[k as int]@));
            lemma_tlvs_enc_push(tlv_views(ts@.take(k as int)), ts@[k as int]@);
        }
        k = k + 1;
    }
    assert(ts@.take(k as int) =~= ts@);
}

/// Reads one parameter at `i`.
pub fn rd_tlv(b: &[u8], i: usize) -> (r: Option<(Tlv, usize)>)
    requires
        i <= b@.len(),
    ensures
        r is Some <==> p_tlv(b@.skip(i as int)) is Some,
        r matches Some((t, j)) ==> i < j <= b@.len() && p_tlv(b@.skip(i as int)) == Some(
            (t@, b@.skip(j as int)),
        ) && wf_tlv(t@) && j - i == 4 + t.value@.len(),
{
    match rd_be16(b, i) {
        None => None,
        Some((tag, j1)) => match rd_be16(b, j1) {
            None => None,
            Some((len, j2)) => match rd_fixed(b, j2, len as usize) {
                None => {
                    assert(b@.skip(j2 as int).len() < len as nat);
                    assert(p_tlv(b@.skip(i as int)) is None);
                    None
                },
                Some((value, j3)) => {
                    let t = Tlv { tag, length: len, value };
                    proof {
                        let r2 = b@.skip(j2 as int);
                        assert(r2.len() >= len);
                        assert(r2.take(len as int) == t.value@);
                        assert(r2.skip(len as int) == b@.skip(j3 as int));
                        assert(p_tlv(b@.skip(i as int)) == Some((t@, b@.skip(j3 as int))));
                    }
                    Some((t, j3))
                },
            },
        },
    }
}

/// Prepends already-read parameters to the outcome of parsing the rest of a
/// parameter run.
pub open spec fn tlvs_cont(pre: Seq<TlvV>, inner: Option<Seq<TlvV>>) -> Option<Seq<TlvV>> {
    match inner {
        None => None,
        Some(ts) => Some(pre + ts),
    }
}

/// Reads parameters from `i` to the end of the buffer.
pub fn rd_tlvs(b: &[u8], i: usize) -> (r: Option<Vec<Tlv>>)
    requires
        i <= b@.len(),
    ensures
        r is Some <==> p_tlvs(b@.skip(i as int)) is Some,
        r matches Some(ts) ==> p_tlvs(b@.skip(i as int)) == Some(tlv_views(ts@)),
{
    let mut j: usize = i;
    let mut acc: Vec<Tlv> = Vec::new();
    loop
        invariant
            i <= j <= b@.len(),
            p_tlvs(b@.skip(i as int)) == tlvs_cont(tlv_views(acc@), p_tlvs(b@.skip(j as int))),
        decreases b@.len() - j,
    {
        if j >= b.len() {
            assert(b@.skip(j as int) =~= Seq::<u8>::empty());
            assert(p_tlvs(b@.skip(j as int)) == Some(Seq::<TlvV>::empty()));
            assert(tlv_views(acc@) + Seq::<TlvV>::empty() =~= tlv_views(acc@));
            return Some(acc);
        }
        assert(b@.skip(j as int).len() > 0);
        let ghost old_j = j as int;
        let ghost old_acc = acc@;
        match rd_tlv(b, j) {
            None => {
                assert(p_tlvs(b@.skip(j as int)) is None);
                return None;
            },
            Some((t, j2)) => {
                acc.push(t);
                j = j2;
                proof {
                    assert(p_tlvs(b@.skip(old_j)) == (match p_tlvs(b@.skip(j as int)) {
                        None => None::<Seq<TlvV>>,
                        Some(ts) => Some(seq![t@] + ts),
                    }));
                    assert(tlv_views(acc@) =~= tlv_views(old_acc).push(t@));
                    match p_tlvs(b@.skip(j as int)) {
                        None => {},
                        Some(ts) => {
                            assert(old_acc.map_values(|x: Tlv| x@) + (seq![t@] + ts)
                                =~= acc@.map_values(|x: Tlv| x@) + ts);
                        },
                    }
                }
            },
        }
    }
}

// ---------------------------------------------------------------------------
// Tag registry
// ---------------------------------------------------------------------------

/// Collection of standard TLV tags.
pub struct Tags {}

impl Tags {
    /// Destination address subunit.
    pub const DEST_ADDR_SUBUNIT: u16 = 0x0005;
    /// Destination network type.
    pub const DEST_NETWORK_TYPE: u16 = 0x0006;
    /// Destination bearer type.
    pub const DEST_BEARER_TYPE: u16 = 0x0007;
    /// Destination telematics ID.
    pub const DEST_TELEMATICS_ID: u16 = 0x0008;
    /// Source address subunit.
    pub const SOURCE_ADDR_SUBUNIT: u16 = 0x000D;
    /// Source network type.
    pub const SOURCE_NETWORK_TYPE: u16 = 0x000E;
    /// Source bearer type.
    pub const SOURCE_BEARER_TYPE: u16 = 0x000F;
    /// Source telematics ID.
    pub const SOURCE_TELEMATICS_ID: u16 = 0x0010;
    /// QoS time to live.
    pub const QOS_TIME_TO_LIVE: u16 = 0x0017;
    /// Payload type.
    pub const PAYLOAD_TYPE: u16 = 0x0019;
    /// Additional status info text.
    pub const ADDITIONAL_STATUS_INFO_TEXT: u16 = 0x001D;
    /// Receipted message ID.
    pub const RECEIPTED_MESSAGE_ID: u16 = 0x001E;
    /// MS message wait facilities.
    pub const MS_MSG_WAIT_FACILITIES: u16 = 0x0030;
    /// Privacy indicator.
    pub const PRIVACY_INDICATOR: u16 = 0x0201;
    /// Source subaddress.
    pub const SOURCE_SUBADDRESS: u16 = 0x0202;
    /// Destination subaddress.
    pub const DEST_SUBADDRESS: u16 = 0x0203;
    /// User message reference.
    pub const USER_MESSAGE_REFERENCE: u16 = 0x0204;
    /// User response code.
    pub const USER_RESPONSE_CODE: u16 = 0x0205;
    /// Source port.
    pub const SOURCE_PORT: u16 = 0x020A;
    /// Destination port.
    pub const DESTINATION_PORT: u16 = 0x020B;
    /// SAR message reference number.
    pub const SAR_MSG_REF_NUM: u16 = 0x020C;
    /// Language indicator.
    pub const LANGUAGE_INDICATOR: u16 = 0x020D;
    /// SAR total segments.
    pub const SAR_TOTAL_SEGMENTS: u16 = 0x020E;
    /// SAR segment sequence number.
    pub const SAR_SEGMENT_SEQNUM: u16 = 0x020F;
    /// SC interface version.
    pub const SC_INTERFACE_VERSION: u16 = 0x0210;
    /// Callback number presentation indicator.
    pub const CALLBACK_NUM_PRES_IND: u16 = 0x0302;
    /// Callback number alphanumeric tag.
    pub const CALLBACK_NUM_ATAG: u16 = 0x0303;
    /// Number of messages.
    pub const NUMBER_OF_MESSAGES: u16 = 0x0304;
    /// Callback number.
    pub const CALLBACK_NUM: u16 = 0x0381;
    /// DPF result.
    pub const DPF_RESULT: u16 = 0x0420;
    /// Set DPF.
    pub const SET_DPF: u16 = 0x0421;
    /// MS availability status.
    pub const MS_AVAILABILITY_STATUS: u16 = 0x0422;
    /// Network error code.
    pub const NETWORK_ERROR_CODE: u16 = 0x0423;
    /// Message payload.
    pub const MESSAGE_PAYLOAD: u16 = 0x0424;
    /// Delivery failure reason.
    pub const DELIVERY_FAILURE_REASON: u16 = 0x0425;
    /// More messages to send.
    pub const MORE_MESSAGES_TO_SEND: u16 = 0x0426;
    /// Message state.
    pub const MESSAGE_STATE: u16 = 0x0427;
    /// Congestion state.
    pub const CONGESTION_STATE: u16 = 0x0428;
    /// USSD service operation.
    pub const USSD_SERVICE_OP: u16 = 0x0501;
    /// Broadcast channel indicator.
    pub const BROADCAST_CHANNEL_INDICATOR: u16 = 0x0600;
    /// Broadcast content type.
    pub const BROADCAST_CONTENT_TYPE: u16 = 0x0601;
    /// Broadcast repetition number.
    pub const BROADCAST_REP_NUM: u16 = 0x0604;
    /// Broadcast frequency interval.
    pub const BROADCAST_FREQUENCY_INTERVAL: u16 = 0x0605;
    /// Broadcast area identifier.
    pub const BROADCAST_AREA_IDENTIFIER: u16 = 0x0606;
    /// Broadcast area success.
    pub const BROADCAST_AREA_SUCCESS: u16 = 0x0608;
    /// Broadcast end time.
    pub const BROADCAST_END_TIME: u16 = 0x0609;
    /// Broadcast service group.
    pub const BROADCAST_SERVICE_GROUP: u16 = 0x060A;
    /// Display time.
    pub const DISPLAY_TIME: u16 = 0x1201;
    /// SMS signal.
    pub const SMS_SIGNAL: u16 = 0x1203;
    /// MS validity.
    pub const MS_VALIDITY: u16 = 0x1204;
    /// Alert on message delivery.
    pub const ALERT_ON_MESSAGE_DELIVERY: u16 = 0x130C;
    /// ITS reply type.
    pub const ITS_REPLY_TYPE: u16 = 0x4240;
    /// ITS session info.
    pub const ITS_SESSION_INFO: u16 = 0x4241;
}

/// Numeric tag of a canonical lowercase snake-case tag name, if the name is
/// in the registry.
pub open spec fn tag_of_name(n: Seq<char>) -> Option<u16> {
    if n == "dest_addr_subunit"@ {
        Some(Tags::DEST_ADDR_SUBUNIT)
    } else if n == "dest_network_type"@ {
        Some(Tags::DEST_NETWORK_TYPE)
    } else if n == "dest_bearer_type"@ {
        Some(Tags::DEST_BEARER_TYPE)
    } else if n == "dest_telematics_id"@ {
        Some(Tags::DEST_TELEMATICS_ID)
    } else if n == "source_addr_subunit"@ {
        Some(Tags::SOURCE_ADDR_SUBUNIT)
    } else if n == "source_network_type"@ {
        Some(Tags::SOURCE_NETWORK_TYPE)
    } else if n == "source_bearer_type"@ {
        Some(Tags::SOURCE_BEARER_TYPE)
    } else if n == "source_telematics_id"@ {
        Some(Tags::SOURCE_TELEMATICS_ID)
    } else if n == "qos_time_to_live"@ {
        Some(Tags::QOS_TIME_TO_LIVE)
    } else if n == "payload_type"@ {
        Some(Tags::PAYLOAD_TYPE)
    } else if n == "additional_status_info_text"@ {
        Some(Tags::ADDITIONAL_STATUS_INFO_TEXT)
    } else if n == "receipted_message_id"@ {
        Some(Tags::RECEIPTED_MESSAGE_ID)
    } else if n == "ms_msg_wait_facilities"@ {
        Some(Tags::MS_MSG_WAIT_FACILITIES)
    } else if n == "privacy_indicator"@ {
        Some(Tags::PRIVACY_INDICATOR)
    } else if n == "source_subaddress"@ {
        Some(Tags::SOURCE_SUBADDRESS)
    } else if n == "dest_subaddress"@ {
        Some(Tags::DEST_SUBADDRESS)
    } else if n == "user_message_reference"@ {
        Some(Tags::USER_MESSAGE_REFERENCE)
    } else if n == "user_response_code"@ {
        Some(Tags::USER_RESPONSE_CODE)
    } else if n == "source_port"@ {
        Some(Tags::SOURCE_PORT)
    } else if n == "destination_port"@ {
        Some(Tags::DESTINATION_PORT)
    } else if n == "sar_msg_ref_num"@ {
        Some(Tags::SAR_MSG_REF_NUM)
    } else if n == "language_indicator"@ {
        Some(Tags::LANGUAGE_INDICATOR)
    } else if n == "sar_total_segments"@ {
        Some(Tags::SAR_TOTAL_SEGMENTS)
    } else if n == "sar_segment_seqnum"@ {
        Some(Tags::SAR_SEGMENT_SEQNUM)
    } else if n == "sc_interface_version"@ {
        Some(Tags::SC_INTERFACE_VERSION)
    } else if n == "callback_num_pres_ind"@ {
        Some(Tags::CALLBACK_NUM_PRES_IND)
    } else if n == "callback_num_atag"@ {
        Some(Tags::CALLBACK_NUM_ATAG)
    } else if n == "number_of_messages"@ {
        Some(Tags::NUMBER_OF_MESSAGES)
    } else if n == "callback_num"@ {
        Some(Tags::CALLBACK_NUM)
    } else if n == "dpf_result"@ {
        Some(Tags::DPF_RESULT)
    } else if n == "set_dpf"@ {
        Some(Tags::SET_DPF)
    } else if n == "ms_availability_status"@ {
        Some(Tags::MS_AVAILABILITY_STATUS)
    } else if n == "network_error_code"@ {
        Some(Tags::NETWORK_ERROR_CODE)
    } else if n == "message_payload"@ {
        Some(Tags::MESSAGE_PAYLOAD)
    } else if n == "delivery_failure_reason"@ {
        Some(Tags::DELIVERY_FAILURE_REASON)
    } else if n == "more_messages_to_send"@ {
        Some(Tags::MORE_MESSAGES_TO_SEND)
    } else if n == "message_state"@ {
        Some(Tags::MESSAGE_STATE)
    } else if n == "congestion_state"@ {
        Some(Tags::CONGESTION_STATE)
    } else if n == "ussd_service_op"@ {
        Some(Tags::USSD_SERVICE_OP)
    } else if n == "broadcast_channel_indicator"@ {
        Some(Tags::BROADCAST_CHANNEL_INDICATOR)
    } else if n == "broadcast_content_type"@ {
        Some(Tags::BROADCAST_CONTENT_TYPE)
    } else if n == "broadcast_rep_num"@ {
        Some(Tags::BROADCAST_REP_NUM)
    } else if n == "broadcast_frequency_interval"@ {
        Some(Tags::BROADCAST_FREQUENCY_INTERVAL)
    } else if n == "broadcast_area_identifier"@ {
        Some(Tags::BROADCAST_AREA_IDENTIFIER)
    } else if n == "broadcast_area_success"@ {
        Some(Tags::BROADCAST_AREA_SUCCESS)
    } else if n == "broadcast_end_time"@ {
        Some(Tags::BROADCAST_END_TIME)
    } else if n == "broadcast_service_group"@ {
        Some(Tags::BROADCAST_SERVICE_GROUP)
    } else if n == "display_time"@ {
        Some(Tags::DISPLAY_TIME)
    } else if n == "sms_signal"@ {
        Some(Tags::SMS_SIGNAL)
    } else if n == "ms_validity"@ {
        Some(Tags::MS_VALIDITY)
    } else if n == "alert_on_message_delivery"@ {
        Some(Tags::ALERT_ON_MESSAGE_DELIVERY)
    } else if n == "its_reply_type"@ {
        Some(Tags::ITS_REPLY_TYPE)
    } else if n == "its_session_info"@ {
        Some(Tags::ITS_SESSION_INFO)
    } else {
        None
    }
}

/// The numeric tag a name resolves to, with `0` as the sentinel of an
/// unknown name.
pub open spec fn tag_of_name_or_zero(n: Seq<char>) -> u16 {
    match tag_of_name(n) {
        Some(t) => t,
        None => 0,
    }
}

/// Compares two string slices by their characters.
fn str_eq(a: &str, b: &str) -> (r: bool)
    ensures
        r == (a@ == b@),
{
    let sa = String::from_str(a);
    let sb = String::from_str(b);
    sa == sb
}

/// Gets the tag value by its canonical name, with `0` as the sentinel of an
/// unknown name.
pub fn get_tag_by_name(name: &str) -> (r: u16)
    ensures
        r == tag_of_name_or_zero(name@),
{
    if str_eq(name, "dest_addr_subunit") {
        0x0005
    } else if str_eq(name, "dest_network_type") {
        0x0006
    } else if str_eq(name, "dest_bearer_type") {
        0x0007
    } else if str_eq(name, "dest_telematics_id") {
        0x0008
    } else if str_eq(name, "source_addr_subunit") {
        0x000D
    } else if str_eq(name, "source_network_type") {
        0x000E
    } else if str_eq(name, "source_bearer_type") {
        0x000F
    } else if str_eq(name, "source_telematics_id") {
        0x0010
    } else if str_eq(name, "qos_time_to_live") {
        0x0017
    } else if str_eq(name, "payload_type") {
        0x0019
    } else if str_eq(name, "additional_status_info_text") {
        0x001D
    } else if str_eq(name, "receipted_message_id") {
        0x001E
    } else if str_eq(name, "ms_msg_wait_facilities") {
        0x0030
    } else if str_eq(name, "privacy_indicator") {
        0x0201
    } else if str_eq(name, "source_subaddress") {
        0x0202
    } else if str_eq(name, "dest_subaddress") {
        0x0203
    } else if str_eq(name, "user_message_reference") {
        0x0204
    } else if str_eq(name, "user_response_code") {
        0x0205
    } else if str_eq(name, "source_port") {
        0x020A
    } else if str_eq(name, "destination_port") {
        0x020B
    } else if str_eq(name, "sar_msg_ref_num") {
        0x020C
    } else if str_eq(name, "language_indicator") {
        0x020D
    } else if str_eq(name, "sar_total_segments") {
        0x020E
    } else if str_eq(name, "sar_segment_seqnum") {
        0x020F
    } else if str_eq(name, "sc_interface_version") {
        0x0210
    } else if str_eq(name, "callback_num_pres_ind") {
        0x0302
    } else if str_eq(name, "callback_num_atag") {
        0x0303
    } else if str_eq(name, "number_of_messages") {
        0x0304
    } else if str_eq(name, "callback_num") {
        0x0381
    } else if str_eq(name, "dpf_result") {
        0x0420
    } else if str_eq(name, "set_dpf") {
        0x0421
    } else if str_eq(name, "ms_availability_status") {
        0x0422
    } else if str_eq(name, "network_error_code") {
        0x0423
    } else if str_eq(name, "message_payload") {
        0x0424
    } else if str_eq(name, "delivery_failure_reason") {
        0x0425
    } else if str_eq(name, "more_messages_to_send") {
        0x0426
    } else if str_eq(name, "message_state") {
        0x0427
    } else if str_eq(name, "congestion_state") {
        0x0428
    } else if str_eq(name, "ussd_service_op") {
        0x0501
    } else if str_eq(name, "broadcast_channel_indicator") {
        0x0600
    } else if str_eq(name, "broadcast_content_type") {
        0x0601
    } else if str_eq(name, "broadcast_rep_num") {
        0x0604
    } else if str_eq(name, "broadcast_frequency_interval") {
        0x0605
    } else if str_eq(name, "broadcast_area_identifier") {
        0x0606
    } else if str_eq(name, "broadcast_area_success") {
        0x0608
    } else if str_eq(name, "broadcast_end_time") {
        0x0609
    } else if str_eq(name, "broadcast_service_group") {
        0x060A
    } else if str_eq(name, "display_time") {
        0x1201
    } else if str_eq(name, "sms_signal") {
        0x1203
    } else if str_eq(name, "ms_validity") {
        0x1204
    } else if str_eq(name, "alert_on_message_delivery") {
        0x130C
    } else if str_eq(name, "its_reply_type") {
        0x4240
    } else if str_eq(name, "its_session_info") {
        0x4241
    } else {
        0
    }
}

/// No two distinct registered names resolve to the same numeric tag.
pub proof fn lemma_tag_registry_injective(n1: Seq<char>, n2: Seq<char>)
    requires
        tag_of_name(n1) is Some,
        tag_of_name(n2) == tag_of_name(n1),
    ensures
        n1 == n2,
{
}

// ---------------------------------------------------------------------------
// Typed constructors
// ---------------------------------------------------------------------------

/// Creates a new TLV with the given tag and value.
pub fn tlv_new(tag: u16, value: Vec<u8>) -> (r: Tlv)
    requires
        value@.len() <= 0xFFFF,
    ensures
        r@ == (TlvV { tag, length: value@.len() as u16, value: value@ }),
        wf_tlv(r@),
{
    let length = value.len() as u16;
    Tlv { tag, length, value }
}

/// Creates a new TLV whose value is the single byte `value`.
pub fn tlv_new_u8(tag: u16, value: u8) -> (r: Tlv)
    ensures
        r@ == (TlvV { tag, length: 1u16, value: seq![value] }),
        wf_tlv(r@),
{
    let mut v: Vec<u8> = Vec::new();
    v.push(value);
    assert(v@ =~= seq![value]);
    Tlv { tag, length: 1, value: v }
}

/// Creates a new TLV whose value is the two big-endian bytes of `value`.
pub fn tlv_new_u16(tag: u16, value: u16) -> (r: Tlv)
    ensures
        r@ == (TlvV { tag, length: 2u16, value: be16(value) }),
        wf_tlv(r@),
{
    let mut v: Vec<u8> = Vec::new();
    put_be16(&mut v, value);
    assert(v@ =~= be16(value));
    Tlv { tag, length: 2, value: v }
}

/// Creates a new TLV whose value is the ASCII bytes of `value` followed by
/// one null terminator.
pub fn tlv_new_string(tag: u16, value: String) -> (r: Tlv)
    requires
        wf_cstr(value@, 0xFFFF),
    ensures
        r@ == (TlvV { tag, length: (value@.len() + 1) as u16, value: cstr_enc(value@) }),
        wf_tlv(r@),
{
    let mut v: Vec<u8> = Vec::new();
    crate::wire::put_cstr(&mut v, value.as_str());
    let length = v.len() as u16;
    Tlv { tag, length, value: v }
}

/// Creates a new TLV carrying `value` verbatim, typically a message payload.
pub fn tlv_new_payload(tag: u16, value: Vec<u8>) -> (r: Tlv)
    requires
        value@.len() <= 0xFFFF,
    ensures
        r@ == (TlvV { tag, length: value@.len() as u16, value: value@ }),
        wf_tlv(r@),
{
    tlv_new(tag, value)
}

/// Creates a new TLV with a tag name and value; an unknown name yields the
/// sentinel tag `0`.
pub fn tlv_new_from_name(name: &str, value: Vec<u8>) -> (r: Tlv)
    requires
        value@.len() <= 0xFFFF,
    ensures
        r@ == (TlvV {
            tag: tag_of_name_or_zero(name@),
            length: value@.len() as u16,
            value: value@,
        }),
        wf_tlv(r@),
{
    let tag = get_tag_by_name(name);
    tlv_new(tag, value)
}

/// Creates a new TLV with a tag name and a single-byte value; an unknown
/// name yields the sentinel tag `0`.
pub fn tlv_new_u8_from_name(name: &str, value: u8) -> (r: Tlv)
    ensures
        r@ == (TlvV { tag: tag_of_name_or_zero(name@), length: 1u16, value: seq![value] }),
        wf_tlv(r@),
{
    let tag = get_tag_by_name(name);
    tlv_new_u8(tag, value)
}

/// Creates a new TLV with a tag name and a big-endian two-byte value; an
/// unknown name yields the sentinel tag `0`.
pub fn tlv_new_u16_from_name(name: &str, value: u16) -> (r: Tlv)
    ensures
        r@ == (TlvV { tag: tag_of_name_or_zero(name@), length: 2u16, value: be16(value) }),
        wf_tlv(r@),
{
    let tag = get_tag_by_name(name);
    tlv_new_u16(tag, value)
}

// ---------------------------------------------------------------------------
// Codec entry points
// ---------------------------------------------------------------------------

/// Encodes a TLV into a byte vector: tag, stored length, then the value
/// bytes verbatim.
pub fn tlv_encode(tlv: &Tlv) -> (r: Vec<u8>)
    ensures
        r@ == tlv_enc(tlv@),
{
    let mut out: Vec<u8> = Vec::new();
    put_tlv(&mut out, tlv);
    out
}

/// Outcome of decoding one TLV from the front of a streamed buffer.
#[derive(Debug, Clone, PartialEq)]
pub enum TlvDecodeOutcome {
    /// A full parameter was present.
    Decoded {
        /// The decoded parameter.
        tlv: Tlv,
        /// How many buffer bytes it occupied.
        consumed: usize,
    },
    /// Fewer than the four header bytes are available; not an error for a
    /// streamed tail, just not enough data yet.
    NeedMoreData,
    /// The header declares more value bytes than the buffer holds.
    Malformed,
}

/// Decodes one TLV from the front of `buffer`, distinguishing a short header
/// (more data may arrive) from a declared length that overruns the buffer.
pub fn tlv_decode_stream(buffer: &[u8]) -> (r: TlvDecodeOutcome)
    ensures
        buffer@.len() < 4 ==> r == TlvDecodeOutcome::NeedMoreData,
        buffer@.len() >= 4 && p_tlv(buffer@) is None ==> r == TlvDecodeOutcome::Malformed,
        p_tlv(buffer@) matches Some((t, rest)) ==> r matches TlvDecodeOutcome::Decoded {
            tlv,
            consumed,
        } && tlv@ == t && consumed == buffer@.len() - rest.len(),
{
    if buffer.len() < 4 {
        return TlvDecodeOutcome::NeedMoreData;
    }
    assert(buffer@.skip(0) =~= buffer@);
    match rd_tlv(buffer, 0) {
        None => TlvDecodeOutcome::Malformed,
        Some((tlv, consumed)) => TlvDecodeOutcome::Decoded { tlv, consumed },
    }
}

/// Decodes a byte buffer into the TLV at its front.
///
/// Fails both when fewer than four header bytes are available and when the
/// declared length overruns the buffer; [`tlv_decode_stream`] tells the two
/// cases apart.
pub fn tlv_decode(buffer: &[u8]) -> (r: Result<Tlv, SmppFfiError>)
    ensures
        r is Ok <==> p_tlv(buffer@) is Some,
        r matches Ok(t) ==> p_tlv(buffer@) matches Some((tv, _rest)) && t@ == tv,
        r matches Ok(t) ==> wf_tlv(t@),
{
    assert(buffer@.skip(0) =~= buffer@);
    match rd_tlv(buffer, 0) {
        None => Err(
            SmppFfiError::Generic { msg: String::from_str("buffer does not hold a full TLV") },
        ),
        Some((tlv, _consumed)) => Ok(tlv),
    }
}

// ---------------------------------------------------------------------------
// Typed extractors
// ---------------------------------------------------------------------------

/// Extracts the value of the TLV as a byte; the value must be exactly one
/// byte long.
pub fn tlv_value_as_u8(tlv: &Tlv) -> (r: Result<u8, SmppFfiError>)
    ensures
        r is Ok <==> tlv@.value.len() == 1,
        r matches Ok(v) ==> v == tlv@.value[0],
{
    if tlv.value.len() == 1 {
        Ok(tlv.value[0])
    } else {
        Err(SmppFfiError::Generic { msg: String::from_str("TLV value is not one byte") })
    }
}

/// Extracts the value of the TLV as a big-endian 16-bit word; the value must
/// be exactly two bytes long.
pub fn tlv_value_as_u16(tlv: &Tlv) -> (r: Result<u16, SmppFfiError>)
    ensures
        r is Ok <==> tlv@.value.len() == 2,
        r matches Ok(v) ==> v == (tlv@.value[0] as u16) * 256 + (tlv@.value[1] as u16),
{
    if tlv.value.len() == 2 {
        Ok((tlv.value[0] as u16) * 256 + (tlv.value[1] as u16))
    } else {
        Err(SmppFfiError::Generic { msg: String::from_str("TLV value is not two bytes") })
    }
}

/// Whether a TLV value holds a null-terminated ASCII string: at least the
/// terminator, exactly one null byte, and printable ASCII content before it.
pub open spec fn tlv_string_value_ok(v: Seq<u8>) -> bool {
    &&& v.len() >= 1
    &&& v[v.len() - 1] == 0
    &&& forall|i: int| 0 <= i < v.len() - 1 ==> 0x01 <= #[trigger] v[i] < 0x80
}

/// Extracts the value of the TLV as a string, stripping exactly one trailing
/// null byte; fails unless the value ends in a single null terminator with
/// ASCII content before it.
pub fn tlv_value_as_string(tlv: &Tlv) -> (r: Result<String, SmppFfiError>)
    ensures
        r is Ok <==> tlv_string_value_ok(tlv@.value),
        r matches Ok(s) ==> s@ == tlv@.value.take(tlv@.value.len() - 1).map_values(
            |x: u8| x as char,
        ),
{
    let n = tlv.value.len();
    if n == 0 {
        return Err(
            SmppFfiError::Generic { msg: String::from_str("TLV value is not a C string") },
        );
    }
    if tlv.value[n - 1] != 0 {
        return Err(
            SmppFfiError::Generic { msg: String::from_str("TLV value is not a C string") },
        );
    }
    let mut k: usize = 0;
    let mut acc: Vec<u8> = Vec::new();
    while k < n - 1
        invariant
            n == tlv@.value.len(),
            n >= 1,
            k <= n - 1,
            acc@ == tlv@.value.take(k as int),
            forall|i: int| 0 <= i < k ==> 0x01 <= #[trigger] tlv@.value[i] < 0x80,
        decreases n - 1 - k,
    {
        let c = tlv.value[k];
        if c == 0 || c >= 0x80 {
            return Err(
                SmppFfiError::Generic { msg: String::from_str("TLV value is not a C string") },
            );
        }
        acc.push(c);
        assert(acc@ =~= tlv@.value.take(k + 1));
        k = k + 1;
    }
    let s = crate::wire::ascii_vec_to_string(acc);
    Ok(s)
}

} // verus!
