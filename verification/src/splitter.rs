//! The message splitter: chooses a character encoding for a text and breaks
//! it into protocol-compliant parts under one of three concatenation
//! strategies.

use vstd::prelude::*;

use crate::common::SmppFfiError;
use crate::wire::be16;
use vstd::string::StrSliceExecFns;

verus! {

// ---------------------------------------------------------------------------
// Encodings and modes
// ---------------------------------------------------------------------------

/// Character encoding of message content.
#[derive(Clone, Copy, Debug, PartialEq, Eq, Structural)]
pub enum EncodingType {
    /// GSM 7-bit default alphabet, packed into octets.
    Gsm7Bit,
    /// Latin-1, one byte per character.
    Latin1,
    /// UCS-2 (UTF-16 big-endian), two bytes per code unit.
    Ucs2,
}

/// Concatenation strategy of a split message.
#[derive(Clone, Copy, Debug, PartialEq, Eq, Structural)]
pub enum SplitMode {
    /// Carry concatenation metadata in a user-data header inside each part.
    Udh,
    /// Size parts for segmentation-and-reassembly parameters carried beside
    /// the payload; the caller attaches them.
    Sar,
    /// One part holding the whole message, meant for a payload parameter.
    Payload,
}

/// Result of splitting a message.
#[derive(Clone, Debug, PartialEq, Eq)]
pub struct SplitResult {
    /// The payload bytes of each part, in order.
    pub parts: Vec<Vec<u8>>,
    /// The data coding byte of the encoding used for every part.
    pub data_coding: u8,
}

/// The byte sequences of a part list.
pub open spec fn parts_view(v: Seq<Vec<u8>>) -> Seq<Seq<u8>> {
    v.map_values(|p: Vec<u8>| p@)
}

// ---------------------------------------------------------------------------
// The GSM 7-bit default alphabet
// ---------------------------------------------------------------------------

/// Septet of a character in the GSM default alphabet basic table.
pub open spec fn gsm7_basic(c: char) -> Option<u8> {
    if c == '@' {
        Some(0u8)
    } else if c == '\u{a3}' {
        Some(1u8)
    } else if c == '$' {
        Some(2u8)
    } else if c == '\u{a5}' {
        Some(3u8)
    } else if c == '\u{e8}' {
        Some(4u8)
    } else if c == '\u{e9}' {
        Some(5u8)
    } else if c == '\u{f9}' {
        Some(6u8)
    } else if c == '\u{ec}' {
        Some(7u8)
    } else if c == '\u{f2}' {
        Some(8u8)
    } else if c == '\u{c7}' {
        Some(9u8)
    } else if c == '\n' {
        Some(10u8)
    } else if c == '\u{d8}' {
        Some(11u8)
    } else if c == '\u{f8}' {
        Some(12u8)
    } else if c == '\r' {
        Some(13u8)
    } else if c == '\u{c5}' {
        Some(14u8)
    } else if c == '\u{e5}' {
        Some(15u8)
    } else if c == '\u{394}' {
        Some(16u8)
    } else if c == '_' {
        Some(17u8)
    } else if c == '\u{3a6}' {
        Some(18u8)
    } else if c == '\u{393}' {
        Some(19u8)
    } else if c == '\u{39b}' {
        Some(20u8)
    } else if c == '\u{3a9}' {
        Some(21u8)
    } else if c == '\u{3a0}' {
        Some(22u8)
    } else if c == '\u{3a8}' {
        Some(23u8)
    } else if c == '\u{3a3}' {
        Some(24u8)
    } else if c == '\u{398}' {
        Some(25u8)
    } else if c == '\u{39e}' {
        Some(26u8)
    } else if c == '\u{c6}' {
        Some(28u8)
    } else if c == '\u{e6}' {
        Some(29u8)
    } else if c == '\u{df}' {
        Some(30u8)
    } else if c == '\u{c9}' {
        Some(31u8)
    } else if 32 <= c as u32 <= 35 {
        Some((c as u32) as u8)
    } else if c == '\u{a4}' {
        Some(36u8)
    } else if 37 <= c as u32 <= 63 {
        Some((c as u32) as u8)
    } else if c == '\u{a1}' {
        Some(64u8)
    } else if 65 <= c as u32 <= 90 {
        Some((c as u32) as u8)
    } else if c == '\u{c4}' {
        Some(91u8)
    } else if c == '\u{d6}' {
        Some(92u8)
    } else if c == '\u{d1}' {
        Some(93u8)
    } else if c == '\u{dc}' {
        Some(94u8)
    } else if c == '\u{a7}' {
        Some(95u8)
    } else if c == '\u{bf}' {
        Some(96u8)
    } else if 97 <= c as u32 <= 122 {
        Some((c as u32) as u8)
    } else if c == '\u{e4}' {
        Some(123u8)
    } else if c == '\u{f6}' {
        Some(124u8)
    } else if c == '\u{f1}' {
        Some(125u8)
    } else if c == '\u{fc}' {
        Some(126u8)
    } else if c == '\u{e0}' {
        Some(127u8)
    } else {
        None
    }
}

/// Septet of a character in the GSM default alphabet extension table,
/// reached through the escape septet.
pub open spec fn gsm7_ext(c: char) -> Option<u8> {
    if c == '\u{c}' {
        Some(0x0au8)
    } else if c == '^' {
        Some(0x14u8)
    } else if c == '{' {
        Some(0x28u8)
    } else if c == '}' {
        Some(0x29u8)
    } else if c == '\\' {
        Some(0x2fu8)
    } else if c == '[' {
        Some(0x3cu8)
    } else if c == '~' {
        Some(0x3du8)
    } else if c == ']' {
        Some(0x3eu8)
    } else if c == '|' {
        Some(0x40u8)
    } else if c == '\u{20ac}' {
        Some(0x65u8)
    } else {
        None
    }
}

/// Whether the GSM default alphabet can represent the character.
pub open spec fn gsm7_encodable(c: char) -> bool {
    gsm7_basic(c) is Some || gsm7_ext(c) is Some
}

/// The septets of one character: one from the basic table, or the escape
/// septet and one from the extension table.
pub open spec fn gsm7_char_septets(c: char) -> Seq<u8> {
    match gsm7_basic(c) {
        Some(v) => seq![v],
        None => match gsm7_ext(c) {
            Some(v) => seq![0x1bu8, v],
            None => Seq::empty(),
        },
    }
}

/// The septet stream of a text.
pub open spec fn gsm7_septets(s: Seq<char>) -> Seq<u8>
    decreases s.len(),
{
    if s.len() == 0 {
        Seq::empty()
    } else {
        gsm7_char_septets(s[0]) + gsm7_septets(s.skip(1))
    }
}

/// Appending one character appends its septets.
pub proof fn lemma_gsm7_septets_push(s: Seq<char>, c: char)
    ensures
        gsm7_septets(s.push(c)) == gsm7_septets(s) + gsm7_char_septets(c),
    decreases s.len(),
{
    if s.len() == 0 {
        let p = s.push(c);
        assert(p[0] == c);
        assert(p.skip(1) =~= Seq::<char>::empty());
        assert(gsm7_septets(p.skip(1)) == Seq::<u8>::empty());
        assert(gsm7_septets(p) == gsm7_char_septets(c) + Seq::<u8>::empty());
        assert(gsm7_char_septets(c) + Seq::<u8>::empty() =~= gsm7_char_septets(c));
        assert(gsm7_septets(s) + gsm7_char_septets(c) =~= gsm7_char_septets(c));
    } else {
        assert(s.push(c)[0] == s[0]);
        assert(s.push(c).skip(1) =~= s.skip(1).push(c));
        lemma_gsm7_septets_push(s.skip(1), c);
        assert(gsm7_septets(s.push(c)) == gsm7_char_septets(s[0]) + (gsm7_septets(s.skip(1))
            + gsm7_char_septets(c)));
        assert(gsm7_char_septets(s[0]) + (gsm7_septets(s.skip(1)) + gsm7_char_septets(c)) =~= (
        gsm7_char_septets(s[0]) + gsm7_septets(s.skip(1))) + gsm7_char_septets(c));
    }
}

/// Every septet of a text is a seven-bit value.
pub proof fn lemma_gsm7_septets_bound(s: Seq<char>)
    ensures
        forall|i: int| 0 <= i < gsm7_septets(s).len() ==> #[trigger] gsm7_septets(s)[i] < 128,
    decreases s.len(),
{
    if s.len() == 0 {
    } else {
        let head = gsm7_char_septets(s[0]);
        assert(forall|i: int| 0 <= i < head.len() ==> #[trigger] head[i] < 128);
        lemma_gsm7_septets_bound(s.skip(1));
        assert(forall|i: int|
            0 <= i < gsm7_septets(s).len() ==> #[trigger] gsm7_septets(s)[i] == (if i < head.len() {
                head[i]
            } else {
                gsm7_septets(s.skip(1))[i - head.len()]
            }));
    }
}

// ---------------------------------------------------------------------------
// Septet packing
// ---------------------------------------------------------------------------

/// Small power of two, for at most seven bits.
pub open spec fn pow2_bits(n: nat) -> nat {
    if n == 0 {
        1
    } else if n == 1 {
        2
    } else if n == 2 {
        4
    } else if n == 3 {
        8
    } else if n == 4 {
        16
    } else if n == 5 {
        32
    } else if n == 6 {
        64
    } else {
        128
    }
}

/// Packs a septet stream into octets, least significant bits first: each
/// septet is appended above the bits still pending, full octets are
/// emitted, and a final partial octet is flushed zero-padded.
pub open spec fn pack7_rec(ss: Seq<u8>, acc: nat, accbits: nat) -> Seq<u8>
    decreases ss.len(),
{
    if ss.len() == 0 {
        if accbits > 0 {
            seq![acc as u8]
        } else {
            Seq::empty()
        }
    } else {
        let a2 = acc + (ss[0] as nat) * pow2_bits(accbits);
        if accbits + 7 >= 8 {
            seq![(a2 % 256) as u8] + pack7_rec(ss.skip(1), a2 / 256, (accbits + 7 - 8) as nat)
        } else {
            pack7_rec(ss.skip(1), a2, (accbits + 7) as nat)
        }
    }
}

/// The packed octets of a septet stream.
pub open spec fn pack7(ss: Seq<u8>) -> Seq<u8> {
    pack7_rec(ss, 0, 0)
}

/// The packed form of `n` septets with `accbits` pending bits occupies
/// exactly the octets those bits fill.
pub proof fn lemma_pack7_len(ss: Seq<u8>, acc: nat, accbits: nat)
    requires
        accbits <= 7,
    ensures
        pack7_rec(ss, acc, accbits).len() == (7 * ss.len() + accbits + 7) / 8,
    decreases ss.len(),
{
    if ss.len() == 0 {
    } else {
        let a2 = acc + (ss[0] as nat) * pow2_bits(accbits);
        if accbits + 7 >= 8 {
            lemma_pack7_len(ss.skip(1), a2 / 256, (accbits + 7 - 8) as nat);
        } else {
            lemma_pack7_len(ss.skip(1), a2, (accbits + 7) as nat);
        }
    }
}

// ---------------------------------------------------------------------------
// Latin-1 and UCS-2
// ---------------------------------------------------------------------------

/// Whether Latin-1 can represent the character.
pub open spec fn latin1_encodable(c: char) -> bool {
    (c as u32) < 0x100
}

/// The Latin-1 bytes of a text, one per character.
pub open spec fn latin1_bytes(s: Seq<char>) -> Seq<u8> {
    s.map_values(|c: char| (c as u32) as u8)
}

/// The UTF-16 big-endian bytes of one character: its code unit, or a
/// surrogate pair for a character beyond the basic multilingual plane.
pub open spec fn ucs2_char_bytes(c: char) -> Seq<u8> {
    if (c as u32) < 0x10000 {
        be16((c as u32) as u16)
    } else {
        let v = c as u32 - 0x10000;
        be16((0xD800 + v / 0x400) as u16) + be16((0xDC00 + v % 0x400) as u16)
    }
}

/// The UTF-16 big-endian bytes of a text.
pub open spec fn ucs2_bytes(s: Seq<char>) -> Seq<u8>
    decreases s.len(),
{
    if s.len() == 0 {
        Seq::empty()
    } else {
        ucs2_char_bytes(s[0]) + ucs2_bytes(s.skip(1))
    }
}

/// Appending one character appends its code-unit bytes.
pub proof fn lemma_ucs2_bytes_push(s: Seq<char>, c: char)
    ensures
        ucs2_bytes(s.push(c)) == ucs2_bytes(s) + ucs2_char_bytes(c),
    decreases s.len(),
{
    if s.len() == 0 {
        let p = s.push(c);
        assert(p[0] == c);
        assert(p.skip(1) =~= Seq::<char>::empty());
        assert(ucs2_bytes(p.skip(1)) == Seq::<u8>::empty());
        assert(ucs2_bytes(p) == ucs2_char_bytes(c) + Seq::<u8>::empty());
        assert(ucs2_char_bytes(c) + Seq::<u8>::empty() =~= ucs2_char_bytes(c));
        assert(ucs2_bytes(s) + ucs2_char_bytes(c) =~= ucs2_char_bytes(c));
    } else {
        assert(s.push(c)[0] == s[0]);
        assert(s.push(c).skip(1) =~= s.skip(1).push(c));
        lemma_ucs2_bytes_push(s.skip(1), c);
        assert(ucs2_bytes(s.push(c)) == ucs2_char_bytes(s[0]) + (ucs2_bytes(s.skip(1))
            + ucs2_char_bytes(c)));
        assert(ucs2_char_bytes(s[0]) + (ucs2_bytes(s.skip(1)) + ucs2_char_bytes(c)) =~= (
        ucs2_char_bytes(s[0]) + ucs2_bytes(s.skip(1))) + ucs2_char_bytes(c));
    }
}

// ---------------------------------------------------------------------------
// Units, budgets and chunking
// ---------------------------------------------------------------------------

/// The units one character occupies: septets under the GSM alphabet, bytes
/// under Latin-1, 16-bit code units under UCS-2.
pub open spec fn char_units(enc: EncodingType, c: char) -> nat {
    match enc {
        EncodingType::Gsm7Bit => gsm7_char_septets(c).len(),
        EncodingType::Latin1 => 1,
        EncodingType::Ucs2 => if (c as u32) < 0x10000 {
            1
        } else {
            2
        },
    }
}

/// The units a text occupies.
pub open spec fn units(enc: EncodingType, s: Seq<char>) -> nat
    decreases s.len(),
{
    if s.len() == 0 {
        0
    } else {
        char_units(enc, s[0]) + units(enc, s.skip(1))
    }
}

/// Appending one character adds its units.
pub proof fn lemma_units_push(enc: EncodingType, s: Seq<char>, c: char)
    ensures
        units(enc, s.push(c)) == units(enc, s) + char_units(enc, c),
    decreases s.len(),
{
    if s.len() == 0 {
        let p = s.push(c);
        assert(p[0] == c);
        assert(p.skip(1) =~= Seq::<char>::empty());
        assert(units(enc, p.skip(1)) == 0);
        assert(units(enc, s) == 0);
        assert(units(enc, p) == char_units(enc, c) + 0);
    } else {
        assert(s.push(c)[0] == s[0]);
        assert(s.push(c).skip(1) =~= s.skip(1).push(c));
        lemma_units_push(enc, s.skip(1), c);
    }
}

/// Whether the encoding can losslessly represent every character of the
/// text.
pub open spec fn can_encode(enc: EncodingType, s: Seq<char>) -> bool {
    match enc {
        EncodingType::Gsm7Bit => forall|i: int| 0 <= i < s.len() ==> gsm7_encodable(#[trigger] s[i]),
        EncodingType::Latin1 => forall|i: int| 0 <= i < s.len() ==> latin1_encodable(#[trigger] s[i]),
        EncodingType::Ucs2 => true,
    }
}

/// The narrowest encoding, from the requested one up through the fixed
/// priority order, that covers every character of the text.
pub open spec fn chosen_encoding(req: EncodingType, s: Seq<char>) -> EncodingType {
    if can_encode(req, s) {
        req
    } else if req == EncodingType::Gsm7Bit && can_encode(EncodingType::Latin1, s) {
        EncodingType::Latin1
    } else {
        EncodingType::Ucs2
    }
}

/// The data coding byte of an encoding.
pub open spec fn data_coding_of(enc: EncodingType) -> u8 {
    match enc {
        EncodingType::Gsm7Bit => 0x00,
        EncodingType::Latin1 => 0x03,
        EncodingType::Ucs2 => 0x08,
    }
}

/// The payload bytes of a text under an encoding.
pub open spec fn encoded_bytes(enc: EncodingType, s: Seq<char>) -> Seq<u8> {
    match enc {
        EncodingType::Gsm7Bit => pack7(gsm7_septets(s)),
        EncodingType::Latin1 => latin1_bytes(s),
        EncodingType::Ucs2 => ucs2_bytes(s),
    }
}

/// Unit budget of a message that fits one part.
pub open spec fn single_limit(enc: EncodingType) -> nat {
    match enc {
        EncodingType::Gsm7Bit => 160,
        EncodingType::Latin1 => 140,
        EncodingType::Ucs2 => 70,
    }
}

/// Reduced per-part unit budget when a user-data header takes six bytes of
/// each part.
pub open spec fn udh_limit(enc: EncodingType) -> nat {
    match enc {
        EncodingType::Gsm7Bit => 153,
        EncodingType::Latin1 => 134,
        EncodingType::Ucs2 => 67,
    }
}

/// Byte budget of a payload-parameter message: the most a TLV value can
/// hold.
pub open spec fn payload_limit() -> nat {
    65535
}

/// How many leading characters fit a budget of `left` units, greedily.
pub open spec fn chunk_scan(enc: EncodingType, s: Seq<char>, i: nat, left: nat) -> nat
    decreases s.len() - i,
{
    if i >= s.len() {
        i
    } else if char_units(enc, s[i as int]) <= left {
        chunk_scan(enc, s, i + 1, (left - char_units(enc, s[i as int])) as nat)
    } else {
        i
    }
}

/// Greedy partition of a text into chunks of at most `limit` units each.
pub open spec fn chunks(enc: EncodingType, s: Seq<char>, limit: nat) -> Seq<Seq<char>>
    decreases s.len(),
{
    if s.len() == 0 {
        Seq::empty()
    } else {
        let k = chunk_scan(enc, s, 0, limit);
        if k < 1 || k > s.len() {
            seq![s]
        } else {
            seq![s.take(k as int)] + chunks(enc, s.skip(k as int), limit)
        }
    }
}

/// The six user-data-header bytes of one part: the concatenation element
/// with the shared reference, the total part count and this part's
/// one-based index.
pub open spec fn udh_bytes(reference: u8, total: u8, index: u8) -> Seq<u8> {
    seq![5u8, 0u8, 3u8, reference, total, index]
}

/// The shared reference byte of a split message, derived deterministically
/// from its unit length.
pub open spec fn ref_byte(enc: EncodingType, s: Seq<char>) -> u8 {
    (units(enc, s) % 256) as u8
}

/// What splitting yields: the part payloads and the data coding byte, or
/// nothing when the message cannot be represented within the mode's
/// bounds.
pub open spec fn split_spec(s: Seq<char>, req: EncodingType, mode: SplitMode) -> Option<
    (Seq<Seq<u8>>, u8),
> {
    let enc = chosen_encoding(req, s);
    let dcs = data_coding_of(enc);
    match mode {
        SplitMode::Payload => {
            let b = encoded_bytes(enc, s);
            if b.len() <= payload_limit() {
                Some((seq![b], dcs))
            } else {
                None
            }
        },
        SplitMode::Sar => {
            if units(enc, s) <= single_limit(enc) {
                Some((seq![encoded_bytes(enc, s)], dcs))
            } else {
                let cs = chunks(enc, s, single_limit(enc));
                Some((cs.map_values(|c: Seq<char>| encoded_bytes(enc, c)), dcs))
            }
        },
        SplitMode::Udh => {
            if units(enc, s) <= single_limit(enc) {
                Some((seq![encoded_bytes(enc, s)], dcs))
            } else {
                let cs = chunks(enc, s, udh_limit(enc));
                if cs.len() > 255 {
                    None
                } else {
                    Some(
                        (
                            Seq::new(
                                cs.len(),
                                |i: int|
                                    udh_bytes(ref_byte(enc, s), cs.len() as u8, (i + 1) as u8)
                                        + encoded_bytes(enc, cs[i]),
                            ),
                            dcs,
                        ),
                    )
                }
            }
        },
    }
}

// ---------------------------------------------------------------------------
// Chunking laws
// ---------------------------------------------------------------------------

/// The greedy scan never passes the end and consumes at most `left` units.
pub proof fn lemma_chunk_scan_fits(enc: EncodingType, s: Seq<char>, i: nat, left: nat)
    ensures
        i <= chunk_scan(enc, s, i, left) <= s.len() || i > s.len(),
    decreases s.len() - i,
{
    if i >= s.len() {
    } else if char_units(enc, s[i as int]) <= left {
        lemma_chunk_scan_fits(enc, s, i + 1, (left - char_units(enc, s[i as int])) as nat);
    } else {
    }
}

/// A greedy chunk stays within its unit budget: the units of the first
/// `chunk_scan` characters are at most the budget.
pub proof fn lemma_chunk_scan_units(enc: EncodingType, s: Seq<char>, i: nat, left: nat)
    requires
        i <= s.len(),
    ensures
        units(enc, s.subrange(i as int, chunk_scan(enc, s, i, left) as int)) <= left,
    decreases s.len() - i,
{
    lemma_chunk_scan_fits(enc, s, i, left);
    let k = chunk_scan(enc, s, i, left);
    if i >= s.len() {
        assert(s.subrange(i as int, k as int) =~= Seq::<char>::empty());
    } else if char_units(enc, s[i as int]) <= left {
        let left2 = (left - char_units(enc, s[i as int])) as nat;
        lemma_chunk_scan_units(enc, s, i + 1, left2);
        lemma_chunk_scan_fits(enc, s, i + 1, left2);
        assert(chunk_scan(enc, s, i + 1, left2) == k);
        assert(i + 1 <= k);
        let sub = s.subrange(i as int, k as int);
        assert(sub[0] == s[i as int]);
        assert(sub.skip(1) =~= s.subrange(i + 1 as int, k as int));
        assert(units(enc, sub) == char_units(enc, s[i as int]) + units(
            enc,
            s.subrange(i + 1 as int, k as int),
        ));
    } else {
        assert(s.subrange(i as int, k as int) =~= Seq::<char>::empty());
    }
}

/// The chunks of a text, joined back together, are the text: splitting
/// loses and reorders nothing.
pub proof fn lemma_chunks_cover(enc: EncodingType, s: Seq<char>, limit: nat)
    ensures
        chunks(enc, s, limit).flatten() == s,
    decreases s.len(),
{
    if s.len() == 0 {
        assert(chunks(enc, s, limit).flatten() =~= s);
    } else {
        let k = chunk_scan(enc, s, 0, limit);
        lemma_chunk_scan_fits(enc, s, 0, limit);
        if k < 1 {
            let cs = chunks(enc, s, limit);
            assert(cs == seq![s]);
            assert(cs.first() == s);
            assert(cs.drop_first() =~= Seq::<Seq<char>>::empty());
            assert(cs.drop_first().flatten() == Seq::<char>::empty());
            assert(s + Seq::<char>::empty() =~= s);
        } else {
            let head = s.take(k as int);
            let tail = s.skip(k as int);
            lemma_chunks_cover(enc, tail, limit);
            let cs = chunks(enc, s, limit);
            assert(cs == seq![head] + chunks(enc, tail, limit));
            assert(cs.first() == head);
            assert(cs.drop_first() =~= chunks(enc, tail, limit));
            assert(cs.flatten() == head + chunks(enc, tail, limit).flatten());
            assert(head + tail =~= s);
        }
    }
}

/// Scanning a suffix is scanning the whole text from the offset.
pub proof fn lemma_chunk_scan_shift(enc: EncodingType, s: Seq<char>, d: nat, j: nat, left: nat)
    requires
        d <= s.len(),
    ensures
        chunk_scan(enc, s, d + j, left) == d + chunk_scan(enc, s.skip(d as int), j, left),
    decreases s.len() - d - j,
{
    let t = s.skip(d as int);
    if d + j >= s.len() {
    } else {
        assert(t[j as int] == s[(d + j) as int]);
        if char_units(enc, s[(d + j) as int]) <= left {
            lemma_chunk_scan_shift(
                enc,
                s,
                d,
                j + 1,
                (left - char_units(enc, s[(d + j) as int])) as nat,
            );
        }
    }
}

/// Every chunk of a greedy partition stays within the unit budget,
/// provided every single character does.
pub proof fn lemma_chunks_fit(enc: EncodingType, s: Seq<char>, limit: nat)
    requires
        forall|i: int| 0 <= i < s.len() ==> char_units(enc, #[trigger] s[i]) <= limit,
    ensures
        forall|i: int|
            0 <= i < chunks(enc, s, limit).len() ==> units(
                enc,
                #[trigger] chunks(enc, s, limit)[i],
            ) <= limit,
    decreases s.len(),
{
    if s.len() == 0 {
    } else {
        let k = chunk_scan(enc, s, 0, limit);
        lemma_chunk_scan_fits(enc, s, 0, limit);
        assert(char_units(enc, s[0]) <= limit);
        assert(k == chunk_scan(enc, s, 1, (limit - char_units(enc, s[0])) as nat));
        lemma_chunk_scan_fits(enc, s, 1, (limit - char_units(enc, s[0])) as nat);
        assert(k >= 1);
        let head = s.take(k as int);
        let tail = s.skip(k as int);
        lemma_chunk_scan_units(enc, s, 0, limit);
        assert(s.subrange(0, k as int) =~= head);
        assert(forall|i: int| 0 <= i < tail.len() ==> #[trigger] tail[i] == s[i + k]);
        lemma_chunks_fit(enc, tail, limit);
        let cs = chunks(enc, s, limit);
        assert(cs == seq![head] + chunks(enc, tail, limit));
        assert(forall|i: int|
            1 <= i < cs.len() ==> #[trigger] cs[i] == chunks(enc, tail, limit)[i - 1]);
        assert(cs[0] == head);
    }
}

/// A text's septet stream is as long as its unit count.
pub proof fn lemma_gsm7_units_len(s: Seq<char>)
    ensures
        gsm7_septets(s).len() == units(EncodingType::Gsm7Bit, s),
    decreases s.len(),
{
    if s.len() == 0 {
    } else {
        lemma_gsm7_units_len(s.skip(1));
    }
}

/// A text's UTF-16 bytes are twice its unit count.
pub proof fn lemma_ucs2_units_len(s: Seq<char>)
    ensures
        ucs2_bytes(s).len() == 2 * units(EncodingType::Ucs2, s),
    decreases s.len(),
{
    if s.len() == 0 {
    } else {
        lemma_ucs2_units_len(s.skip(1));
    }
}

/// A text's Latin-1 bytes are its unit count.
pub proof fn lemma_latin1_units_len(s: Seq<char>)
    ensures
        latin1_bytes(s).len() == units(EncodingType::Latin1, s),
    decreases s.len(),
{
    if s.len() == 0 {
    } else {
        assert(units(EncodingType::Latin1, s) == 1 + units(EncodingType::Latin1, s.skip(1)));
        lemma_latin1_units_len(s.skip(1));
    }
}

/// A text within the single-part unit budget encodes to at most 140
/// payload bytes, whichever encoding is in force: the shared part budget of
/// the protocol.
pub proof fn lemma_part_budget(enc: EncodingType, s: Seq<char>)
    requires
        units(enc, s) <= single_limit(enc),
    ensures
        encoded_bytes(enc, s).len() <= 140,
{
    match enc {
        EncodingType::Gsm7Bit => {
            lemma_gsm7_units_len(s);
            lemma_pack7_len(gsm7_septets(s), 0, 0);
        },
        EncodingType::Latin1 => {
            lemma_latin1_units_len(s);
        },
        EncodingType::Ucs2 => {
            lemma_ucs2_units_len(s);
        },
    }
}

/// Every part of a segmentation-and-reassembly split stays within the
/// 140-byte part budget.
pub proof fn lemma_sar_parts_bounded(s: Seq<char>, req: EncodingType)
    ensures
        split_spec(s, req, SplitMode::Sar) matches Some((parts, _dcs)) ==> forall|i: int|
            0 <= i < parts.len() ==> #[trigger] parts[i].len() <= 140,
{
    let enc = chosen_encoding(req, s);
    if units(enc, s) <= single_limit(enc) {
        lemma_part_budget(enc, s);
    } else {
        let limit = single_limit(enc);
        assert forall|c: int| 0 <= c < s.len() implies char_units(enc, #[trigger] s[c]) <= limit
            by {
            lemma_char_units_bound(enc, s[c]);
        }
        lemma_chunks_fit(enc, s, limit);
        let cs = chunks(enc, s, limit);
        let (parts, _dcs) = split_spec(s, req, SplitMode::Sar).unwrap();
        assert(parts == cs.map_values(|c: Seq<char>| encoded_bytes(enc, c)));
        assert forall|i: int| 0 <= i < parts.len() implies #[trigger] parts[i].len() <= 140 by {
            assert(parts[i] == encoded_bytes(enc, cs[i]));
            assert(units(enc, cs[i]) <= limit);
            lemma_part_budget(enc, cs[i]);
        }
    }
}

/// A text within the reduced per-part unit budget encodes to at most 134
/// payload bytes, leaving room for the six header bytes.
pub proof fn lemma_udh_chunk_budget(enc: EncodingType, s: Seq<char>)
    requires
        units(enc, s) <= udh_limit(enc),
    ensures
        encoded_bytes(enc, s).len() <= 134,
{
    match enc {
        EncodingType::Gsm7Bit => {
            lemma_gsm7_units_len(s);
            lemma_pack7_len(gsm7_septets(s), 0, 0);
        },
        EncodingType::Latin1 => {
            lemma_latin1_units_len(s);
        },
        EncodingType::Ucs2 => {
            lemma_ucs2_units_len(s);
        },
    }
}

/// Every part of a user-data-header split, the six header bytes included,
/// stays within the 140-byte part budget.
pub proof fn lemma_udh_parts_bounded(s: Seq<char>, req: EncodingType)
    ensures
        split_spec(s, req, SplitMode::Udh) matches Some((parts, _dcs)) ==> forall|i: int|
            0 <= i < parts.len() ==> #[trigger] parts[i].len() <= 140,
{
    let enc = chosen_encoding(req, s);
    if units(enc, s) <= single_limit(enc) {
        lemma_part_budget(enc, s);
    } else {
        let limit = udh_limit(enc);
        assert forall|c: int| 0 <= c < s.len() implies char_units(enc, #[trigger] s[c]) <= limit
            by {
            lemma_char_units_bound(enc, s[c]);
        }
        lemma_chunks_fit(enc, s, limit);
        let cs = chunks(enc, s, limit);
        if cs.len() <= 255 {
            let (parts, _dcs) = split_spec(s, req, SplitMode::Udh).unwrap();
            assert forall|i: int| 0 <= i < parts.len() implies #[trigger] parts[i].len() <= 140
                by {
                assert(parts[i] == udh_bytes(ref_byte(enc, s), cs.len() as u8, (i + 1) as u8)
                    + encoded_bytes(enc, cs[i]));
                assert(units(enc, cs[i]) <= limit);
                lemma_udh_chunk_budget(enc, cs[i]);
            }
        }
    }
}

/// The chosen encoding always covers the text.
pub proof fn lemma_chosen_can_encode(req: EncodingType, s: Seq<char>)
    ensures
        can_encode(chosen_encoding(req, s), s),
{
}

/// One character occupies at most two units.
pub proof fn lemma_char_units_bound(enc: EncodingType, c: char)
    ensures
        char_units(enc, c) <= 2,
{
}

// ---------------------------------------------------------------------------
// Executable helpers
// ---------------------------------------------------------------------------

/// Collects the characters of a string slice.
pub fn str_chars(s: &str) -> (r: Vec<char>)
    ensures
        r@ == s@,
{
    let n = s.unicode_len();
    let mut v: Vec<char> = Vec::new();
    let mut i: usize = 0;
    while i < n
        invariant
            i <= n,
            n == s@.len(),
            v@ == s@.take(i as int),
        decreases n - i,
    {
        let c = s.get_char(i);
        v.push(c);
        assert(v@ =~= s@.take(i + 1));
        i = i + 1;
    }
    assert(s@.take(n as int) =~= s@);
    v
}

/// Looks a character up in the basic table.
pub fn gsm7_basic_code(c: char) -> (r: Option<u8>)
    ensures
        r == gsm7_basic(c),
{
    let u = c as u32;
    if c == '@' {
        Some(0)
    } else if c == '\u{a3}' {
        Some(1)
    } else if c == '$' {
        Some(2)
    } else if c == '\u{a5}' {
        Some(3)
    } else if c == '\u{e8}' {
        Some(4)
    } else if c == '\u{e9}' {
        Some(5)
    } else if c == '\u{f9}' {
        Some(6)
    } else if c == '\u{ec}' {
        Some(7)
    } else if c == '\u{f2}' {
        Some(8)
    } else if c == '\u{c7}' {
        Some(9)
    } else if c == '\n' {
        Some(10)
    } else if c == '\u{d8}' {
        Some(11)
    } else if c == '\u{f8}' {
        Some(12)
    } else if c == '\r' {
        Some(13)
    } else if c == '\u{c5}' {
        Some(14)
    } else if c == '\u{e5}' {
        Some(15)
    } else if c == '\u{394}' {
        Some(16)
    } else if c == '_' {
        Some(17)
    } else if c == '\u{3a6}' {
        Some(18)
    } else if c == '\u{393}' {
        Some(19)
    } else if c == '\u{39b}' {
        Some(20)
    } else if c == '\u{3a9}' {
        Some(21)
    } else if c == '\u{3a0}' {
        Some(22)
    } else if c == '\u{3a8}' {
        Some(23)
    } else if c == '\u{3a3}' {
        Some(24)
    } else if c == '\u{398}' {
        Some(25)
    } else if c == '\u{39e}' {
        Some(26)
    } else if c == '\u{c6}' {
        Some(28)
    } else if c == '\u{e6}' {
        Some(29)
    } else if c == '\u{df}' {
        Some(30)
    } else if c == '\u{c9}' {
        Some(31)
    } else if 32 <= u && u <= 35 {
        Some(u as u8)
    } else if c == '\u{a4}' {
        Some(36)
    } else if 37 <= u && u <= 63 {
        Some(u as u8)
    } else if c == '\u{a1}' {
        Some(64)
    } else if 65 <= u && u <= 90 {
        Some(u as u8)
    } else if c == '\u{c4}' {
        Some(91)
    } else if c == '\u{d6}' {
        Some(92)
    } else if c == '\u{d1}' {
        Some(93)
    } else if c == '\u{dc}' {
        Some(94)
    } else if c == '\u{a7}' {
        Some(95)
    } else if c == '\u{bf}' {
        Some(96)
    } else if 97 <= u && u <= 122 {
        Some(u as u8)
    } else if c == '\u{e4}' {
        Some(123)
    } else if c == '\u{f6}' {
        Some(124)
    } else if c == '\u{f1}' {
        Some(125)
    } else if c == '\u{fc}' {
        Some(126)
    } else if c == '\u{e0}' {
        Some(127)
    } else {
        None
    }
}

/// Looks a character up in the extension table.
pub fn gsm7_ext_code(c: char) -> (r: Option<u8>)
    ensures
        r == gsm7_ext(c),
{
    if c == '\u{c}' {
        Some(0x0a)
    } else if c == '^' {
        Some(0x14)
    } else if c == '{' {
        Some(0x28)
    } else if c == '}' {
        Some(0x29)
    } else if c == '\\' {
        Some(0x2f)
    } else if c == '[' {
        Some(0x3c)
    } else if c == '~' {
        Some(0x3d)
    } else if c == ']' {
        Some(0x3e)
    } else if c == '|' {
        Some(0x40)
    } else if c == '\u{20ac}' {
        Some(0x65)
    } else {
        None
    }
}

/// Units one character occupies under an encoding.
pub fn char_units_exec(enc: EncodingType, c: char) -> (r: usize)
    ensures
        r == char_units(enc, c),
{
    match enc {
        EncodingType::Gsm7Bit => {
            match gsm7_basic_code(c) {
                Some(_) => 1,
                None => match gsm7_ext_code(c) {
                    Some(_) => 2,
                    None => 0,
                },
            }
        },
        EncodingType::Latin1 => 1,
        EncodingType::Ucs2 => {
            if (c as u32) < 0x10000 {
                1
            } else {
                2
            }
        },
    }
}

/// Whether the encoding covers every character of the text.
pub fn can_encode_exec(enc: EncodingType, chars: &Vec<char>) -> (r: bool)
    ensures
        r == can_encode(enc, chars@),
{
    match enc {
        EncodingType::Ucs2 => true,
        EncodingType::Latin1 => {
            let mut i: usize = 0;
            while i < chars.len()
                invariant
                    enc == EncodingType::Latin1,
                    i <= chars@.len(),
                    forall|j: int| 0 <= j < i ==> latin1_encodable(#[trigger] chars@[j]),
                decreases chars@.len() - i,
            {
                let c = chars[i];
                if (c as u32) >= 0x100 {
                    assert(!latin1_encodable(chars@[i as int]));
                    return false;
                }
                i = i + 1;
            }
            true
        },
        EncodingType::Gsm7Bit => {
            let mut i: usize = 0;
            while i < chars.len()
                invariant
                    enc == EncodingType::Gsm7Bit,
                    i <= chars@.len(),
                    forall|j: int| 0 <= j < i ==> gsm7_encodable(#[trigger] chars@[j]),
                decreases chars@.len() - i,
            {
                let c = chars[i];
                let ok = match gsm7_basic_code(c) {
                    Some(_) => true,
                    None => match gsm7_ext_code(c) {
                        Some(_) => true,
                        None => false,
                    },
                };
                if !ok {
                    assert(!gsm7_encodable(chars@[i as int]));
                    return false;
                }
                i = i + 1;
            }
            true
        },
    }
}

/// The narrowest encoding, from the requested one up, that covers the
/// text.
pub fn choose_encoding(req: EncodingType, chars: &Vec<char>) -> (r: EncodingType)
    ensures
        r == chosen_encoding(req, chars@),
{
    if can_encode_exec(req, chars) {
        req
    } else if matches!(req, EncodingType::Gsm7Bit) && can_encode_exec(EncodingType::Latin1, chars)
    {
        EncodingType::Latin1
    } else {
        EncodingType::Ucs2
    }
}

/// Total units of the text under an encoding.
pub fn total_units(enc: EncodingType, chars: &Vec<char>) -> (r: u128)
    ensures
        r == units(enc, chars@),
{
    let mut u: u128 = 0;
    let mut i: usize = 0;
    while i < chars.len()
        invariant
            i <= chars@.len(),
            u == units(enc, chars@.take(i as int)),
            u <= 2 * i,
        decreases chars@.len() - i,
    {
        let cu = char_units_exec(enc, chars[i]);
        proof {
            lemma_char_units_bound(enc, chars@[i as int]);
            lemma_units_push(enc, chars@.take(i as int), chars@[i as int]);
            assert(chars@.take(i + 1) =~= chars@.take(i as int).push(chars@[i as int]));
        }
        u = u + (cu as u128);
        i = i + 1;
    }
    assert(chars@.take(i as int) =~= chars@);
    u
}

/// Greedy scan: how far the chunk starting at `i` reaches within `limit`
/// units.
pub fn scan_units(enc: EncodingType, chars: &Vec<char>, i: usize, limit: usize) -> (r: usize)
    requires
        i <= chars@.len(),
    ensures
        r == chunk_scan(enc, chars@, i as nat, limit as nat),
        i <= r <= chars@.len(),
{
    let mut j: usize = i;
    let mut left: usize = limit;
    loop
        invariant
            i <= j <= chars@.len(),
            left <= limit,
            chunk_scan(enc, chars@, i as nat, limit as nat) == chunk_scan(
                enc,
                chars@,
                j as nat,
                left as nat,
            ),
        decreases chars@.len() - j,
    {
        if j >= chars.len() {
            return j;
        }
        let cu = char_units_exec(enc, chars[j]);
        if cu > left {
            return j;
        }
        left = left - cu;
        j = j + 1;
    }
}

/// Encodes the characters of `chars` from `from` (inclusive) to `to`
/// (exclusive) under the encoding.
pub fn encode_chunk(enc: EncodingType, chars: &Vec<char>, from: usize, to: usize) -> (r: Vec<u8>)
    requires
        from <= to <= chars@.len(),
    ensures
        r@ == encoded_bytes(enc, chars@.subrange(from as int, to as int)),
{
    let ghost sub = chars@.subrange(from as int, to as int);
    match enc {
        EncodingType::Latin1 => {
            let mut out: Vec<u8> = Vec::new();
            let mut i: usize = from;
            while i < to
                invariant
                    from <= i <= to <= chars@.len(),
                    out@ == latin1_bytes(chars@.subrange(from as int, i as int)),
                decreases to - i,
            {
                let c = chars[i];
                out.push((c as u32) as u8);
                assert(chars@.subrange(from as int, i + 1) =~= chars@.subrange(
                    from as int,
                    i as int,
                ).push(chars@[i as int]));
                assert(out@ =~= latin1_bytes(chars@.subrange(from as int, i + 1)));
                i = i + 1;
            }
            out
        },
        EncodingType::Ucs2 => {
            let mut out: Vec<u8> = Vec::new();
            let mut i: usize = from;
            while i < to
                invariant
                    from <= i <= to <= chars@.len(),
                    out@ == ucs2_bytes(chars@.subrange(from as int, i as int)),
                decreases to - i,
            {
                let c = chars[i];
                let u = c as u32;
                if u < 0x10000 {
                    crate::wire::put_be16(&mut out, u as u16);
                } else {
                    let v = u - 0x10000;
                    crate::wire::put_be16(&mut out, (0xD800 + v / 0x400) as u16);
                    crate::wire::put_be16(&mut out, (0xDC00 + v % 0x400) as u16);
                }
                proof {
                    lemma_ucs2_bytes_push(chars@.subrange(from as int, i as int), chars@[i as int]);
                    assert(chars@.subrange(from as int, i + 1) =~= chars@.subrange(
                        from as int,
                        i as int,
                    ).push(chars@[i as int]));
                    assert(out@ =~= ucs2_bytes(chars@.subrange(from as int, i + 1)));
                }
                i = i + 1;
            }
            out
        },
        EncodingType::Gsm7Bit => {
            let mut sep: Vec<u8> = Vec::new();
            let mut i: usize = from;
            while i < to
                invariant
                    from <= i <= to <= chars@.len(),
                    sep@ == gsm7_septets(chars@.subrange(from as int, i as int)),
                decreases to - i,
            {
                let c = chars[i];
                match gsm7_basic_code(c) {
                    Some(v) => {
                        sep.push(v);
                    },
                    None => {
                        match gsm7_ext_code(c) {
                            Some(v) => {
                                sep.push(0x1b);
                                sep.push(v);
                            },
                            None => {},
                        }
                    },
                }
                proof {
                    lemma_gsm7_septets_push(
                        chars@.subrange(from as int, i as int),
                        chars@[i as int],
                    );
                    assert(chars@.subrange(from as int, i + 1) =~= chars@.subrange(
                        from as int,
                        i as int,
                    ).push(chars@[i as int]));
                    assert(sep@ =~= gsm7_septets(chars@.subrange(from as int, i + 1)));
                }
                i = i + 1;
            }
            proof {
                lemma_gsm7_septets_bound(chars@.subrange(from as int, to as int));
            }
            pack7_vec(&sep)
        },
    }
}

/// Packs a septet vector into octets.
pub fn pack7_vec(sep: &Vec<u8>) -> (r: Vec<u8>)
    requires
        forall|i: int| 0 <= i < sep@.len() ==> #[trigger] sep@[i] < 128,
    ensures
        r@ == pack7(sep@),
{
    let mut out: Vec<u8> = Vec::new();
    let mut acc: u32 = 0;
    let mut accbits: usize = 0;
    let mut i: usize = 0;
    assert(sep@.skip(0) =~= sep@);
    while i < sep.len()
        invariant
            i <= sep@.len(),
            accbits <= 7,
            acc < pow2_bits(accbits as nat),
            forall|j: int| 0 <= j < sep@.len() ==> #[trigger] sep@[j] < 128,
            pack7(sep@) == out@ + pack7_rec(sep@.skip(i as int), acc as nat, accbits as nat),
        decreases sep@.len() - i,
    {
        let s = sep[i];
        let p: u32 = if accbits == 0 {
            1
        } else if accbits == 1 {
            2
        } else if accbits == 2 {
            4
        } else if accbits == 3 {
            8
        } else if accbits == 4 {
            16
        } else if accbits == 5 {
            32
        } else if accbits == 6 {
            64
        } else {
            128
        };
        assert(p == pow2_bits(accbits as nat));
        assert(s < 128);
        assert((s as u32) * p <= 127 * p) by (nonlinear_arith)
            requires
                s < 128,
                p >= 1,
        ;
        let a2: u32 = acc + (s as u32) * p;
        assert(a2 < 128 * p);
        assert(a2 == acc + (sep@[i as int] as nat) * pow2_bits(accbits as nat));
        let ghost rest = sep@.skip(i as int);
        assert(rest[0] == sep@[i as int]);
        assert(rest.skip(1) =~= sep@.skip(i + 1));
        if accbits + 7 >= 8 {
            assert(128 * p == 256 * pow2_bits((accbits - 1) as nat));
            out.push((a2 % 256) as u8);
            acc = a2 / 256;
            accbits = accbits + 7 - 8;
            assert(acc < pow2_bits(accbits as nat));
            assert(out@ + pack7_rec(sep@.skip(i + 1), acc as nat, accbits as nat) =~= pack7(
                sep@,
            ));
        } else {
            acc = a2;
            accbits = accbits + 7;
        }
        i = i + 1;
    }
    assert(sep@.skip(i as int) =~= Seq::<u8>::empty());
    if accbits > 0 {
        out.push(acc as u8);
        assert(out@ =~= pack7(sep@));
    } else {
        assert(out@ =~= pack7(sep@));
    }
    out
}

// ---------------------------------------------------------------------------
// Splitting
// ---------------------------------------------------------------------------

/// Splits a message into one or more parts under the requested encoding,
/// upgraded as needed, and the chosen mode.
///
/// Fails only when a payload-mode message exceeds the payload byte budget,
/// or a user-data-header split would need more than 255 parts.
pub fn split_message(text: String, encoding: EncodingType, mode: SplitMode) -> (r: Result<
    SplitResult,
    SmppFfiError,
>)
    ensures
        r is Ok <==> split_spec(text@, encoding, mode) is Some,
        r matches Ok(sr) ==> split_spec(text@, encoding, mode) == Some(
            (parts_view(sr.parts@), sr.data_coding),
        ),
{
    let ghost s = text@;
    let chars = str_chars(text.as_str());
    let enc = choose_encoding(encoding, &chars);
    let data_coding = match enc {
        EncodingType::Gsm7Bit => 0x00u8,
        EncodingType::Latin1 => 0x03u8,
        EncodingType::Ucs2 => 0x08u8,
    };
    assert(data_coding == data_coding_of(enc));
    match mode {
        SplitMode::Payload => {
            let b = encode_chunk(enc, &chars, 0, chars.len());
            assert(chars@.subrange(0, chars@.len() as int) =~= s);
            if b.len() <= 65535 {
                let mut parts: Vec<Vec<u8>> = Vec::new();
                let ghost bv = b@;
                parts.push(b);
                assert(parts_view(parts@) =~= seq![bv]);
                Ok(SplitResult { parts, data_coding })
            } else {
                Err(
                    SmppFfiError::Generic {
                        msg: String::from_str("message exceeds the payload size bound"),
                    },
                )
            }
        },
        SplitMode::Sar => {
            let total = total_units(enc, &chars);
            let limit: usize = match enc {
                EncodingType::Gsm7Bit => 160,
                EncodingType::Latin1 => 140,
                EncodingType::Ucs2 => 70,
            };
            assert(limit == single_limit(enc));
            if total <= (limit as u128) {
                let b = encode_chunk(enc, &chars, 0, chars.len());
                assert(chars@.subrange(0, chars@.len() as int) =~= s);
                let mut parts: Vec<Vec<u8>> = Vec::new();
                let ghost bv = b@;
                parts.push(b);
                assert(parts_view(parts@) =~= seq![bv]);
                Ok(SplitResult { parts, data_coding })
            } else {
                let parts = build_plain_parts(enc, &chars, limit);
                Ok(SplitResult { parts, data_coding })
            }
        },
        SplitMode::Udh => {
            let total = total_units(enc, &chars);
            let single: usize = match enc {
                EncodingType::Gsm7Bit => 160,
                EncodingType::Latin1 => 140,
                EncodingType::Ucs2 => 70,
            };
            assert(single == single_limit(enc));
            if total <= (single as u128) {
                let b = encode_chunk(enc, &chars, 0, chars.len());
                assert(chars@.subrange(0, chars@.len() as int) =~= s);
                let mut parts: Vec<Vec<u8>> = Vec::new();
                let ghost bv = b@;
                parts.push(b);
                assert(parts_view(parts@) =~= seq![bv]);
                Ok(SplitResult { parts, data_coding })
            } else {
                let limit: usize = match enc {
                    EncodingType::Gsm7Bit => 153,
                    EncodingType::Latin1 => 134,
                    EncodingType::Ucs2 => 67,
                };
                assert(limit == udh_limit(enc));
                let count = chunk_count(enc, &chars, limit);
                if count > 255 {
                    return Err(
                        SmppFfiError::Generic {
                            msg: String::from_str("message needs more than 255 parts"),
                        },
                    );
                }
                let reference = (total % 256) as u8;
                assert(reference == ref_byte(enc, s));
                let parts = build_udh_parts(enc, &chars, limit, reference, count as u8);
                Ok(SplitResult { parts, data_coding })
            }
        },
    }
}

/// Counts the chunks of a greedy partition.
pub fn chunk_count(enc: EncodingType, chars: &Vec<char>, limit: usize) -> (r: usize)
    requires
        2 <= limit,
    ensures
        r == chunks(enc, chars@, limit as nat).len(),
{
    let ghost s = chars@;
    let mut i: usize = 0;
    let mut n: usize = 0;
    assert(s.skip(0) =~= s);
    while i < chars.len()
        invariant
            2 <= limit,
            i <= s.len(),
            s == chars@,
            n <= i,
            chunks(enc, s, limit as nat).len() == n + chunks(enc, s.skip(i as int), limit as nat).len(),
        decreases s.len() - i,
    {
        let k = scan_units(enc, chars, i, limit);
        proof {
            lemma_chunk_scan_shift(enc, s, i as nat, 0, limit as nat);
            lemma_char_units_bound(enc, s[i as int]);
            assert(chunk_scan(enc, s, i as nat, limit as nat) == chunk_scan(
                enc,
                s,
                (i + 1) as nat,
                (limit - char_units(enc, s[i as int])) as nat,
            ));
            lemma_chunk_scan_fits(
                enc,
                s,
                (i + 1) as nat,
                (limit - char_units(enc, s[i as int])) as nat,
            );
            assert(k >= i + 1);
            let t = s.skip(i as int);
            let k0 = chunk_scan(enc, t, 0, limit as nat);
            assert(k0 == k - i);
            assert(t.skip(k0 as int) =~= s.skip(k as int));
            assert(chunks(enc, t, limit as nat) == seq![t.take(k0 as int)] + chunks(
                enc,
                s.skip(k as int),
                limit as nat,
            ));
        }
        n = n + 1;
        i = k;
    }
    assert(s.skip(i as int) =~= Seq::<char>::empty());
    n
}

/// Builds the parts of a segmentation-and-reassembly split: each chunk's
/// payload bytes, with no in-payload header.
fn build_plain_parts(enc: EncodingType, chars: &Vec<char>, limit: usize) -> (r: Vec<Vec<u8>>)
    requires
        2 <= limit,
        chars@.len() > 0,
    ensures
        parts_view(r@) == chunks(enc, chars@, limit as nat).map_values(
            |c: Seq<char>| encoded_bytes(enc, c),
        ),
{
    let ghost s = chars@;
    let ghost cs = chunks(enc, s, limit as nat);
    let mut parts: Vec<Vec<u8>> = Vec::new();
    let mut i: usize = 0;
    assert(s.skip(0) =~= s);
    assert(cs.skip(0) =~= cs);
    while i < chars.len()
        invariant
            2 <= limit,
            i <= s.len(),
            s == chars@,
            parts@.len() <= cs.len(),
            cs.skip(parts@.len() as int) == chunks(enc, s.skip(i as int), limit as nat),
            parts_view(parts@) =~= cs.take(parts@.len() as int).map_values(
                |c: Seq<char>| encoded_bytes(enc, c),
            ),
        decreases s.len() - i,
    {
        let k = scan_units(enc, chars, i, limit);
        proof {
            lemma_chunk_scan_shift(enc, s, i as nat, 0, limit as nat);
            lemma_char_units_bound(enc, s[i as int]);
            assert(chunk_scan(enc, s, i as nat, limit as nat) == chunk_scan(
                enc,
                s,
                (i + 1) as nat,
                (limit - char_units(enc, s[i as int])) as nat,
            ));
            lemma_chunk_scan_fits(
                enc,
                s,
                (i + 1) as nat,
                (limit - char_units(enc, s[i as int])) as nat,
            );
            assert(k >= i + 1);
        }
        let ghost t = s.skip(i as int);
        let ghost k0 = chunk_scan(enc, t, 0, limit as nat);
        proof {
            assert(k0 == k - i);
            assert(t.skip(k0 as int) =~= s.skip(k as int));
            assert(chunks(enc, t, limit as nat) == seq![t.take(k0 as int)] + chunks(
                enc,
                s.skip(k as int),
                limit as nat,
            ));
            assert(t.take(k0 as int) =~= s.subrange(i as int, k as int));
            assert(cs.skip(parts@.len() as int)[0] == cs[parts@.len() as int]);
            assert(cs[parts@.len() as int] == s.subrange(i as int, k as int));
        }
        let b = encode_chunk(enc, chars, i, k);
        let ghost old_parts = parts@;
        let ghost n0 = parts@.len() as int;
        parts.push(b);
        proof {
            assert(cs.skip(n0 + 1) =~= cs.skip(n0).skip(1));
            assert(cs.skip(n0).skip(1) =~= chunks(enc, s.skip(k as int), limit as nat));
            assert(cs.skip(parts@.len() as int) =~= chunks(enc, s.skip(k as int), limit as nat));
            let target = cs.take(parts@.len() as int).map_values(
                |c: Seq<char>| encoded_bytes(enc, c),
            );
            assert(parts_view(parts@).len() == target.len());
            assert forall|j: int| 0 <= j < parts@.len() implies parts_view(parts@)[j] == target[j]
                by {
                assert(cs.take(parts@.len() as int)[j] == cs[j]);
                if j < n0 {
                    assert(parts_view(parts@)[j] == parts_view(old_parts)[j]);
                    assert(parts_view(old_parts)[j] == cs.take(n0).map_values(
                        |c: Seq<char>| encoded_bytes(enc, c),
                    )[j]);
                    assert(cs.take(n0)[j] == cs[j]);
                } else {
                    assert(parts_view(parts@)[j] == b@);
                }
            }
            assert(parts_view(parts@) =~= target);
        }
        i = k;
    }
    proof {
        assert(s.skip(i as int) =~= Seq::<char>::empty());
        assert(cs.skip(parts@.len() as int).len() == 0);
        assert(parts@.len() == cs.len());
        assert(cs.take(parts@.len() as int) =~= cs);
    }
    parts
}

/// Builds the parts of a user-data-header split: each part is the six
/// header bytes and the chunk's payload bytes.
fn build_udh_parts(
    enc: EncodingType,
    chars: &Vec<char>,
    limit: usize,
    reference: u8,
    total: u8,
) -> (r: Vec<Vec<u8>>)
    requires
        2 <= limit,
        chars@.len() > 0,
        total as nat == chunks(enc, chars@, limit as nat).len(),
    ensures
        parts_view(r@) == Seq::new(
            chunks(enc, chars@, limit as nat).len(),
            |i: int|
                udh_bytes(reference, total, (i + 1) as u8) + encoded_bytes(
                    enc,
                    chunks(enc, chars@, limit as nat)[i],
                ),
        ),
{
    let ghost s = chars@;
    let ghost cs = chunks(enc, s, limit as nat);
    let mut parts: Vec<Vec<u8>> = Vec::new();
    let mut i: usize = 0;
    assert(s.skip(0) =~= s);
    assert(cs.skip(0) =~= cs);
    while i < chars.len()
        invariant
            2 <= limit,
            i <= s.len(),
            s == chars@,
            total as nat == cs.len(),
            parts@.len() <= cs.len(),
            cs.skip(parts@.len() as int) == chunks(enc, s.skip(i as int), limit as nat),
            parts_view(parts@) =~= Seq::new(
                parts@.len() as nat,
                |j: int| udh_bytes(reference, total, (j + 1) as u8) + encoded_bytes(enc, cs[j]),
            ),
        decreases s.len() - i,
    {
        let k = scan_units(enc, chars, i, limit);
        proof {
            lemma_chunk_scan_shift(enc, s, i as nat, 0, limit as nat);
            lemma_char_units_bound(enc, s[i as int]);
            assert(chunk_scan(enc, s, i as nat, limit as nat) == chunk_scan(
                enc,
                s,
                (i + 1) as nat,
                (limit - char_units(enc, s[i as int])) as nat,
            ));
            lemma_chunk_scan_fits(
                enc,
                s,
                (i + 1) as nat,
                (limit - char_units(enc, s[i as int])) as nat,
            );
            assert(k >= i + 1);
        }
        let ghost t = s.skip(i as int);
        let ghost k0 = chunk_scan(enc, t, 0, limit as nat);
        proof {
            assert(k0 == k - i);
            assert(t.skip(k0 as int) =~= s.skip(k as int));
            assert(chunks(enc, t, limit as nat) == seq![t.take(k0 as int)] + chunks(
                enc,
                s.skip(k as int),
                limit as nat,
            ));
            assert(t.take(k0 as int) =~= s.subrange(i as int, k as int));
            assert(cs.skip(parts@.len() as int)[0] == cs[parts@.len() as int]);
            assert(cs[parts@.len() as int] == s.subrange(i as int, k as int));
        }
        let mut part: Vec<u8> = Vec::new();
        part.push(5);
        part.push(0);
        part.push(3);
        part.push(reference);
        part.push(total);
        part.push((parts.len() as u8) + 1);
        assert(part@ =~= udh_bytes(reference, total, (parts@.len() + 1) as u8));
        let b = encode_chunk(enc, chars, i, k);
        crate::wire::put_bytes(&mut part, b.as_slice());
        let ghost n0 = parts@.len() as int;
        let ghost old_parts = parts@;
        let ghost part_bytes = part@;
        parts.push(part);
        proof {
            assert(cs.skip(n0 + 1) =~= cs.skip(n0).skip(1));
            assert(cs.skip(n0).skip(1) =~= chunks(enc, s.skip(k as int), limit as nat));
            assert(cs.skip(parts@.len() as int) =~= chunks(enc, s.skip(k as int), limit as nat));
            let target = Seq::new(
                parts@.len() as nat,
                |j: int| udh_bytes(reference, total, (j + 1) as u8) + encoded_bytes(enc, cs[j]),
            );
            assert(parts_view(parts@).len() == target.len());
            assert forall|j: int| 0 <= j < parts@.len() implies parts_view(parts@)[j] == target[j]
                by {
                if j < n0 {
                    assert(parts_view(parts@)[j] == parts_view(old_parts)[j]);
                    assert(parts_view(old_parts)[j] == Seq::new(
                        old_parts.len() as nat,
                        |m: int| udh_bytes(reference, total, (m + 1) as u8) + encoded_bytes(
                            enc,
                            cs[m],
                        ),
                    )[j]);
                } else {
                    assert(parts_view(parts@)[j] == part_bytes);
                    assert(part_bytes == udh_bytes(reference, total, (n0 + 1) as u8)
                        + encoded_bytes(enc, cs[n0]));
                }
            }
            assert(parts_view(parts@) =~= target);
        }
        i = k;
    }
    proof {
        assert(s.skip(i as int) =~= Seq::<char>::empty());
        assert(cs.skip(parts@.len() as int).len() == 0);
        assert(parts@.len() == cs.len());
    }
    parts
}

} // verus!
