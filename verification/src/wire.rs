//! Byte-level building blocks of the wire format: big-endian integers,
//! null-terminated ASCII strings, and raw byte runs.
//!
//! Each field kind has a spec encoder producing its exact byte sequence, a
//! spec parser over the remaining input (returning the parsed value and the
//! unconsumed suffix), a proved round-trip lemma connecting the two, and
//! executable read/write helpers whose contracts tie them to the spec
//! functions.

use vstd::prelude::*;

verus! {

use vstd::string::StringSliceAdditionalSpecFns;
use vstd::string::StrSliceExecFns;

broadcast use vstd::string::group_string_axioms, vstd::utf8::char_is_scalar;

// ---------------------------------------------------------------------------
// Spec encoders
// ---------------------------------------------------------------------------

/// Big-endian byte pair of a 16-bit word.
pub open spec fn be16(v: u16) -> Seq<u8> {
    seq![(v / 256) as u8, (v % 256) as u8]
}

/// Big-endian byte quadruple of a 32-bit word.
pub open spec fn be32(v: u32) -> Seq<u8> {
    be16((v / 0x10000) as u16) + be16((v % 0x10000) as u16)
}

/// The bytes of an ASCII string, one byte per character.
pub open spec fn ascii_seq(s: Seq<char>) -> Seq<u8> {
    s.map_values(|c: char| c as u8)
}

/// A C-octet string: the ASCII bytes of `s` followed by a single null byte.
pub open spec fn cstr_enc(s: Seq<char>) -> Seq<u8> {
    ascii_seq(s).push(0u8)
}

/// Whether `s` may stand in a C-octet string field whose wire size
/// (terminator included) is capped at `max` bytes: strictly shorter than
/// `max`, every character a non-null ASCII byte.
pub open spec fn wf_cstr(s: Seq<char>, max: nat) -> bool {
    &&& s.len() + 1 <= max
    &&& forall|i: int| 0 <= i < s.len() ==> 0x01 <= (#[trigger] s[i]) as int <= 0x7f
}

// ---------------------------------------------------------------------------
// Optional C-octet strings
//
// A protocol field that may be absent is written as an empty string on the
// wire; an absent value and an explicitly empty one are indistinguishable
// there. The typed boundary keeps the distinction out of domain logic by
// representing the field as an `Option` whose `Some` is never empty.
// ---------------------------------------------------------------------------

/// The characters an optional string field puts on the wire: none when it
/// is absent.
pub open spec fn opt_chars(o: Option<Seq<char>>) -> Seq<char> {
    match o {
        None => Seq::empty(),
        Some(s) => s,
    }
}

/// The typed value of a decoded string field: absent when the wire held an
/// empty string.
pub open spec fn opt_of_chars(s: Seq<char>) -> Option<Seq<char>> {
    if s.len() == 0 {
        None
    } else {
        Some(s)
    }
}

/// View of an optional string.
pub open spec fn opt_str_view(o: Option<String>) -> Option<Seq<char>> {
    match o {
        None => None,
        Some(s) => Some(s@),
    }
}

/// Whether an optional value may stand in a C-octet string field capped at
/// `max` wire bytes: a present value is non-empty and fits.
pub open spec fn wf_opt_cstr(o: Option<Seq<char>>, max: nat) -> bool {
    match o {
        None => true,
        Some(s) => s.len() > 0 && wf_cstr(s, max),
    }
}

/// A well-formed optional value survives the trip through its wire string.
pub proof fn lemma_opt_roundtrip(o: Option<Seq<char>>, max: nat)
    requires
        wf_opt_cstr(o, max),
        max >= 1,
    ensures
        opt_of_chars(opt_chars(o)) == o,
        wf_cstr(opt_chars(o), max),
{
}

/// Appends the wire string of an optional field: its characters when
/// present, a bare terminator when absent.
pub fn put_opt_cstr(out: &mut Vec<u8>, s: &Option<String>)
    requires
        forall|i: int|
            0 <= i < opt_chars(opt_str_view(*s)).len() ==> 0x01 <= (#[trigger] opt_chars(
                opt_str_view(*s),
            )[i]) as int <= 0x7f,
    ensures
        final(out)@ == old(out)@ + cstr_enc(opt_chars(opt_str_view(*s))),
{
    match s {
        None => {
            out.push(0u8);
            assert(cstr_enc(Seq::empty()) =~= seq![0u8]);
            assert(out@ =~= old(out)@ + cstr_enc(opt_chars(opt_str_view(*s))));
        },
        Some(st) => {
            proof {
                assert(opt_chars(opt_str_view(*s)) == st@);
                assert forall|i: int| 0 <= i < st@.len() implies 0x01 <= (#[trigger] st@[i]) as int
                    <= 0x7f by {
                    assert(0x01 <= opt_chars(opt_str_view(*s))[i] as int <= 0x7f);
                }
            }
            put_cstr(out, st.as_str());
        },
    }
}

/// Reads an optional string field at `i`: a wire string, with the empty
/// string standing for absence.
pub fn rd_opt_cstr(b: &[u8], i: usize, max: usize) -> (r: Option<(Option<String>, usize)>)
    requires
        i <= b@.len(),
    ensures
        r is Some <==> p_cstr(b@.skip(i as int), max as nat) is Some,
        r matches Some((o, j)) ==> p_cstr(b@.skip(i as int), max as nat) matches Some((cs, rest))
            && rest == b@.skip(j as int) && opt_str_view(o) == opt_of_chars(cs) && j == i
            + cs.len() + 1 && j <= b@.len(),
{
    match rd_cstr(b, i, max) {
        None => None,
        Some((s, j)) => {
            if s.as_str().is_empty() {
                Some((None, j))
            } else {
                Some((Some(s), j))
            }
        },
    }
}

// ---------------------------------------------------------------------------
// Spec parsers
//
// Each takes the remaining input and yields the parsed value together with
// the unconsumed suffix, or `None` when the input is not acceptable.
// ---------------------------------------------------------------------------

/// Parses one byte.
pub open spec fn p_u8(b: Seq<u8>) -> Option<(u8, Seq<u8>)> {
    if b.len() >= 1 {
        Some((b[0], b.skip(1)))
    } else {
        None
    }
}

/// Parses a big-endian 16-bit word.
pub open spec fn p_be16(b: Seq<u8>) -> Option<(u16, Seq<u8>)> {
    if b.len() >= 2 {
        Some((((b[0] as u16) * 256 + (b[1] as u16)) as u16, b.skip(2)))
    } else {
        None
    }
}

/// Parses a big-endian 32-bit word.
pub open spec fn p_be32(b: Seq<u8>) -> Option<(u32, Seq<u8>)> {
    match p_be16(b) {
        None => None,
        Some((hi, r)) => match p_be16(r) {
            None => None,
            Some((lo, r2)) => Some((((hi as u32) * 0x10000 + (lo as u32)) as u32, r2)),
        },
    }
}

/// Parses a run of exactly `n` raw bytes.
pub open spec fn p_fixed(b: Seq<u8>, n: nat) -> Option<(Seq<u8>, Seq<u8>)> {
    if b.len() >= n {
        Some((b.take(n as int), b.skip(n as int)))
    } else {
        None
    }
}

/// Parses a C-octet string of at most `max` wire bytes (terminator
/// included): non-null ASCII bytes up to and including the first null byte.
pub open spec fn p_cstr(b: Seq<u8>, max: nat) -> Option<(Seq<char>, Seq<u8>)>
    decreases max,
{
    if max == 0 || b.len() == 0 {
        None
    } else if b[0] == 0 {
        Some((Seq::empty(), b.skip(1)))
    } else if b[0] < 0x80 {
        match p_cstr(b.skip(1), (max - 1) as nat) {
            None => None,
            Some((s, r)) => Some((seq![b[0] as char] + s, r)),
        }
    } else {
        None
    }
}

// ---------------------------------------------------------------------------
// Round-trip lemmas
// ---------------------------------------------------------------------------

pub proof fn lemma_p_u8(v: u8, rest: Seq<u8>)
    ensures
        p_u8(seq![v] + rest) == Some((v, rest)),
{
    let b = seq![v] + rest;
    assert(b[0] == v);
    assert(b.skip(1) =~= rest);
}

pub proof fn lemma_p_be16(v: u16, rest: Seq<u8>)
    ensures
        p_be16(be16(v) + rest) == Some((v, rest)),
{
    let b = be16(v) + rest;
    assert(b[0] == (v / 256) as u8);
    assert(b[1] == (v % 256) as u8);
    assert((b[0] as u16) * 256 + (b[1] as u16) == v);
    assert(b.skip(2) =~= rest);
}

pub proof fn lemma_p_be32(v: u32, rest: Seq<u8>)
    ensures
        p_be32(be32(v) + rest) == Some((v, rest)),
{
    let hi = (v / 0x10000) as u16;
    let lo = (v % 0x10000) as u16;
    assert(be32(v) + rest =~= be16(hi) + (be16(lo) + rest));
    lemma_p_be16(hi, be16(lo) + rest);
    lemma_p_be16(lo, rest);
    assert((hi as u32) * 0x10000 + (lo as u32) == v);
}

pub proof fn lemma_p_fixed(data: Seq<u8>, rest: Seq<u8>)
    ensures
        p_fixed(data + rest, data.len()) == Some((data, rest)),
{
    let b = data + rest;
    assert(b.take(data.len() as int) =~= data);
    assert(b.skip(data.len() as int) =~= rest);
}

pub proof fn lemma_p_cstr(s: Seq<char>, max: nat, rest: Seq<u8>)
    requires
        wf_cstr(s, max),
    ensures
        p_cstr(cstr_enc(s) + rest, max) == Some((s, rest)),
    decreases s.len(),
{
    let b = cstr_enc(s) + rest;
    if s.len() == 0 {
        assert(b[0] == 0);
        assert(b.skip(1) =~= rest);
        assert(p_cstr(b, max) == Some((Seq::<char>::empty(), rest)));
        assert(Seq::<char>::empty() =~= s);
    } else {
        let c = s[0];
        assert(ascii_seq(s)[0] == c as u8);
        assert(b[0] == c as u8);
        assert(1 <= c as int <= 0x7f);
        assert(c as u8 as int == c as int);
        assert(b[0] != 0 && b[0] < 0x80);
        let tail = s.skip(1);
        assert(wf_cstr(tail, (max - 1) as nat));
        assert(b.skip(1) =~= cstr_enc(tail) + rest) by {
            assert(ascii_seq(s).skip(1) =~= ascii_seq(tail));
            assert(cstr_enc(s).skip(1) =~= cstr_enc(tail));
        }
        lemma_p_cstr(tail, (max - 1) as nat, rest);
        assert((b[0] as char) == c);
        assert(seq![b[0] as char] + tail =~= s);
    }
}

// ---------------------------------------------------------------------------
// Executable writers
// ---------------------------------------------------------------------------

/// Appends one byte.
pub fn put_u8(out: &mut Vec<u8>, v: u8)
    ensures
        final(out)@ == old(out)@ + seq![v],
{
    out.push(v);
    assert(out@ =~= old(out)@ + seq![v]);
}

/// Appends the two big-endian bytes of `v`.
pub fn put_be16(out: &mut Vec<u8>, v: u16)
    ensures
        final(out)@ == old(out)@ + be16(v),
{
    out.push((v / 256) as u8);
    out.push((v % 256) as u8);
    assert(out@ =~= old(out)@ + be16(v));
}

/// Appends the four big-endian bytes of `v`.
pub fn put_be32(out: &mut Vec<u8>, v: u32)
    ensures
        final(out)@ == old(out)@ + be32(v),
{
    put_be16(out, (v / 0x10000) as u16);
    put_be16(out, (v % 0x10000) as u16);
    assert(out@ =~= old(out)@ + be32(v));
}

/// Appends a run of raw bytes.
pub fn put_bytes(out: &mut Vec<u8>, b: &[u8])
    ensures
        final(out)@ == old(out)@ + b@,
{
    out.extend_from_slice(b);
}

/// Appends the ASCII bytes of `s` and a terminating null byte.
pub fn put_cstr(out: &mut Vec<u8>, s: &str)
    requires
        forall|i: int| 0 <= i < s@.len() ==> 0x01 <= (#[trigger] s@[i]) as int <= 0x7f,
    ensures
        final(out)@ == old(out)@ + cstr_enc(s@),
{
    proof {
        assert forall|i: int| 0 <= i < s@.len() implies '\0' <= #[trigger] s@[i] <= '\u{7f}' by {
            assert(0x01 <= s@[i] as int <= 0x7f);
        }
        assert(s.is_ascii());
        assert(s.spec_bytes() =~= ascii_seq(s@));
    }
    out.extend_from_slice(s.as_bytes());
    out.push(0u8);
    assert(out@ =~= old(out)@ + cstr_enc(s@));
}

/// Appends the ASCII bytes of `s`, without a terminator.
pub fn put_ascii(out: &mut Vec<u8>, s: &str)
    requires
        forall|i: int| 0 <= i < s@.len() ==> 0x01 <= (#[trigger] s@[i]) as int <= 0x7f,
    ensures
        final(out)@ == old(out)@ + ascii_seq(s@),
{
    proof {
        assert forall|i: int| 0 <= i < s@.len() implies '\0' <= #[trigger] s@[i] <= '\u{7f}' by {
            assert(0x01 <= s@[i] as int <= 0x7f);
        }
        assert(s.is_ascii());
        assert(s.spec_bytes() =~= ascii_seq(s@));
    }
    out.extend_from_slice(s.as_bytes());
    assert(out@ =~= old(out)@ + ascii_seq(s@));
}

// ---------------------------------------------------------------------------
// Decimal rendering
// ---------------------------------------------------------------------------

/// The ASCII decimal digits of `n`, most significant first.
pub open spec fn dec_bytes(n: nat) -> Seq<u8>
    decreases n,
{
    if n < 10 {
        seq![(48 + n) as u8]
    } else {
        dec_bytes(n / 10).push((48 + n % 10) as u8)
    }
}

/// The ASCII decimal digits of `n`, zero-padded on the left to at least
/// three digits.
pub open spec fn dec3_bytes(n: nat) -> Seq<u8> {
    if n >= 100 {
        dec_bytes(n)
    } else if n >= 10 {
        seq![48u8] + dec_bytes(n)
    } else {
        seq![48u8, 48u8] + dec_bytes(n)
    }
}

/// Appends the decimal digits of `n`.
pub fn put_dec(out: &mut Vec<u8>, n: u32)
    ensures
        final(out)@ == old(out)@ + dec_bytes(n as nat),
    decreases n,
{
    if n < 10 {
        out.push(48 + (n as u8));
        assert(out@ =~= old(out)@ + dec_bytes(n as nat));
    } else {
        put_dec(out, n / 10);
        out.push(48 + ((n % 10) as u8));
        assert(out@ =~= old(out)@ + dec_bytes(n as nat));
    }
}

/// Appends the decimal digits of `n`, zero-padded to at least three.
pub fn put_dec3(out: &mut Vec<u8>, n: u32)
    ensures
        final(out)@ == old(out)@ + dec3_bytes(n as nat),
{
    if n >= 100 {
        put_dec(out, n);
    } else if n >= 10 {
        out.push(48);
        put_dec(out, n);
        assert(out@ =~= old(out)@ + dec3_bytes(n as nat));
    } else {
        out.push(48);
        out.push(48);
        put_dec(out, n);
        assert(out@ =~= old(out)@ + dec3_bytes(n as nat));
    }
}

// ---------------------------------------------------------------------------
// Executable readers
//
// Each reader takes the buffer and a cursor and either consumes the field,
// returning the value with the new cursor, or reports that the spec parser
// rejects the remaining input.
// ---------------------------------------------------------------------------

/// Reads one byte at `i`.
pub fn rd_u8(b: &[u8], i: usize) -> (r: Option<(u8, usize)>)
    requires
        i <= b@.len(),
    ensures
        r is Some <==> p_u8(b@.skip(i as int)) is Some,
        r matches Some((v, j)) ==> j == i + 1 && j <= b@.len() && p_u8(b@.skip(i as int)) == Some(
            (v, b@.skip(j as int)),
        ),
{
    if i < b.len() {
        let v = b[i];
        assert(b@.skip(i as int)[0] == v);
        assert(b@.skip(i as int).skip(1) =~= b@.skip(i + 1));
        Some((v, i + 1))
    } else {
        None
    }
}

/// Reads a big-endian 16-bit word at `i`.
pub fn rd_be16(b: &[u8], i: usize) -> (r: Option<(u16, usize)>)
    requires
        i <= b@.len(),
    ensures
        r is Some <==> p_be16(b@.skip(i as int)) is Some,
        r matches Some((v, j)) ==> j == i + 2 && j <= b@.len() && p_be16(b@.skip(i as int))
            == Some((v, b@.skip(j as int))),
{
    if b.len() - i >= 2 {
        let v: u16 = (b[i] as u16) * 256 + (b[i + 1] as u16);
        assert(b@.skip(i as int)[0] == b@[i as int]);
        assert(b@.skip(i as int)[1] == b@[i + 1]);
        assert(b@.skip(i as int).skip(2) =~= b@.skip(i + 2));
        Some((v, i + 2))
    } else {
        None
    }
}

/// Reads a big-endian 32-bit word at `i`.
pub fn rd_be32(b: &[u8], i: usize) -> (r: Option<(u32, usize)>)
    requires
        i <= b@.len(),
    ensures
        r is Some <==> p_be32(b@.skip(i as int)) is Some,
        r matches Some((v, j)) ==> j == i + 4 && j <= b@.len() && p_be32(b@.skip(i as int))
            == Some((v, b@.skip(j as int))),
{
    match rd_be16(b, i) {
        None => None,
        Some((hi, j)) => match rd_be16(b, j) {
            None => None,
            Some((lo, k)) => {
                let v: u32 = (hi as u32) * 0x10000 + (lo as u32);
                Some((v, k))
            },
        },
    }
}

/// Reads a run of exactly `n` raw bytes at `i`.
pub fn rd_fixed(b: &[u8], i: usize, n: usize) -> (r: Option<(Vec<u8>, usize)>)
    requires
        i <= b@.len(),
    ensures
        r is Some <==> p_fixed(b@.skip(i as int), n as nat) is Some,
        r matches Some((v, j)) ==> j == i + n && j <= b@.len() && p_fixed(
            b@.skip(i as int),
            n as nat,
        ) == Some((v@, b@.skip(j as int))),
{
    if b.len() - i >= n {
        let part = vstd::slice::slice_subrange(b, i, i + n);
        let v = vstd::slice::slice_to_vec(part);
        assert(b@.skip(i as int).take(n as int) =~= b@.subrange(i as int, i + n));
        assert(b@.skip(i as int).skip(n as int) =~= b@.skip(i + n));
        Some((v, i + n))
    } else {
        None
    }
}

/// Turns non-null ASCII bytes into the string holding the same code points.
///
/// Relies on `String::from_utf8`: UTF-8 decoding is the identity on ASCII
/// bytes, mapping each byte to the character with the same code point, and
/// never fails on them.
#[verifier::external_body]
pub(crate) fn ascii_vec_to_string(bytes: Vec<u8>) -> (r: String)
    requires
        forall|i: int| 0 <= i < bytes@.len() ==> #[trigger] bytes@[i] < 0x80,
    ensures
        r@ == bytes@.map_values(|x: u8| x as char),
{
    String::from_utf8(bytes).unwrap_or_default()
}

/// Prepends the characters of already-consumed bytes `pre` to the outcome of
/// parsing the rest of a C-octet string.
pub open spec fn cstr_cont(pre: Seq<u8>, inner: Option<(Seq<char>, Seq<u8>)>) -> Option<
    (Seq<char>, Seq<u8>),
> {
    match inner {
        None => None,
        Some((s, r)) => Some((pre.map_values(|x: u8| x as char) + s, r)),
    }
}

/// Reads a C-octet string of at most `max` wire bytes starting at `i`.
pub fn rd_cstr(b: &[u8], i: usize, max: usize) -> (r: Option<(String, usize)>)
    requires
        i <= b@.len(),
    ensures
        r is Some <==> p_cstr(b@.skip(i as int), max as nat) is Some,
        r matches Some((s, j)) ==> j == i + s@.len() + 1 && j <= b@.len() && p_cstr(
            b@.skip(i as int),
            max as nat,
        ) == Some((s@, b@.skip(j as int))),
{
    if max == 0 {
        return None;
    }
    let mut j: usize = i;
    let mut acc: Vec<u8> = Vec::new();
    loop
        invariant
            i <= j <= b@.len(),
            j - i == acc@.len(),
            max >= acc@.len() + 1,
            forall|k: int| 0 <= k < acc@.len() ==> 0x01 <= #[trigger] acc@[k] < 0x80,
            p_cstr(b@.skip(i as int), max as nat) == cstr_cont(
                acc@,
                p_cstr(b@.skip(j as int), (max - acc@.len()) as nat),
            ),
        decreases b@.len() - j,
    {
        if j >= b.len() {
            assert(p_cstr(b@.skip(j as int), (max - acc@.len()) as nat) is None);
            return None;
        }
        let c = b[j];
        assert(b@.skip(j as int)[0] == c);
        if c == 0 {
            assert(p_cstr(b@.skip(j as int), (max - acc@.len()) as nat) == Some(
                (Seq::<char>::empty(), b@.skip(j as int).skip(1)),
            ));
            assert(b@.skip(j as int).skip(1) =~= b@.skip(j + 1));
            let s = ascii_vec_to_string(acc);
            assert(s@ + Seq::<char>::empty() =~= s@);
            return Some((s, j + 1));
        }
        if c >= 0x80 {
            assert(p_cstr(b@.skip(j as int), (max - acc@.len()) as nat) is None);
            return None;
        }
        if acc.len() >= max - 1 {
            // one more content byte would leave no room for the terminator
            assert(max - acc@.len() == 1);
            assert(p_cstr(b@.skip(j as int).skip(1), 0nat) is None);
            assert(p_cstr(b@.skip(j as int), (max - acc@.len()) as nat) is None);
            return None;
        }
        let ghost old_acc = acc@;
        let ghost old_j = j as int;
        acc.push(c);
        j = j + 1;
        proof {
            assert(b@.skip(old_j).skip(1) =~= b@.skip(j as int));
            let inner = p_cstr(b@.skip(j as int), (max - acc@.len()) as nat);
            match inner {
                None => {},
                Some((s, rr)) => {
                    assert(p_cstr(b@.skip(old_j), (max - old_acc.len()) as nat) == Some(
                        (seq![c as char] + s, rr),
                    ));
                    assert(old_acc.map_values(|x: u8| x as char) + (seq![c as char] + s)
                        =~= acc@.map_values(|x: u8| x as char) + s);
                },
            }
        }
    }
}

} // verus!
