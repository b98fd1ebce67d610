//! Byte-level construction of the JSON request bodies the pipeline sends:
//! string escaping, decimal rendering, and the GraphQL request wrapper
//! `{"query": ..., "variables": ...}`.
//!
//! Bodies are built as UTF-8 byte vectors so that every byte of a request is
//! pinned by a specification.

use vstd::prelude::*;
use vstd::string::StringSliceAdditionalSpecFns;

verus! {

/// The ASCII code of a lower-case hexadecimal digit.
pub open spec fn spec_hex_digit(n: u8) -> u8
    recommends
        n < 16,
{
    if n < 10 {
        (0x30 + n) as u8
    } else {
        (0x61 + (n - 10)) as u8
    }
}

/// How one byte of a string value appears inside a JSON string literal:
/// quote and backslash are escaped with a backslash, control bytes become a
/// `\u00..` sequence, and every other byte stands for itself.
pub open spec fn spec_escape_byte(b: u8) -> Seq<u8> {
    if b == 0x22 {
        seq![0x5cu8, 0x22]
    } else if b == 0x5c {
        seq![0x5cu8, 0x5c]
    } else if b < 0x20 {
        seq![0x5cu8, 0x75, 0x30, 0x30, spec_hex_digit(b / 16), spec_hex_digit(b % 16)]
    } else {
        seq![b]
    }
}

/// The JSON escaping of a whole byte string.
pub open spec fn spec_json_escaped(s: Seq<u8>) -> Seq<u8>
    decreases s.len(),
{
    if s.len() == 0 {
        Seq::empty()
    } else {
        spec_escape_byte(s.first()) + spec_json_escaped(s.drop_first())
    }
}

/// A JSON string literal: the escaped bytes between two quotes.
pub open spec fn spec_json_str(s: Seq<u8>) -> Seq<u8> {
    seq![0x22u8] + spec_json_escaped(s) + seq![0x22u8]
}

/// Escaping distributes over appending one byte at the end.
proof fn lemma_escaped_push(s: Seq<u8>, b: u8)
    ensures
        spec_json_escaped(s.push(b)) == spec_json_escaped(s) + spec_escape_byte(b),
    decreases s.len(),
{
    if s.len() == 0 {
        assert(s.push(b).first() == b);
        assert(s.push(b).drop_first() =~= Seq::<u8>::empty());
        assert(spec_json_escaped(Seq::<u8>::empty()) =~= Seq::<u8>::empty());
        assert(spec_json_escaped(s.push(b)) == spec_escape_byte(b) + spec_json_escaped(
            s.push(b).drop_first(),
        ));
        assert(spec_json_escaped(s.push(b)) =~= spec_json_escaped(s) + spec_escape_byte(b));
    } else {
        lemma_escaped_push(s.drop_first(), b);
        assert(s.push(b).first() == s.first());
        assert(s.push(b).drop_first() =~= s.drop_first().push(b));
        assert(spec_json_escaped(s.push(b)) =~= spec_json_escaped(s) + spec_escape_byte(b));
    }
}

/// Appends a byte slice to `out`.
pub fn push_bytes(out: &mut Vec<u8>, s: &[u8])
    ensures
        final(out)@ == old(out)@ + s@,
{
    let mut i: usize = 0;
    while i < s.len()
        invariant
            i <= s@.len(),
            out@ == old(out)@ + s@.subrange(0, i as int),
        decreases s@.len() - i,
    {
        out.push(s[i]);
        i = i + 1;
        assert(out@ =~= old(out)@ + s@.subrange(0, i as int));
    }
    assert(s@.subrange(0, s@.len() as int) =~= s@);
}

/// Appends the UTF-8 bytes of a string slice to `out`.
pub fn push_str_bytes(out: &mut Vec<u8>, s: &str)
    ensures
        final(out)@ == old(out)@ + s.spec_bytes(),
{
    push_bytes(out, s.as_bytes());
}

/// Appends the JSON escaping of `s` to `out`.
pub fn push_json_escaped(out: &mut Vec<u8>, s: &[u8])
    ensures
        final(out)@ == old(out)@ + spec_json_escaped(s@),
{
    let mut i: usize = 0;
    while i < s.len()
        invariant
            i <= s@.len(),
            out@ == old(out)@ + spec_json_escaped(s@.subrange(0, i as int)),
        decreases s@.len() - i,
    {
        let b = s[i];
        if b == 0x22 {
            out.push(0x5c);
            out.push(0x22);
        } else if b == 0x5c {
            out.push(0x5c);
            out.push(0x5c);
        } else if b < 0x20 {
            out.push(0x5c);
            out.push(0x75);
            out.push(0x30);
            out.push(0x30);
            let hi = b / 16;
            let lo = b % 16;
            out.push(if hi < 10 { 0x30 + hi } else { 0x61 + (hi - 10) });
            out.push(if lo < 10 { 0x30 + lo } else { 0x61 + (lo - 10) });
        } else {
            out.push(b);
        }
        proof {
            lemma_escaped_push(s@.subrange(0, i as int), s@[i as int]);
            assert(s@.subrange(0, i as int).push(s@[i as int]) =~= s@.subrange(0, i + 1 as int));
            assert(out@ =~= old(out)@ + spec_json_escaped(s@.subrange(0, i + 1 as int)));
        }
        i = i + 1;
    }
    assert(s@.subrange(0, s@.len() as int) =~= s@);
}

/// Appends a complete JSON string literal holding `s` to `out`.
pub fn push_json_str(out: &mut Vec<u8>, s: &str)
    ensures
        final(out)@ == old(out)@ + spec_json_str(s.spec_bytes()),
{
    out.push(0x22);
    push_json_escaped(out, s.as_bytes());
    out.push(0x22);
    assert(out@ =~= old(out)@ + spec_json_str(s.spec_bytes()));
}

/// The decimal digits of `n`, most significant first.
pub open spec fn spec_dec(n: nat) -> Seq<u8>
    decreases n,
{
    if n < 10 {
        seq![(0x30 + n) as u8]
    } else {
        spec_dec(n / 10) + seq![(0x30 + n % 10) as u8]
    }
}

/// Appends the decimal rendering of `n` to `out`.
pub fn push_dec_u64(out: &mut Vec<u8>, n: u64)
    ensures
        final(out)@ == old(out)@ + spec_dec(n as nat),
    decreases n,
{
    if n < 10 {
        out.push(0x30 + (n as u8));
        assert(out@ =~= old(out)@ + spec_dec(n as nat));
    } else {
        push_dec_u64(out, n / 10);
        out.push(0x30 + ((n % 10) as u8));
        assert(out@ =~= old(out)@ + spec_dec(n as nat));
    }
}

/// The body of a GraphQL HTTP request: the query text and, when present, the
/// variables object (already rendered as JSON).
pub open spec fn spec_request_body(query: Seq<u8>, variables: Option<Seq<u8>>) -> Seq<u8> {
    ("{\"query\":").spec_bytes() + spec_json_str(query) + (match variables {
        Some(vs) => (",\"variables\":").spec_bytes() + vs,
        None => Seq::<u8>::empty(),
    }) + ("}").spec_bytes()
}

/// Renders the body of a GraphQL HTTP request from the query text and the
/// optional pre-rendered variables object.
pub fn build_graphql_request_body(query: &str, variables: Option<&Vec<u8>>) -> (r: Vec<u8>)
    ensures
        r@ == spec_request_body(
            query.spec_bytes(),
            match variables {
                Some(vs) => Some(vs@),
                None => None,
            },
        ),
{
    let mut out: Vec<u8> = Vec::new();
    push_str_bytes(&mut out, "{\"query\":");
    push_json_str(&mut out, query);
    match variables {
        Some(vs) => {
            push_str_bytes(&mut out, ",\"variables\":");
            push_bytes(&mut out, vs.as_slice());
        },
        None => {},
    }
    push_str_bytes(&mut out, "}");
    assert(out@ =~= spec_request_body(
        query.spec_bytes(),
        match variables {
            Some(vs) => Some(vs@),
            None => None,
        },
    ));
    out
}

} // verus!
