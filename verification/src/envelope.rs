//! The fixed binary envelope wrapped around raw replay bytes before they are
//! compressed and uploaded: a literal header token, a four-byte big-endian
//! length prefix of the raw payload, the raw bytes, then a literal footer
//! token. The receiving analysis pipeline requires this exact byte layout.

use vstd::prelude::*;

verus! {

/// The literal header token that opens the envelope.
pub open spec fn spec_slp_header() -> Seq<u8> {
    seq![0x7bu8, 0x55, 0x03, 0x72, 0x61, 0x77, 0x5b, 0x24, 0x55, 0x23, 0x6c]
}

/// The literal footer token that closes the envelope.
pub open spec fn spec_slp_footer() -> Seq<u8> {
    seq![0x55u8, 0x08, 0x6d, 0x65, 0x74, 0x61, 0x64, 0x61, 0x74, 0x61, 0x7b, 0x7d, 0x7d]
}

/// The four big-endian bytes of a 32-bit length.
pub open spec fn spec_u32_be(x: u32) -> Seq<u8> {
    seq![
        (x / 0x1000000) as u8,
        ((x / 0x10000) % 0x100) as u8,
        ((x / 0x100) % 0x100) as u8,
        (x % 0x100) as u8,
    ]
}

/// The complete envelope for raw payload `data`.
pub open spec fn spec_envelope(data: Seq<u8>) -> Seq<u8> {
    spec_slp_header() + spec_u32_be(data.len() as u32) + data + spec_slp_footer()
}

fn push_slp_header(out: &mut Vec<u8>)
    ensures
        final(out)@ == old(out)@ + spec_slp_header(),
{
    out.push(0x7b);
    out.push(0x55);
    out.push(0x03);
    out.push(0x72);
    out.push(0x61);
    out.push(0x77);
    out.push(0x5b);
    out.push(0x24);
    out.push(0x55);
    out.push(0x23);
    out.push(0x6c);
    assert(out@ =~= old(out)@ + spec_slp_header());
}

fn push_slp_footer(out: &mut Vec<u8>)
    ensures
        final(out)@ == old(out)@ + spec_slp_footer(),
{
    out.push(0x55);
    out.push(0x08);
    out.push(0x6d);
    out.push(0x65);
    out.push(0x74);
    out.push(0x61);
    out.push(0x64);
    out.push(0x61);
    out.push(0x74);
    out.push(0x61);
    out.push(0x7b);
    out.push(0x7d);
    out.push(0x7d);
    assert(out@ =~= old(out)@ + spec_slp_footer());
}

/// Appends the four big-endian bytes of `x` to `out`.
fn push_u32_be(out: &mut Vec<u8>, x: u32)
    ensures
        final(out)@ == old(out)@ + spec_u32_be(x),
{
    out.push((x / 0x1000000) as u8);
    out.push(((x / 0x10000) % 0x100) as u8);
    out.push(((x / 0x100) % 0x100) as u8);
    out.push((x % 0x100) as u8);
    assert(out@ =~= old(out)@ + spec_u32_be(x));
}

/// Wraps raw replay bytes in the fixed envelope: header token, big-endian
/// length of the raw bytes, the raw bytes themselves, footer token.
pub fn add_slp_header_and_footer(data: &Vec<u8>) -> (r: Vec<u8>)
    requires
        data@.len() <= u32::MAX,
    ensures
        r@ == spec_envelope(data@),
{
    let mut out: Vec<u8> = Vec::new();
    push_slp_header(&mut out);
    push_u32_be(&mut out, data.len() as u32);
    let mut i: usize = 0;
    while i < data.len()
        invariant
            i <= data@.len(),
            out@ == spec_slp_header() + spec_u32_be(data@.len() as u32) + data@.subrange(0, i as int),
        decreases data@.len() - i,
    {
        out.push(data[i]);
        i = i + 1;
        assert(out@ =~= spec_slp_header() + spec_u32_be(data@.len() as u32) + data@.subrange(
            0,
            i as int,
        ));
    }
    assert(data@.subrange(0, data@.len() as int) =~= data@);
    push_slp_footer(&mut out);
    assert(out@ =~= spec_envelope(data@));
    out
}

/// Compares two byte vectors for equality of contents.
fn bytes_eq(a: &Vec<u8>, b: &Vec<u8>) -> (r: bool)
    ensures
        r <==> a@ == b@,
{
    if a.len() != b.len() {
        return false;
    }
    let mut i: usize = 0;
    while i < a.len()
        invariant
            i <= a@.len(),
            a@.len() == b@.len(),
            a@.subrange(0, i as int) == b@.subrange(0, i as int),
        decreases a@.len() - i,
    {
        if a[i] != b[i] {
            assert(a@[i as int] != b@[i as int]);
            return false;
        }
        i = i + 1;
        assert(a@.subrange(0, i as int) =~= b@.subrange(0, i as int));
    }
    proof {
        assert(a@ =~= b@) by {
            assert(a@.subrange(0, a@.len() as int) =~= a@);
            assert(b@.subrange(0, b@.len() as int) =~= b@);
        }
    }
    true
}

/// Recovers the raw payload from an envelope: checks the header and footer
/// tokens and the length prefix, and returns the bytes between them.
///
/// Returns `Some` exactly on well-formed envelopes, and then the payload is
/// the one the envelope was built from.
pub fn strip_slp_header_and_footer(env: &Vec<u8>) -> (r: Option<Vec<u8>>)
    ensures
        r is Some ==> r->Some_0@.len() <= u32::MAX && env@ == spec_envelope(r->Some_0@),
        forall|data: Seq<u8>|
            data.len() <= u32::MAX && env@ == spec_envelope(data) ==> r is Some
                && r->Some_0@ == data,
{
    if env.len() < 28 {
        assert(forall|data: Seq<u8>| env@ != spec_envelope(data)) by {
            assert(forall|data: Seq<u8>| spec_envelope(data).len() == 28 + data.len());
        }
        return None;
    }
    let payload_len: usize = env.len() - 28;
    if payload_len > u32::MAX as usize {
        assert(forall|data: Seq<u8>|
            data.len() <= u32::MAX ==> spec_envelope(data).len() <= 28 + u32::MAX);
        return None;
    }
    // Copy out the bytes that would be the payload of a well-formed envelope.
    let mut payload: Vec<u8> = Vec::new();
    let mut k: usize = 0;
    while k < payload_len
        invariant
            k <= payload_len,
            payload_len + 28 <= usize::MAX,
            env@.len() == 28 + payload_len,
            payload@ == env@.subrange(15, 15 + k as int),
        decreases payload_len - k,
    {
        payload.push(env[15 + k]);
        k = k + 1;
        assert(payload@ =~= env@.subrange(15, 15 + k as int));
    }
    proof {
        // Any payload that could have produced `env` is exactly these bytes.
        assert(forall|data: Seq<u8>|
            data.len() <= u32::MAX && env@ == spec_envelope(data) ==> data =~= payload@) by {
            lemma_envelope_payload_slice();
        }
    }
    // Rebuild the envelope from that payload; `env` is well formed exactly
    // when the two agree byte for byte.
    let rebuilt = add_slp_header_and_footer(&payload);
    if bytes_eq(env, &rebuilt) {
        Some(payload)
    } else {
        None
    }
}

/// In any envelope, the bytes between the length prefix and the footer are
/// exactly the raw payload.
proof fn lemma_envelope_payload_slice()
    ensures
        forall|data: Seq<u8>|
            #![trigger spec_envelope(data)]
            spec_envelope(data).subrange(15, spec_envelope(data).len() - 13) == data,
{
    assert forall|data: Seq<u8>| #![trigger spec_envelope(data)]
        spec_envelope(data).subrange(15, spec_envelope(data).len() - 13) == data by {
        assert(spec_envelope(data).subrange(15, spec_envelope(data).len() - 13) =~= data);
    }
}

/// The envelope round trip: stripping the header, length prefix and footer
/// from a built envelope yields exactly the raw bytes it was built from.
pub proof fn lemma_envelope_round_trip(data: Seq<u8>)
    requires
        data.len() <= u32::MAX,
    ensures
        spec_envelope(data).subrange(15, spec_envelope(data).len() - 13) == data,
        spec_envelope(data).len() == 28 + data.len(),
{
    assert(spec_envelope(data).subrange(15, spec_envelope(data).len() - 13) =~= data);
}

} // verus!
