//! Fixed-size 256-bit values: digests (proof commitments, request
//! identifiers) and opaque caller identities, together with their
//! big-endian byte encoding.

use vstd::prelude::*;

verus! {

/// A 256-bit digest held as four big-endian 64-bit words, compared only for
/// equality.  Word `w0` holds the first eight bytes of the digest.
#[derive(Clone, Copy, PartialEq, Eq, Structural, Debug)]
pub struct Digest {
    pub w0: u64,
    pub w1: u64,
    pub w2: u64,
    pub w3: u64,
}

/// An opaque caller identity (admin or oracle), compared only for equality.
/// The hosting runtime maps its own address type onto this value.
#[derive(Clone, Copy, PartialEq, Eq, Structural, Debug)]
pub struct Ident {
    pub w0: u64,
    pub w1: u64,
    pub w2: u64,
    pub w3: u64,
}

/// The eight bytes of `x`, most significant first.
pub open spec fn u64_be_bytes(x: u64) -> Seq<u8> {
    seq![
        ((x >> 56) & 0xff) as u8,
        ((x >> 48) & 0xff) as u8,
        ((x >> 40) & 0xff) as u8,
        ((x >> 32) & 0xff) as u8,
        ((x >> 24) & 0xff) as u8,
        ((x >> 16) & 0xff) as u8,
        ((x >> 8) & 0xff) as u8,
        (x & 0xff) as u8,
    ]
}

/// The 32 bytes of a digest, most significant word first.
pub open spec fn digest_bytes(d: Digest) -> Seq<u8> {
    u64_be_bytes(d.w0) + u64_be_bytes(d.w1) + u64_be_bytes(d.w2) + u64_be_bytes(d.w3)
}

/// The word formed from eight bytes, most significant first.
pub open spec fn u64_from_be(
    b0: u8, b1: u8, b2: u8, b3: u8, b4: u8, b5: u8, b6: u8, b7: u8,
) -> u64 {
    ((b0 as u64) << 56) | ((b1 as u64) << 48) | ((b2 as u64) << 40) | ((b3 as u64) << 32)
        | ((b4 as u64) << 24) | ((b5 as u64) << 16) | ((b6 as u64) << 8) | (b7 as u64)
}

/// The digest formed from the first 32 bytes of `s`, most significant first.
pub open spec fn digest_from_bytes(s: Seq<u8>) -> Digest {
    Digest {
        w0: u64_from_be(s[0], s[1], s[2], s[3], s[4], s[5], s[6], s[7]),
        w1: u64_from_be(s[8], s[9], s[10], s[11], s[12], s[13], s[14], s[15]),
        w2: u64_from_be(s[16], s[17], s[18], s[19], s[20], s[21], s[22], s[23]),
        w3: u64_from_be(s[24], s[25], s[26], s[27], s[28], s[29], s[30], s[31]),
    }
}

/// Appends the big-endian encoding of `x` to `out`.
pub fn push_u64_be(out: &mut Vec<u8>, x: u64)
    ensures
        final(out)@ == old(out)@ + u64_be_bytes(x),
{
    out.push(((x >> 56) & 0xff) as u8);
    out.push(((x >> 48) & 0xff) as u8);
    out.push(((x >> 40) & 0xff) as u8);
    out.push(((x >> 32) & 0xff) as u8);
    out.push(((x >> 24) & 0xff) as u8);
    out.push(((x >> 16) & 0xff) as u8);
    out.push(((x >> 8) & 0xff) as u8);
    out.push((x & 0xff) as u8);
    assert(out@ =~= old(out)@ + u64_be_bytes(x));
}

/// Appends the 32-byte encoding of `d` to `out`.
pub fn push_digest_bytes(out: &mut Vec<u8>, d: &Digest)
    ensures
        final(out)@ == old(out)@ + digest_bytes(*d),
{
    push_u64_be(out, d.w0);
    push_u64_be(out, d.w1);
    push_u64_be(out, d.w2);
    push_u64_be(out, d.w3);
    assert(out@ =~= old(out)@ + digest_bytes(*d));
}

/// Reads a digest back from a 32-byte encoding.
pub fn digest_of_hash_bytes(b: &Vec<u8>) -> (d: Digest)
    requires
        b@.len() == 32,
    ensures
        d == digest_from_bytes(b@),
{
    Digest {
        w0: u64_join_be(b[0], b[1], b[2], b[3], b[4], b[5], b[6], b[7]),
        w1: u64_join_be(b[8], b[9], b[10], b[11], b[12], b[13], b[14], b[15]),
        w2: u64_join_be(b[16], b[17], b[18], b[19], b[20], b[21], b[22], b[23]),
        w3: u64_join_be(b[24], b[25], b[26], b[27], b[28], b[29], b[30], b[31]),
    }
}

fn u64_join_be(b0: u8, b1: u8, b2: u8, b3: u8, b4: u8, b5: u8, b6: u8, b7: u8) -> (r: u64)
    ensures
        r == u64_from_be(b0, b1, b2, b3, b4, b5, b6, b7),
{
    ((b0 as u64) << 56) | ((b1 as u64) << 48) | ((b2 as u64) << 40) | ((b3 as u64) << 32)
        | ((b4 as u64) << 24) | ((b5 as u64) << 16) | ((b6 as u64) << 8) | (b7 as u64)
}

/// A word encodes to eight bytes.
pub proof fn lemma_u64_be_bytes_len(x: u64)
    ensures
        u64_be_bytes(x).len() == 8,
{
}

/// A digest encodes to 32 bytes.
pub proof fn lemma_digest_bytes_len(d: Digest)
    ensures
        digest_bytes(d).len() == 32,
{
    lemma_u64_be_bytes_len(d.w0);
    lemma_u64_be_bytes_len(d.w1);
    lemma_u64_be_bytes_len(d.w2);
    lemma_u64_be_bytes_len(d.w3);
}

/// Two words with the same big-endian byte encoding are equal.
pub proof fn lemma_u64_be_bytes_injective(x: u64, y: u64)
    requires
        u64_be_bytes(x) == u64_be_bytes(y),
    ensures
        x == y,
{
    assert(u64_be_bytes(x)[0] == u64_be_bytes(y)[0]);
    assert(u64_be_bytes(x)[1] == u64_be_bytes(y)[1]);
    assert(u64_be_bytes(x)[2] == u64_be_bytes(y)[2]);
    assert(u64_be_bytes(x)[3] == u64_be_bytes(y)[3]);
    assert(u64_be_bytes(x)[4] == u64_be_bytes(y)[4]);
    assert(u64_be_bytes(x)[5] == u64_be_bytes(y)[5]);
    assert(u64_be_bytes(x)[6] == u64_be_bytes(y)[6]);
    assert(u64_be_bytes(x)[7] == u64_be_bytes(y)[7]);
    assert(x == y) by (bit_vector)
        requires
            ((x >> 56) & 0xff) as u8 == ((y >> 56) & 0xff) as u8,
            ((x >> 48) & 0xff) as u8 == ((y >> 48) & 0xff) as u8,
            ((x >> 40) & 0xff) as u8 == ((y >> 40) & 0xff) as u8,
            ((x >> 32) & 0xff) as u8 == ((y >> 32) & 0xff) as u8,
            ((x >> 24) & 0xff) as u8 == ((y >> 24) & 0xff) as u8,
            ((x >> 16) & 0xff) as u8 == ((y >> 16) & 0xff) as u8,
            ((x >> 8) & 0xff) as u8 == ((y >> 8) & 0xff) as u8,
            (x & 0xff) as u8 == (y & 0xff) as u8,
    ;
}

/// Two digests with the same 32-byte encoding are equal.
pub proof fn lemma_digest_bytes_injective(a: Digest, b: Digest)
    requires
        digest_bytes(a) == digest_bytes(b),
    ensures
        a == b,
{
    assert(u64_be_bytes(a.w0) =~= digest_bytes(a).subrange(0, 8));
    assert(u64_be_bytes(a.w1) =~= digest_bytes(a).subrange(8, 16));
    assert(u64_be_bytes(a.w2) =~= digest_bytes(a).subrange(16, 24));
    assert(u64_be_bytes(a.w3) =~= digest_bytes(a).subrange(24, 32));
    assert(u64_be_bytes(b.w0) =~= digest_bytes(b).subrange(0, 8));
    assert(u64_be_bytes(b.w1) =~= digest_bytes(b).subrange(8, 16));
    assert(u64_be_bytes(b.w2) =~= digest_bytes(b).subrange(16, 24));
    assert(u64_be_bytes(b.w3) =~= digest_bytes(b).subrange(24, 32));
    lemma_u64_be_bytes_injective(a.w0, b.w0);
    lemma_u64_be_bytes_injective(a.w1, b.w1);
    lemma_u64_be_bytes_injective(a.w2, b.w2);
    lemma_u64_be_bytes_injective(a.w3, b.w3);
}

} // verus!
