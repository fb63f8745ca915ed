//! The binary codec of the handshake transcript.
//!
//! Integers are little endian and of variable width: a value up to 250 is one
//! byte; a larger one is a marker byte (251, 252 or 253) followed by the value
//! in 2, 4 or 8 bytes. A byte string is its length as such an integer followed
//! by the bytes; text is the byte string of its UTF-8 encoding.

use vstd::prelude::*;
use vstd::utf8::encode_utf8;

verus! {

/// The `width` low-order bytes of `n`, least significant first.
pub open spec fn spec_le_bytes(n: nat, width: nat) -> Seq<u8>
    decreases width,
{
    if width == 0 {
        Seq::<u8>::empty()
    } else {
        seq![(n % 256) as u8] + spec_le_bytes(n / 256, (width - 1) as nat)
    }
}

/// The variable-width encoding of the unsigned integer `n`.
pub open spec fn spec_varint(n: nat) -> Seq<u8> {
    if n <= 250 {
        seq![n as u8]
    } else if n <= 0xFFFF {
        seq![251u8] + spec_le_bytes(n, 2)
    } else if n <= 0xFFFF_FFFF {
        seq![252u8] + spec_le_bytes(n, 4)
    } else {
        seq![253u8] + spec_le_bytes(n, 8)
    }
}

/// The encoding of a byte string: its length, then its bytes.
pub open spec fn spec_encode_bytes(data: Seq<u8>) -> Seq<u8> {
    spec_varint(data.len()) + data
}

/// The encoding of text: the encoding of its UTF-8 bytes.
pub open spec fn spec_encode_str(text: Seq<char>) -> Seq<u8> {
    spec_encode_bytes(encode_utf8(text))
}

/// Splitting off the first byte of a little-endian encoding leaves the
/// encoding of the quotient, one byte narrower.
proof fn lemma_le_bytes_step(n: nat, done: nat, width: nat)
    requires
        done < width,
    ensures
        spec_le_bytes(n, (done + 1) as nat) == spec_le_bytes(n, done).push(
            (pow256_shift(n, done) % 256) as u8,
        ),
    decreases done,
{
    if done == 0 {
        assert(spec_le_bytes(n, 1) =~= seq![(n % 256) as u8] + spec_le_bytes(n / 256, 0));
        assert(spec_le_bytes(n, 0) =~= Seq::<u8>::empty());
        assert(spec_le_bytes(n, 1) =~= spec_le_bytes(n, 0).push((n % 256) as u8));
    } else {
        lemma_le_bytes_step(n / 256, (done - 1) as nat, (width - 1) as nat);
        lemma_shift_unfold(n, done);
        assert(spec_le_bytes(n, (done + 1) as nat) =~= seq![(n % 256) as u8] + spec_le_bytes(
            n / 256,
            done,
        ));
        assert(spec_le_bytes(n, done) =~= seq![(n % 256) as u8] + spec_le_bytes(
            n / 256,
            (done - 1) as nat,
        ));
        assert(spec_le_bytes(n, (done + 1) as nat) =~= spec_le_bytes(n, done).push(
            (pow256_shift(n, done) % 256) as u8,
        ));
    }
}

/// `n` with its `k` low-order bytes dropped.
pub open spec fn pow256_shift(n: nat, k: nat) -> nat
    decreases k,
{
    if k == 0 {
        n
    } else {
        pow256_shift(n, (k - 1) as nat) / 256
    }
}

/// Dropping one byte first and `k - 1` after is dropping `k`.
proof fn lemma_shift_unfold(n: nat, k: nat)
    requires
        k > 0,
    ensures
        pow256_shift(n, k) == pow256_shift(n / 256, (k - 1) as nat),
    decreases k,
{
    if k == 1 {
        assert(pow256_shift(n, 1) == pow256_shift(n, 0) / 256);
        assert(pow256_shift(n / 256, 0) == n / 256);
    } else {
        lemma_shift_unfold(n, (k - 1) as nat);
        assert(pow256_shift(n, k) == pow256_shift(n, (k - 1) as nat) / 256);
        assert(pow256_shift(n / 256, (k - 1) as nat) == pow256_shift(n / 256, (k - 2) as nat)
            / 256);
    }
}

/// Appends the `width` low-order bytes of `n` to `out`, least significant
/// first.
fn put_le_bytes(out: &mut Vec<u8>, n: u64, width: usize)
    ensures
        final(out)@ == old(out)@ + spec_le_bytes(n as nat, width as nat),
{
    let mut rest: u64 = n;
    let mut done: usize = 0;
    assert(spec_le_bytes(n as nat, 0) =~= Seq::<u8>::empty());
    assert(out@ =~= old(out)@ + spec_le_bytes(n as nat, 0));
    while done < width
        invariant
            done <= width,
            rest as nat == pow256_shift(n as nat, done as nat),
            out@ == old(out)@ + spec_le_bytes(n as nat, done as nat),
        decreases width - done,
    {
        let byte: u8 = (rest % 256) as u8;
        proof {
            lemma_le_bytes_step(n as nat, done as nat, width as nat);
            assert(old(out)@ + spec_le_bytes(n as nat, done as nat).push(byte) =~= (old(out)@
                + spec_le_bytes(n as nat, done as nat)).push(byte));
        }
        out.push(byte);
        rest = rest / 256;
        done = done + 1;
    }
}

/// Appends the variable-width encoding of `n` to `out`.
pub fn put_varint(out: &mut Vec<u8>, n: u64)
    ensures
        final(out)@ == old(out)@ + spec_varint(n as nat),
{
    if n <= 250 {
        out.push(n as u8);
        assert(out@ =~= old(out)@ + seq![n as u8]);
    } else if n <= 0xFFFF {
        out.push(251u8);
        put_le_bytes(out, n, 2);
        assert(out@ =~= old(out)@ + (seq![251u8] + spec_le_bytes(n as nat, 2)));
    } else if n <= 0xFFFF_FFFF {
        out.push(252u8);
        put_le_bytes(out, n, 4);
        assert(out@ =~= old(out)@ + (seq![252u8] + spec_le_bytes(n as nat, 4)));
    } else {
        out.push(253u8);
        put_le_bytes(out, n, 8);
        assert(out@ =~= old(out)@ + (seq![253u8] + spec_le_bytes(n as nat, 8)));
    }
}

/// Appends `data` to `out` as it is.
pub fn put_raw(out: &mut Vec<u8>, data: &[u8])
    ensures
        final(out)@ == old(out)@ + data@,
{
    let mut i: usize = 0;
    assert(out@ =~= old(out)@ + data@.subrange(0, 0));
    while i < data.len()
        invariant
            i <= data.len(),
            out@ == old(out)@ + data@.subrange(0, i as int),
        decreases data.len() - i,
    {
        out.push(data[i]);
        assert(out@ =~= old(out)@ + data@.subrange(0, i + 1));
        i = i + 1;
    }
    assert(data@.subrange(0, data.len() as int) =~= data@);
}

/// Appends the encoding of the byte string `data` to `out`.
pub fn put_bytes(out: &mut Vec<u8>, data: &[u8])
    ensures
        final(out)@ == old(out)@ + spec_encode_bytes(data@),
{
    put_varint(out, data.len() as u64);
    put_raw(out, data);
    assert(out@ =~= old(out)@ + (spec_varint(data@.len()) + data@));
}

/// Appends the encoding of `text` to `out`.
pub fn put_str(out: &mut Vec<u8>, text: &str)
    ensures
        final(out)@ == old(out)@ + spec_encode_str(text@),
{
    put_bytes(out, text.as_bytes());
}

/// 256 to the power of `width`.
pub open spec fn spec_pow256(width: nat) -> nat
    decreases width,
{
    if width == 0 {
        1
    } else {
        256 * spec_pow256((width - 1) as nat)
    }
}

/// A little-endian encoding has as many bytes as its width.
pub proof fn lemma_le_bytes_len(n: nat, width: nat)
    ensures
        spec_le_bytes(n, width).len() == width,
    decreases width,
{
    if width > 0 {
        lemma_le_bytes_len(n / 256, (width - 1) as nat);
    }
}

/// Numbers that fit the width and have the same little-endian encoding are
/// the same.
pub proof fn lemma_le_bytes_injective(a: nat, b: nat, width: nat)
    requires
        a < spec_pow256(width),
        b < spec_pow256(width),
        spec_le_bytes(a, width) == spec_le_bytes(b, width),
    ensures
        a == b,
    decreases width,
{
    if width > 0 {
        let rest = (width - 1) as nat;
        let ea = seq![(a % 256) as u8] + spec_le_bytes(a / 256, rest);
        let eb = seq![(b % 256) as u8] + spec_le_bytes(b / 256, rest);
        assert(ea == eb);
        assert(ea[0] == eb[0]);
        assert(a % 256 == b % 256);
        assert(spec_le_bytes(a / 256, rest) =~= ea.subrange(1, ea.len() as int));
        assert(spec_le_bytes(b / 256, rest) =~= eb.subrange(1, eb.len() as int));
        lemma_le_bytes_injective(a / 256, b / 256, rest);
    }
}

/// The encoding of an integer tells where it ends: of two byte strings that
/// are equal and begin with the encodings of two integers of at most 64 bits,
/// the integers are the same and so is what follows them.
pub proof fn lemma_varint_prefix(a: nat, x: Seq<u8>, b: nat, y: Seq<u8>)
    requires
        a <= u64::MAX,
        b <= u64::MAX,
        spec_varint(a) + x == spec_varint(b) + y,
    ensures
        a == b,
        x == y,
{
    let left = spec_varint(a) + x;
    let right = spec_varint(b) + y;
    lemma_le_bytes_len(a, 2);
    lemma_le_bytes_len(a, 4);
    lemma_le_bytes_len(a, 8);
    lemma_le_bytes_len(b, 2);
    lemma_le_bytes_len(b, 4);
    lemma_le_bytes_len(b, 8);
    assert(spec_pow256(0) == 1);
    assert(spec_pow256(1) == 256);
    assert(spec_pow256(2) == 0x1_0000);
    assert(spec_pow256(3) == 0x100_0000);
    assert(spec_pow256(4) == 0x1_0000_0000);
    assert(spec_pow256(5) == 0x100_0000_0000);
    assert(spec_pow256(6) == 0x1_0000_0000_0000);
    assert(spec_pow256(7) == 0x100_0000_0000_0000);
    assert(spec_pow256(8) == 0x1_0000_0000_0000_0000);
    assert(left[0] == spec_varint(a)[0]);
    assert(right[0] == spec_varint(b)[0]);
    let width: nat = if a <= 250 {
        0
    } else if a <= 0xFFFF {
        2
    } else if a <= 0xFFFF_FFFF {
        4
    } else {
        8
    };
    if a <= 250 {
        assert(spec_varint(a)[0] == a as u8);
        assert(b <= 250);
        assert(spec_varint(b)[0] == b as u8);
        assert(a == b);
    } else {
        assert(spec_varint(a) == seq![spec_varint(a)[0]] + spec_le_bytes(a, width));
        assert(spec_varint(b) == seq![spec_varint(b)[0]] + spec_le_bytes(b, width));
        assert(spec_le_bytes(a, width) =~= left.subrange(1, 1 + width as int));
        assert(spec_le_bytes(b, width) =~= right.subrange(1, 1 + width as int));
        lemma_le_bytes_injective(a, b, width);
    }
    assert(x =~= left.subrange(spec_varint(a).len() as int, left.len() as int));
    assert(y =~= right.subrange(spec_varint(b).len() as int, right.len() as int));
}

/// The encoding of a byte string tells where it ends: of two byte strings
/// that are equal and begin with the encodings of two byte strings, the two
/// are the same and so is what follows them.
pub proof fn lemma_bytes_prefix(a: Seq<u8>, x: Seq<u8>, b: Seq<u8>, y: Seq<u8>)
    requires
        a.len() <= u64::MAX,
        b.len() <= u64::MAX,
        spec_encode_bytes(a) + x == spec_encode_bytes(b) + y,
    ensures
        a == b,
        x == y,
{
    assert(spec_encode_bytes(a) + x =~= spec_varint(a.len()) + (a + x));
    assert(spec_encode_bytes(b) + y =~= spec_varint(b.len()) + (b + y));
    lemma_varint_prefix(a.len(), a + x, b.len(), b + y);
    assert(a =~= (a + x).subrange(0, a.len() as int));
    assert(b =~= (b + y).subrange(0, b.len() as int));
    assert(x =~= (a + x).subrange(a.len() as int, (a + x).len() as int));
    assert(y =~= (b + y).subrange(b.len() as int, (b + y).len() as int));
}

/// Whether the encoding of `text` can state its length: its UTF-8 bytes are
/// fewer than 2 to the power of 64, as they are for every text in memory.
pub open spec fn spec_fits(text: Seq<char>) -> bool {
    encode_utf8(text).len() <= u64::MAX
}

/// The encoding of a text tells where it ends: of two byte strings that are
/// equal and begin with the encodings of two texts, the two are the same and
/// so is what follows them.
pub proof fn lemma_str_prefix(a: Seq<char>, x: Seq<u8>, b: Seq<char>, y: Seq<u8>)
    requires
        spec_fits(a),
        spec_fits(b),
        spec_encode_str(a) + x == spec_encode_str(b) + y,
    ensures
        a == b,
        x == y,
{
    lemma_bytes_prefix(encode_utf8(a), x, encode_utf8(b), y);
    crate::ct::lemma_utf8_injective(a, b);
}

} // verus!
