//! Little-endian encoding of unsigned integers into bytes, and back.
use vstd::prelude::*;

verus! {

/// 256 to the power `n`.
pub open spec fn pow256(n: nat) -> nat
    decreases n,
{
    if n == 0 {
        1
    } else {
        256 * pow256((n - 1) as nat)
    }
}

/// The `n` little-endian bytes of `x` (least significant byte first), taken modulo `256^n`.
pub open spec fn le_encode(x: nat, n: nat) -> Seq<u8>
    decreases n,
{
    if n == 0 {
        Seq::empty()
    } else {
        seq![(x % 256) as u8] + le_encode(x / 256, (n - 1) as nat)
    }
}

/// The value of a little-endian byte sequence.
pub open spec fn le_decode(s: Seq<u8>) -> nat
    decreases s.len(),
{
    if s.len() == 0 {
        0
    } else {
        s[0] as nat + 256 * le_decode(s.drop_first())
    }
}

/// The powers of 256 that fixed-width integers use.
pub proof fn lemma_pow256_values()
    ensures
        pow256(0) == 1,
        pow256(1) == 0x100,
        pow256(2) == 0x1_0000,
        pow256(3) == 0x100_0000,
        pow256(4) == 0x1_0000_0000,
        pow256(5) == 0x100_0000_0000,
        pow256(6) == 0x1_0000_0000_0000,
        pow256(7) == 0x100_0000_0000_0000,
        pow256(8) == 0x1_0000_0000_0000_0000,
{
    reveal_with_fuel(pow256, 9);
}

/// An encoding of width `n` has `n` bytes.
pub proof fn lemma_le_encode_len(x: nat, n: nat)
    ensures
        le_encode(x, n).len() == n,
    decreases n,
{
    if n > 0 {
        lemma_le_encode_len(x / 256, (n - 1) as nat);
    }
}

/// Decoding an encoding gives the value back when it fits in the width.
pub proof fn lemma_le_decode_encode(x: nat, n: nat)
    requires
        x < pow256(n),
    ensures
        le_decode(le_encode(x, n)) == x,
    decreases n,
{
    if n > 0 {
        let rest = le_encode(x / 256, (n - 1) as nat);
        lemma_le_decode_encode(x / 256, (n - 1) as nat);
        assert(le_encode(x, n).drop_first() =~= rest);
    }
}

/// Encoding the value of a byte sequence, at its own width, gives the sequence back.
pub proof fn lemma_le_encode_decode(s: Seq<u8>)
    ensures
        le_encode(le_decode(s), s.len()) == s,
    decreases s.len(),
{
    if s.len() > 0 {
        let v = le_decode(s);
        let r = le_decode(s.drop_first());
        assert(v % 256 == s[0] as nat);
        assert(v / 256 == r);
        lemma_le_encode_decode(s.drop_first());
        assert(le_encode(v, s.len()) =~= s);
    }
}

/// The value of `n` bytes is below `256^n`.
pub proof fn lemma_le_decode_bound(s: Seq<u8>)
    ensures
        le_decode(s) < pow256(s.len()),
    decreases s.len(),
{
    if s.len() > 0 {
        lemma_le_decode_bound(s.drop_first());
    }
}

/// Appends the `n` little-endian bytes of `x` to `out`.
pub fn push_le(out: &mut Vec<u8>, x: u64, n: usize)
    requires
        x < pow256(n as nat),
    ensures
        final(out)@ == old(out)@ + le_encode(x as nat, n as nat),
    decreases n,
{
    if n == 0 {
        assert(old(out)@ + le_encode(x as nat, 0) =~= old(out)@);
        return;
    }
    let low = (x % 256) as u8;
    out.push(low);
    push_le(out, x / 256, n - 1);
    assert(old(out)@ + le_encode(x as nat, n as nat) =~= old(out)@.push(low) + le_encode(
        (x / 256) as nat,
        (n - 1) as nat,
    ));
}

/// The value of the `n` bytes of `b` starting at `at`, read little-endian.
pub fn read_le(b: &[u8], at: usize, n: usize) -> (r: u64)
    requires
        at + n <= b@.len(),
        n <= 8,
    ensures
        r as nat == le_decode(b@.subrange(at as int, at + n)),
    decreases n,
{
    if n == 0 {
        return 0;
    }
    assert(b@.len() == b.len());
    let rest = read_le(b, at + 1, n - 1);
    proof {
        lemma_pow256_values();
        lemma_le_decode_bound(b@.subrange(at + 1, at + n));
        assert(b@.subrange(at as int, at + n).drop_first() =~= b@.subrange(at + 1, at + n));
        assert(pow256((n - 1) as nat) <= 0x100_0000_0000_0000) by {
            if n - 1 < 7 {
                lemma_pow256_monotone((n - 1) as nat, 7);
            }
        }
    }
    (b[at] as u64) + 256 * rest
}

/// Larger widths have larger powers.
pub proof fn lemma_pow256_monotone(a: nat, b: nat)
    requires
        a <= b,
    ensures
        pow256(a) <= pow256(b),
    decreases b - a,
{
    if a < b {
        lemma_pow256_monotone(a, (b - 1) as nat);
    }
}

} // verus!
