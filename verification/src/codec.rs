use vstd::prelude::*;

verus! {

/// `256^n`, the number of values `n` bytes can hold.
pub open spec fn pow256(n: nat) -> nat
    decreases n,
{
    if n == 0 {
        1
    } else {
        256 * pow256((n - 1) as nat)
    }
}

/// The unsigned value stored little-endian in a byte sequence.
pub open spec fn le_value(s: Seq<u8>) -> nat
    decreases s.len(),
{
    if s.len() == 0 {
        0
    } else {
        (s[0] + 256 * le_value(s.subrange(1, s.len() as int))) as nat
    }
}

/// The `n`-byte little-endian encoding of `v mod 256^n`.
pub open spec fn le_bytes(v: nat, n: nat) -> Seq<u8>
    decreases n,
{
    if n == 0 {
        Seq::empty()
    } else {
        seq![(v % 256) as u8] + le_bytes(v / 256, (n - 1) as nat)
    }
}

/// The count of values of eight bytes, written out.
pub proof fn lemma_pow256_8()
    ensures
        pow256(8) == 0x1_0000_0000_0000_0000,
{
    assert(pow256(0) == 1);
    assert(pow256(1) == 256);
    assert(pow256(2) == 0x1_0000);
    assert(pow256(3) == 0x100_0000);
    assert(pow256(4) == 0x1_0000_0000);
    assert(pow256(5) == 0x100_0000_0000);
    assert(pow256(6) == 0x1_0000_0000_0000);
    assert(pow256(7) == 0x100_0000_0000_0000);
}

/// A stored value always lies below `256^len`.
pub proof fn lemma_le_value_bound(s: Seq<u8>)
    ensures
        le_value(s) < pow256(s.len()),
    decreases s.len(),
{
    if s.len() == 0 {
    } else {
        let rest = s.subrange(1, s.len() as int);
        lemma_le_value_bound(rest);
        assert(le_value(rest) <= pow256(rest.len()) - 1);
        assert(256 * le_value(rest) <= 256 * (pow256(rest.len()) - 1)) by (nonlinear_arith)
            requires
                le_value(rest) <= pow256(rest.len()) - 1,
        ;
    }
}

/// Decoding inverts encoding: the value read back from `le_bytes(v, n)`
/// is `v` itself, for every `v` that `n` bytes can hold.
pub proof fn lemma_le_round_trip(v: nat, n: nat)
    requires
        v < pow256(n),
    ensures
        le_value(le_bytes(v, n)) == v,
    decreases n,
{
    if n == 0 {
    } else {
        let s = le_bytes(v, n);
        let rest = le_bytes(v / 256, (n - 1) as nat);
        assert(v / 256 < pow256((n - 1) as nat)) by (nonlinear_arith)
            requires
                v < pow256(n),
                pow256(n) == 256 * pow256((n - 1) as nat),
        ;
        lemma_le_round_trip(v / 256, (n - 1) as nat);
        assert(s.subrange(1, s.len() as int) =~= rest);
        assert(le_value(s) == v % 256 + 256 * (v / 256));
    }
}

/// Reads the little-endian value of `bytes[off .. off + n]`, for `n` up to 8.
pub fn read_le(bytes: &Vec<u8>, off: usize, n: usize) -> (r: u64)
    requires
        n <= 8,
        off + n <= bytes@.len(),
    ensures
        r as nat == le_value(bytes@.subrange(off as int, off + n)),
{
    let blen: usize = bytes.len();
    let mut acc: u64 = 0;
    let mut i: usize = n;
    proof {
        assert(bytes@.subrange(off + n, off + n) =~= Seq::<u8>::empty());
    }
    while i > 0
        invariant
            i <= n,
            n <= 8,
            off + n <= blen,
            blen == bytes@.len(),
            acc as nat == le_value(bytes@.subrange(off + i, off + n)),
            (acc as nat) < pow256((n - i) as nat),
        decreases i,
    {
        i = i - 1;
        let ghost tail = bytes@.subrange(off + i + 1, off + n);
        let ghost whole = bytes@.subrange(off + i, off + n);
        proof {
            assert(whole.subrange(1, whole.len() as int) =~= tail);
            assert(pow256((n - i) as nat) == 256 * pow256((n - i - 1) as nat));
            lemma_pow256_8();
            lemma_pow256_increases((n - i) as nat, 8);
            assert(256 * acc + 256 <= 256 * pow256((n - i - 1) as nat)) by (nonlinear_arith)
                requires
                    acc as nat + 1 <= pow256((n - i - 1) as nat),
            ;
        }
        acc = acc * 256 + (bytes[off + i] as u64);
    }
    proof {
        assert(bytes@.subrange(off as int, off + n) =~= bytes@.subrange(off + 0, off + n));
    }
    acc
}

/// `pow256` grows with its exponent.
pub proof fn lemma_pow256_increases(a: nat, b: nat)
    requires
        a <= b,
    ensures
        pow256(a) <= pow256(b),
    decreases b,
{
    if a < b {
        lemma_pow256_increases(a, (b - 1) as nat);
        assert(pow256((b - 1) as nat) <= 256 * pow256((b - 1) as nat)) by (nonlinear_arith)
            requires
                pow256((b - 1) as nat) >= 0,
        ;
    }
}

/// Appends the 8-byte little-endian encoding of `v` to `out`.
pub fn write_u64_le(out: &mut Vec<u8>, v: u64)
    ensures
        final(out)@ == old(out)@ + le_bytes(v as nat, 8),
{
    let ghost start = out@;
    let mut x: u64 = v;
    let mut i: usize = 0;
    proof {
        lemma_le_bytes_len(v as nat, 8);
        assert(out@ =~= start + le_bytes(v as nat, 8).subrange(0, 0));
        assert(le_bytes(x as nat, 8) =~= le_bytes(v as nat, 8).subrange(0, 8));
    }
    while i < 8
        invariant
            i <= 8,
            le_bytes(v as nat, 8).len() == 8,
            out@ =~= start + le_bytes(v as nat, 8).subrange(0, i as int),
            le_bytes(x as nat, (8 - i) as nat) =~= le_bytes(v as nat, 8).subrange(i as int, 8),
        decreases 8 - i,
    {
        let ghost pre = le_bytes(v as nat, 8).subrange(i as int, 8);
        let b: u8 = (x % 256) as u8;
        proof {
            assert(le_bytes(x as nat, (8 - i) as nat) == seq![(x as nat % 256) as u8] + le_bytes(
                x as nat / 256,
                (8 - i - 1) as nat,
            ));
            assert(pre[0] == (x as nat % 256) as u8);
            assert(le_bytes(x as nat / 256, (8 - i - 1) as nat) =~= pre.subrange(
                1,
                pre.len() as int,
            ));
            assert(pre.subrange(1, pre.len() as int) =~= le_bytes(v as nat, 8).subrange(
                i + 1,
                8,
            ));
        }
        out.push(b);
        x = x / 256;
        i = i + 1;
        proof {
            assert(out@ =~= start + le_bytes(v as nat, 8).subrange(0, i as int));
        }
    }
    proof {
        assert(le_bytes(v as nat, 8).subrange(0, 8) =~= le_bytes(v as nat, 8));
    }
}

/// The 8-byte little-endian encoding of `v`, as a fresh vector.
pub fn encode_u64_le(v: u64) -> (r: Vec<u8>)
    ensures
        r@ == le_bytes(v as nat, 8),
        r@.len() == 8,
        le_value(r@) == v as nat,
    {
    let mut out: Vec<u8> = Vec::new();
    write_u64_le(&mut out, v);
    proof {
        assert(out@ =~= le_bytes(v as nat, 8));
        lemma_le_bytes_len(v as nat, 8);
        lemma_pow256_8();
        lemma_le_round_trip(v as nat, 8);
    }
    out
}

/// An encoding of `n` bytes has length `n`.
pub proof fn lemma_le_bytes_len(v: nat, n: nat)
    ensures
        le_bytes(v, n).len() == n,
    decreases n,
{
    if n > 0 {
        lemma_le_bytes_len(v / 256, (n - 1) as nat);
    }
}

/// Appends all of `src` to `out`.
pub fn append_all(out: &mut Vec<u8>, src: &Vec<u8>)
    ensures
        final(out)@ == old(out)@ + src@,
{
    let ghost start = out@;
    proof {
        assert(start + src@.subrange(0, 0) =~= start);
    }
    let mut i: usize = 0;
    while i < src.len()
        invariant
            i <= src@.len(),
            out@ == start + src@.subrange(0, i as int),
        decreases src@.len() - i,
    {
        out.push(src[i]);
        proof {
            assert(out@ =~= start + src@.subrange(0, i + 1));
        }
        i = i + 1;
    }
    proof {
        assert(start + src@.subrange(0, src@.len() as int) =~= start + src@);
    }
}

/// Stored bytes match a schema when they open with its tag.
pub open spec fn spec_has_discriminator(disc: Seq<u8>, b: Seq<u8>) -> bool {
    b.len() >= disc.len() && b.subrange(0, disc.len() as int) == disc
}

/// Does `bytes` start with the `expected` prefix?
pub fn starts_with(bytes: &Vec<u8>, expected: &Vec<u8>) -> (r: bool)
    ensures
        r == (bytes@.len() >= expected@.len() && bytes@.subrange(0, expected@.len() as int)
            == expected@),
{
    if bytes.len() < expected.len() {
        return false;
    }
    let mut i: usize = 0;
    while i < expected.len()
        invariant
            expected@.len() <= bytes@.len(),
            i <= expected@.len(),
            forall|j: int| 0 <= j < i ==> bytes@[j] == expected@[j],
        decreases expected@.len() - i,
    {
        if bytes[i] != expected[i] {
            return false;
        }
        i = i + 1;
    }
    proof {
        assert(bytes@.subrange(0, expected@.len() as int) =~= expected@);
    }
    true
}

/// Copies `bytes[off .. off + n]` into a fresh vector.
pub fn copy_range(bytes: &Vec<u8>, off: usize, n: usize) -> (r: Vec<u8>)
    requires
        off + n <= bytes@.len(),
    ensures
        r@ == bytes@.subrange(off as int, off + n),
{
    let blen: usize = bytes.len();
    let mut out: Vec<u8> = Vec::new();
    proof {
        assert(out@ =~= bytes@.subrange(off as int, off as int));
    }
    let mut i: usize = 0;
    while i < n
        invariant
            off + n <= blen,
            blen == bytes@.len(),
            i <= n,
            out@ == bytes@.subrange(off as int, off + i),
        decreases n - i,
    {
        out.push(bytes[off + i]);
        proof {
            assert(out@ =~= bytes@.subrange(off as int, off + i + 1));
        }
        i = i + 1;
    }
    out
}

} // verus!
