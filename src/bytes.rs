use vstd::prelude::*;

verus! {

/// Little-endian value of a byte sequence.
pub open spec fn le_value(b: Seq<u8>) -> nat
    decreases b.len(),
{
    if b.len() == 0 {
        0
    } else {
        (b[0] + 256 * le_value(b.drop_first())) as nat
    }
}

/// `256` to the power `n`.
pub open spec fn pow256(n: nat) -> nat
    decreases n,
{
    if n == 0 {
        1
    } else {
        (256 * pow256((n - 1) as nat)) as nat
    }
}

/// The `n` little-endian bytes of `x` (modulo `256^n`).
pub open spec fn le_bytes(x: nat, n: nat) -> Seq<u8>
    decreases n,
{
    if n == 0 {
        Seq::empty()
    } else {
        seq![(x % 256) as u8].add(le_bytes(x / 256, (n - 1) as nat))
    }
}

proof fn lemma_le_value_bound(b: Seq<u8>)
    ensures
        le_value(b) < pow256(b.len()),
    decreases b.len(),
{
    if b.len() > 0 {
        lemma_le_value_bound(b.drop_first());
        let r = le_value(b.drop_first());
        let p = pow256(b.drop_first().len());
        assert(b[0] + 256 * r < 256 * p) by (nonlinear_arith)
            requires
                r < p,
                b[0] < 256,
        ;
    }
}

proof fn lemma_pow256_8()
    ensures
        pow256(8) == 0x1_0000_0000_0000_0000,
{
    reveal_with_fuel(pow256, 9);
}

proof fn lemma_pow256_4()
    ensures
        pow256(4) == 0x1_0000_0000,
{
    reveal_with_fuel(pow256, 5);
}

/// The `k`-th little-endian byte of `x` is `(x / 256^k) % 256`.
proof fn lemma_le_bytes_index(x: nat, n: nat, k: int)
    requires
        0 <= k < n,
    ensures
        le_bytes(x, n).len() == n,
        le_bytes(x, n)[k] == ((x / pow256(k as nat)) % 256) as u8,
    decreases n,
{
    lemma_le_bytes_len(x, n);
    if k == 0 {
        assert(pow256(0) == 1);
        assert(x / 1 == x);
    } else {
        lemma_le_bytes_index(x / 256, (n - 1) as nat, k - 1);
        assert(le_bytes(x, n)[k] == le_bytes(x / 256, (n - 1) as nat)[k - 1]);
        lemma_pow256_pos((k - 1) as nat);
        vstd::arithmetic::div_mod::lemma_div_denominator(x as int, 256, pow256((k - 1) as nat) as int);
        assert(pow256(k as nat) == 256 * pow256((k - 1) as nat));
    }
}

proof fn lemma_pow256_pos(n: nat)
    ensures
        pow256(n) > 0,
    decreases n,
{
    if n > 0 {
        lemma_pow256_pos((n - 1) as nat);
    }
}

proof fn lemma_le_bytes_len(x: nat, n: nat)
    ensures
        le_bytes(x, n).len() == n,
    decreases n,
{
    if n > 0 {
        lemma_le_bytes_len(x / 256, (n - 1) as nat);
    }
}

/// Reads the little-endian `u64` at `offset`.
pub fn read_u64_le(data: &[u8], offset: usize) -> (r: u64)
    requires
        offset + 8 <= data@.len(),
    ensures
        r == le_value(data@.subrange(offset as int, offset + 8)),
{
    let mut acc: u128 = 0;
    let mut k: usize = 8;
    let ghost end = offset + 8;
    let len = data.len();
    proof {
        assert(data@.subrange(end as int, end as int) =~= Seq::<u8>::empty());
    }
    while k > 0
        invariant
            0 <= k <= 8,
            end == offset + 8,
            end <= data@.len(),
            len == data@.len(),
            acc == le_value(data@.subrange(offset + k, end as int)),
        decreases k,
    {
        let ghost tail = data@.subrange(offset + k, end as int);
        let b = data[offset + k - 1];
        proof {
            lemma_le_value_bound(tail);
            assert(data@.subrange(offset + k - 1, end as int).drop_first() =~= tail);
            lemma_pow256_8();
            assert(pow256(tail.len()) <= pow256(8)) by {
                lemma_pow256_mono(tail.len(), 8);
            }
        }
        acc = b as u128 + 256 * acc;
        k = k - 1;
    }
    proof {
        lemma_le_value_bound(data@.subrange(offset as int, end as int));
        lemma_pow256_8();
    }
    acc as u64
}

/// Reads the little-endian `u32` at `offset`.
pub fn read_u32_le(data: &[u8], offset: usize) -> (r: u32)
    requires
        offset + 4 <= data@.len(),
    ensures
        r == le_value(data@.subrange(offset as int, offset + 4)),
{
    let mut acc: u64 = 0;
    let mut k: usize = 4;
    let ghost end = offset + 4;
    let len = data.len();
    proof {
        assert(data@.subrange(end as int, end as int) =~= Seq::<u8>::empty());
    }
    while k > 0
        invariant
            0 <= k <= 4,
            end == offset + 4,
            end <= data@.len(),
            len == data@.len(),
            acc == le_value(data@.subrange(offset + k, end as int)),
        decreases k,
    {
        let ghost tail = data@.subrange(offset + k, end as int);
        let b = data[offset + k - 1];
        proof {
            lemma_le_value_bound(tail);
            assert(data@.subrange(offset + k - 1, end as int).drop_first() =~= tail);
            lemma_pow256_4();
            assert(pow256(tail.len()) <= pow256(4)) by {
                lemma_pow256_mono(tail.len(), 4);
            }
        }
        acc = b as u64 + 256 * acc;
        k = k - 1;
    }
    proof {
        lemma_le_value_bound(data@.subrange(offset as int, end as int));
        lemma_pow256_4();
    }
    acc as u32
}

proof fn lemma_pow256_mono(a: nat, b: nat)
    requires
        a <= b,
    ensures
        pow256(a) <= pow256(b),
    decreases b,
{
    if a < b {
        lemma_pow256_mono(a, (b - 1) as nat);
        lemma_pow256_pos((b - 1) as nat);
    }
}

/// Appends the eight little-endian bytes of `x`.
pub fn push_u64_le(buf: &mut Vec<u8>, x: u64)
    ensures
        final(buf)@ == old(buf)@.add(le_bytes(x as nat, 8)),
{
    let mut v: u64 = x;
    let mut k: usize = 0;
    proof {
        lemma_le_bytes_len(x as nat, 8);
        assert(pow256(0) == 1);
        assert(x as nat / 1 == x);
        assert(le_bytes(x as nat, 8).take(0) =~= Seq::<u8>::empty());
        assert(buf@ =~= old(buf)@.add(le_bytes(x as nat, 8).take(0)));
    }
    while k < 8
        invariant
            0 <= k <= 8,
            v == x as nat / pow256(k as nat),
            le_bytes(x as nat, 8).len() == 8,
            buf@ == old(buf)@.add(le_bytes(x as nat, 8).take(k as int)),
        decreases 8 - k,
    {
        proof {
            lemma_le_bytes_index(x as nat, 8, k as int);
            assert(le_bytes(x as nat, 8).take(k as int + 1) =~= le_bytes(x as nat, 8).take(
                k as int,
            ).push(le_bytes(x as nat, 8)[k as int]));
            lemma_pow256_pos(k as nat);
            vstd::arithmetic::div_mod::lemma_div_denominator(x as int, pow256(k as nat) as int, 256);
            assert(pow256(k as nat + 1) == 256 * pow256(k as nat));
        }
        buf.push((v % 256) as u8);
        v = v / 256;
        k = k + 1;
    }
    assert(le_bytes(x as nat, 8).take(8) =~= le_bytes(x as nat, 8));
}

} // verus!
