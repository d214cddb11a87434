//! Little-endian integer encoding on byte sequences.
use vstd::prelude::*;

verus! {

/// `256^n`: the number of distinct values that `n` bytes can hold.
pub open spec fn byte_span(n: nat) -> nat
    decreases n,
{
    if n == 0 {
        1
    } else {
        256 * byte_span((n - 1) as nat)
    }
}

/// The `n` least significant bytes of `x`, least significant first.
pub open spec fn le_bytes(x: nat, n: nat) -> Seq<u8>
    decreases n,
{
    if n == 0 {
        Seq::empty()
    } else {
        seq![(x % 256) as u8] + le_bytes(x / 256, (n - 1) as nat)
    }
}

/// The unsigned value of a byte sequence read least significant byte first.
pub open spec fn le_value(s: Seq<u8>) -> nat
    decreases s.len(),
{
    if s.len() == 0 {
        0
    } else {
        s[0] as nat + 256 * le_value(s.drop_first())
    }
}

/// The two's complement reading of four little-endian bytes, as `i32::from_le_bytes` does.
pub open spec fn le_i32(s: Seq<u8>) -> int {
    if le_value(s) < 0x8000_0000 {
        le_value(s) as int
    } else {
        le_value(s) - 0x1_0000_0000
    }
}

/// The four little-endian bytes of `x` in two's complement, as `i32::to_le_bytes` gives them.
pub open spec fn i32_le_bytes(x: i32) -> Seq<u8> {
    if x >= 0 {
        le_bytes(x as nat, 4)
    } else {
        le_bytes((x + 0x1_0000_0000) as nat, 4)
    }
}

/// `le_bytes(x, n)` always holds exactly `n` bytes.
pub proof fn lemma_le_bytes_len(x: nat, n: nat)
    ensures
        le_bytes(x, n).len() == n,
    decreases n,
{
    if n > 0 {
        lemma_le_bytes_len(x / 256, (n - 1) as nat);
    }
}

/// Reading back the `n` little-endian bytes of a value that fits in `n` bytes gives the value.
pub proof fn lemma_le_roundtrip(x: nat, n: nat)
    requires
        x < byte_span(n),
    ensures
        le_value(le_bytes(x, n)) == x,
        le_bytes(x, n).len() == n,
    decreases n,
{
    lemma_le_bytes_len(x, n);
    if n > 0 {
        let q = x / 256;
        let r = x % 256;
        vstd::arithmetic::div_mod::lemma_fundamental_div_mod(x as int, 256);
        assert(q < byte_span((n - 1) as nat)) by (nonlinear_arith)
            requires
                x == 256 * q + r,
                0 <= r,
                x < 256 * byte_span((n - 1) as nat),
        ;
        lemma_le_roundtrip(q, (n - 1) as nat);
        let s = le_bytes(x, n);
        assert(s.drop_first() =~= le_bytes(q, (n - 1) as nat));
        assert(s[0] == r as u8);
    }
}

/// `i32::from_le_bytes` undoes `i32::to_le_bytes`.
pub proof fn lemma_i32_le_roundtrip(x: i32)
    ensures
        i32_le_bytes(x).len() == 4,
        le_i32(i32_le_bytes(x)) == x,
{
    assert(byte_span(4) == 0x1_0000_0000) by {
        reveal_with_fuel(byte_span, 5);
    }
    if x >= 0 {
        lemma_le_roundtrip(x as nat, 4);
    } else {
        lemma_le_roundtrip((x + 0x1_0000_0000) as nat, 4);
    }
}

/// The eight little-endian bytes of `x`, as `u64::to_le_bytes` gives them.
pub fn u64_to_le(x: u64) -> (res: Vec<u8>)
    ensures
        res@ == le_bytes(x as nat, 8),
        res@.len() == 8,
{
    let mut out: Vec<u8> = Vec::new();
    let mut rest: u64 = x;
    let mut i: usize = 0;
    while i < 8
        invariant
            i <= 8,
            out@.len() == i,
            out@ + le_bytes(rest as nat, (8 - i) as nat) == le_bytes(x as nat, 8),
        decreases 8 - i,
    {
        let ghost before = out@;
        let ghost n = (8 - i) as nat;
        out.push((rest % 256) as u8);
        assert(le_bytes(rest as nat, n) == seq![(rest % 256) as u8] + le_bytes(
            (rest / 256) as nat,
            (n - 1) as nat,
        ));
        assert(out@ + le_bytes((rest / 256) as nat, (n - 1) as nat) =~= before + le_bytes(
            rest as nat,
            n,
        ));
        rest = rest / 256;
        i = i + 1;
    }
    assert(le_bytes(rest as nat, 0) =~= Seq::<u8>::empty());
    assert(out@ + Seq::<u8>::empty() =~= out@);
    out
}

/// Reads four bytes as a little-endian `i32`, as `i32::from_le_bytes` does.
pub fn i32_from_le(b0: u8, b1: u8, b2: u8, b3: u8) -> (res: i32)
    ensures
        res as int == le_i32(seq![b0, b1, b2, b3]),
{
    let ghost s = seq![b0, b1, b2, b3];
    assert(le_value(s) == b0 + 256 * (b1 + 256 * (b2 + 256 * b3))) by {
        reveal_with_fuel(le_value, 5);
        assert(s.drop_first() =~= seq![b1, b2, b3]);
        assert(s.drop_first().drop_first() =~= seq![b2, b3]);
        assert(s.drop_first().drop_first().drop_first() =~= seq![b3]);
        assert(s.drop_first().drop_first().drop_first().drop_first() =~= Seq::<u8>::empty());
    }
    let u: u32 = b0 as u32 + 256 * (b1 as u32 + 256 * (b2 as u32 + 256 * b3 as u32));
    if u < 0x8000_0000 {
        u as i32
    } else {
        ((u - 0x8000_0000) as i32) - 0x7fff_ffff - 1
    }
}

} // verus!
