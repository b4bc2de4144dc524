//! Integers read from raw bytes in a target's byte order.
use vstd::prelude::*;
use crate::target::Endian;

verus! {

/// `256` to the power `n`.
pub open spec fn pow256(n: nat) -> nat
    decreases n,
{
    if n == 0 {
        1
    } else {
        256 * pow256((n - 1) as nat)
    }
}

/// The unsigned value of `n` bytes at `off`, least significant byte first.
pub open spec fn le_value(b: Seq<u8>, off: int, n: nat) -> nat
    decreases n,
{
    if n == 0 {
        0
    } else {
        b[off] as nat + 256 * le_value(b, off + 1, (n - 1) as nat)
    }
}

/// The unsigned value of `n` bytes at `off`, most significant byte first.
pub open spec fn be_value(b: Seq<u8>, off: int, n: nat) -> nat
    decreases n,
{
    if n == 0 {
        0
    } else {
        be_value(b, off, (n - 1) as nat) * 256 + b[off + n - 1] as nat
    }
}

/// The unsigned value of `n` bytes at `off` in byte order `e`.
pub open spec fn uint_at(b: Seq<u8>, off: int, n: nat, e: Endian) -> nat {
    match e {
        Endian::Little => le_value(b, off, n),
        Endian::Big => be_value(b, off, n),
    }
}

/// The two's-complement reading of an `n`-byte unsigned value.
pub open spec fn signed(u: nat, n: nat) -> int {
    if u < pow256(n) / 2 {
        u as int
    } else {
        u - pow256(n)
    }
}

proof fn lemma_pow256_8()
    ensures
        pow256(4) == 0x1_0000_0000,
        pow256(8) == 0x1_0000_0000_0000_0000,
{
    reveal_with_fuel(pow256, 9);
}

proof fn lemma_pow256_mono(k: nat, n: nat)
    requires
        k <= n,
    ensures
        pow256(k) <= pow256(n),
    decreases n,
{
    if k < n {
        lemma_pow256_mono(k, (n - 1) as nat);
    }
}

/// Reads the unsigned value of `n <= 8` bytes at `off` in byte order `e`.
pub fn read_uint(b: &Vec<u8>, off: usize, n: usize, e: Endian) -> (r: u64)
    requires
        n <= 8,
        off + n <= b@.len(),
    ensures
        r == uint_at(b@, off as int, n as nat, e),
        r < pow256(n as nat),
{
    proof {
        lemma_pow256_8();
        lemma_pow256_mono(n as nat, 8);
    }
    let len = b.len();
    let mut acc: u64 = 0;
    match e {
        Endian::Little => {
            let mut i: usize = n;
            while i > 0
                invariant
                    n <= 8,
                    off + n <= b@.len(),
                    b@.len() == len,
                    i <= n,
                    acc == le_value(b@, off + i, (n - i) as nat),
                    acc < pow256((n - i) as nat),
                    pow256(n as nat) <= 0x1_0000_0000_0000_0000,
                decreases i,
            {
                proof {
                    lemma_pow256_mono((n - i + 1) as nat, n as nat);
                }
                i = i - 1;
                acc = b[off + i] as u64 + 256 * acc;
            }
        },
        Endian::Big => {
            let mut i: usize = 0;
            while i < n
                invariant
                    n <= 8,
                    off + n <= b@.len(),
                    b@.len() == len,
                    i <= n,
                    acc == be_value(b@, off as int, i as nat),
                    acc < pow256(i as nat),
                    pow256(n as nat) <= 0x1_0000_0000_0000_0000,
                decreases n - i,
            {
                proof {
                    lemma_pow256_mono((i + 1) as nat, n as nat);
                }
                acc = acc * 256 + b[off + i] as u64;
                i = i + 1;
            }
        },
    }
    acc
}

/// Reads a 4-byte two's-complement integer.
pub fn read_i32(b: &Vec<u8>, off: usize, e: Endian) -> (r: i32)
    requires
        off + 4 <= b@.len(),
    ensures
        r == signed(uint_at(b@, off as int, 4, e), 4),
{
    proof {
        lemma_pow256_8();
    }
    let u = read_uint(b, off, 4, e);
    if u < 0x8000_0000 {
        u as i32
    } else {
        (u as i64 - 0x1_0000_0000) as i32
    }
}

/// Reads a 4-byte unsigned integer.
pub fn read_u32(b: &Vec<u8>, off: usize, e: Endian) -> (r: u32)
    requires
        off + 4 <= b@.len(),
    ensures
        r == uint_at(b@, off as int, 4, e),
{
    proof {
        lemma_pow256_8();
    }
    read_uint(b, off, 4, e) as u32
}

/// Reads an `n`-byte two's-complement integer, `n` being 4 or 8.
pub fn read_int(b: &Vec<u8>, off: usize, n: usize, e: Endian) -> (r: i64)
    requires
        n == 4 || n == 8,
        off + n <= b@.len(),
    ensures
        r == signed(uint_at(b@, off as int, n as nat, e), n as nat),
{
    proof {
        lemma_pow256_8();
    }
    let u = read_uint(b, off, n, e);
    if n == 4 {
        if u < 0x8000_0000 {
            u as i64
        } else {
            u as i64 - 0x1_0000_0000
        }
    } else if u < 0x8000_0000_0000_0000 {
        u as i64
    } else {
        -((u64::MAX - u) as i64) - 1
    }
}

} // verus!
