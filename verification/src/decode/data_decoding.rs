//! Fixed-width little-endian integers.

use vstd::prelude::*;

verus! {

/// The value of the bytes read as an unsigned little-endian number: the
/// first byte counts least.
pub open spec fn le_value(b: Seq<u8>) -> nat
    decreases b.len(),
{
    if b.len() == 0 {
        0
    } else {
        b[0] as nat + 256 * le_value(b.drop_first())
    }
}

/// `v` read as a two's complement number whose sign bit is worth `half`.
pub open spec fn signed_value(v: nat, half: nat) -> int {
    if v < half {
        v as int
    } else {
        v - 2 * half
    }
}

/// A scalar that can be read from its little-endian bytes.
pub trait FromLe: Sized {
    /// The number of bytes the scalar takes.
    spec fn width() -> nat;

    /// The scalar that the bytes encode.
    spec fn spec_from_le(b: Seq<u8>) -> Self;

    /// Reads the scalar from a span of exactly its width.
    fn from_le_bytes(b: &[u8]) -> (r: Self)
        requires
            b@.len() == Self::width(),
        ensures
            r == Self::spec_from_le(b@),
    ;
}

/// The value of the first `n` bytes of `b`, computed.
fn le_prefix(b: &[u8], n: usize) -> (r: u64)
    requires
        n <= 8,
        n == b@.len(),
    ensures
        r == le_value(b@),
        n < 8 ==> r < pow256(n as nat),
{
    let mut r: u64 = 0;
    let mut i: usize = n;
    proof {
        reveal_with_fuel(pow256, 9);
        assert(b@.subrange(n as int, n as int) =~= Seq::<u8>::empty());
    }
    while i > 0
        invariant
            i <= n,
            n <= 8,
            n == b@.len(),
            r == le_value(b@.subrange(i as int, n as int)),
            r < pow256((n - i) as nat),
            n - i < 8 ==> pow256((n - i) as nat) <= 0x100_0000_0000_0000,
        decreases i,
    {
        i = i - 1;
        proof {
            reveal_with_fuel(pow256, 9);
            let tail = b@.subrange(i as int, n as int);
            assert(tail.drop_first() =~= b@.subrange(i as int + 1, n as int));
            assert(tail[0] == b@[i as int]);
            assert(pow256((n - i) as nat) == 256 * pow256((n - i - 1) as nat));
        }
        r = r * 256 + b[i] as u64;
    }
    proof {
        assert(b@.subrange(0, n as int) =~= b@);
    }
    r
}

/// 256 to the power `n`.
pub open spec fn pow256(n: nat) -> nat
    decreases n,
{
    if n == 0 {
        1
    } else {
        256 * pow256((n - 1) as nat)
    }
}

impl FromLe for u8 {
    open spec fn width() -> nat {
        1
    }

    open spec fn spec_from_le(b: Seq<u8>) -> u8 {
        le_value(b) as u8
    }

    fn from_le_bytes(b: &[u8]) -> (r: u8) {
        proof {
            reveal_with_fuel(pow256, 9);
        }
        le_prefix(b, 1) as u8
    }
}

impl FromLe for u16 {
    open spec fn width() -> nat {
        2
    }

    open spec fn spec_from_le(b: Seq<u8>) -> u16 {
        le_value(b) as u16
    }

    fn from_le_bytes(b: &[u8]) -> (r: u16) {
        proof {
            reveal_with_fuel(pow256, 9);
        }
        le_prefix(b, 2) as u16
    }
}

impl FromLe for u32 {
    open spec fn width() -> nat {
        4
    }

    open spec fn spec_from_le(b: Seq<u8>) -> u32 {
        le_value(b) as u32
    }

    fn from_le_bytes(b: &[u8]) -> (r: u32) {
        proof {
            reveal_with_fuel(pow256, 9);
        }
        le_prefix(b, 4) as u32
    }
}

impl FromLe for u64 {
    open spec fn width() -> nat {
        8
    }

    open spec fn spec_from_le(b: Seq<u8>) -> u64 {
        le_value(b) as u64
    }

    fn from_le_bytes(b: &[u8]) -> (r: u64) {
        le_prefix(b, 8)
    }
}

impl FromLe for i32 {
    open spec fn width() -> nat {
        4
    }

    open spec fn spec_from_le(b: Seq<u8>) -> i32 {
        signed_value(le_value(b), 0x8000_0000) as i32
    }

    fn from_le_bytes(b: &[u8]) -> (r: i32) {
        proof {
            reveal_with_fuel(pow256, 9);
        }
        let v: u64 = le_prefix(b, 4);
        if v < 0x8000_0000 {
            v as i32
        } else {
            ((v - 0x8000_0000) as i32) + i32::MIN
        }
    }
}

impl FromLe for i64 {
    open spec fn width() -> nat {
        8
    }

    open spec fn spec_from_le(b: Seq<u8>) -> i64 {
        signed_value(le_value(b), 0x8000_0000_0000_0000) as i64
    }

    fn from_le_bytes(b: &[u8]) -> (r: i64) {
        let v: u64 = le_prefix(b, 8);
        if v < 0x8000_0000_0000_0000 {
            v as i64
        } else {
            ((v - 0x8000_0000_0000_0000) as i64) + i64::MIN
        }
    }
}

} // verus!
