//! Decimal output of the debug console: the bytes each number is written as.
use vstd::prelude::*;
use crate::pds::repl::digits_of;

verus! {

/// `n` in decimal; `0` for zero.
pub open spec fn decimal_u32(n: u32) -> Seq<u8> {
    if n == 0 { seq![48u8] } else { digits_of(n as nat) }
}

/// The bytes `put_u32` writes for `n`: its decimal digits.
pub fn put_u32(n: u32) -> (r: Vec<u8>)
    ensures
        r@ == decimal_u32(n),
{
    if n == 0 {
        let mut z: Vec<u8> = Vec::new();
        z.push(48);
        assert(z@ =~= seq![48u8]);
        return z;
    }
    let mut buf = [0u8; 10];
    let mut i: usize = 10;
    let mut val: u32 = n;
    proof {
        reveal_with_fuel(crate::pds::repl::pow10, 11);
        crate::pds::repl::lemma_digits_len(n as nat, 10);
    }
    while val > 0
        invariant
            0 <= i <= 10,
            buf@.len() == 10,
            digits_of(n as nat) == digits_of(val as nat) + buf@.subrange(i as int, 10),
            (10 - i) + digits_of(val as nat).len() == digits_of(n as nat).len(),
            digits_of(n as nat).len() <= 10,
        decreases val,
    {
        assert(digits_of(val as nat) == digits_of((val / 10) as nat).push((48 + val % 10) as u8));
        i = i - 1;
        buf[i] = 48 + (val % 10) as u8;
        proof {
            assert(buf@.subrange(i as int, 10) =~= seq![(48 + val % 10) as u8] + buf@.subrange(i + 1, 10));
            assert(digits_of((val / 10) as nat).push((48 + val % 10) as u8) + buf@.subrange(i + 1, 10)
                =~= digits_of((val / 10) as nat) + buf@.subrange(i as int, 10));
        }
        val = val / 10;
    }
    assert(digits_of(n as nat) =~= buf@.subrange(i as int, 10));
    let mut out: Vec<u8> = Vec::new();
    let mut j: usize = i;
    while j < 10
        invariant
            i <= j <= 10,
            buf@.len() == 10,
            out@ == buf@.subrange(i as int, j as int),
        decreases 10 - j,
    {
        out.push(buf[j]);
        assert(out@ =~= buf@.subrange(i as int, j + 1));
        j = j + 1;
    }
    out
}

/// The bytes `put_u8` writes for `n`: its decimal digits.
pub fn put_u8(n: u8) -> (r: Vec<u8>)
    ensures
        r@ == decimal_u32(n as u32),
{
    put_u32(n as u32)
}

} // verus!
