//! Modular arithmetic on the machine's 8- and 16-bit words, together with
//! the handful of division/remainder facts that connect the packed 16-bit
//! register cells to their byte and flag-bit views.

use vstd::prelude::*;
use vstd::arithmetic::div_mod::lemma_fundamental_div_mod_converse;
use vstd::arithmetic::div_mod::lemma_small_mod;

verus! {

/// A value reduced into the 16-bit range.
pub open spec fn wrap16(x: int) -> u16 {
    (x % 0x10000) as u16
}

/// A value reduced into the 8-bit range.
pub open spec fn wrap8(x: int) -> u8 {
    (x % 0x100) as u8
}

/// A 16-bit cell built from two bytes gives its halves back by
/// division and remainder.
pub proof fn lemma_split16(hi: int, lo: int)
    requires
        0 <= hi < 0x100,
        0 <= lo < 0x100,
    ensures
        (hi * 0x100 + lo) / 0x100 == hi,
        (hi * 0x100 + lo) % 0x100 == lo,
{
    lemma_fundamental_div_mod_converse(hi * 0x100 + lo, 0x100, hi, lo);
}

/// Reducing before adding more changes nothing modulo 2^16.
pub proof fn lemma_wrap16_add(x: int, y: int)
    ensures
        wrap16(wrap16(x) + y) == wrap16(x + y),
{
    vstd::arithmetic::div_mod::lemma_fundamental_div_mod(x, 0x10000);
    vstd::arithmetic::div_mod::lemma_mod_multiples_vanish(x / 0x10000, x % 0x10000 + y, 0x10000);
}

/// Addition modulo 2^16.
pub fn wadd16(x: u16, y: u16) -> (r: u16)
    ensures
        r == wrap16(x + y),
{
    proof {
        if x + y <= 0xFFFF {
            lemma_small_mod((x + y) as nat, 0x10000);
        } else {
            lemma_fundamental_div_mod_converse(x + y, 0x10000, 1, x + y - 0x10000);
        }
    }
    x.wrapping_add(y)
}

/// Subtraction modulo 2^16.
pub fn wsub16(x: u16, y: u16) -> (r: u16)
    ensures
        r == wrap16(x - y),
{
    proof {
        if x >= y {
            lemma_small_mod((x - y) as nat, 0x10000);
        } else {
            lemma_fundamental_div_mod_converse(x - y, 0x10000, -1, x - y + 0x10000);
        }
    }
    x.wrapping_sub(y)
}

/// Addition modulo 2^8.
pub fn wadd8(x: u8, y: u8) -> (r: u8)
    ensures
        r == wrap8(x + y),
{
    proof {
        if x + y <= 0xFF {
            lemma_small_mod((x + y) as nat, 0x100);
        } else {
            lemma_fundamental_div_mod_converse(x + y, 0x100, 1, x + y - 0x100);
        }
    }
    x.wrapping_add(y)
}

/// Subtraction modulo 2^8.
pub fn wsub8(x: u8, y: u8) -> (r: u8)
    ensures
        r == wrap8(x - y),
{
    proof {
        if x >= y {
            lemma_small_mod((x - y) as nat, 0x100);
        } else {
            lemma_fundamental_div_mod_converse(x - y, 0x100, -1, x - y + 0x100);
        }
    }
    x.wrapping_sub(y)
}

} // verus!
