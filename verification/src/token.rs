//! The number tokens that the login service derives from cookie values.

use vstd::arithmetic::div_mod::*;
use vstd::prelude::*;

verus! {

/// The hash of `s` from the start value `seed`: each character multiplies by 33 and adds its
/// code point.
pub open spec fn hash33(seed: nat, s: Seq<char>) -> nat
    decreases s.len(),
{
    if s.len() == 0 {
        seed
    } else {
        33 * hash33(seed, s.drop_last()) + s.last() as nat
    }
}

/// The start value of the `g_tk` hash.
pub const G_TK_SEED: u32 = 5381;

/// One more character in the hash, reduced to 32 bits.
proof fn lemma_hash_step(value: u32, exact: nat, c: char)
    requires
        value as int == exact as int % 0x1_0000_0000,
    ensures
        value.wrapping_mul(33).wrapping_add(c as u32) as int == (33 * exact + c as nat) as int
            % 0x1_0000_0000,
{
    lemma_mul_mod_noop_right(33, exact as int, 0x1_0000_0000);
    lemma_add_mod_noop((33 * exact) as int, c as int, 0x1_0000_0000);
    lemma_add_mod_noop(33 * value, c as int, 0x1_0000_0000);
}

/// The hash of `text` from `seed`, reduced to its low 31 bits.
fn low_hash33(seed: u32, text: &str) -> (token: i64)
    ensures
        token as int == hash33(seed as nat, text@) as int % 0x8000_0000,
{
    let mut value: u32 = seed;
    assert(text@.take(0) =~= Seq::<char>::empty());
    for character in it: text.chars()
        invariant
            it.seq() == text@,
            value as int == hash33(seed as nat, text@.take(it.index() as int)) as int
                % 0x1_0000_0000,
    {
        proof {
            let n = it.index() as int;
            assert(text@.take(n + 1).drop_last() =~= text@.take(n));
            lemma_hash_step(value, hash33(seed as nat, text@.take(n)), character);
        }
        value = value.wrapping_mul(33).wrapping_add(character as u32);
    }
    proof {
        assert(text@.take(text@.len() as int) =~= text@);
        assert(value & 0x7fff_ffff == value % 0x8000_0000) by (bit_vector);
        lemma_mod_mod(hash33(seed as nat, text@) as int, 0x8000_0000, 2);
    }
    (value & 0x7fff_ffff) as i64
}

/// The token that a QR code's signature `qrsig` stands for in a poll.
pub fn ptqr_token(qrsig: &str) -> (token: i64)
    ensures
        token as int == hash33(0, qrsig@) as int % 0x8000_0000,
        0 <= token < 0x8000_0000,
{
    low_hash33(0, qrsig)
}

/// The request token `g_tk` that belongs to the session key `p_skey`.
pub fn bkn(p_skey: &str) -> (token: i64)
    ensures
        token as int == hash33(G_TK_SEED as nat, p_skey@) as int % 0x8000_0000,
        0 <= token < 0x8000_0000,
{
    low_hash33(G_TK_SEED, p_skey)
}

} // verus!
