//! The browser identifications that requests are sent under.

use vstd::arithmetic::div_mod::*;
use vstd::prelude::*;

use crate::text::same_text;

verus! {

/// The mobile browsers that the login may present itself as.
pub const MOBILE_USER_AGENTS: [&'static str; 6] = [
    "Mozilla/5.0 (iPhone; CPU iPhone OS 18_5 like Mac OS X) AppleWebKit/605.1.15 (KHTML, like Gecko) Version/18.5 Mobile/15E148 Safari/604.1",
    "Mozilla/5.0 (iPhone; CPU iPhone OS 17_6 like Mac OS X) AppleWebKit/605.1.15 (KHTML, like Gecko) Version/17.6 Mobile/15E148 Safari/604.1",
    "Mozilla/5.0 (Linux; Android 15; Pixel 8 Build/AP3A.241105.007) AppleWebKit/537.36 (KHTML, like Gecko) Chrome/131.0.0.0 Mobile Safari/537.36",
    "Mozilla/5.0 (Linux; Android 14; SM-S9280 Build/UP1A.231005.007) AppleWebKit/537.36 (KHTML, like Gecko) Chrome/130.0.0.0 Mobile Safari/537.36",
    "Mozilla/5.0 (Linux; Android 14; 23127PN0CC Build/UKQ1.231003.002) AppleWebKit/537.36 (KHTML, like Gecko) Chrome/131.0.0.0 Mobile Safari/537.36",
    "Mozilla/5.0 (Linux; Android 14; V2309A Build/UP1A.231005.007) AppleWebKit/537.36 (KHTML, like Gecko) Chrome/129.0.0.0 Mobile Safari/537.36",
];

/// The text of the user agent at position `i`.
pub open spec fn agent_text(i: int) -> Seq<char> {
    MOBILE_USER_AGENTS@[i]@
}

/// The position that the time `now` and the call's number `sequence` pick.
pub open spec fn picked_agent(now: u128, sequence: usize) -> int {
    ((now as usize) ^ sequence.wrapping_mul(0x9E37_79B1)) as int % 6
}

/// The user agent that follows the one used last: the picked one, or its successor where the
/// picked one was the last.
pub open spec fn next_agent(previous: Option<Seq<char>>, now: u128, sequence: usize) -> Seq<char> {
    let i = picked_agent(now, sequence);
    if previous == Some(agent_text(i)) {
        agent_text((i + 1) % 6)
    } else {
        agent_text(i)
    }
}

/// Picks a user agent by the time `now` and the call's number `sequence`, never `previous`.
pub fn select_mobile_user_agent(previous: Option<&str>, now: u128, sequence: usize) -> (agent:
    String)
    ensures
        agent@ == next_agent(
            match previous {
                Some(p) => Some(p@),
                None => None,
            },
            now,
            sequence,
        ),
{
    let seed: usize = (now as usize) ^ sequence.wrapping_mul(0x9E37_79B1);
    let mut index: usize = seed % 6;
    if let Some(value) = previous {
        if same_text(value, MOBILE_USER_AGENTS[index]) {
            index = (index + 1) % 6;
        }
    }
    MOBILE_USER_AGENTS[index].to_owned()
}

/// The hash of a byte sequence: each byte multiplies by 31 and adds its value.
pub open spec fn hash31(bytes: Seq<u8>) -> nat
    decreases bytes.len(),
{
    if bytes.len() == 0 {
        0
    } else {
        31 * hash31(bytes.drop_last()) + bytes.last() as nat
    }
}

/// The user agent of the account `uin`: always the same one for the same account.
pub fn account_user_agent(uin: &str) -> (agent: String)
    ensures
        agent@ == agent_text(
            (hash31(vstd::utf8::encode_utf8(uin@)) as int % 0x1_0000_0000) % 6,
        ),
{
    let bytes = uin.as_bytes();
    let mut hash: u32 = 0;
    let mut i: usize = 0;
    assert(bytes@.take(0) =~= Seq::<u8>::empty());
    while i < bytes.len()
        invariant
            i <= bytes.len(),
            hash as int == hash31(bytes@.take(i as int)) as int % 0x1_0000_0000,
        decreases bytes.len() - i,
    {
        proof {
            let exact = hash31(bytes@.take(i as int));
            assert(bytes@.take(i + 1).drop_last() =~= bytes@.take(i as int));
            lemma_mul_mod_noop_right(31, exact as int, 0x1_0000_0000);
            lemma_add_mod_noop((31 * exact) as int, bytes@[i as int] as int, 0x1_0000_0000);
            lemma_add_mod_noop(31 * hash, bytes@[i as int] as int, 0x1_0000_0000);
        }
        hash = hash.wrapping_mul(31).wrapping_add(bytes[i] as u32);
        i += 1;
    }
    assert(bytes@.take(bytes@.len() as int) =~= bytes@);
    MOBILE_USER_AGENTS[hash as usize % 6].to_owned()
}

} // verus!
