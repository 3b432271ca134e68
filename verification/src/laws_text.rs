//! What holds of the forms that texts, numbers, tokens and account numbers have.

use vstd::arithmetic::div_mod::*;
use vstd::prelude::*;

use crate::account::account_number;
use crate::agent::{agent_text, hash31, next_agent, MOBILE_USER_AGENTS};
use crate::codec::{hex_digit, hex_text};
use crate::poll::g_tk_of;
use crate::strmap::{distinct_keys, lemma_map_entries, map_of, position, put};
use crate::text::{
    blank, decimal, lemma_leading_run, lemma_skip_leading, lowered, signed_decimal, skip_leading,
    skip_trailing, trimmed, white_space,
};
use crate::token::hash33;

verus! {

/// The number that the decimal digits `s` are read as.
pub open spec fn read_decimal(s: Seq<char>) -> int
    decreases s.len(),
{
    if s.len() == 0 {
        0
    } else {
        10 * read_decimal(s.drop_last()) + (s.last() as int - '0' as int)
    }
}

/// The number that `s` is read as, a minus sign before its digits or not.
pub open spec fn read_signed(s: Seq<char>) -> int {
    if s.len() > 0 && s[0] == '-' {
        -read_decimal(s.drop_first())
    } else {
        read_decimal(s)
    }
}

/// All characters are decimal digits.
pub open spec fn only_digits(s: Seq<char>) -> bool {
    forall|i: int| 0 <= i < s.len() ==> '0' <= #[trigger] s[i] <= '9'
}

/// All characters are `c`.
pub open spec fn only(s: Seq<char>, c: char) -> bool {
    forall|i: int| 0 <= i < s.len() ==> #[trigger] s[i] == c
}

/// A number that was written in decimal is read back; it is written with digits alone, and with no
/// zero before them.
pub proof fn law_decimals_read_back(n: nat)
    ensures
        read_decimal(decimal(n)) == n,
        only_digits(decimal(n)),
        decimal(n).len() > 0,
        decimal(n)[0] == '0' ==> n == 0 && decimal(n).len() == 1,
    decreases n,
{
    let s = decimal(n);
    if n >= 10 {
        law_decimals_read_back(n / 10);
        assert(s.drop_last() =~= decimal(n / 10));
        assert forall|i: int| 0 <= i < s.len() implies '0' <= #[trigger] s[i] <= '9' by {
            if i < s.len() - 1 {
                assert(s[i] == decimal(n / 10)[i]);
            }
        }
        assert(s[0] == decimal(n / 10)[0]);
    } else {
        assert(s.drop_last() =~= Seq::<char>::empty());
        assert(read_decimal(s.drop_last()) == 0);
    }
}

/// A number that was written with its sign is read back, so that two numbers are never written
/// alike.
pub proof fn law_signed_decimals_read_back(n: int, m: int)
    ensures
        read_signed(signed_decimal(n)) == n,
        n >= 0 ==> read_decimal(signed_decimal(n)) == n && only_digits(signed_decimal(n)),
        n < 0 ==> signed_decimal(n)[0] == '-',
        n != m ==> signed_decimal(n) != signed_decimal(m),
{
    lemma_signed_reads_back(n);
    lemma_signed_reads_back(m);
}

proof fn lemma_signed_reads_back(n: int)
    ensures
        read_signed(signed_decimal(n)) == n,
        n >= 0 ==> read_decimal(signed_decimal(n)) == n && only_digits(signed_decimal(n)),
        n < 0 ==> signed_decimal(n)[0] == '-',
{
    if n < 0 {
        law_decimals_read_back((-n) as nat);
        assert(signed_decimal(n).drop_first() =~= decimal((-n) as nat));
    } else {
        law_decimals_read_back(n as nat);
        let first = signed_decimal(n)[0];
        assert('0' <= first);
    }
}

/// Two numbers are never written alike.
pub proof fn law_decimals_differ(n: nat, m: nat)
    requires
        n != m,
    ensures
        decimal(n) != decimal(m),
{
    law_decimals_read_back(n);
    law_decimals_read_back(m);
}

/// The white space of ASCII, and what is none of it.
pub proof fn law_white_space_of_ascii(c: char)
    requires
        (c as u32) < 0x80,
    ensures
        white_space(c) <==> c == ' ' || c == '\t' || c == '\n' || c == '\r' || c == '\u{b}' || c
            == '\u{c}',
{
}

proof fn lemma_trailing_run(s: Seq<char>, p: spec_fn(char) -> bool)
    ensures
        exists|n: int|
            0 <= n <= s.len() && (forall|i: int| n <= i < s.len() ==> p(#[trigger] s[i])) && (n > 0
                ==> !p(s[n - 1])) && #[trigger] s.take(n) == skip_trailing(s, p),
    decreases s.len(),
{
    if s.len() > 0 && p(s.last()) {
        let front = s.drop_last();
        lemma_trailing_run(front, p);
        let n = choose|n: int|
            0 <= n <= front.len() && (forall|i: int| n <= i < front.len() ==> p(#[trigger] front[i]))
                && (n > 0 ==> !p(front[n - 1])) && #[trigger] front.take(n) == skip_trailing(
                front,
                p,
            );
        assert forall|i: int| n <= i < s.len() implies p(#[trigger] s[i]) by {
            if i < front.len() {
                assert(s[i] == front[i]);
            }
        }
        assert(s.take(n) =~= front.take(n));
    } else {
        assert(s.take(s.len() as int) =~= s);
    }
}

/// Trimming takes away white space at both ends, all of it and nothing else.
pub proof fn law_trimming_takes_white_space_only(s: Seq<char>)
    ensures
        exists|from: int, to: int|
            0 <= from <= to <= s.len() && #[trigger] s.subrange(from, to) == trimmed(s) && blank(
                s.take(from),
            ) && blank(s.skip(to)),
        trimmed(s).len() > 0 ==> !white_space(trimmed(s)[0]) && !white_space(trimmed(s).last()),
{
    let white = |c: char| white_space(c);
    lemma_leading_run(s, white);
    let from = choose|n: int|
        0 <= n <= s.len() && (forall|i: int| 0 <= i < n ==> white(#[trigger] s[i])) && (n < s.len()
            ==> !white(s[n])) && #[trigger] s.skip(n) == skip_leading(s, white);
    let rest = s.skip(from);
    lemma_trailing_run(rest, white);
    let n = choose|n: int|
        0 <= n <= rest.len() && (forall|i: int| n <= i < rest.len() ==> white(#[trigger] rest[i]))
            && (n > 0 ==> !white(rest[n - 1])) && #[trigger] rest.take(n) == skip_trailing(
            rest,
            white,
        );
    let to = from + n;
    assert(s.subrange(from, to) =~= rest.take(n));
    assert forall|i: int| 0 <= i < from implies white_space(#[trigger] s.take(from)[i]) by {
        assert(white(s[i]));
    }
    assert forall|i: int| 0 <= i < s.len() - to implies white_space(#[trigger] s.skip(to)[i]) by {
        assert(white(rest[n + i]));
    }
    if n > 0 {
        assert(!white(s[from]));
        assert(!white(rest[n - 1]));
    }
}

/// A text between white space is what trimming leaves, if it has none at its own ends.
pub proof fn law_trimming_finds_the_inner_text(before: Seq<char>, inner: Seq<char>, after: Seq<char>)
    requires
        blank(before),
        blank(after),
        inner.len() > 0,
        !white_space(inner[0]),
        !white_space(inner.last()),
    ensures
        trimmed(before + inner + after) == inner,
{
    let s = before + inner + after;
    let white = |c: char| white_space(c);
    let n = before.len() as int;
    assert forall|i: int| 0 <= i < n implies white(#[trigger] s[i]) by {
        assert(white_space(before[i]));
    }
    assert(s[n] == inner[0]);
    lemma_skip_leading(s, white, n);
    let rest = s.skip(n);
    let m = inner.len() as int;
    assert forall|i: int| m <= i < rest.len() implies white(#[trigger] rest[i]) by {
        assert(rest[i] == after[i - m]);
        assert(white_space(after[i - m]));
    }
    assert(rest[m - 1] == inner.last());
    crate::text::lemma_skip_trailing(rest, white, m);
    assert(rest.take(m) =~= inner);
}

/// Lower case changes the letters from A to Z alone, each into the letter 32 places on.
pub proof fn law_lower_case_changes_capitals_only(s: Seq<char>)
    ensures
        lowered(s).len() == s.len(),
        forall|i: int|
            0 <= i < s.len() ==> (#[trigger] lowered(s)[i]) as int == if 'A' <= s[i] <= 'Z' {
                s[i] as int + 32
            } else {
                s[i] as int
            },
{
    assert forall|i: int| 0 <= i < s.len() implies (#[trigger] lowered(s)[i]) as int == if 'A'
        <= s[i] <= 'Z' {
        s[i] as int + 32
    } else {
        s[i] as int
    } by {}
}

/// One more character takes the hash times 33 and adds its code point.
pub proof fn law_hash_grows_by_characters(seed: nat, s: Seq<char>, t: Seq<char>, c: char)
    ensures
        hash33(seed, Seq::<char>::empty()) == seed,
        hash33(seed, s.push(c)) == 33 * hash33(seed, s) + c as nat,
        hash33(seed, s + t) == hash33(hash33(seed, s), t),
    decreases t.len(),
{
    assert(s.push(c).drop_last() =~= s);
    if t.len() > 0 {
        law_hash_grows_by_characters(seed, s, t.drop_last(), c);
        assert((s + t).drop_last() =~= s + t.drop_last());
    } else {
        assert(s + t =~= s);
    }
}

/// The request token of a key follows from the token of the key without its last character, and it
/// is one of 31 bits.
pub proof fn law_request_token_of_longer_key(key: Seq<char>, c: char)
    ensures
        g_tk_of(Seq::<char>::empty()) == 5381,
        g_tk_of(key.push(c)) as int == (33 * (g_tk_of(key) as int) + c as int) % 0x8000_0000,
        0 <= g_tk_of(key) < 0x8000_0000,
{
    law_hash_grows_by_characters(5381, key, Seq::empty(), c);
    let h = hash33(5381, key) as int;
    lemma_mul_mod_noop_right(33, h, 0x8000_0000);
    lemma_add_mod_noop(33 * h, c as int, 0x8000_0000);
    lemma_add_mod_noop(33 * (h % 0x8000_0000), c as int, 0x8000_0000);
}

/// `value` is the account number `number` as a cookie writes it: perhaps the letter `o`, perhaps
/// zeros, and the number, which has no zero before it.
pub open spec fn writes_account(value: Seq<char>, number: Seq<char>) -> bool {
    &&& number.len() > 0
    &&& only_digits(number)
    &&& number[0] != '0'
    &&& exists|zeros: Seq<char>| #[trigger]
        only(zeros, '0') && (value == zeros + number || value == seq!['o'] + zeros + number)
}

/// An account number is read from a value exactly where the value writes it.
pub proof fn law_account_is_read_as_written(value: Seq<char>, number: Seq<char>)
    ensures
        account_number(value) == Some(number) <==> writes_account(value, number),
{
    let zero = |c: char| c == '0';
    let body = crate::account::without_mark(value);
    if account_number(value) == Some(number) {
        lemma_leading_run(body, zero);
        let n = choose|n: int|
            0 <= n <= body.len() && (forall|i: int| 0 <= i < n ==> zero(#[trigger] body[i])) && (n
                < body.len() ==> !zero(body[n])) && #[trigger] body.skip(n) == skip_leading(
                body,
                zero,
            );
        let zeros = body.take(n);
        assert forall|i: int| 0 <= i < zeros.len() implies #[trigger] zeros[i] == '0' by {
            assert(zero(body[i]));
        }
        assert(only(zeros, '0'));
        assert(body =~= zeros + number);
        assert(number[0] == body[n]);
        assert forall|i: int| 0 <= i < number.len() implies '0' <= #[trigger] number[i] <= '9' by {
            assert(crate::text::digit(body[i + n]));
        }
        if value.len() > 0 && value[0] == 'o' {
            assert(value =~= seq!['o'] + zeros + number);
        }
    }
    if writes_account(value, number) {
        let zeros = choose|zeros: Seq<char>| #[trigger]
            only(zeros, '0') && (value == zeros + number || value == seq!['o'] + zeros + number);
        let plain = zeros + number;
        assert forall|i: int| 0 <= i < plain.len() implies '0' <= #[trigger] plain[i] <= '9' by {
            if i < zeros.len() {
                assert(zeros[i] == '0');
            } else {
                assert('0' <= number[i - zeros.len()] <= '9');
            }
        }
        assert('0' <= plain[0]);
        if value == plain {
            assert(body == plain);
        } else {
            assert(value.drop_first() =~= plain);
            assert(body == plain);
        }
        assert forall|i: int| 0 <= i < zeros.len() implies zero(#[trigger] body[i]) by {
            assert(zeros[i] == '0');
        }
        assert(body[zeros.len() as int] == number[0]);
        lemma_skip_leading(body, zero, zeros.len() as int);
        assert(body.skip(zeros.len() as int) =~= number);
        assert(crate::account::all_digits(body)) by {
            assert forall|i: int| 0 <= i < body.len() implies crate::text::digit(
                #[trigger] body[i],
            ) by {
                assert('0' <= plain[i] <= '9');
            }
        }
    }
}

/// The user agent of a login is picked by the time and the number of the pick alone, and the one
/// used before it matters only where it is the very one that was picked.
pub proof fn law_previous_user_agent_matters_only_if_picked(
    previous: Option<Seq<char>>,
    now: u128,
    sequence: usize,
)
    ensures
        ({
            let seed = (now as usize) ^ sequence.wrapping_mul(0x9E37_79B1);
            let picked = next_agent(None, now, sequence);
            &&& picked == agent_text(seed as int % 6)
            &&& previous != Some(picked) ==> next_agent(previous, now, sequence) == picked
            &&& previous == Some(picked) ==> next_agent(previous, now, sequence) == agent_text(
                (seed as int % 6 + 1) % 6,
            )
        }),
{
}

/// The user agents are those of the list, each at its own place.
pub proof fn law_user_agents_are_listed(i: int)
    requires
        0 <= i < 6,
    ensures
        agent_text(i) == MOBILE_USER_AGENTS@[i]@,
        MOBILE_USER_AGENTS@.len() == 6,
{
}

/// A random name is made of the digits from 0 to 9 and the letters from a to f.
pub proof fn law_hexadecimal_texts(s: Seq<char>)
    ensures
        hex_text(s) <==> forall|i: int|
            0 <= i < s.len() ==> '0' <= #[trigger] s[i] <= '9' || 'a' <= s[i] <= 'f',
{
    if hex_text(s) {
        assert forall|i: int| 0 <= i < s.len() implies '0' <= #[trigger] s[i] <= '9' || 'a' <= s[i]
            <= 'f' by {
            assert(hex_digit(s[i]));
        }
    }
}

/// One more byte takes the hash of an account times 31 and adds the byte.
pub proof fn law_account_hash_grows_by_bytes(bytes: Seq<u8>, b: u8)
    ensures
        hash31(Seq::<u8>::empty()) == 0,
        hash31(bytes.push(b)) == 31 * hash31(bytes) + b as nat,
{
    assert(bytes.push(b).drop_last() =~= bytes);
}

/// A value given to a key takes the place of the one that the key has, or goes to the end; all
/// other entries stay where they are.
pub proof fn law_new_values_keep_the_order<V>(
    pairs: Seq<(Seq<char>, V)>,
    key: Seq<char>,
    value: V,
    at: int,
    i: int,
)
    requires
        distinct_keys(pairs),
    ensures
        (forall|k: int| 0 <= k < pairs.len() ==> (#[trigger] pairs[k]).0 != key) ==> put(
            pairs,
            key,
            value,
        ) == pairs.push((key, value)),
        0 <= at < pairs.len() && pairs[at].0 == key ==> put(pairs, key, value).len() == pairs.len()
            && put(pairs, key, value)[at] == (key, value),
        0 <= at < pairs.len() && pairs[at].0 == key && 0 <= i < pairs.len() && i != at ==> put(
            pairs,
            key,
            value,
        )[i] == pairs[i],
{
    if 0 <= at < pairs.len() && pairs[at].0 == key {
        let p = position(pairs, key);
        assert(pairs[p].0 == key);
        if p < at {
            assert(pairs[p].0 != pairs[at].0);
        } else if at < p {
            assert(pairs[at].0 != pairs[p].0);
        }
    }
}

/// Of two entries with one key the later one counts, and an entry under one key leaves all other
/// keys alone.
pub proof fn law_later_entries_count<V>(pairs: Seq<(Seq<char>, V)>, key: Seq<char>, value: V)
    ensures
        map_of(Seq::<(Seq<char>, V)>::empty()) == Map::<Seq<char>, V>::empty(),
        map_of(pairs.push((key, value))).contains_key(key),
        map_of(pairs.push((key, value)))[key] == value,
        forall|other: Seq<char>|
            other != key ==> #[trigger] map_of(pairs.push((key, value))).contains_key(other)
                == map_of(pairs).contains_key(other),
        forall|other: Seq<char>|
            other != key && map_of(pairs).contains_key(other) ==> #[trigger] map_of(
                pairs.push((key, value)),
            )[other] == map_of(pairs)[other],
{
    assert(pairs.push((key, value)).drop_last() =~= pairs);
    lemma_map_entries(pairs);
}

} // verus!
