//! QQ account numbers.

use vstd::prelude::*;
use vstd::string::*;

use crate::text::{chars_of, digit, lemma_leading_run, skip_char, skip_leading};

verus! {

/// A cookie's account value without the letter `o` that may stand before the number.
pub open spec fn without_mark(value: Seq<char>) -> Seq<char> {
    if value.len() > 0 && value[0] == 'o' {
        value.drop_first()
    } else {
        value
    }
}

/// All characters of `s` are decimal digits.
pub open spec fn all_digits(s: Seq<char>) -> bool {
    forall|i: int| 0 <= i < s.len() ==> digit(#[trigger] s[i])
}

/// The account number that `value` stands for: the digits after the mark, without leading zeros,
/// and only where something is left of them.
pub open spec fn account_number(value: Seq<char>) -> Option<Seq<char>> {
    let body = without_mark(value);
    let number = skip_leading(body, |c: char| c == '0');
    if all_digits(body) && number.len() > 0 {
        Some(number)
    } else {
        None
    }
}

/// The account number in `value`, as it appears in a cookie or a callback.
pub fn normalized_uin(value: &str) -> (uin: Option<String>)
    ensures
        match uin {
            Some(number) => account_number(value@) == Some(number@),
            None => account_number(value@) is None,
        },
{
    let chars = chars_of(value);
    let start: usize = if chars.len() > 0 && chars[0] == 'o' {
        1
    } else {
        0
    };
    let body = value.substring_char(start, chars.len());
    assert(body@ =~= without_mark(value@));
    let mut i: usize = start;
    while i < chars.len()
        invariant
            start <= i <= chars.len(),
            body@ == chars@.skip(start as int),
            body@ == without_mark(value@),
            forall|j: int| 0 <= j < i - start ==> digit(#[trigger] body@[j]),
        decreases chars.len() - i,
    {
        if !('0' <= chars[i] && chars[i] <= '9') {
            assert(!digit(body@[i - start]));
            return None;
        }
        i += 1;
    }
    let number = skip_char(body, '0');
    if number.is_empty() {
        None
    } else {
        Some(number.to_owned())
    }
}

/// A leading zero or a mark is gone from an account number, and normalising it again changes
/// nothing.
pub proof fn law_normalized_uin_is_stable(value: Seq<char>)
    requires
        account_number(value) is Some,
    ensures
        ({
            let number = account_number(value)->0;
            &&& number.len() > 0
            &&& all_digits(number)
            &&& number[0] != '0'
            &&& account_number(number) == Some(number)
        }),
{
    let body = without_mark(value);
    let zero = |c: char| c == '0';
    lemma_leading_run(body, zero);
    let n = choose|n: int|
        0 <= n <= body.len() && (forall|i: int| 0 <= i < n ==> zero(#[trigger] body[i])) && (n
            < body.len() ==> !zero(body[n])) && #[trigger] body.skip(n) == skip_leading(body, zero);
    let number = body.skip(n);
    assert(number[0] == body[n]);
    assert forall|i: int| 0 <= i < number.len() implies digit(#[trigger] number[i]) by {
        assert(digit(body[i + n]));
    }
    assert(skip_leading(number, zero) == number);
}

/// Zeros before a text are skipped with those that it begins with.
proof fn lemma_skip_zeros(zeros: Seq<char>, s: Seq<char>)
    requires
        forall|i: int| 0 <= i < zeros.len() ==> #[trigger] zeros[i] == '0',
    ensures
        skip_leading(zeros + s, |c: char| c == '0') == skip_leading(s, |c: char| c == '0'),
    decreases zeros.len(),
{
    if zeros.len() > 0 {
        lemma_skip_zeros(zeros.drop_first(), s);
        assert((zeros + s)[0] == '0');
        assert((zeros + s).drop_first() =~= zeros.drop_first() + s);
    } else {
        assert(zeros + s =~= s);
    }
}

/// The mark and any zeros before a number make no difference to the account that it names.
pub proof fn law_mark_and_zeros_do_not_matter(number: Seq<char>, zeros: Seq<char>)
    requires
        account_number(number) == Some(number),
        forall|i: int| 0 <= i < zeros.len() ==> #[trigger] zeros[i] == '0',
    ensures
        account_number(zeros + number) == Some(number),
        account_number(seq!['o'] + (zeros + number)) == Some(number),
{
    law_normalized_uin_is_stable(number);
    lemma_skip_zeros(zeros, number);
    let padded = zeros + number;
    assert forall|i: int| 0 <= i < padded.len() implies digit(#[trigger] padded[i]) by {
        if i < zeros.len() {
            assert(zeros[i] == '0');
        } else {
            assert(digit(number[i - zeros.len()]));
        }
    }
    assert(digit(number[0]));
    assert(without_mark(number) == number);
    assert(digit(padded[0]));
    assert(without_mark(padded) == padded);
    assert((seq!['o'] + padded).drop_first() =~= padded);
}

} // verus!
