//! What holds of the forms that answers, images, cookies and addresses have.

use vstd::prelude::*;
use vstd::string::*;

use crate::callback::{fields_text, is_callback, unquoted};
use crate::codec::data_address;
use crate::cookies::{
    from_jar, header_fields, header_line, header_text, item_field, jar_headers, qq_domain,
};
use crate::laws_text::only;
use crate::link::{
    check_address, first_value, has_value, pair_texts, signed_query, trusted_hop, LoginUrl, UrlView,
};
use crate::strmap::map_of;
use crate::text::{lemma_first_index_is, lemma_skip_leading, lowered, trimmed};

verus! {

/// The character `c` does not stand in `s`.
pub open spec fn lacks(s: Seq<char>, c: char) -> bool {
    forall|i: int| 0 <= i < s.len() ==> #[trigger] s[i] != c
}

/// A poll answer is `ptuiCB(` and six fields between single quotation marks, with commas between
/// them, a closing bracket and perhaps a semicolon; no field has a quotation mark in it.
pub proof fn law_poll_answer_is_six_quoted_fields(
    text: Seq<char>,
    a: Seq<char>,
    b: Seq<char>,
    c: Seq<char>,
    d: Seq<char>,
    e: Seq<char>,
    f: Seq<char>,
)
    ensures
        is_callback(text, seq![a, b, c, d, e, f]) <==> {
            let comma = seq!['\'', ',', '\''];
            let call = seq!['p', 't', 'u', 'i', 'C', 'B', '(', '\''] + a + comma + b + comma + c
                + comma + d + comma + e + comma + f + seq!['\'', ')'];
            &&& lacks(a, '\'') && lacks(b, '\'') && lacks(c, '\'')
            &&& lacks(d, '\'') && lacks(e, '\'') && lacks(f, '\'')
            &&& text == call || text == call.push(';')
        },
        forall|fields: Seq<Seq<char>>| #[trigger] is_callback(text, fields) ==> fields.len() == 6,
{
    let fields = seq![a, b, c, d, e, f];
    let comma = seq!['\'', ',', '\''];
    let call = seq!['p', 't', 'u', 'i', 'C', 'B', '(', '\''] + a + comma + b + comma + c + comma + d
        + comma + e + comma + f + seq!['\'', ')'];
    reveal_strlit("ptuiCB('");
    assert(fields.drop_first() =~= seq![b, c, d, e, f]);
    assert(seq![b, c, d, e, f].drop_first() =~= seq![c, d, e, f]);
    assert(seq![c, d, e, f].drop_first() =~= seq![d, e, f]);
    assert(seq![d, e, f].drop_first() =~= seq![e, f]);
    assert(seq![e, f].drop_first() =~= seq![f]);
    assert(fields_text(seq![f]) =~= f + seq!['\'', ')']);
    assert(fields_text(seq![e, f]) =~= e + comma + fields_text(seq![f]));
    assert(fields_text(seq![d, e, f]) =~= d + comma + fields_text(seq![e, f]));
    assert(fields_text(seq![c, d, e, f]) =~= c + comma + fields_text(seq![d, e, f]));
    assert(fields_text(seq![b, c, d, e, f]) =~= b + comma + fields_text(seq![c, d, e, f]));
    assert(fields_text(fields) =~= a + comma + fields_text(seq![b, c, d, e, f]));
    assert("ptuiCB('"@ + fields_text(fields) =~= call);
    assert(fields[0] == a && fields[1] == b && fields[2] == c && fields[3] == d && fields[4] == e
        && fields[5] == f);
    if is_callback(text, fields) {
        assert(unquoted(fields[0]) && unquoted(fields[1]) && unquoted(fields[2]));
        assert(unquoted(fields[3]) && unquoted(fields[4]) && unquoted(fields[5]));
    }
}

/// A `data:` address holds its type and all of its content, and nothing between them but the word
/// that names the encoding.
pub proof fn law_data_address_holds_everything(media: Seq<char>, encoded: Seq<char>)
    ensures
        ({
            let address = data_address(media, encoded);
            let n = media.len() as int;
            &&& address.len() == 13 + n + encoded.len()
            &&& address.subrange(0, 5) == seq!['d', 'a', 't', 'a', ':']
            &&& address.subrange(5, 5 + n) == media
            &&& address.subrange(5 + n, 13 + n) == seq![';', 'b', 'a', 's', 'e', '6', '4', ',']
            &&& address.skip(13 + n) == encoded
        }),
{
    reveal_strlit("data:");
    reveal_strlit(";base64,");
    let address = data_address(media, encoded);
    let n = media.len() as int;
    assert(address.subrange(0, 5) =~= seq!['d', 'a', 't', 'a', ':']);
    assert(address.subrange(5, 5 + n) =~= media);
    assert(address.subrange(5 + n, 13 + n) =~= seq![';', 'b', 'a', 's', 'e', '6', '4', ',']);
    assert(address.skip(13 + n) =~= encoded);
}

/// A header of two lists of cookies is the headers of both with a semicolon and a blank between
/// them; that of one cookie is its name, an equals sign and its value.
pub proof fn law_headers_are_joined(
    a: Seq<(Seq<char>, Seq<char>)>,
    b: Seq<(Seq<char>, Seq<char>)>,
    name: Seq<char>,
    value: Seq<char>,
)
    ensures
        header_text(Seq::<(Seq<char>, Seq<char>)>::empty()) == Seq::<char>::empty(),
        header_text(seq![(name, value)]) == name + seq!['='] + value,
        a.len() > 0 && b.len() > 0 ==> header_text(a + b) == header_text(a) + seq![';', ' ']
            + header_text(b),
    decreases b.len(),
{
    if a.len() > 0 && b.len() > 0 {
        let whole = a + b;
        let front = b.drop_last();
        assert(whole.drop_last() =~= a + front);
        assert(whole.last() == b.last());
        if b.len() == 1 {
            assert(a + front =~= a);
            assert(b[0] == b.last());
        } else {
            law_headers_are_joined(a, front, name, value);
            assert(header_text(whole) =~= header_text(a) + seq![';', ' '] + header_text(b));
        }
    }
}

/// A header is taken apart at its semicolons.
pub proof fn law_headers_are_split_at_semicolons(item: Seq<char>, rest: Seq<char>)
    requires
        lacks(item, ';'),
    ensures
        header_fields(item + seq![';'] + rest) == header_fields(item) + header_fields(rest),
{
    let line = item + seq![';'] + rest;
    let n = item.len() as int;
    assert forall|i: int| 0 <= i < n implies #[trigger] line[i] != ';' by {
        assert(item[i] != ';');
    }
    assert(line[n] == ';');
    lemma_first_index_is(line, ';', n);
    lemma_first_index_is(item, ';', n);
    assert(line.take(n) =~= item);
    assert(line.skip(n + 1) =~= rest);
}

/// An item of a header is split at its first equals sign; white space around it is left out, and an
/// item without such a sign is no cookie.
pub proof fn law_items_are_split_at_equals(item: Seq<char>, name: Seq<char>, value: Seq<char>)
    requires
        lacks(item, ';'),
    ensures
        trimmed(item) == name + seq!['='] + value && lacks(name, '=') ==> header_fields(item)
            == seq![(name, value)],
        lacks(trimmed(item), '=') ==> header_fields(item) == Seq::<(Seq<char>, Seq<char>)>::empty(),
{
    lemma_first_index_is(item, ';', item.len() as int);
    let inner = trimmed(item);
    if inner == name + seq!['='] + value && lacks(name, '=') {
        let n = name.len() as int;
        assert forall|i: int| 0 <= i < n implies #[trigger] inner[i] != '=' by {
            assert(name[i] != '=');
        }
        assert(inner[n] == '=');
        lemma_first_index_is(inner, '=', n);
        assert(inner.take(n) =~= name);
        assert(inner.skip(n + 1) =~= value);
        assert(item_field(inner) =~= seq![(name, value)]);
    }
    if lacks(inner, '=') {
        lemma_first_index_is(inner, '=', inner.len() as int);
    }
}

/// The cookies of a jar are those of one of its own answers for the very address, and no header
/// gives none.
pub proof fn law_cookies_come_from_an_answer_of_the_jar(
    jar: reqwest::cookie::Jar,
    url: Seq<char>,
    cookies: Map<Seq<char>, Seq<char>>,
)
    requires
        from_jar(jar, url, cookies),
    ensures
        cookies == map_of(header_fields(Seq::empty())) && jar_headers(jar).contains((url, None))
            || exists|line: Seq<char>| #[trigger]
            jar_headers(jar).contains((url, Some(line))) && line.len() > 0 && cookies == map_of(
                header_fields(line),
            ),
{
    let line = choose|line: Seq<char>| #[trigger]
        header_line(line) && cookies == map_of(header_fields(line)) && jar_headers(jar).contains(
            (
                url,
                if line.len() == 0 {
                    None
                } else {
                    Some(line)
                },
            ),
        );
    if line.len() == 0 {
        assert(line =~= Seq::<char>::empty());
    } else {
        assert(jar_headers(jar).contains((url, Some(line))));
    }
}

/// A domain of QQ is `qq.com`, `i.qq.com` or `qzone.qq.com`, in letters of either case and with any
/// number of dots before it.
pub proof fn law_qq_domains(dots: Seq<char>, name: Seq<char>)
    requires
        only(dots, '.'),
        name.len() == 0 || name[0] != '.',
    ensures
        qq_domain(dots + name) <==> {
            let low = lowered(name);
            ||| low == seq!['q', 'q', '.', 'c', 'o', 'm']
            ||| low == seq!['i', '.', 'q', 'q', '.', 'c', 'o', 'm']
            ||| low == seq!['q', 'z', 'o', 'n', 'e', '.', 'q', 'q', '.', 'c', 'o', 'm']
        },
{
    reveal_strlit("qq.com");
    reveal_strlit("i.qq.com");
    reveal_strlit("qzone.qq.com");
    let s = dots + name;
    let dot = |c: char| c == '.';
    let n = dots.len() as int;
    assert forall|i: int| 0 <= i < n implies dot(#[trigger] s[i]) by {
        assert(dots[i] == '.');
    }
    if name.len() > 0 {
        assert(s[n] == name[0]);
    }
    lemma_skip_leading(s, dot, n);
    assert(s.skip(n) =~= name);
    assert("qq.com"@ =~= seq!['q', 'q', '.', 'c', 'o', 'm']);
    assert("i.qq.com"@ =~= seq!['i', '.', 'q', 'q', '.', 'c', 'o', 'm']);
    assert("qzone.qq.com"@ =~= seq!['q', 'z', 'o', 'n', 'e', '.', 'q', 'q', '.', 'c', 'o', 'm']);
}

/// The addresses that a confirmed login is led over: encrypted ones, on three hosts of the login
/// service whatever the path, and on two hosts of Qzone for three paths.
pub proof fn law_trusted_addresses(url: UrlView)
    ensures
        trusted_hop(url) <==> url.scheme == "https"@ && {
            ||| url.host == Some("ptlogin2.qzone.qq.com"@)
            ||| url.host == Some("ssl.ptlogin2.qq.com"@)
            ||| url.host == Some("ptlogin2.qq.com"@)
            ||| (url.host == Some("qzone.qq.com"@) || url.host == Some("h5.qzone.qq.com"@)) && (
            url.path == "/"@ || url.path == "/mqzone/index"@ || url.path == "/index"@)
        },
{
}

/// The address of a confirmation: its host and path, an account in its query, and a signature.
pub proof fn law_confirmation_addresses(url: UrlView, i: int, j: int)
    ensures
        url.scheme == "https"@ && (url.host == Some("ptlogin2.qzone.qq.com"@) || url.host == Some(
            "ssl.ptlogin2.qq.com"@,
        ) || url.host == Some("ptlogin2.qq.com"@)) && url.path == "/check_sig"@ <==> check_address(
            url,
        ),
        0 <= i < url.query.len() && 0 <= j < url.query.len() && url.query[i].0 == "uin"@
            && url.query[i].1.len() > 0 && url.query[j].0 == "ptsigx"@ && url.query[j].1.len() > 0
            ==> signed_query(url.query),
        signed_query(url.query) ==> (exists|k: int|
            0 <= k < url.query.len() && (#[trigger] url.query[k]).0 == "uin"@ && url.query[k].1.len()
                > 0) && (exists|k: int|
            0 <= k < url.query.len() && (#[trigger] url.query[k]).0 == "ptsigx"@
                && url.query[k].1.len() > 0),
{
}

/// A name has a value in a query exactly where one of its pairs does, wherever it stands.
pub proof fn law_values_are_found_anywhere(
    before: Seq<(Seq<char>, Seq<char>)>,
    after: Seq<(Seq<char>, Seq<char>)>,
    name: Seq<char>,
    value: Seq<char>,
)
    ensures
        value.len() > 0 ==> has_value(before.push((name, value)) + after, name),
        !has_value(Seq::empty(), name),
        has_value(before, name) || has_value(after, name) <==> has_value(before + after, name),
{
    let whole = before.push((name, value)) + after;
    assert(whole[before.len() as int] == (name, value));
    let both = before + after;
    if has_value(before, name) {
        let i = choose|i: int|
            0 <= i < before.len() && (#[trigger] before[i]).0 == name && before[i].1.len() > 0;
        assert(both[i] == before[i]);
    }
    if has_value(after, name) {
        let i = choose|i: int|
            0 <= i < after.len() && (#[trigger] after[i]).0 == name && after[i].1.len() > 0;
        assert(both[before.len() + i] == after[i]);
    }
    if has_value(both, name) {
        let i = choose|i: int|
            0 <= i < both.len() && (#[trigger] both[i]).0 == name && both[i].1.len() > 0;
        if i < before.len() {
            assert(before[i] == both[i]);
        } else {
            assert(after[i - before.len()] == both[i]);
        }
    }
}

/// Of several values of one name in a query the first one counts, whatever follows it.
pub proof fn law_first_values_count(
    before: Seq<(Seq<char>, Seq<char>)>,
    after: Seq<(Seq<char>, Seq<char>)>,
    name: Seq<char>,
    value: Seq<char>,
)
    requires
        forall|i: int| 0 <= i < before.len() ==> (#[trigger] before[i]).0 != name,
    ensures
        first_value(before, name) is None,
        first_value(before.push((name, value)) + after, name) == Some(value),
    decreases before.len(),
{
    let whole = before.push((name, value)) + after;
    if before.len() > 0 {
        let rest = before.drop_first();
        assert forall|i: int| 0 <= i < rest.len() implies (#[trigger] rest[i]).0 != name by {
            assert(rest[i] == before[i + 1]);
        }
        law_first_values_count(rest, after, name, value);
        assert(whole[0] == before[0]);
        assert(whole.drop_first() =~= rest.push((name, value)) + after);
    } else {
        assert(whole[0] == (name, value));
    }
}

/// The texts of a list of pairs are all of them, in order and in full.
pub proof fn law_pairs_are_shown_in_full(pairs: Seq<(String, String)>, i: int)
    ensures
        pair_texts(pairs).len() == pairs.len(),
        0 <= i < pairs.len() ==> pair_texts(pairs)[i].0 == pairs[i].0@ && pair_texts(pairs)[i].1
            == pairs[i].1@,
{
}

/// The view of an address shows each of its parts in full.
pub proof fn law_addresses_are_shown_in_full(url: LoginUrl)
    ensures
        url@.href == url.href@,
        url@.scheme == url.scheme@,
        url@.host is Some <==> url.host is Some,
        url.host matches Some(host) ==> url@.host == Some(host@),
        url@.path == url.path@,
        url@.query == pair_texts(url.query@),
{
}

} // verus!
