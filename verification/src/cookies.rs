//! Cookies: the headers they travel in, the jar they are kept in, and the domains they come from.

use reqwest::cookie::CookieStore;
use vstd::prelude::*;
use vstd::string::*;

use crate::link::url_of;
use crate::strmap::{
    distinct_keys, has_key, lemma_distinct_entries, lemma_map_entries, map_of, position, put, StrMap,
};
use crate::text::{
    find_char, first_index, lemma_first_index, lemma_first_index_is, lowered, lowers_to, same_text,
    skip_char, skip_leading, trim, trimmed,
};

verus! {

/// The cookie jar of an HTTP client: `reqwest::cookie::Jar`. What it holds changes behind shared
/// references, as responses come in, so a value of this type stands for the jar itself and not for
/// what it holds at one time.
#[verifier::external_type_specification]
#[verifier::external_body]
pub struct ExJar(reqwest::cookie::Jar);

/// Cookies by name.
pub struct Cookies {
    map: StrMap<String>,
}

spec fn with_texts(pairs: Seq<(Seq<char>, String)>) -> Seq<(Seq<char>, Seq<char>)> {
    Seq::new(pairs.len(), |i: int| (pairs[i].0, pairs[i].1@))
}

proof fn lemma_with_texts(pairs: Seq<(Seq<char>, String)>)
    ensures
        forall|k: Seq<char>| #[trigger]
            map_of(with_texts(pairs)).contains_key(k) <==> map_of(pairs).contains_key(k),
        forall|k: Seq<char>|
            map_of(pairs).contains_key(k) ==> #[trigger] map_of(with_texts(pairs))[k] == map_of(
                pairs,
            )[k]@,
    decreases pairs.len(),
{
    if pairs.len() > 0 {
        let front = pairs.drop_last();
        let texts = with_texts(pairs);
        lemma_with_texts(front);
        assert(texts.drop_last() =~= with_texts(front));
        assert(texts.last() == (pairs.last().0, pairs.last().1@));
        assert forall|k: Seq<char>| #[trigger]
            map_of(texts).contains_key(k) <==> map_of(pairs).contains_key(k) by {
            assert(map_of(with_texts(front)).contains_key(k) <==> map_of(front).contains_key(k));
        }
        assert forall|k: Seq<char>| map_of(pairs).contains_key(k) implies #[trigger] map_of(
            texts,
        )[k] == map_of(pairs)[k]@ by {
            if k != pairs.last().0 {
                assert(map_of(front).contains_key(k));
                assert(map_of(with_texts(front))[k] == map_of(front)[k]@);
            }
        }
    }
}

impl View for Cookies {
    type V = Map<Seq<char>, Seq<char>>;

    open spec fn view(&self) -> Map<Seq<char>, Seq<char>> {
        map_of(self.pairs())
    }
}

impl Cookies {
    /// The names with their values, in the order in which the names came.
    pub closed spec fn pairs(&self) -> Seq<(Seq<char>, Seq<char>)> {
        with_texts(self.map.pairs())
    }

    /// No cookies.
    pub fn new() -> (cookies: Self)
        ensures
            cookies.pairs() == Seq::<(Seq<char>, Seq<char>)>::empty(),
            cookies@ == Map::<Seq<char>, Seq<char>>::empty(),
    {
        let cookies = Cookies { map: StrMap::new() };
        assert(cookies.pairs() =~= Seq::<(Seq<char>, Seq<char>)>::empty());
        cookies
    }

    /// The value of the cookie `name`, if there is one.
    pub fn get(&self, name: &str) -> (value: Option<&String>)
        ensures
            match value {
                Some(v) => self@.contains_key(name@) && v@ == self@[name@],
                None => !self@.contains_key(name@),
            },
    {
        proof {
            lemma_with_texts(self.map.pairs());
        }
        self.map.get(name)
    }

    /// Gives the cookie `name` the value `value`.
    pub fn insert(&mut self, name: String, value: String)
        ensures
            final(self).pairs() == put(old(self).pairs(), name@, value@),
            final(self)@ == old(self)@.insert(name@, value@),
    {
        let ghost before = self.map.pairs();
        let n = self.map.len();
        proof {
            lemma_with_texts(before);
            lemma_with_texts(put(before, name@, value));
        }
        self.map.insert(name, value);
        proof {
            let texts = with_texts(before);
            assert(has_key(before, name@) ==> texts[position(before, name@)].0 == name@);
            assert(has_key(texts, name@) ==> before[position(texts, name@)].0 == name@);
            assert(has_key(before, name@) == has_key(texts, name@));
            if has_key(before, name@) {
                let p = position(before, name@);
                let q = position(texts, name@);
                assert(before[p].0 == before[q].0);
                assert(p == q);
            }
            assert(self.pairs() =~= put(texts, name@, value@));
            assert(map_of(with_texts(put(before, name@, value))) =~= map_of(texts).insert(
                name@,
                value@,
            ));
        }
    }
}

/// A cookie as a header names it.
pub open spec fn header_field(pair: (Seq<char>, Seq<char>)) -> Seq<char> {
    pair.0 + seq!['='] + pair.1
}

/// The cookies as one header: each as `name=value`, with `; ` between them.
pub open spec fn header_text(pairs: Seq<(Seq<char>, Seq<char>)>) -> Seq<char>
    decreases pairs.len(),
{
    if pairs.len() == 0 {
        Seq::empty()
    } else if pairs.len() == 1 {
        header_field(pairs[0])
    } else {
        header_text(pairs.drop_last()) + seq![';', ' '] + header_field(pairs.last())
    }
}

/// A list without a repeated name has each cookie of its map exactly once, and nothing else.
pub proof fn law_each_cookie_is_listed_once(pairs: Seq<(Seq<char>, Seq<char>)>)
    requires
        distinct_keys(pairs),
    ensures
        pairs.len() == map_of(pairs).len(),
        forall|i: int|
            0 <= i < pairs.len() ==> map_of(pairs).contains_key((#[trigger] pairs[i]).0) && map_of(
                pairs,
            )[pairs[i].0] == pairs[i].1,
        forall|name: Seq<char>| #[trigger]
            map_of(pairs).contains_key(name) ==> exists|i: int|
                0 <= i < pairs.len() && #[trigger] pairs[i] == (name, map_of(pairs)[name]) && forall|
                    j: int,
                |
                    0 <= j < pairs.len() && (#[trigger] pairs[j]).0 == name ==> j == i,
{
    lemma_map_entries(pairs);
    lemma_distinct_entries(pairs);
    assert forall|name: Seq<char>| #[trigger] map_of(pairs).contains_key(name) implies exists|i: int|
        0 <= i < pairs.len() && #[trigger] pairs[i] == (name, map_of(pairs)[name]) && forall|j: int|
            0 <= j < pairs.len() && (#[trigger] pairs[j]).0 == name ==> j == i by {
        let i = choose|i: int|
            0 <= i < pairs.len() && #[trigger] pairs[i] == (name, map_of(pairs)[name]);
        assert forall|j: int| 0 <= j < pairs.len() && (#[trigger] pairs[j]).0 == name implies j
            == i by {
            if j < i {
                assert(pairs[j].0 != pairs[i].0);
            } else if j > i {
                assert(pairs[i].0 != pairs[j].0);
            }
        }
    }
}

/// The `Cookie` header that sends `cookies`, each of them once.
pub fn cookie_header(cookies: &Cookies) -> (header: String)
    ensures
        header@ == header_text(cookies.pairs()),
        distinct_keys(cookies.pairs()),
{
    let mut header = String::new();
    let n = cookies.map.len();
    let mut i: usize = 0;
    proof {
        assert forall|a: int, b: int| 0 <= a < b < cookies.pairs().len() implies (
        #[trigger] cookies.pairs()[a]).0 != (#[trigger] cookies.pairs()[b]).0 by {
            assert(cookies.map.pairs()[a].0 != cookies.map.pairs()[b].0);
        }
        reveal_strlit("; ");
        reveal_strlit("=");
        assert(cookies.pairs().take(0) =~= Seq::<(Seq<char>, Seq<char>)>::empty());
    }
    while i < n
        invariant
            i <= n,
            n == cookies.map.pairs().len(),
            n == cookies.pairs().len(),
            distinct_keys(cookies.pairs()),
            "; "@ =~= seq![';', ' '],
            "="@ =~= seq!['='],
            header@ == header_text(cookies.pairs().take(i as int)),
        decreases n - i,
    {
        let ghost before = header@;
        if i > 0 {
            header.append("; ");
        }
        let entry = cookies.map.entry(i);
        header.append(entry.0.as_str());
        header.append("=");
        header.append(entry.1.as_str());
        proof {
            let now = cookies.pairs().take(i + 1);
            assert(now.drop_last() =~= cookies.pairs().take(i as int));
            assert(now.last() == (entry.0@, entry.1@));
            if i > 0 {
                assert(header@ =~= before + seq![';', ' '] + header_field(now.last()));
            } else {
                assert(header@ =~= header_field(now[0]));
            }
        }
        i += 1;
    }
    assert(cookies.pairs().take(n as int) =~= cookies.pairs());
    header
}

/// The cookie in one item of a header: the part before the first `=` and the part after it.
pub open spec fn item_field(item: Seq<char>) -> Seq<(Seq<char>, Seq<char>)> {
    let at = first_index(item, '=');
    if at < item.len() {
        seq![(item.take(at), item.skip(at + 1))]
    } else {
        Seq::empty()
    }
}

/// The cookies in a header, in order: one per item between semicolons, white space around an item
/// left out, and none for an item without `=`.
pub open spec fn header_fields(line: Seq<char>) -> Seq<(Seq<char>, Seq<char>)>
    decreases line.len(),
{
    let at = first_index(line, ';');
    if 0 <= at < line.len() {
        item_field(trimmed(line.take(at))) + header_fields(line.skip(at + 1))
    } else {
        item_field(trimmed(line))
    }
}

/// The cookies in a `Cookie` header; of two with one name the later one stays.
pub fn header_cookies(line: &str) -> (cookies: Cookies)
    ensures
        cookies@ == map_of(header_fields(line@)),
{
    let mut cookies = Cookies::new();
    let mut rest: &str = line;
    let mut more = true;
    let ghost mut done: Seq<(Seq<char>, Seq<char>)> = Seq::empty();
    assert(done + header_fields(line@) =~= header_fields(line@));
    while more
        invariant
            cookies@ == map_of(done),
            header_fields(line@) == done + (if more {
                header_fields(rest@)
            } else {
                Seq::empty()
            }),
        decreases rest@.len() + (if more {
            1int
        } else {
            0
        }),
    {
        let len = rest.unicode_len();
        let at = find_char(rest, ';');
        proof {
            lemma_first_index(rest@, ';');
            assert(rest@.take(rest@.len() as int) =~= rest@);
        }
        let item = trim(rest.substring_char(0, at));
        assert(rest@.subrange(0, at as int) =~= rest@.take(at as int));
        let split = find_char(item, '=');
        let item_len = item.unicode_len();
        proof {
            lemma_first_index(item@, '=');
        }
        let ghost before = done;
        if split < item_len {
            let name = item.substring_char(0, split).to_owned();
            let value = item.substring_char(split + 1, item_len).to_owned();
            proof {
                assert(name@ =~= item@.take(split as int));
                assert(value@ =~= item@.skip(split + 1));
                done = done.push((name@, value@));
                assert(done.drop_last() =~= before);
            }
            cookies.insert(name, value);
        }
        assert(done =~= before + item_field(item@));
        if at < len {
            let ghost whole = rest@;
            rest = rest.substring_char(at + 1, len);
            assert(rest@ =~= whole.skip(at + 1));
            assert(before + (item_field(item@) + header_fields(rest@)) =~= done + header_fields(
                rest@,
            ));
        } else {
            more = false;
            assert(done + Seq::<(Seq<char>, Seq<char>)>::empty() =~= done);
        }
    }
    assert(done + Seq::<(Seq<char>, Seq<char>)>::empty() =~= done);
    cookies
}

/// A character that a header value can be read as text with: a visible ASCII character, a space
/// or a tab.
pub open spec fn header_char(c: char) -> bool {
    ' ' <= c <= '~' || c == '\t'
}

/// All characters of `line` can stand in a header that is read as text.
pub open spec fn header_line(line: Seq<char>) -> bool {
    forall|i: int| 0 <= i < line.len() ==> header_char(#[trigger] line[i])
}

/// Every answer that `jar` gives in its time to the question which header it sends: the address
/// that it was asked for, and the header, where there was one.
pub uninterp spec fn jar_headers(jar: reqwest::cookie::Jar) -> Set<(Seq<char>, Option<Seq<char>>)>;

/// Every text that is handed to `jar` in its time to set a cookie: the address that the cookie is
/// set for, and the text.
pub uninterp spec fn jar_texts(jar: reqwest::cookie::Jar) -> Set<(Seq<char>, Seq<char>)>;

/// The `Cookie` header that `jar` sends to `url`, where there is one and it is plain text.
///
/// Calls `reqwest::cookie::Jar::cookies` for the parsed `url`, and has no header where `url` is no
/// address. That method gives no header for an empty list of cookies, and `HeaderValue::to_str`
/// gives text only where every byte is visible ASCII, a space or a tab. The result is one of the
/// answers of this jar for this address, `jar_headers`. Which of them it is depends on the cookies
/// that the jar holds at the time, and those change behind the shared reference.
#[verifier::external_body]
fn jar_header(jar: &reqwest::cookie::Jar, url: &str) -> (line: Option<String>)
    ensures
        match line {
            Some(s) => s@.len() > 0 && header_line(s@) && jar_headers(*jar).contains(
                (url@, Some(s@)),
            ),
            None => jar_headers(*jar).contains((url@, None)),
        },
        url_of(url@) is None ==> line is None,
{
    let url = url::Url::parse(url).ok()?;
    let header = jar.cookies(&url)?;
    header.to_str().ok().map(str::to_owned)
}

/// Puts the cookie that the `Set-Cookie` text `cookie` describes into `jar`, as if `url` had sent
/// it, and says whether `url` is an address at all.
///
/// Calls `reqwest::cookie::Jar::add_cookie_str` for the parsed `url`. The text has then been handed
/// to this jar for this address, `jar_texts`. What the jar makes of it is not stated: the jar
/// changes behind the shared reference.
#[verifier::external_body]
pub(crate) fn jar_add(jar: &reqwest::cookie::Jar, cookie: &str, url: &str) -> (added: bool)
    ensures
        added == (url_of(url@) is Some),
        added ==> jar_texts(*jar).contains((url@, cookie@)),
{
    match url::Url::parse(url) {
        Ok(url) => {
            jar.add_cookie_str(cookie, &url);
            true
        },
        Err(_) => false,
    }
}

/// `cookies` are those of a header with which `jar` answers for the address `url`; no header counts
/// as an empty one.
pub open spec fn from_jar(
    jar: reqwest::cookie::Jar,
    url: Seq<char>,
    cookies: Map<Seq<char>, Seq<char>>,
) -> bool {
    exists|line: Seq<char>| #[trigger]
        header_line(line) && cookies == map_of(header_fields(line)) && jar_headers(jar).contains(
            (
                url,
                if line.len() == 0 {
                    None
                } else {
                    Some(line)
                },
            ),
        )
}

/// The cookies that `jar` sends to `url`.
///
/// Which they are depends on what the jar holds at the time.
pub fn jar_cookies(jar: &reqwest::cookie::Jar, url: &str) -> (cookies: Cookies)
    ensures
        from_jar(*jar, url@, cookies@),
{
    match jar_header(jar, url) {
        Some(line) => header_cookies(line.as_str()),
        None => {
            proof {
                reveal_strlit("");
                assert(header_line(""@));
            }
            header_cookies("")
        },
    }
}

/// A domain that a QQ login cookie may come from.
pub open spec fn qq_domain(domain: Seq<char>) -> bool {
    let name = lowered(skip_leading(domain, |c: char| c == '.'));
    name == "qq.com"@ || name == "i.qq.com"@ || name == "qzone.qq.com"@
}

/// Whether a cookie of the domain `domain` may be used for the login.
pub fn allowed_qq_cookie_domain(domain: Option<&str>) -> (allowed: bool)
    ensures
        allowed == (domain matches Some(d) && qq_domain(d@)),
{
    match domain {
        Some(domain) => {
            let name = skip_char(domain, '.');
            lowers_to(name, "qq.com") || lowers_to(name, "i.qq.com") || lowers_to(
                name,
                "qzone.qq.com",
            )
        },
        None => false,
    }
}

/// A cookie that the login needs from a browser window.
pub open spec fn required_cookie(name: Seq<char>) -> bool {
    name == "uin"@ || name == "p_uin"@ || name == "p_skey"@ || name == "skey"@ || name
        == "pt4_token"@
}

/// Whether the login needs the cookie `name` from a browser window.
pub fn is_required_cookie(name: &str) -> (required: bool)
    ensures
        required == required_cookie(name@),
{
    same_text(name, "uin") || same_text(name, "p_uin") || same_text(name, "p_skey") || same_text(
        name,
        "skey",
    ) || same_text(name, "pt4_token")
}

/// A cookie that a header can carry: its name ends at the first `=`, no semicolon cuts it short,
/// and no white space at its ends gets lost.
pub open spec fn plain_cookie(pair: (Seq<char>, Seq<char>)) -> bool {
    &&& forall|i: int| 0 <= i < pair.0.len() ==> #[trigger] pair.0[i] != '=' && pair.0[i] != ';'
    &&& forall|i: int| 0 <= i < pair.1.len() ==> #[trigger] pair.1[i] != ';'
    &&& trimmed(header_field(pair)) == header_field(pair)
}

/// A header begins with its first cookie.
proof fn lemma_header_head(pairs: Seq<(Seq<char>, Seq<char>)>)
    requires
        pairs.len() >= 2,
    ensures
        header_text(pairs) == header_field(pairs[0]) + seq![';', ' '] + header_text(
            pairs.drop_first(),
        ),
    decreases pairs.len(),
{
    let front = pairs.drop_last();
    let tail = pairs.drop_first();
    if pairs.len() == 2 {
        assert(header_text(front) == header_field(pairs[0]));
        assert(header_text(tail) == header_field(pairs[1]));
    } else {
        lemma_header_head(front);
        assert(front.drop_first() =~= tail.drop_last());
        assert(header_text(pairs) =~= header_field(pairs[0]) + seq![';', ' '] + header_text(tail));
    }
}

/// One blank before a text is trimmed away.
proof fn lemma_trim_blank(s: Seq<char>)
    ensures
        trimmed(seq![' '] + s) == trimmed(s),
{
    assert((seq![' '] + s).drop_first() =~= s);
}

/// Reading a header that was written gives the cookies back, also where one blank was put before
/// it.
proof fn lemma_reads_back(pairs: Seq<(Seq<char>, Seq<char>)>, blank: Seq<char>)
    requires
        pairs.len() > 0,
        forall|i: int| 0 <= i < pairs.len() ==> plain_cookie(#[trigger] pairs[i]),
        blank == Seq::<char>::empty() || blank == seq![' '],
    ensures
        header_fields(blank + header_text(pairs)) == pairs,
    decreases pairs.len(),
{
    let first = pairs[0];
    let field = header_field(first);
    assert(plain_cookie(first));
    let line = blank + header_text(pairs);
    let at = (blank + field).len() as int;
    if pairs.len() >= 2 {
        lemma_header_head(pairs);
    }
    assert(line.take(at) =~= blank + field);
    assert forall|i: int| 0 <= i < at implies #[trigger] line[i] != ';' by {
        let k = i - blank.len();
        if k >= 0 {
            assert(line[i] == field[k]);
            if k < first.0.len() {
                assert(field[k] == first.0[k]);
            } else if k > first.0.len() {
                assert(field[k] == first.1[k - first.0.len() - 1]);
            }
        }
    }
    lemma_first_index_is(line, ';', at);
    assert(trimmed(blank + field) == field) by {
        if blank == seq![' '] {
            lemma_trim_blank(field);
        } else {
            assert(blank + field =~= field);
        }
    }
    let split = first.0.len() as int;
    assert forall|i: int| 0 <= i < split implies #[trigger] field[i] != '=' by {
        assert(field[i] == first.0[i]);
    }
    assert(field[split] == '=');
    lemma_first_index_is(field, '=', split);
    assert(field.take(split) =~= first.0);
    assert(field.skip(split + 1) =~= first.1);
    assert(item_field(field) =~= seq![first]);
    if pairs.len() >= 2 {
        let tail = pairs.drop_first();
        assert forall|i: int| 0 <= i < tail.len() implies plain_cookie(#[trigger] tail[i]) by {
            assert(tail[i] == pairs[i + 1]);
        }
        assert(line.skip(at + 1) =~= seq![' '] + header_text(tail));
        lemma_reads_back(tail, seq![' ']);
        assert(pairs =~= seq![first] + tail);
    } else {
        assert(line =~= line.take(at));
        assert(pairs =~= seq![first]);
    }
}

/// Reading a header that was written for cookies that a header can carry gives those cookies back.
pub proof fn law_cookie_header_reads_back(pairs: Seq<(Seq<char>, Seq<char>)>)
    requires
        forall|i: int| 0 <= i < pairs.len() ==> plain_cookie(#[trigger] pairs[i]),
    ensures
        header_fields(header_text(pairs)) == pairs,
{
    if pairs.len() > 0 {
        lemma_reads_back(pairs, Seq::empty());
        assert(Seq::<char>::empty() + header_text(pairs) =~= header_text(pairs));
    } else {
        assert(header_fields(header_text(pairs)) =~= pairs);
    }
}

} // verus!
