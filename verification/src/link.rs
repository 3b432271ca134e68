//! Addresses: reading them, building them, and which of them the login trusts.

use vstd::prelude::*;
use vstd::string::*;

use crate::text::same_text;

verus! {

/// An error of the address parser: `url::ParseError`.
#[verifier::external_type_specification]
#[verifier::external_body]
pub struct ExParseError(url::ParseError);

/// The pairs of texts in `pairs`.
pub open spec fn pair_texts(pairs: Seq<(String, String)>) -> Seq<(Seq<char>, Seq<char>)> {
    Seq::new(pairs.len(), |i: int| (pairs[i].0@, pairs[i].1@))
}

/// An absolute address in its parts.
pub struct LoginUrl {
    /// The whole address, as the parser writes it.
    pub href: String,
    pub scheme: String,
    pub host: Option<String>,
    pub path: String,
    /// The decoded pairs of the query, in order.
    pub query: Vec<(String, String)>,
}

/// What a `LoginUrl` holds.
#[verifier::ext_equal]
pub struct UrlView {
    pub href: Seq<char>,
    pub scheme: Seq<char>,
    pub host: Option<Seq<char>>,
    pub path: Seq<char>,
    pub query: Seq<(Seq<char>, Seq<char>)>,
}

impl View for LoginUrl {
    type V = UrlView;

    open spec fn view(&self) -> UrlView {
        UrlView {
            href: self.href@,
            scheme: self.scheme@,
            host: match self.host {
                Some(host) => Some(host@),
                None => None,
            },
            path: self.path@,
            query: pair_texts(self.query@),
        }
    }
}

/// The address that `text` is, if it is an absolute one.
pub uninterp spec fn url_of(text: Seq<char>) -> Option<UrlView>;

/// The address that `location` leads to from the address `base`.
pub uninterp spec fn url_joined(base: Seq<char>, location: Seq<char>) -> Option<UrlView>;

/// The text of the address `base` with `pairs` added to its query.
pub uninterp spec fn url_with_pairs(base: Seq<char>, pairs: Seq<(Seq<char>, Seq<char>)>) -> Option<
    Seq<char>,
>;

/// Reads an absolute address.
///
/// Calls `url::Url::parse` and takes the address apart with `as_str`, `scheme`, `host_str`,
/// `path` and `query_pairs`; the parts are called `url_of` here.
#[verifier::external_body]
fn parse_url(text: &str) -> (parsed: Result<LoginUrl, url::ParseError>)
    ensures
        match parsed {
            Ok(url) => url_of(text@) == Some(url@),
            Err(_) => url_of(text@) is None,
        },
{
    let url = url::Url::parse(text)?;
    Ok(LoginUrl {
        href: url.as_str().to_owned(),
        scheme: url.scheme().to_owned(),
        host: url.host_str().map(str::to_owned),
        path: url.path().to_owned(),
        query: url.query_pairs().into_owned().collect(),
    })
}

/// Reads the address `location` relative to the absolute address `base`.
///
/// Calls `url::Url::join` on the parsed `base` and takes the result apart as `parse_url` does;
/// the parts are called `url_joined` here.
#[verifier::external_body]
fn join_url(base: &str, location: &str) -> (joined: Result<LoginUrl, url::ParseError>)
    ensures
        match joined {
            Ok(url) => url_joined(base@, location@) == Some(url@),
            Err(_) => url_joined(base@, location@) is None,
        },
{
    let url = url::Url::parse(base)?.join(location)?;
    Ok(LoginUrl {
        href: url.as_str().to_owned(),
        scheme: url.scheme().to_owned(),
        host: url.host_str().map(str::to_owned),
        path: url.path().to_owned(),
        query: url.query_pairs().into_owned().collect(),
    })
}

/// Adds `pairs` to the query of the absolute address `base`.
///
/// Calls `url::Url::parse_with_params`; the text of the result is called `url_with_pairs` here.
/// It fails where `url::Url::parse` does on the base, and nowhere else. The base must leave room
/// for positions of 32 bits and have no fragment, which the pairs would have to be put in front
/// of.
#[verifier::external_body]
fn extend_url(base: &str, pairs: &Vec<(String, String)>) -> (url: Result<String, url::ParseError>)
    requires
        base@.len() <= 0x1000_0000,
        !base@.contains('#'),
    ensures
        match url {
            Ok(text) => url_with_pairs(base@, pair_texts(pairs@)) == Some(text@),
            Err(_) => url_with_pairs(base@, pair_texts(pairs@)) is None,
        },
        url is Ok <==> url_of(base@) is Some,
{
    Ok(url::Url::parse_with_params(base, pairs)?.as_str().to_owned())
}

/// The address `base` with `pairs` in its query, or the message `failure` where `base` is none.
pub fn query_url(base: &str, pairs: &Vec<(String, String)>, failure: &str) -> (url: Result<
    String,
    String,
>)
    requires
        base@.len() <= 0x1000_0000,
        !base@.contains('#'),
    ensures
        match url {
            Ok(text) => url_with_pairs(base@, pair_texts(pairs@)) == Some(text@),
            Err(message) => url_of(base@) is None && message@ == failure@,
        },
        url is Ok <==> url_of(base@) is Some,
{
    match extend_url(base, pairs) {
        Ok(text) => Ok(text),
        Err(_) => Err(failure.to_owned()),
    }
}

/// The address that a redirection from `base` to `location` leads to, if there is one.
pub fn redirect_target(base: &LoginUrl, location: &str) -> (target: Option<LoginUrl>)
    ensures
        match target {
            Some(url) => url_joined(base@.href, location@) == Some(url@),
            None => url_joined(base@.href, location@) is None,
        },
{
    match join_url(base.href.as_str(), location) {
        Ok(url) => Some(url),
        Err(_) => None,
    }
}

/// A host of the login service itself.
pub open spec fn login_host(host: Seq<char>) -> bool {
    host == "ptlogin2.qzone.qq.com"@ || host == "ssl.ptlogin2.qq.com"@ || host
        == "ptlogin2.qq.com"@
}

/// An address that a login may be led over: an encrypted one, on a host of the login service or
/// on one of the front pages of Qzone.
pub open spec fn trusted_hop(url: UrlView) -> bool {
    &&& url.scheme == "https"@
    &&& url.host matches Some(host) && {
        ||| login_host(host)
        ||| (host == "qzone.qq.com"@ || host == "h5.qzone.qq.com"@) && (url.path == "/"@ || url.path
            == "/mqzone/index"@ || url.path == "/index"@)
    }
}

fn is_login_host(host: &str) -> (found: bool)
    ensures
        found == login_host(host@),
{
    same_text(host, "ptlogin2.qzone.qq.com") || same_text(host, "ssl.ptlogin2.qq.com") || same_text(
        host,
        "ptlogin2.qq.com",
    )
}

/// Whether a login may be led over `url`.
pub fn validate_login_hop(url: &LoginUrl) -> (trusted: bool)
    ensures
        trusted == trusted_hop(url@),
{
    if !same_text(url.scheme.as_str(), "https") {
        return false;
    }
    match &url.host {
        Some(host) => {
            if is_login_host(host.as_str()) {
                true
            } else if same_text(host.as_str(), "qzone.qq.com") || same_text(
                host.as_str(),
                "h5.qzone.qq.com",
            ) {
                let path = url.path.as_str();
                same_text(path, "/") || same_text(path, "/mqzone/index") || same_text(
                    path,
                    "/index",
                )
            } else {
                false
            }
        },
        None => false,
    }
}

/// The query has the name `name` with a value that is not empty.
pub open spec fn has_value(query: Seq<(Seq<char>, Seq<char>)>, name: Seq<char>) -> bool {
    exists|i: int| 0 <= i < query.len() && (#[trigger] query[i]).0 == name && query[i].1.len() > 0
}

/// The address under which the login service confirms a login.
pub open spec fn check_address(url: UrlView) -> bool {
    &&& url.scheme == "https"@
    &&& url.host matches Some(host) && login_host(host)
    &&& url.path == "/check_sig"@
}

/// The query names an account and holds a signature for it.
pub open spec fn signed_query(query: Seq<(Seq<char>, Seq<char>)>) -> bool {
    has_value(query, "uin"@) && has_value(query, "ptsigx"@)
}

/// Whether `query` has the name `name` with a value that is not empty.
fn query_has(query: &Vec<(String, String)>, name: &str) -> (found: bool)
    ensures
        found == has_value(pair_texts(query@), name@),
{
    let mut i: usize = 0;
    while i < query.len()
        invariant
            i <= query.len(),
            forall|j: int|
                0 <= j < i ==> !((#[trigger] pair_texts(query@)[j]).0 == name@ && pair_texts(
                    query@,
                )[j].1.len() > 0),
        decreases query.len() - i,
    {
        let pair = &query[i];
        assert(pair_texts(query@)[i as int] == (pair.0@, pair.1@));
        if same_text(pair.0.as_str(), name) && !pair.1.as_str().is_empty() {
            return true;
        }
        i += 1;
    }
    false
}

/// Checks the address that confirms a login, as far as it could be read at all.
pub fn check_success_url(parsed: Option<LoginUrl>) -> (checked: Result<LoginUrl, String>)
    ensures
        match parsed {
            None => checked matches Err(message) && message@ == "登录跳转地址无效"@,
            Some(url) => if !check_address(url@) {
                checked matches Err(message) && message@ == "登录跳转地址不受信任"@
            } else if !signed_query(url@.query) {
                checked matches Err(message) && message@ == "登录跳转信息不完整"@
            } else {
                checked == Ok::<LoginUrl, String>(url)
            },
        },
{
    let url = match parsed {
        Some(url) => url,
        None => return Err("登录跳转地址无效".to_owned()),
    };
    let allowed = match &url.host {
        Some(host) => is_login_host(host.as_str()),
        None => false,
    };
    if !same_text(url.scheme.as_str(), "https") || !allowed || !same_text(
        url.path.as_str(),
        "/check_sig",
    ) {
        return Err("登录跳转地址不受信任".to_owned());
    }
    if !query_has(&url.query, "uin") || !query_has(&url.query, "ptsigx") {
        return Err("登录跳转信息不完整".to_owned());
    }
    Ok(url)
}

/// The address `value` that confirms a login, or why it is none.
pub fn validate_success_url(value: &str) -> (checked: Result<LoginUrl, String>)
    ensures
        match url_of(value@) {
            None => checked matches Err(message) && message@ == "登录跳转地址无效"@,
            Some(url) => if !check_address(url) {
                checked matches Err(message) && message@ == "登录跳转地址不受信任"@
            } else if !signed_query(url.query) {
                checked matches Err(message) && message@ == "登录跳转信息不完整"@
            } else {
                checked matches Ok(found) && found@ == url
            },
        },
{
    match parse_url(value) {
        Ok(url) => check_success_url(Some(url)),
        Err(_) => check_success_url(None),
    }
}

/// The value of the first pair with the name `name`.
pub open spec fn first_value(query: Seq<(Seq<char>, Seq<char>)>, name: Seq<char>) -> Option<
    Seq<char>,
>
    decreases query.len(),
{
    if query.len() == 0 {
        None
    } else if query[0].0 == name {
        Some(query[0].1)
    } else {
        first_value(query.drop_first(), name)
    }
}

/// The value of the first pair of `query` with the name `name`.
pub fn query_value<'a>(query: &'a Vec<(String, String)>, name: &str) -> (value: Option<&'a String>)
    ensures
        match value {
            Some(v) => first_value(pair_texts(query@), name@) == Some(v@),
            None => first_value(pair_texts(query@), name@) is None,
        },
{
    let ghost all = pair_texts(query@);
    let mut i: usize = 0;
    assert(all.skip(0) =~= all);
    while i < query.len()
        invariant
            i <= query.len(),
            all == pair_texts(query@),
            first_value(all, name@) == first_value(all.skip(i as int), name@),
        decreases query.len() - i,
    {
        let pair = &query[i];
        assert(all.skip(i as int)[0] == (pair.0@, pair.1@));
        if same_text(pair.0.as_str(), name) {
            return Some(&pair.1);
        }
        assert(all.skip(i as int).drop_first() =~= all.skip(i + 1));
        i += 1;
    }
    assert(all.skip(query.len() as int).len() == 0);
    None
}

/// The address that confirms a login is one that a login may be led over, so the first request of
/// a confirmed login is always made.
pub proof fn law_success_address_is_trusted(url: UrlView)
    requires
        check_address(url),
    ensures
        trusted_hop(url),
{
}

} // verus!
