//! What holds of the login through a browser window and of logging out.

use vstd::prelude::*;
use vstd::string::*;

use crate::account::account_number;
use crate::agent::{agent_text, hash31};
use crate::cookies::{qq_domain, required_cookie};
use crate::laws_format::law_qq_domains;
use crate::laws_text::{law_account_is_read_as_written, only, writes_account};
use crate::poll::g_tk_of;
use crate::state::StateView;
use crate::status::StatusView;
use crate::text::{lemma_leading_run, lowered, skip_leading, white_space};
use crate::web::{
    after_revocation, cancelled_attempt, completed, cookie_views, law_only_login_cookies_are_cleared,
    login_cookie, login_cookie_positions, login_cookies, page_cookies, web_attempt_stands,
    web_outcome, CookieView, WebCheck, WebCookie,
};

verus! {

/// One of the five cookies of a QQ login.
pub open spec fn login_name(name: Seq<char>) -> bool {
    ||| name == seq!['u', 'i', 'n']
    ||| name == seq!['p', '_', 'u', 'i', 'n']
    ||| name == seq!['p', '_', 's', 'k', 'e', 'y']
    ||| name == seq!['s', 'k', 'e', 'y']
    ||| name == seq!['p', 't', '4', '_', 't', 'o', 'k', 'e', 'n']
}

/// There is something else than white space in `value`.
pub open spec fn has_content(value: Seq<char>) -> bool {
    exists|k: int| 0 <= k < value.len() && !white_space(#[trigger] value[k])
}

/// A domain of QQ, in letters of either case and with any number of dots before it.
pub open spec fn of_qq(domain: Seq<char>) -> bool {
    exists|n: int| {
        let low = lowered(domain.skip(n));
        &&& 0 <= n <= domain.len()
        &&& only(#[trigger] domain.take(n), '.')
        &&& {
            ||| low == seq!['q', 'q', '.', 'c', 'o', 'm']
            ||| low == seq!['i', '.', 'q', 'q', '.', 'c', 'o', 'm']
            ||| low == seq!['q', 'z', 'o', 'n', 'e', '.', 'q', 'q', '.', 'c', 'o', 'm']
        }
    }
}

/// A report of the kind `status` with the message `message` that belongs to no QR code.
pub open spec fn announces(report: StatusView, status: &str, message: &str) -> bool {
    &&& report.session_id is None
    &&& report.status == status@
    &&& report.message == message@
    &&& report.qr_image is None
}

/// The cookies that a login needs are the five of a QQ login.
pub proof fn law_five_cookies_are_needed(name: Seq<char>)
    ensures
        required_cookie(name) <==> login_name(name),
{
    reveal_strlit("uin");
    reveal_strlit("p_uin");
    reveal_strlit("p_skey");
    reveal_strlit("skey");
    reveal_strlit("pt4_token");
    assert("uin"@ =~= seq!['u', 'i', 'n']);
    assert("p_uin"@ =~= seq!['p', '_', 'u', 'i', 'n']);
    assert("p_skey"@ =~= seq!['p', '_', 's', 'k', 'e', 'y']);
    assert("skey"@ =~= seq!['s', 'k', 'e', 'y']);
    assert("pt4_token"@ =~= seq!['p', 't', '4', '_', 't', 'o', 'k', 'e', 'n']);
}

/// The domains that login cookies may come from are those of QQ.
pub proof fn law_login_cookies_come_from_qq_domains(domain: Seq<char>)
    ensures
        qq_domain(domain) <==> of_qq(domain),
{
    let dot = |c: char| c == '.';
    if of_qq(domain) {
        let n = choose|n: int| {
            let low = lowered(domain.skip(n));
            &&& 0 <= n <= domain.len()
            &&& only(#[trigger] domain.take(n), '.')
            &&& {
                ||| low == seq!['q', 'q', '.', 'c', 'o', 'm']
                ||| low == seq!['i', '.', 'q', 'q', '.', 'c', 'o', 'm']
                ||| low == seq!['q', 'z', 'o', 'n', 'e', '.', 'q', 'q', '.', 'c', 'o', 'm']
            }
        };
        let name = domain.skip(n);
        let low = lowered(name);
        assert(low.len() == name.len());
        assert(low[0] == 'q' || low[0] == 'i');
        assert(name[0] != '.');
        assert(domain =~= domain.take(n) + name);
        law_qq_domains(domain.take(n), name);
    }
    if qq_domain(domain) {
        lemma_leading_run(domain, dot);
        let n = choose|n: int|
            0 <= n <= domain.len() && (forall|i: int| 0 <= i < n ==> dot(#[trigger] domain[i])) && (n
                < domain.len() ==> !dot(domain[n])) && #[trigger] domain.skip(n) == skip_leading(
                domain,
                dot,
            );
        let dots = domain.take(n);
        assert forall|i: int| 0 <= i < dots.len() implies #[trigger] dots[i] == '.' by {
            assert(dot(domain[i]));
        }
        assert(only(dots, '.'));
        let name = domain.skip(n);
        if name.len() > 0 {
            assert(name[0] == domain[n]);
        }
        assert(domain =~= dots + name);
        law_qq_domains(dots, name);
    }
}

/// The view of a cookie shows it in full, and that of a list shows all of them in order.
pub proof fn law_cookies_are_shown_in_full(cookie: WebCookie, list: Seq<WebCookie>, i: int)
    ensures
        cookie@.name == cookie.name@,
        cookie@.value == cookie.value@,
        cookie@.domain is Some <==> cookie.domain is Some,
        cookie.domain matches Some(domain) ==> cookie@.domain == Some(domain@),
        cookie_views(list).len() == list.len(),
        0 <= i < list.len() ==> cookie_views(list)[i] == list[i]@,
{
}

/// Of the cookies of the page each of the five that has content is taken, with its whole value;
/// a later one of the same name replaces an earlier one.
pub proof fn law_page_cookies_are_taken(list: Seq<CookieView>, cookie: CookieView)
    ensures
        page_cookies(Seq::empty()) == Map::<Seq<char>, Seq<char>>::empty(),
        login_name(cookie.name) && has_content(cookie.value) ==> page_cookies(list.push(cookie))
            == page_cookies(list).insert(cookie.name, cookie.value),
        !login_name(cookie.name) || !has_content(cookie.value) ==> page_cookies(list.push(cookie))
            == page_cookies(list),
{
    law_five_cookies_are_needed(cookie.name);
    assert(list.push(cookie).drop_last() =~= list);
}

/// Of the cookies of the window each of the five that has content and comes from QQ fills a gap,
/// with its whole value; what is there already stays.
pub proof fn law_window_cookies_fill_gaps(
    found: Map<Seq<char>, Seq<char>>,
    list: Seq<CookieView>,
    cookie: CookieView,
)
    ensures
        completed(found, Seq::empty()) == found,
        ({
            let before = completed(found, list);
            let after = completed(found, list.push(cookie));
            let fills = login_name(cookie.name) && has_content(cookie.value) && (
            cookie.domain matches Some(domain) && of_qq(domain)) && !before.contains_key(
                cookie.name,
            );
            &&& fills ==> after == before.insert(cookie.name, cookie.value)
            &&& !fills ==> after == before
        }),
{
    law_five_cookies_are_needed(cookie.name);
    if let Some(domain) = cookie.domain {
        law_login_cookies_come_from_qq_domains(domain);
    }
    assert(list.push(cookie).drop_last() =~= list);
}

/// The cookies of the window are asked only where the page itself has no session key.
pub proof fn law_window_is_asked_only_without_a_key(page: Seq<CookieView>, all: Seq<CookieView>)
    ensures
        page_cookies(page).contains_key("p_skey"@) ==> login_cookies(page, all) == page_cookies(
            page,
        ),
        !page_cookies(page).contains_key("p_skey"@) ==> login_cookies(page, all) == completed(
            page_cookies(page),
            all,
        ),
{
}

/// The account that the cookie `name` writes is `number`.
pub open spec fn names(
    cookies: Map<Seq<char>, Seq<char>>,
    name: Seq<char>,
    number: Seq<char>,
) -> bool {
    cookies.contains_key(name) && writes_account(cookies[name], number)
}

/// The cookie `name` writes no account.
pub open spec fn names_nobody(cookies: Map<Seq<char>, Seq<char>>, name: Seq<char>) -> bool {
    forall|number: Seq<char>| !#[trigger] names(cookies, name, number)
}

proof fn lemma_names(cookies: Map<Seq<char>, Seq<char>>, name: Seq<char>, number: Seq<char>)
    ensures
        names(cookies, name, number) <==> cookies.contains_key(name) && account_number(
            cookies[name],
        ) == Some(number),
        names_nobody(cookies, name) <==> !cookies.contains_key(name) || account_number(
            cookies[name],
        ) is None,
{
    law_account_is_read_as_written(cookies[name], number);
    if cookies.contains_key(name) && account_number(cookies[name]) is Some {
        let found = account_number(cookies[name])->0;
        law_account_is_read_as_written(cookies[name], found);
        assert(names(cookies, name, found));
    } else {
        assert forall|any: Seq<char>| !#[trigger] names(cookies, name, any) by {
            law_account_is_read_as_written(cookies[name], any);
        }
    }
}

/// A browser login succeeds where there is a session key and `uin` and `p_uin` name one account
/// between them. The session then has all of these cookies, this account and attempt, the token of
/// the key and the user agent of the account.
pub proof fn law_which_browser_logins_succeed(
    attempt: u64,
    cookies: Map<Seq<char>, Seq<char>>,
    check: Result<WebCheck, String>,
    number: Seq<char>,
    other: Seq<char>,
)
    requires
        web_outcome(attempt, cookies, check),
    ensures
        ({
            let keyed = cookies.contains_key("p_skey"@) && cookies["p_skey"@].len() > 0;
            let by_uin = names(cookies, "uin"@, number) && (names(cookies, "p_uin"@, number)
                || names_nobody(cookies, "p_uin"@));
            let by_p_uin = names_nobody(cookies, "uin"@) && names(cookies, "p_uin"@, number);
            &&& !keyed ==> (check matches Ok(WebCheck::Waiting(report)) && announces(
                report@,
                "webLoginWaiting",
                "等待登录完成…",
            ))
            &&& keyed && (by_uin || by_p_uin) ==> {
                &&& check matches Ok(WebCheck::Ready(login))
                &&& login.cookies@ == cookies
                &&& login@.uin == Some(number)
                &&& login@.g_tk == Some(g_tk_of(cookies["p_skey"@]))
                &&& login@.user_agent == agent_text(
                    (hash31(vstd::utf8::encode_utf8(number)) as int % 0x1_0000_0000) % 6,
                )
                &&& login@.web_attempt == Some(attempt)
            }
            &&& keyed && number != other && names(cookies, "uin"@, number) && names(
                cookies,
                "p_uin"@,
                other,
            ) ==> (check matches Err(message) && message@ == "登录 Cookie 中的账号标识不一致"@)
            &&& keyed && names_nobody(cookies, "uin"@) && names_nobody(cookies, "p_uin"@) ==> (
            check matches Err(message) && message@ == "登录 Cookie 缺少有效账号标识"@)
        }),
{
    lemma_names(cookies, "uin"@, number);
    lemma_names(cookies, "p_uin"@, number);
    lemma_names(cookies, "p_uin"@, other);
}

/// The request token of a browser login depends on its session key alone: two logins with one key
/// have one token, whatever other cookies they have. Its user agent depends on the account alone.
pub proof fn law_browser_token_comes_from_the_session_key(
    attempt: u64,
    cookies: Map<Seq<char>, Seq<char>>,
    check: Result<WebCheck, String>,
    other_attempt: u64,
    other_cookies: Map<Seq<char>, Seq<char>>,
    other_check: Result<WebCheck, String>,
)
    requires
        web_outcome(attempt, cookies, check),
        web_outcome(other_attempt, other_cookies, other_check),
    ensures
        match (check, other_check) {
            (Ok(WebCheck::Ready(a)), Ok(WebCheck::Ready(b))) => {
                &&& a@.g_tk == Some(g_tk_of(cookies["p_skey"@]))
                &&& b@.g_tk == Some(g_tk_of(other_cookies["p_skey"@]))
                &&& cookies["p_skey"@] == other_cookies["p_skey"@] ==> a@.g_tk == b@.g_tk
                &&& a@.uin == b@.uin ==> a@.user_agent == b@.user_agent
            },
            _ => true,
        },
{
}

/// Every cookie of a QQ domain that has one of the names `uin`, `p_uin`, `p_skey`, `skey` and
/// `pt4_token` is deleted on logging out, whatever its value, and no other cookie is. The positions
/// go up.
pub proof fn law_all_login_cookies_are_cleared(list: Seq<CookieView>, i: int)
    ensures
        login_cookie_positions(list, list.len() as int).contains(i) <==> {
            &&& 0 <= i < list.len()
            &&& list[i].domain matches Some(domain) && of_qq(domain)
            &&& {
                let name = list[i].name;
                ||| name == seq!['u', 'i', 'n']
                ||| name == seq!['p', '_', 'u', 'i', 'n']
                ||| name == seq!['p', '_', 's', 'k', 'e', 'y']
                ||| name == seq!['s', 'k', 'e', 'y']
                ||| name == seq!['p', 't', '4', '_', 't', 'o', 'k', 'e', 'n']
            }
        },
        forall|a: int, b: int|
            0 <= a < b < login_cookie_positions(list, list.len() as int).len() ==> (
            #[trigger] login_cookie_positions(list, list.len() as int)[a]) < (
            #[trigger] login_cookie_positions(list, list.len() as int)[b]),
{
    law_only_login_cookies_are_cleared(list);
    lemma_positions_go_up(list, list.len() as int);
    if 0 <= i < list.len() {
        law_five_cookies_are_needed(list[i].name);
        if let Some(domain) = list[i].domain {
            law_login_cookies_come_from_qq_domains(domain);
        }
        assert(login_cookie_positions(list, list.len() as int).contains(i) <==> login_cookie(
            list[i],
        ));
    } else {
        assert(!login_cookie_positions(list, list.len() as int).contains(i));
    }
}

proof fn lemma_positions_go_up(list: Seq<CookieView>, n: int)
    requires
        0 <= n <= list.len(),
    ensures
        forall|k: int|
            0 <= k < login_cookie_positions(list, n).len() ==> (#[trigger] login_cookie_positions(
                list,
                n,
            )[k]) < n,
        forall|a: int, b: int|
            0 <= a < b < login_cookie_positions(list, n).len() ==> (#[trigger] login_cookie_positions(
                list,
                n,
            )[a]) < (#[trigger] login_cookie_positions(list, n)[b]),
    decreases n,
{
    if n > 0 {
        let before = login_cookie_positions(list, n - 1);
        let now = login_cookie_positions(list, n);
        lemma_positions_go_up(list, n - 1);
        assert forall|k: int| 0 <= k < now.len() implies (#[trigger] now[k]) < n by {
            if k < before.len() {
                assert(before[k] < n - 1);
            }
        }
        assert forall|a: int, b: int| 0 <= a < b < now.len() implies (#[trigger] now[a]) < (
        #[trigger] now[b]) by {
            assert(before[a] < n - 1);
            if b < before.len() {
                assert(before[a] < before[b]);
            }
        }
    }
}

/// Cancelling names the attempt that is under way, if there is one, and revoking it changes nothing
/// but the session that it brought about and the number of attempts.
pub proof fn law_revoking_changes_little(before: StateView, attempt: Option<u64>)
    ensures
        before.active_web_attempt == 0 ==> cancelled_attempt(before) is None,
        before.active_web_attempt != 0 ==> cancelled_attempt(before) == Some(
            before.active_web_attempt,
        ),
        ({
            let after = after_revocation(before, attempt);
            &&& attempt is None || before.session is None || before.session->0.web_attempt != attempt
                ==> after.session == before.session
            &&& attempt is Some && before.session is Some && before.session->0.web_attempt == attempt
                ==> after.session is None
            &&& before.web_generation < u64::MAX ==> after.web_generation == before.web_generation
                + 1
            &&& after.sessions == before.sessions
            &&& after.last_user_agent == before.last_user_agent
            &&& after.user_agent_sequence == before.user_agent_sequence
            &&& after.generation == before.generation
            &&& after.cancel_epochs == before.cancel_epochs
            &&& after.in_flight == before.in_flight
            &&& after.active_web_attempt == before.active_web_attempt
        }),
{
}

/// An attempt counts while it is the one under way and its window is open.
pub proof fn law_attempts_count_in_open_windows(state: StateView, attempt: u64)
    ensures
        web_attempt_stands(state, state.active_web_attempt, true),
        !web_attempt_stands(state, attempt, false),
        attempt != state.active_web_attempt ==> !web_attempt_stands(state, attempt, true),
{
}

} // verus!
