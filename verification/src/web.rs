//! Logging in through a browser window.

use vstd::prelude::*;

use crate::account::{account_number, normalized_uin};
use crate::agent::{account_user_agent, agent_text, hash31};
use crate::cookies::{
    allowed_qq_cookie_domain, is_required_cookie, qq_domain, required_cookie, Cookies,
};
use crate::poll::g_tk_of;
use crate::session::LoginSession;
use crate::state::{QLoginState, StateView};
use crate::status::{opt_text, plain_report, plain_status, LoginStatus};
use crate::text::{blank, is_blank, same_text};
use crate::token::bkn;

verus! {

/// The page that the browser window shows.
pub const WEB_LOGIN_URL: &'static str = "https://i.qq.com";

/// The name of the browser window.
pub const WEB_LOGIN_WINDOW_LABEL: &'static str = "qq-web-login";

/// What is said where the browser window cannot be opened.
pub const WEB_LOGIN_OPEN_ERROR: &'static str = "无法打开 QQ 登录窗口，请稍后重试";

/// How often it is checked whether a window that was told to close is gone.
pub const WEB_LOGIN_CLOSE_POLL_ATTEMPTS: usize = 20;

/// The time between two such checks, in milliseconds.
pub const WEB_LOGIN_CLOSE_POLL_INTERVAL_MS: u64 = 25;

/// A cookie of a browser window.
pub struct WebCookie {
    pub name: String,
    pub value: String,
    pub domain: Option<String>,
}

/// What a `WebCookie` holds.
#[verifier::ext_equal]
pub struct CookieView {
    pub name: Seq<char>,
    pub value: Seq<char>,
    pub domain: Option<Seq<char>>,
}

impl View for WebCookie {
    type V = CookieView;

    open spec fn view(&self) -> CookieView {
        CookieView { name: self.name@, value: self.value@, domain: opt_text(self.domain) }
    }
}

impl CookieView {
    /// The cookie is one that the login needs, and its value is not blank.
    pub open spec fn useful(self) -> bool {
        required_cookie(self.name) && !blank(self.value)
    }

    /// The cookie comes from a domain of QQ.
    pub open spec fn from_qq(self) -> bool {
        self.domain matches Some(domain) && qq_domain(domain)
    }
}

/// The cookies in `list`.
pub open spec fn cookie_views(list: Seq<WebCookie>) -> Seq<CookieView> {
    Seq::new(list.len(), |i: int| list[i]@)
}

impl WebCookie {
    fn is_useful(&self) -> (useful: bool)
        ensures
            useful == self@.useful(),
    {
        is_required_cookie(self.name.as_str()) && !is_blank(self.value.as_str())
    }

    fn is_from_qq(&self) -> (found: bool)
        ensures
            found == self@.from_qq(),
    {
        match &self.domain {
            Some(domain) => allowed_qq_cookie_domain(Some(domain.as_str())),
            None => allowed_qq_cookie_domain(None),
        }
    }
}

/// The useful cookies of `list`; of two with one name the later one stays.
pub open spec fn page_cookies(list: Seq<CookieView>) -> Map<Seq<char>, Seq<char>>
    decreases list.len(),
{
    if list.len() == 0 {
        Map::empty()
    } else {
        let before = page_cookies(list.drop_last());
        if list.last().useful() {
            before.insert(list.last().name, list.last().value)
        } else {
            before
        }
    }
}

/// `found` and, for the names that it lacks, the first useful cookie of a QQ domain in `list`.
pub open spec fn completed(found: Map<Seq<char>, Seq<char>>, list: Seq<CookieView>) -> Map<
    Seq<char>,
    Seq<char>,
>
    decreases list.len(),
{
    if list.len() == 0 {
        found
    } else {
        let before = completed(found, list.drop_last());
        let last = list.last();
        if last.useful() && last.from_qq() && !before.contains_key(last.name) {
            before.insert(last.name, last.value)
        } else {
            before
        }
    }
}

/// The cookies of a login: those of the page `page`, and those of the whole window `all` only
/// where the page has no session key.
pub open spec fn login_cookies(page: Seq<CookieView>, all: Seq<CookieView>) -> Map<
    Seq<char>,
    Seq<char>,
> {
    let found = page_cookies(page);
    if found.contains_key("p_skey"@) {
        found
    } else {
        completed(found, all)
    }
}

/// No session key in `found` is empty: blank cookies are never taken.
proof fn lemma_page_cookies_filled(list: Seq<CookieView>)
    ensures
        forall|name: Seq<char>| #[trigger]
            page_cookies(list).contains_key(name) ==> required_cookie(name) && !blank(
                page_cookies(list)[name],
            ),
    decreases list.len(),
{
    if list.len() > 0 {
        lemma_page_cookies_filled(list.drop_last());
        assert forall|name: Seq<char>| #[trigger]
            page_cookies(list).contains_key(name) implies required_cookie(name) && !blank(
            page_cookies(list)[name],
        ) by {
            assert(page_cookies(list.drop_last()).contains_key(name) || name == list.last().name);
        }
    }
}

/// A cookie that was completed is one that the login needs, and its value is not blank.
proof fn lemma_completed_filled(found: Map<Seq<char>, Seq<char>>, list: Seq<CookieView>)
    requires
        forall|name: Seq<char>| #[trigger]
            found.contains_key(name) ==> required_cookie(name) && !blank(found[name]),
    ensures
        forall|name: Seq<char>| #[trigger]
            completed(found, list).contains_key(name) ==> required_cookie(name) && !blank(
                completed(found, list)[name],
            ),
    decreases list.len(),
{
    if list.len() > 0 {
        lemma_completed_filled(found, list.drop_last());
        assert forall|name: Seq<char>| #[trigger]
            completed(found, list).contains_key(name) implies required_cookie(name) && !blank(
            completed(found, list)[name],
        ) by {
            assert(completed(found, list.drop_last()).contains_key(name) || name
                == list.last().name);
        }
    }
}

/// A login keeps nothing from a browser window but the cookies that it needs, and none of them
/// blank.
pub proof fn law_only_required_cookies_are_taken(page: Seq<CookieView>, all: Seq<CookieView>)
    ensures
        forall|name: Seq<char>| #[trigger]
            login_cookies(page, all).contains_key(name) ==> required_cookie(name) && !blank(
                login_cookies(page, all)[name],
            ),
{
    lemma_page_cookies_filled(page);
    lemma_completed_filled(page_cookies(page), all);
}

/// What the page itself has is never replaced by a cookie from elsewhere in the window.
pub proof fn law_page_cookies_come_first(page: Seq<CookieView>, all: Seq<CookieView>)
    ensures
        forall|name: Seq<char>| #[trigger]
            page_cookies(page).contains_key(name) ==> login_cookies(page, all).contains_key(name)
                && login_cookies(page, all)[name] == page_cookies(page)[name],
{
    lemma_completed_keeps(page_cookies(page), all);
}

proof fn lemma_completed_keeps(found: Map<Seq<char>, Seq<char>>, list: Seq<CookieView>)
    ensures
        forall|name: Seq<char>| #[trigger]
            found.contains_key(name) ==> completed(found, list).contains_key(name) && completed(
                found,
                list,
            )[name] == found[name],
    decreases list.len(),
{
    if list.len() > 0 {
        lemma_completed_keeps(found, list.drop_last());
    }
}

/// A cookie that the page itself does not have comes from a QQ domain.
pub proof fn law_other_cookies_come_from_qq(page: Seq<CookieView>, all: Seq<CookieView>)
    ensures
        forall|name: Seq<char>| #[trigger]
            login_cookies(page, all).contains_key(name) && !page_cookies(page).contains_key(name)
                ==> exists|i: int|
                0 <= i < all.len() && (#[trigger] all[i]).from_qq() && all[i].name == name
                    && all[i].value == login_cookies(page, all)[name],
{
    lemma_completed_from_qq(page_cookies(page), all);
}

proof fn lemma_completed_from_qq(found: Map<Seq<char>, Seq<char>>, list: Seq<CookieView>)
    ensures
        forall|name: Seq<char>| #[trigger]
            completed(found, list).contains_key(name) && !found.contains_key(name) ==> exists|
                i: int,
            |
                0 <= i < list.len() && (#[trigger] list[i]).from_qq() && list[i].name == name
                    && list[i].value == completed(found, list)[name],
    decreases list.len(),
{
    if list.len() > 0 {
        let front = list.drop_last();
        lemma_completed_from_qq(found, front);
        assert forall|name: Seq<char>| #[trigger]
            completed(found, list).contains_key(name) && !found.contains_key(
                name,
            ) implies exists|i: int|
            0 <= i < list.len() && (#[trigger] list[i]).from_qq() && list[i].name == name
                && list[i].value == completed(found, list)[name] by {
            if completed(found, front).contains_key(name) {
                let i = choose|i: int|
                    0 <= i < front.len() && (#[trigger] front[i]).from_qq() && front[i].name == name
                        && front[i].value == completed(found, front)[name];
                assert(list[i] == front[i]);
            } else {
                assert(list[list.len() - 1].from_qq());
            }
        }
    }
}

/// Collects the cookies of a login from the page and, where need be, from the whole window.
pub fn collect_cookies(page: &Vec<WebCookie>, all: &Vec<WebCookie>) -> (cookies: Cookies)
    ensures
        cookies@ == login_cookies(cookie_views(page@), cookie_views(all@)),
{
    let mut cookies = Cookies::new();
    let ghost views = cookie_views(page@);
    let mut i: usize = 0;
    assert(views.take(0) =~= Seq::<CookieView>::empty());
    while i < page.len()
        invariant
            i <= page.len(),
            views == cookie_views(page@),
            cookies@ == page_cookies(views.take(i as int)),
        decreases page.len() - i,
    {
        assert(views.take(i + 1).drop_last() =~= views.take(i as int));
        assert(views.take(i + 1).last() == page@[i as int]@);
        if page[i].is_useful() {
            cookies.insert(page[i].name.clone(), page[i].value.clone());
        }
        i += 1;
    }
    assert(views.take(page.len() as int) =~= views);
    if cookies.get("p_skey").is_some() {
        return cookies;
    }
    let ghost found = cookies@;
    let ghost rest = cookie_views(all@);
    let mut j: usize = 0;
    assert(rest.take(0) =~= Seq::<CookieView>::empty());
    while j < all.len()
        invariant
            j <= all.len(),
            rest == cookie_views(all@),
            cookies@ == completed(found, rest.take(j as int)),
        decreases all.len() - j,
    {
        assert(rest.take(j + 1).drop_last() =~= rest.take(j as int));
        assert(rest.take(j + 1).last() == all@[j as int]@);
        let known = cookies.get(all[j].name.as_str()).is_some();
        if all[j].is_useful() && all[j].is_from_qq() && !known {
            cookies.insert(all[j].name.clone(), all[j].value.clone());
        }
        j += 1;
    }
    assert(rest.take(all.len() as int) =~= rest);
    cookies
}

/// What the cookies of the browser window amount to.
pub enum WebCheck {
    /// The user has not logged in yet.
    Waiting(LoginStatus),
    /// The session of the account that was logged in.
    Ready(LoginSession),
}

/// The account that the cookie `name` names.
pub open spec fn named_account(cookies: Map<Seq<char>, Seq<char>>, name: Seq<char>) -> Option<
    Seq<char>,
> {
    if cookies.contains_key(name) {
        account_number(cookies[name])
    } else {
        None
    }
}

/// What the cookies `cookies` of the attempt `attempt` amount to.
pub open spec fn web_outcome(
    attempt: u64,
    cookies: Map<Seq<char>, Seq<char>>,
    check: Result<WebCheck, String>,
) -> bool {
    let uin = named_account(cookies, "uin"@);
    let p_uin = named_account(cookies, "p_uin"@);
    if !cookies.contains_key("p_skey"@) || cookies["p_skey"@].len() == 0 {
        &&& check matches Ok(WebCheck::Waiting(report))
        &&& report@ == plain_report("webLoginWaiting", "等待登录完成…")
    } else if uin is Some && p_uin is Some && uin != p_uin {
        check matches Err(message) && message@ == "登录 Cookie 中的账号标识不一致"@
    } else if uin is None && p_uin is None {
        check matches Err(message) && message@ == "登录 Cookie 缺少有效账号标识"@
    } else {
        let account = if uin is Some {
            uin->0
        } else {
            p_uin->0
        };
        &&& check matches Ok(WebCheck::Ready(login))
        &&& login.cookies@ == cookies
        &&& login@.uin == Some(account)
        &&& login@.g_tk == Some(g_tk_of(cookies["p_skey"@]))
        &&& login@.user_agent == agent_text(
            (hash31(vstd::utf8::encode_utf8(account)) as int % 0x1_0000_0000) % 6,
        )
        &&& login@.web_attempt == Some(attempt)
    }
}

/// Makes the session of the account out of the cookies of the attempt `attempt`.
pub fn web_credentials(attempt: u64, cookies: Cookies) -> (check: Result<WebCheck, String>)
    ensures
        web_outcome(attempt, cookies@, check),
        check matches Ok(WebCheck::Ready(login)) ==> login.cookies == cookies,
{
    let key = match cookies.get("p_skey") {
        Some(key) => key.clone(),
        None => return Ok(WebCheck::Waiting(plain_status("webLoginWaiting", "等待登录完成…"))),
    };
    if key.as_str().is_empty() {
        return Ok(WebCheck::Waiting(plain_status("webLoginWaiting", "等待登录完成…")));
    }
    let uin = match cookies.get("uin") {
        Some(value) => normalized_uin(value.as_str()),
        None => None,
    };
    let p_uin = match cookies.get("p_uin") {
        Some(value) => normalized_uin(value.as_str()),
        None => None,
    };
    let account = match uin {
        Some(first) => {
            if let Some(second) = p_uin {
                if !same_text(first.as_str(), second.as_str()) {
                    return Err("登录 Cookie 中的账号标识不一致".to_owned());
                }
            }
            first
        },
        None => match p_uin {
            Some(second) => second,
            None => return Err("登录 Cookie 缺少有效账号标识".to_owned()),
        },
    };
    let user_agent = account_user_agent(account.as_str());
    Ok(
        WebCheck::Ready(
            LoginSession {
                cookies,
                uin: Some(account),
                g_tk: Some(bkn(key.as_str())),
                user_agent,
                web_attempt: Some(attempt),
            },
        ),
    )
}

/// Begins a check of the browser window, open or not: the attempt that it belongs to, or that
/// there is none.
pub fn begin_web_check(state: &QLoginState, window_open: bool) -> (attempt: Result<
    u64,
    LoginStatus,
>)
    ensures
        match attempt {
            Ok(found) => state@.active_web_attempt != 0 && window_open && found
                == state@.active_web_attempt,
            Err(report) => if state@.active_web_attempt == 0 {
                report@ == plain_report("webLoginCancelled", "网页登录已取消")
            } else {
                !window_open && report@ == plain_report("webLoginCancelled", "登录窗口已关闭")
            },
        },
{
    let attempt: u64 = state.active_web_attempt;
    if attempt == 0 {
        return Err(plain_status("webLoginCancelled", "网页登录已取消"));
    }
    if !window_open {
        return Err(plain_status("webLoginCancelled", "登录窗口已关闭"));
    }
    Ok(attempt)
}

/// What the cookies of the browser window amount to: those of the page `page`, and those of the
/// whole window `all`.
pub fn check_web_login(attempt: u64, page: &Vec<WebCookie>, all: &Vec<WebCookie>) -> (check: Result<
    WebCheck,
    String,
>)
    ensures
        web_outcome(attempt, login_cookies(cookie_views(page@), cookie_views(all@)), check),
{
    web_credentials(attempt, collect_cookies(page, all))
}

/// The login of the attempt `attempt` counts: its window is open, and no other attempt was made.
pub open spec fn web_attempt_stands(state: StateView, attempt: u64, window_open: bool) -> bool {
    state.active_web_attempt == attempt && window_open
}

/// How a login through a browser window ends.
pub enum WebCommit {
    /// The account is logged in; the window is to be closed.
    Close(LoginStatus),
    /// The attempt was given up; the window, if any, is left alone.
    Cancelled(LoginStatus),
}

/// Logs the account in through the attempt `attempt`, unless that was given up meanwhile.
pub fn commit_web_login(
    state: &mut QLoginState,
    attempt: u64,
    login: LoginSession,
    window_open: bool,
) -> (commit: WebCommit)
    ensures
        if web_attempt_stands(old(state)@, attempt, window_open) {
            &&& final(state)@ == (StateView {
                session: Some(login@),
                active_web_attempt: 0,
                ..old(state)@
            })
            &&& commit matches WebCommit::Close(report)
            &&& report@ == plain_report("success", "登录成功")
        } else {
            &&& final(state)@ == old(state)@
            &&& commit matches WebCommit::Cancelled(report)
            &&& report@ == plain_report("webLoginCancelled", "网页登录已取消")
        },
{
    if state.active_web_attempt != attempt || !window_open {
        return WebCommit::Cancelled(plain_status("webLoginCancelled", "网页登录已取消"));
    }
    state.session = Some(login);
    state.active_web_attempt = 0;
    WebCommit::Close(plain_status("success", "登录成功"))
}

/// How the opening of a browser window goes on.
pub enum OpenStep {
    /// The window is open already; it is to be brought to the front.
    Focus(LoginStatus),
    /// A window that no attempt belongs to is to be closed first.
    Close,
    /// There is no window yet.
    Open,
}

/// Decides what is to be done with a browser window that may be there already.
pub fn open_web_login(state: &QLoginState, window_open: bool) -> (step: OpenStep)
    ensures
        if !window_open {
            step is Open
        } else if state@.active_web_attempt != 0 {
            step matches OpenStep::Focus(report) && report@ == plain_report(
                "webLoginOpened",
                "登录窗口已打开，请在窗口中完成 QQ 登录",
            )
        } else {
            step is Close
        },
{
    if window_open {
        if state.active_web_attempt != 0 {
            return OpenStep::Focus(
                plain_status("webLoginOpened", "登录窗口已打开，请在窗口中完成 QQ 登录"),
            );
        }
        return OpenStep::Close;
    }
    OpenStep::Open
}

/// Whether to wait once more for a window to be gone, after `checks` checks.
pub fn keep_waiting(checks: usize, window_open: bool) -> (wait: bool)
    ensures
        wait == (window_open && checks < WEB_LOGIN_CLOSE_POLL_ATTEMPTS),
{
    window_open && checks < WEB_LOGIN_CLOSE_POLL_ATTEMPTS
}

/// Makes sure, once the waiting is over, that a browser window can be opened.
pub fn ready_to_open(state: &mut QLoginState, window_open: bool) -> (ready: Result<(), String>)
    ensures
        match ready {
            Ok(_) => !window_open && final(state)@ == old(state)@,
            Err(message) => {
                &&& window_open
                &&& message@ == WEB_LOGIN_OPEN_ERROR@
                &&& final(state)@ == (StateView { active_web_attempt: 0, ..old(state)@ })
            },
        },
{
    if window_open {
        state.active_web_attempt = 0;
        return Err(WEB_LOGIN_OPEN_ERROR.to_owned());
    }
    Ok(())
}

/// Begins a new attempt, for a browser window that has been opened.
pub fn web_login_opened(state: &mut QLoginState) -> (report: LoginStatus)
    requires
        old(state)@.web_generation < u64::MAX,
    ensures
        final(state)@ == (StateView {
            web_generation: (old(state)@.web_generation + 1) as u64,
            active_web_attempt: (old(state)@.web_generation + 1) as u64,
            ..old(state)@
        }),
        report@ == plain_report("webLoginOpened", "请在打开的窗口中完成 QQ 登录"),
{
    let attempt: u64 = state.web_generation + 1;
    state.web_generation = attempt;
    state.active_web_attempt = attempt;
    plain_status("webLoginOpened", "请在打开的窗口中完成 QQ 登录")
}

/// The attempt that is given up when the browser login is cancelled in the state `state`.
pub open spec fn cancelled_attempt(state: StateView) -> Option<u64> {
    if state.active_web_attempt != 0 {
        Some(state.active_web_attempt)
    } else {
        None
    }
}

/// Gives up the attempt that is under way, and names it. From here on it cannot log in.
pub fn capture_web_attempt(state: &mut QLoginState) -> (attempt: Option<u64>)
    ensures
        attempt == cancelled_attempt(old(state)@),
        final(state)@ == (StateView { active_web_attempt: 0, ..old(state)@ }),
{
    let captured: u64 = state.active_web_attempt;
    state.active_web_attempt = 0;
    if captured != 0 {
        Some(captured)
    } else {
        None
    }
}

/// The state after the attempt `attempt` has been revoked: a session that came from it is gone,
/// any other stays.
pub open spec fn after_revocation(before: StateView, attempt: Option<u64>) -> StateView {
    StateView {
        web_generation: before.web_generation.wrapping_add(1),
        session: if attempt is Some && before.session is Some && before.session->0.web_attempt
            == attempt {
            None
        } else {
            before.session
        },
        ..before
    }
}

/// Revokes the attempt `attempt`, which may have logged in before it was given up.
pub fn cancel_web_login(state: &mut QLoginState, attempt: Option<u64>)
    ensures
        final(state)@ == after_revocation(old(state)@, attempt),
{
    state.web_generation = state.web_generation.wrapping_add(1);
    let revoked = match &state.session {
        Some(session) => match (attempt, session.web_attempt) {
            (Some(captured), Some(owner)) => captured == owner,
            _ => false,
        },
        None => false,
    };
    if revoked {
        state.session = None;
    }
    assert(state@ =~= after_revocation(old(state)@, attempt));
}

/// The cookie is one of a QQ login.
pub open spec fn login_cookie(cookie: CookieView) -> bool {
    cookie.from_qq() && required_cookie(cookie.name)
}

/// The positions of the cookies in `list`, from the first `n`, that belong to a QQ login.
pub open spec fn login_cookie_positions(list: Seq<CookieView>, n: int) -> Seq<int>
    decreases n,
{
    if n <= 0 {
        Seq::empty()
    } else {
        let before = login_cookie_positions(list, n - 1);
        if login_cookie(list[n - 1]) {
            before.push(n - 1)
        } else {
            before
        }
    }
}

/// The cookies of a QQ login are deleted from a window, all of them and no other cookie.
pub proof fn law_only_login_cookies_are_cleared(list: Seq<CookieView>)
    ensures
        forall|i: int| #[trigger]
            login_cookie_positions(list, list.len() as int).contains(i) <==> 0 <= i < list.len()
                && login_cookie(list[i]),
{
    lemma_login_cookie_positions(list, list.len() as int);
}

proof fn lemma_login_cookie_positions(list: Seq<CookieView>, n: int)
    requires
        0 <= n <= list.len(),
    ensures
        forall|i: int| #[trigger]
            login_cookie_positions(list, n).contains(i) <==> 0 <= i < n && login_cookie(list[i]),
    decreases n,
{
    if n > 0 {
        let before = login_cookie_positions(list, n - 1);
        lemma_login_cookie_positions(list, n - 1);
        assert forall|i: int| #[trigger]
            login_cookie_positions(list, n).contains(i) <==> 0 <= i < n && login_cookie(
            list[i],
        ) by {
            assert(before.contains(i) <==> 0 <= i < n - 1 && login_cookie(list[i]));
            if login_cookie(list[n - 1]) {
                let after = before.push(n - 1);
                assert(after[before.len() as int] == n - 1);
                if before.contains(i) {
                    let k = before.index_of(i);
                    assert(after[k] == i);
                }
                if after.contains(i) && i != n - 1 {
                    let k = after.index_of(i);
                    assert(before[k] == i);
                }
            }
        }
    }
}

/// The positions of the cookies that are to be deleted from a window with the cookies `list`.
pub fn cookies_to_clear(list: &Vec<WebCookie>) -> (positions: Vec<usize>)
    ensures
        Seq::new(positions@.len(), |i: int| positions@[i] as int) == login_cookie_positions(
            cookie_views(list@),
            list@.len() as int,
        ),
{
    let ghost views = cookie_views(list@);
    let mut positions: Vec<usize> = Vec::new();
    let mut i: usize = 0;
    while i < list.len()
        invariant
            i <= list.len(),
            views == cookie_views(list@),
            Seq::new(positions@.len(), |k: int| positions@[k] as int) =~= login_cookie_positions(
                views,
                i as int,
            ),
        decreases list.len() - i,
    {
        let cookie = &list[i];
        assert(views[i as int] == cookie@);
        if cookie.is_from_qq() && is_required_cookie(cookie.name.as_str()) {
            positions.push(i);
        }
        i += 1;
    }
    positions
}

/// What becomes of a browser window that was to be emptied and closed: nothing is to be done where
/// there is none.
pub fn web_window_cleared(window_open: bool, cookies_cleared: bool, window_closed: bool) -> (done:
    Result<(), String>)
    ensures
        match done {
            Ok(_) => !window_open || (cookies_cleared && window_closed),
            Err(message) => window_open && !(cookies_cleared && window_closed) && message@
                == "清理 QQ 登录状态失败"@,
        },
{
    if !window_open || (cookies_cleared && window_closed) {
        Ok(())
    } else {
        Err("清理 QQ 登录状态失败".to_owned())
    }
}

/// Logs the account out and gives up all logins. The cookies of the windows are still to be cleared
/// then; `logout_outcome` says how that went.
pub fn logout_qzone(state: &mut QLoginState)
    ensures
        final(state)@ == old(state)@.after_clear(),
{
    state.clear_session();
}

/// What is said after a logout. `main_cleared` and `web_cleared` say whether the cookies of the
/// main window and of the browser window are gone; the account is logged out even where they are
/// not.
pub fn logout_outcome(main_cleared: bool, web_cleared: bool) -> (done: Result<(), String>)
    ensures
        match done {
            Ok(_) => main_cleared && web_cleared,
            Err(message) => !(main_cleared && web_cleared) && message@
                == "登录状态已清除，但部分 WebView Cookie 清理失败"@,
        },
{
    if main_cleared && web_cleared {
        Ok(())
    } else {
        Err("登录状态已清除，但部分 WebView Cookie 清理失败".to_owned())
    }
}

} // verus!
