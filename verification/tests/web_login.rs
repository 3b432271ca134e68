//! The login through a browser window, logging out, and what requests need.

use qlogin::agent::account_user_agent;
use qlogin::cookies::{cookie_header, header_cookies, Cookies};
use qlogin::session::LoginSession;
use qlogin::state::{get_login_status, QLoginState};
use qlogin::status::LoginStatus;
use qlogin::token::bkn;
use qlogin::web::{
    begin_web_check, cancel_web_login, capture_web_attempt, check_web_login, collect_cookies,
    commit_web_login, cookies_to_clear, keep_waiting, logout_outcome, logout_qzone, open_web_login,
    ready_to_open, web_credentials, web_login_opened, web_window_cleared, OpenStep, WebCheck,
    WebCommit, WebCookie, WEB_LOGIN_CLOSE_POLL_ATTEMPTS, WEB_LOGIN_OPEN_ERROR,
};

fn cookie(name: &str, value: &str, domain: &str) -> WebCookie {
    WebCookie {
        name: name.to_string(),
        value: value.to_string(),
        domain: if domain.is_empty() { None } else { Some(domain.to_string()) },
    }
}

fn says(report: &LoginStatus, status: &str, message: &str) {
    assert!(report.session_id.is_none());
    assert!(report.qr_image.is_none());
    assert_eq!(report.status, status);
    assert_eq!(report.message, message);
}

fn logged_in(commit: WebCommit) -> LoginStatus {
    match commit {
        WebCommit::Close(report) => report,
        WebCommit::Cancelled(report) => panic!("{}", report.message),
    }
}

fn given_up(commit: WebCommit) -> LoginStatus {
    match commit {
        WebCommit::Cancelled(report) => report,
        WebCommit::Close(report) => panic!("{}", report.message),
    }
}

fn ready(attempt: u64) -> LoginSession {
    let page = vec![cookie("uin", "o010001", ""), cookie("p_skey", "key", "")];
    match check_web_login(attempt, &page, &vec![]) {
        Ok(WebCheck::Ready(login)) => login,
        _ => panic!("the cookies are complete"),
    }
}

#[test]
fn page_cookies_are_collected() {
    let page = vec![
        cookie("uin", "o1", ""),
        cookie("uin", "o2", "elsewhere.example"),
        cookie("p_skey", "key", ""),
        cookie("skey", " \t", ""),
        cookie("tracking", "x", "qq.com"),
    ];
    let all = vec![cookie("pt4_token", "t", "qq.com")];
    let cookies = collect_cookies(&page, &all);
    assert_eq!(cookie_header(&cookies), "uin=o2; p_skey=key");
}

#[test]
fn window_cookies_fill_the_gaps() {
    let page = vec![cookie("uin", "o1", ""), cookie("p_skey", " ", "")];
    let all = vec![
        cookie("uin", "o9", "qq.com"),
        cookie("p_skey", "evil", "evil.example"),
        cookie("p_skey", "none", ""),
        cookie("p_skey", "", "qq.com"),
        cookie("p_skey", "first", ".QZONE.qq.com"),
        cookie("p_skey", "second", "qq.com"),
        cookie("other", "x", "qq.com"),
        cookie("skey", "s", "i.qq.com"),
    ];
    let cookies = collect_cookies(&page, &all);
    assert_eq!(cookie_header(&cookies), "uin=o1; p_skey=first; skey=s");
}

#[test]
fn web_logins_wait_for_their_key() {
    for page in [vec![], vec![cookie("uin", "o1", "")], vec![cookie("p_skey", "  ", "")]] {
        match check_web_login(1, &page, &vec![]) {
            Ok(WebCheck::Waiting(report)) => says(&report, "webLoginWaiting", "等待登录完成…"),
            _ => panic!("there is no key"),
        }
    }
}

#[test]
fn web_logins_name_one_account() {
    let both = vec![
        cookie("uin", "o1", ""),
        cookie("p_uin", "o2", ""),
        cookie("p_skey", "k", ""),
    ];
    assert_eq!(
        check_web_login(1, &both, &vec![]).err().as_deref(),
        Some("登录 Cookie 中的账号标识不一致")
    );
    for page in [
        vec![cookie("p_skey", "k", "")],
        vec![cookie("p_skey", "k", ""), cookie("uin", "x", ""), cookie("p_uin", "0", "")],
    ] {
        assert_eq!(
            check_web_login(1, &page, &vec![]).err().as_deref(),
            Some("登录 Cookie 缺少有效账号标识")
        );
    }
    for header in ["p_skey=k; uin=o07; p_uin=7", "p_skey=k; uin=x; p_uin=o7", "p_skey=k; uin=7"] {
        match web_credentials(3, header_cookies(header)) {
            Ok(WebCheck::Ready(login)) => {
                assert_eq!(login.uin.as_deref(), Some("7"));
                assert_eq!(login.g_tk, Some(bkn("k")));
                assert_eq!(login.user_agent, account_user_agent("7"));
                assert_eq!(login.web_attempt, Some(3));
                assert_eq!(cookie_header(&login.cookies), header);
            }
            _ => panic!("the account is 7"),
        }
    }
}

#[test]
fn empty_keys_count_as_none() {
    match web_credentials(1, header_cookies("uin=7; p_skey=")) {
        Ok(WebCheck::Waiting(report)) => says(&report, "webLoginWaiting", "等待登录完成…"),
        _ => panic!("there is no key"),
    }
}

#[test]
fn windows_are_opened_once() {
    let mut state = QLoginState::new();
    assert!(matches!(open_web_login(&state, false), OpenStep::Open));
    assert!(matches!(open_web_login(&state, true), OpenStep::Close));
    assert!(ready_to_open(&mut state, false).is_ok());
    says(&web_login_opened(&mut state), "webLoginOpened", "请在打开的窗口中完成 QQ 登录");
    assert_eq!(state.active_web_attempt, 1);
    match open_web_login(&state, true) {
        OpenStep::Focus(report) => {
            says(&report, "webLoginOpened", "登录窗口已打开，请在窗口中完成 QQ 登录")
        }
        _ => panic!("the window is open"),
    }
    assert!(matches!(open_web_login(&state, false), OpenStep::Open));
    assert_eq!(
        ready_to_open(&mut state, true).err().as_deref(),
        Some(WEB_LOGIN_OPEN_ERROR)
    );
    assert_eq!(state.active_web_attempt, 0);
    assert_eq!(state.web_generation, 1);
}

#[test]
fn closing_windows_are_waited_for() {
    let mut checks = 0;
    while keep_waiting(checks, true) {
        checks += 1;
    }
    assert_eq!(checks, WEB_LOGIN_CLOSE_POLL_ATTEMPTS);
    assert_eq!(checks, 20);
    assert!(!keep_waiting(0, false));
}

#[test]
fn checks_belong_to_an_attempt() {
    let mut state = QLoginState::new();
    match begin_web_check(&state, true) {
        Err(report) => says(&report, "webLoginCancelled", "网页登录已取消"),
        Ok(_) => panic!("there is no attempt"),
    }
    web_login_opened(&mut state);
    assert_eq!(begin_web_check(&state, true).ok(), Some(1));
    match begin_web_check(&state, false) {
        Err(report) => says(&report, "webLoginCancelled", "登录窗口已关闭"),
        Ok(_) => panic!("the window is closed"),
    }
}

#[test]
fn web_logins_take_effect() {
    let mut state = QLoginState::new();
    web_login_opened(&mut state);
    let attempt = begin_web_check(&state, true).ok().unwrap();
    let report = logged_in(commit_web_login(&mut state, attempt, ready(attempt), true));
    says(&report, "success", "登录成功");
    assert_eq!(state.active_web_attempt, 0);
    let auth = state.qzone_auth().ok().unwrap();
    assert_eq!(auth.uin, "10001");
    assert_eq!(auth.g_tk, bkn("key"));
    assert_eq!(auth.cookie_header, "uin=o010001; p_skey=key");
    assert_eq!(auth.user_agent, account_user_agent("10001"));
    says(&get_login_status(&state).ok().unwrap(), "success", "已登录");
}

#[test]
fn web_logins_that_were_given_up_do_not_take_effect() {
    let mut state = QLoginState::new();
    web_login_opened(&mut state);
    says(
        &given_up(commit_web_login(&mut state, 1, ready(1), false)),
        "webLoginCancelled",
        "网页登录已取消",
    );
    assert_eq!(state.active_web_attempt, 1);
    assert_eq!(capture_web_attempt(&mut state), Some(1));
    says(
        &given_up(commit_web_login(&mut state, 1, ready(1), true)),
        "webLoginCancelled",
        "网页登录已取消",
    );
    cancel_web_login(&mut state, Some(1));
    web_login_opened(&mut state);
    assert_eq!(state.active_web_attempt, 3);
    says(
        &given_up(commit_web_login(&mut state, 1, ready(1), true)),
        "webLoginCancelled",
        "网页登录已取消",
    );
    assert!(state.session.is_none());
}

#[test]
fn cancelling_revokes_its_own_attempt() {
    let mut state = QLoginState::new();
    web_login_opened(&mut state);
    let captured = state.active_web_attempt;
    says(&logged_in(commit_web_login(&mut state, 1, ready(1), true)), "success", "登录成功");
    cancel_web_login(&mut state, Some(captured));
    assert!(state.session.is_none());
    assert_eq!(state.web_generation, 2);
}

#[test]
fn cancelling_keeps_other_sessions() {
    let mut state = QLoginState::new();
    web_login_opened(&mut state);
    commit_web_login(&mut state, 1, ready(1), true);
    assert_eq!(capture_web_attempt(&mut state), None);
    cancel_web_login(&mut state, None);
    assert!(state.session.is_some());
    web_login_opened(&mut state);
    let attempt = capture_web_attempt(&mut state);
    assert_eq!(attempt, Some(3));
    cancel_web_login(&mut state, attempt);
    assert!(state.session.is_some());
    if let Some(session) = &mut state.session {
        session.web_attempt = None;
    }
    cancel_web_login(&mut state, Some(1));
    assert!(state.session.is_some());
}

#[test]
fn only_login_cookies_are_cleared() {
    let list = vec![
        cookie("uin", "", "qq.com"),
        cookie("uin", "o1", "example.com"),
        cookie("theme", "dark", "qq.com"),
        cookie("p_skey", "k", ".qzone.qq.com"),
        cookie("skey", "k", ""),
        cookie("pt4_token", "k", "I.QQ.COM"),
    ];
    assert_eq!(cookies_to_clear(&list), vec![0, 3, 5]);
    assert!(cookies_to_clear(&vec![]).is_empty());
}

#[test]
fn windows_are_cleared_and_closed() {
    assert!(web_window_cleared(false, false, false).is_ok());
    assert!(web_window_cleared(true, true, true).is_ok());
    for (cookies, window) in [(false, true), (true, false), (false, false)] {
        assert_eq!(
            web_window_cleared(true, cookies, window).err().as_deref(),
            Some("清理 QQ 登录状态失败")
        );
    }
}

#[test]
fn logging_out_forgets_the_account() {
    let mut state = QLoginState::new();
    web_login_opened(&mut state);
    commit_web_login(&mut state, 1, ready(1), true);
    web_login_opened(&mut state);
    let agent = state.next_mobile_user_agent(0);
    logout_qzone(&mut state);
    says(&get_login_status(&state).ok().unwrap(), "loggedOut", "尚未登录");
    assert_eq!(state.qzone_auth().err().as_deref(), Some("尚未登录 QQ 空间"));
    assert_eq!(state.active_web_attempt, 0);
    assert_eq!(state.web_generation, 3);
    assert_eq!(state.generation, 1);
    assert_eq!(state.last_user_agent, Some(agent));
    state.generation = u64::MAX;
    logout_qzone(&mut state);
    assert_eq!(state.generation, 0);
    assert!(logout_outcome(true, true).is_ok());
    for (main, web) in [(false, true), (true, false), (false, false)] {
        assert_eq!(
            logout_outcome(main, web).err().as_deref(),
            Some("登录状态已清除，但部分 WebView Cookie 清理失败")
        );
    }
}

fn session(cookies: Cookies, uin: Option<&str>, g_tk: Option<i64>) -> QLoginState {
    let mut state = QLoginState::new();
    state.session = Some(LoginSession {
        cookies,
        uin: uin.map(str::to_string),
        g_tk,
        user_agent: "agent".to_string(),
        web_attempt: None,
    });
    state
}

#[test]
fn incomplete_sessions_cannot_make_requests() {
    let key = "p_skey=k";
    for (header, uin, g_tk, message) in [
        (key, Some("1"), None, "登录会话缺少 g_tk"),
        ("", None, None, "登录会话缺少 g_tk"),
        ("", Some("1"), Some(1), "登录会话缺少有效的 p_skey"),
        ("p_skey=", None, Some(1), "登录会话缺少有效的 p_skey"),
        (key, None, Some(1), "登录会话缺少 uin"),
    ] {
        let state = session(header_cookies(header), uin, g_tk);
        assert_eq!(state.qzone_auth().err().as_deref(), Some(message));
    }
    let mut blank = Cookies::new();
    blank.insert("p_skey".to_string(), " \u{3000}".to_string());
    assert_eq!(
        session(blank, Some("1"), Some(1)).qzone_auth().err().as_deref(),
        Some("登录会话缺少有效的 p_skey")
    );
    let state = session(header_cookies(key), Some("1"), None);
    says(&get_login_status(&state).ok().unwrap(), "loggedOut", "尚未登录");
    let state = session(header_cookies(key), Some("1"), Some(5));
    let auth = state.qzone_auth().ok().unwrap();
    assert_eq!(
        (auth.uin.as_str(), auth.g_tk, auth.cookie_header.as_str(), auth.user_agent.as_str()),
        ("1", 5, "p_skey=k", "agent")
    );
}
