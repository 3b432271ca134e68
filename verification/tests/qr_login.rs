//! The login by QR code, with the answers of the login service handed in.

use std::sync::Arc;

use qlogin::agent::MOBILE_USER_AGENTS;
use qlogin::cookies::{header_cookies, jar_cookies};
use qlogin::link::{validate_success_url, LoginUrl};
use qlogin::poll::{
    begin_confirm, commit_qr_login, confirm_credentials, follow_redirect, hop_arrived,
    hop_redirected, leave_poll, next_hop, poll_answered, poll_failed, poll_qr_login, poll_query,
    poll_text, refresh_answered, refresh_done, refresh_url, shown_signature, take_session,
    ConfirmStep, Confirmed, Confirming, HopStep, PollFault, PollOpening, PollReport, PollStep,
    RefreshStep, Refreshing, MAX_HOPS,
};
use qlogin::session::{
    QrLoginSession, APP_ID, MAX_POLLS, MAX_QR_SESSIONS, MAX_REFRESHES, QR_SESSION_TTL_MS, S_URL,
};
use qlogin::start::{
    add_device_cookies, admit_qr_login, filled_value, initialize_qr, jar_login_signature,
    jar_qr_signature, login_signature, open_qr_login, qr_signature, show_url, start_failure,
    start_qr_login, xlogin_query, StartFault,
};
use qlogin::state::{cancel_qr_login, cancelled, get_login_status, restore, QLoginState};
use qlogin::status::{LoginStatus, QrSessionId};
use qlogin::token::{bkn, ptqr_token};
use reqwest::cookie::Jar;

const NOW: u128 = 1_700_000_000_000;

fn url(text: &str) -> url::Url {
    url::Url::parse(text).unwrap()
}

fn texts(pairs: &[(String, String)]) -> Vec<(&str, &str)> {
    pairs.iter().map(|(k, v)| (k.as_str(), v.as_str())).collect()
}

/// A state with one QR code login under the name that is returned.
fn begun() -> (QLoginState, QrSessionId) {
    let mut state = QLoginState::new();
    let id = open(&mut state, NOW);
    (state, id)
}

fn open(state: &mut QLoginState, now: u128) -> QrSessionId {
    let ticket = match start_qr_login(state, now) {
        Ok(ticket) => ticket,
        Err(message) => panic!("{message}"),
    };
    let jar = Arc::new(Jar::default());
    let (session, image) = initialize_qr(
        &ticket,
        jar,
        reqwest::Client::new(),
        now,
        "sig".to_string(),
        "qr",
        b"png",
    );
    match open_qr_login(state, ticket.id, session, image, now) {
        Ok(start) => start.session_id,
        Err(message) => panic!("{message}"),
    }
}

/// Begins a poll and returns the session to ask with.
fn ask(state: &mut QLoginState, id: &QrSessionId) -> QrLoginSession {
    match poll_qr_login(state, id, NOW) {
        PollOpening::Running(Ok(PollStep::Ask(session))) => session,
        _ => panic!("the login service is to be asked"),
    }
}

fn says(report: &LoginStatus, id: &QrSessionId, status: &str, message: &str) {
    assert_eq!(report.session_id.as_ref(), Some(id));
    assert_eq!(report.status, status);
    assert_eq!(report.message, message);
}

fn over(result: Result<PollReport, String>) -> LoginStatus {
    match result {
        Ok(PollReport::Over(report)) => report,
        _ => panic!("the poll is over"),
    }
}

#[test]
fn start_requests_have_their_queries() {
    assert_eq!(
        texts(&xlogin_query()),
        vec![
            ("hide_title_bar", "1"),
            ("style", "22"),
            ("daid", "5"),
            ("low_login", "0"),
            ("qlogin_auto_login", "1"),
            ("no_verifyimg", "1"),
            ("link_target", "blank"),
            ("appid", "549000929"),
            ("target", "self"),
            ("s_url", "https://h5.qzone.qq.com/mqzone/index"),
            ("proxy_url", ""),
            ("pt_no_auth", "1"),
        ]
    );
    assert_eq!(
        show_url(APP_ID, S_URL, NOW),
        Ok("https://ssl.ptlogin2.qq.com/ptqrshow?appid=549000929&e=2&l=M&s=3&d=72&v=4&t=1700000000000&daid=5&pt_3rd_aid=0&u1=https%3A%2F%2Fh5.qzone.qq.com%2Fmqzone%2Findex".to_string())
    );
}

#[test]
fn start_failures_have_their_messages() {
    assert_eq!(start_failure(StartFault::Client), "无法初始化登录客户端");
    assert_eq!(start_failure(StartFault::Page), "初始化 QQ 登录失败");
    assert_eq!(start_failure(StartFault::Code), "获取登录二维码失败");
    assert_eq!(start_failure(StartFault::Image), "读取登录二维码失败");
}

#[test]
fn signatures_come_from_cookies() {
    let cookies = header_cookies("pt_login_sig=abc; qrsig=def");
    assert_eq!(login_signature(true, &cookies), Ok("abc".to_string()));
    assert_eq!(qr_signature(true, &cookies), Ok("def".to_string()));
    assert_eq!(
        login_signature(false, &cookies),
        Err("初始化 QQ 登录失败".to_string())
    );
    assert_eq!(
        qr_signature(false, &cookies),
        Err("获取登录二维码失败".to_string())
    );
    let empty = header_cookies("pt_login_sig=; qrsig=");
    assert_eq!(
        login_signature(true, &empty),
        Err("QQ 登录初始化响应不完整".to_string())
    );
    assert_eq!(qr_signature(true, &empty), Err("二维码响应不完整".to_string()));
    assert_eq!(filled_value(&empty, "qrsig"), None);
}

#[test]
fn signatures_come_from_the_jar() {
    let jar = Jar::default();
    let show = show_url(APP_ID, S_URL, NOW).unwrap();
    assert_eq!(
        jar_login_signature(true, &jar),
        Err("QQ 登录初始化响应不完整".to_string())
    );
    jar.add_cookie_str(
        "pt_login_sig=page; Domain=.ptlogin2.qq.com; Path=/",
        &url("https://xui.ptlogin2.qq.com/cgi-bin/xlogin"),
    );
    jar.add_cookie_str("qrsig=code; Domain=.ptlogin2.qq.com; Path=/", &url(&show));
    assert_eq!(jar_login_signature(true, &jar), Ok("page".to_string()));
    assert_eq!(jar_qr_signature(true, &jar, &show), Ok("code".to_string()));
    assert_eq!(
        jar_qr_signature(false, &jar, &show),
        Err("获取登录二维码失败".to_string())
    );
    assert_eq!(
        jar_qr_signature(true, &jar, "https://example.com/"),
        Err("二维码响应不完整".to_string())
    );
}

#[test]
fn device_cookies_are_put_into_the_jar() {
    let jar = Jar::default();
    let lines = add_device_cookies(&jar);
    assert_eq!(lines.len(), 2);
    let cookies = jar_cookies(&jar, "https://qzone.qq.com/");
    for (line, name, len) in [
        (&lines[0], "_qimei_fingerprint", 32usize),
        (&lines[1], "_qimei_uuid42", 42usize),
    ] {
        let value = cookies.get(name).unwrap();
        assert_eq!(value.len(), len);
        assert!(value.bytes().all(|b| b.is_ascii_digit() || (b'a'..=b'f').contains(&b)));
        assert_eq!(
            *line,
            format!("{name}={value}; Domain=.qq.com; Path=/; Secure")
        );
    }
}

#[test]
fn login_begins_with_an_image() {
    let mut state = QLoginState::new();
    let ticket = start_qr_login(&mut state, NOW).ok().unwrap();
    assert_eq!(ticket.id.0.len(), 32);
    assert_eq!(ticket.generation, 0);
    assert_eq!(ticket.cancel_epoch, 0);
    assert!(MOBILE_USER_AGENTS.contains(&ticket.user_agent.as_str()));
    assert_eq!(state.cancel_epochs.get(&ticket.id.0), Some(&0));
    let (session, image) = initialize_qr(
        &ticket,
        Arc::new(Jar::default()),
        reqwest::Client::new(),
        NOW,
        "login".to_string(),
        "qr",
        b"abc",
    );
    assert_eq!(image, "data:image/png;base64,YWJj");
    assert_eq!(session.created_at, NOW);
    assert_eq!(session.ptqrtoken, ptqr_token("qr"));
    assert_eq!(session.login_sig, "login");
    assert_eq!(session.user_agent, ticket.user_agent);
    assert_eq!(session.appid, APP_ID);
    assert_eq!(session.u1, S_URL);
    assert_eq!((session.poll_count, session.refresh_count), (0, 0));
    assert!(session.uin.is_none() && session.g_tk.is_none());
    let id = ticket.id.clone();
    let start = open_qr_login(&mut state, ticket.id, session, image, NOW).ok().unwrap();
    assert_eq!(start.session_id, id);
    assert_eq!(start.qr_image, "data:image/png;base64,YWJj");
    let copy = start.clone();
    assert_eq!((copy.session_id, copy.qr_image), (start.session_id, start.qr_image));
    assert!(state.sessions.contains_key(&id.0));
}

#[test]
fn admitted_names_keep_their_cancellations() {
    let mut state = QLoginState::new();
    let id = QrSessionId::from("name");
    assert!(cancel_qr_login(&mut state, &id).is_ok());
    let ticket = admit_qr_login(&mut state, id, NOW).ok().unwrap();
    assert_eq!(ticket.cancel_epoch, 1);
}

#[test]
fn too_many_logins_are_refused() {
    let mut state = QLoginState::new();
    for _ in 0..MAX_QR_SESSIONS {
        open(&mut state, NOW);
    }
    assert_eq!(state.sessions.len(), MAX_QR_SESSIONS);
    assert_eq!(
        start_qr_login(&mut state, NOW + QR_SESSION_TTL_MS).err().as_deref(),
        Some("二维码登录会话过多，请稍后重试")
    );
    assert_eq!(state.sessions.len(), MAX_QR_SESSIONS);
    assert!(start_qr_login(&mut state, NOW + QR_SESSION_TTL_MS + 1).is_ok());
    assert_eq!(state.sessions.len(), 0);
}

#[test]
fn logins_that_lose_the_race_are_refused() {
    let mut state = QLoginState::new();
    let late = start_qr_login(&mut state, NOW).ok().unwrap();
    let (session, image) = initialize_qr(
        &late,
        Arc::new(Jar::default()),
        reqwest::Client::new(),
        NOW,
        "sig".to_string(),
        "qr",
        b"",
    );
    for _ in 0..MAX_QR_SESSIONS {
        open(&mut state, NOW);
    }
    let refused = open_qr_login(&mut state, late.id.clone(), session, image, NOW);
    assert_eq!(refused.err().as_deref(), Some("二维码登录会话过多，请稍后重试"));
    assert!(!state.sessions.contains_key(&late.id.0));
}

#[test]
fn clocks_set_back_outdate_nothing() {
    let (mut state, id) = begun();
    state.drop_outdated(0);
    assert!(state.sessions.contains_key(&id.0));
    let session = take(&mut state, &id);
    assert!(!session.is_outdated(0));
    assert!(!session.is_outdated(NOW + QR_SESSION_TTL_MS));
    assert!(session.is_outdated(NOW + QR_SESSION_TTL_MS + 1));
}

fn take(state: &mut QLoginState, id: &QrSessionId) -> QrLoginSession {
    state.sessions.remove(&id.0).unwrap()
}

#[test]
fn poll_requests_have_their_query() {
    let (mut state, id) = begun();
    let session = ask(&mut state, &id);
    let token = ptqr_token("qr").to_string();
    assert_eq!(
        texts(&poll_query(&session, NOW)),
        vec![
            ("u1", "https://h5.qzone.qq.com/mqzone/index"),
            ("ptqrtoken", token.as_str()),
            ("ptredirect", "0"),
            ("action", "0-0-1700000000000"),
            ("login_sig", "sig"),
            ("aid", "549000929"),
            ("daid", "5"),
        ]
    );
}

#[test]
fn one_poll_runs_at_a_time() {
    let (mut state, id) = begun();
    let session = ask(&mut state, &id);
    match poll_qr_login(&mut state, &id, NOW) {
        PollOpening::Busy(report) => says(&report, &id, "error", "二维码登录正在处理中"),
        PollOpening::Running(_) => panic!("another poll runs"),
    }
    restore(&mut state, &id, session);
    leave_poll(&mut state, &id);
    assert!(!state.in_flight.contains_key(&id.0));
    assert!(state.cancel_epochs.contains_key(&id.0));
    let again = ask(&mut state, &id);
    assert_eq!(again.poll_count, 2);
}

#[test]
fn unknown_logins_cannot_be_polled() {
    let mut state = QLoginState::new();
    let id = QrSessionId::from("nobody");
    match poll_qr_login(&mut state, &id, NOW) {
        PollOpening::Running(Err(message)) => {
            assert_eq!(message, "二维码登录会话不存在或已失效")
        }
        _ => panic!("there is no such login"),
    }
    leave_poll(&mut state, &id);
    assert_eq!(state.in_flight.len(), 0);
    assert_eq!(state.cancel_epochs.len(), 0);
}

#[test]
fn polls_time_out() {
    let (mut state, id) = begun();
    match take_session(&mut state, &id, NOW + QR_SESSION_TTL_MS + 1) {
        Ok(PollStep::Over(report)) => says(&report, &id, "timedOut", "二维码登录已超时"),
        _ => panic!("the login is too old"),
    }
    assert!(!state.sessions.contains_key(&id.0));
}

#[test]
fn polls_are_limited() {
    let (mut state, id) = begun();
    for n in 1..=MAX_POLLS {
        let session = ask(&mut state, &id);
        assert_eq!(session.poll_count, n);
        let report = over(poll_text(
            &mut state,
            &id,
            session,
            "ptuiCB('66','0','','0','','')",
        ));
        says(&report, &id, "waiting", "请使用手机 QQ 扫描二维码");
        leave_poll(&mut state, &id);
    }
    match poll_qr_login(&mut state, &id, NOW) {
        PollOpening::Running(Ok(PollStep::Over(report))) => {
            says(&report, &id, "timedOut", "二维码登录已超时")
        }
        _ => panic!("the login was polled too often"),
    }
    leave_poll(&mut state, &id);
    assert_eq!(state.cancel_epochs.len(), 0);
}

#[test]
fn scanned_codes_are_reported() {
    let (mut state, id) = begun();
    let session = ask(&mut state, &id);
    let report = over(poll_text(&mut state, &id, session, "ptuiCB('67','0','','0','',''); "));
    says(&report, &id, "scanned", "已扫码，请在手机上确认登录");
    assert!(state.sessions.contains_key(&id.0));
}

#[test]
fn unreadable_answers_end_the_login() {
    for text in ["", "<html>", "ptuiCB('68','0','','0','','')", "ptuiCB('','0','','0','','')"] {
        let (mut state, id) = begun();
        let session = ask(&mut state, &id);
        let report = over(poll_text(&mut state, &id, session, text));
        says(&report, &id, "error", "QQ 登录返回了无法识别的状态");
        leave_poll(&mut state, &id);
        assert_eq!(state.sessions.len(), 0);
        assert_eq!(state.cancel_epochs.len(), 0);
    }
}

#[test]
fn failed_polls_can_be_repeated() {
    for (fault, message) in [
        (PollFault::Ask, "检查扫码状态失败，请稍后重试"),
        (PollFault::Answer, "读取扫码状态失败，请稍后重试"),
        (PollFault::Refresh, "刷新二维码失败，请稍后重试"),
        (PollFault::RefreshImage, "读取刷新二维码失败，请稍后重试"),
        (PollFault::Confirm, "确认 QQ 登录失败，请稍后重试"),
    ] {
        let (mut state, id) = begun();
        let session = ask(&mut state, &id);
        let report = poll_failed(&mut state, &id, session, fault);
        says(&report, &id, "error", message);
        assert_eq!(state.sessions.get(&id.0).map(|s| s.poll_count), Some(1));
    }
}

#[test]
fn cancelled_logins_are_not_put_back() {
    let (mut state, id) = begun();
    let other = open(&mut state, NOW);
    let session = ask(&mut state, &id);
    assert!(!cancelled(&state, &id, &session));
    assert!(cancel_qr_login(&mut state, &id).is_ok());
    assert!(cancelled(&state, &id, &session));
    match poll_answered(&state, &id, session) {
        PollStep::Over(report) => says(&report, &id, "cancelled", "二维码登录已取消"),
        PollStep::Ask(_) => panic!("the login was cancelled"),
    }
    assert!(state.sessions.contains_key(&other.0));
    let session = ask(&mut state, &other);
    assert!(!cancelled(&state, &other, &session));
    assert!(matches!(poll_answered(&state, &other, session), PollStep::Ask(_)));
}

#[test]
fn cancelling_removes_a_waiting_login() {
    let (mut state, id) = begun();
    assert!(cancel_qr_login(&mut state, &id).is_ok());
    assert_eq!(state.sessions.len(), 0);
    assert_eq!(state.cancel_epochs.get(&id.0), Some(&1));
    assert!(cancel_qr_login(&mut state, &id).is_ok());
    assert_eq!(state.cancel_epochs.get(&id.0), Some(&2));
}

#[test]
fn cancelled_sessions_in_the_state_are_reported() {
    let (mut state, id) = begun();
    state.cancel_epochs.insert(id.0.clone(), 1);
    match poll_qr_login(&mut state, &id, NOW) {
        PollOpening::Running(Ok(PollStep::Over(report))) => {
            says(&report, &id, "cancelled", "二维码登录已取消")
        }
        _ => panic!("the login was cancelled"),
    }
}

#[test]
fn logging_out_stops_a_running_poll() {
    let (mut state, id) = begun();
    let session = ask(&mut state, &id);
    state.clear_session();
    assert!(cancelled(&state, &id, &session));
    let report = poll_failed(&mut state, &id, session, PollFault::Ask);
    says(&report, &id, "error", "检查扫码状态失败，请稍后重试");
    assert_eq!(state.sessions.len(), 0);
    assert_eq!(state.in_flight.len(), 0);
    assert_eq!(state.generation, 1);
    assert_eq!(state.web_generation, 1);
}

fn refreshing(state: &mut QLoginState, id: &QrSessionId) -> QrLoginSession {
    let session = ask(state, id);
    match poll_text(state, id, session, "ptuiCB('65','0','','0','','')") {
        Ok(PollReport::Refresh(session)) => session,
        _ => panic!("a new code is due"),
    }
}

fn new_code(
    state: &mut QLoginState,
    session: QrLoginSession,
    id: &QrSessionId,
    value: &str,
) -> Refreshing {
    let cookies = vec![
        ("other".to_string(), "x".to_string()),
        ("qrsig".to_string(), "".to_string()),
        ("qrsig".to_string(), value.to_string()),
    ];
    match refresh_answered(state, id, session, true, &cookies, Some("qr".to_string())) {
        RefreshStep::Image(task) => task,
        RefreshStep::Over(_) => panic!("the code is new"),
    }
}

#[test]
fn expired_codes_are_replaced() {
    let (mut state, id) = begun();
    for n in 1..=MAX_REFRESHES {
        let session = refreshing(&mut state, &id);
        let task = new_code(&mut state, session, &id, &format!("new{n}"));
        assert_eq!(task.signature, format!("new{n}"));
        let report = refresh_done(&mut state, &id, task, b"ab");
        says(&report, &id, "refreshed", "二维码已自动刷新");
        assert_eq!(report.qr_image.as_deref(), Some("data:image/png;base64,YWI="));
        leave_poll(&mut state, &id);
        let session = state.sessions.get(&id.0).unwrap();
        assert_eq!(session.refresh_count, n);
        assert_eq!(session.ptqrtoken, ptqr_token(&format!("new{n}")));
    }
    let session = ask(&mut state, &id);
    let report = over(poll_text(&mut state, &id, session, "ptuiCB('65','0','','0','','')"));
    says(&report, &id, "expired", "二维码刷新次数已达上限");
    assert_eq!(state.sessions.len(), 0);
}

#[test]
fn new_codes_have_new_signatures() {
    for (cookies, shown) in [
        (vec![], None),
        (vec![("qrsig", "")], None),
        (vec![("qr", "a")], None),
        (vec![("qrsig", "a")], Some("a")),
        (vec![("qrsig", "a"), ("qrsig", "b")], Some("a")),
    ] {
        let (mut state, id) = begun();
        let session = refreshing(&mut state, &id);
        let cookies = cookies
            .iter()
            .map(|(k, v)| (k.to_string(), v.to_string()))
            .collect();
        let shown = shown.map(str::to_string);
        match refresh_answered(&mut state, &id, session, true, &cookies, shown) {
            RefreshStep::Over(report) => says(&report, &id, "error", "二维码刷新响应不完整"),
            RefreshStep::Image(_) => panic!("there is no new signature"),
        }
        assert_eq!(state.sessions.len(), 0);
    }
}

#[test]
fn refused_codes_can_be_asked_for_again() {
    let cookies = vec![("qrsig".to_string(), "new".to_string())];
    let (mut state, id) = begun();
    let session = refreshing(&mut state, &id);
    match refresh_answered(&mut state, &id, session, false, &cookies, None) {
        RefreshStep::Over(report) => says(&report, &id, "error", "刷新二维码失败，请稍后重试"),
        RefreshStep::Image(_) => panic!("the answer did not succeed"),
    }
    assert_eq!(state.sessions.get(&id.0).map(|s| s.refresh_count), Some(0));
    leave_poll(&mut state, &id);
    let session = refreshing(&mut state, &id);
    assert!(cancel_qr_login(&mut state, &id).is_ok());
    match refresh_answered(&mut state, &id, session, false, &cookies, None) {
        RefreshStep::Over(report) => says(&report, &id, "error", "刷新二维码失败，请稍后重试"),
        RefreshStep::Image(_) => panic!("the answer did not succeed"),
    }
    assert_eq!(state.sessions.len(), 0);
}

#[test]
fn waiting_logins_name_no_account() {
    let (mut state, id) = begun();
    for _ in 0..2 {
        let session = refreshing(&mut state, &id);
        let task = new_code(&mut state, session, &id, "zZ9-_.~zZ9-_.~zZ9-_.~");
        refresh_done(&mut state, &id, task, b"");
        leave_poll(&mut state, &id);
        let session = state.sessions.get(&id.0).unwrap();
        assert!(session.uin.is_none() && session.g_tk.is_none());
        assert!((0..=0x7fff_ffff).contains(&session.ptqrtoken));
        assert!(session.poll_count <= MAX_POLLS && session.refresh_count <= MAX_REFRESHES);
    }
}

#[test]
fn sessions_are_made_of_the_cookies_for_qzone() {
    let (mut state, id) = begun();
    let task = confirming(&mut state, &id);
    let login = url("https://ssl.ptlogin2.qq.com/");
    task.session.jar.add_cookie_str("uin=o10001; Domain=.qq.com; Path=/", &login);
    task.session.jar.add_cookie_str("p_skey=key; Domain=.ptlogin2.qq.com; Path=/", &login);
    says(&arrived(&state, &id, task, true), &id, "error", "登录凭据不完整");
}

#[test]
fn shown_signatures_come_from_the_jar() {
    let (mut state, id) = begun();
    let session = refreshing(&mut state, &id);
    let address = refresh_url(&session, NOW).unwrap();
    assert_eq!(Ok(address.clone()), show_url(APP_ID, S_URL, NOW));
    assert_eq!(shown_signature(&session, &address), None);
    session.jar.add_cookie_str("qrsig=shown; Path=/", &url(&address));
    assert_eq!(shown_signature(&session, &address), Some("shown".to_string()));
}

#[test]
fn new_codes_of_cancelled_logins_are_dropped() {
    let (mut state, id) = begun();
    let session = refreshing(&mut state, &id);
    let task = new_code(&mut state, session, &id, "new");
    assert!(cancel_qr_login(&mut state, &id).is_ok());
    let report = refresh_done(&mut state, &id, task, b"ab");
    says(&report, &id, "cancelled", "二维码登录已取消");
    assert_eq!(report.qr_image, None);
    assert_eq!(state.sessions.len(), 0);
}

const SUCCESS: &str =
    "ptuiCB('0','0','https://ptlogin2.qzone.qq.com/check_sig?uin=10001&ptsigx=s','0','','')";

fn confirming(state: &mut QLoginState, id: &QrSessionId) -> Confirming {
    let session = ask(state, id);
    match poll_text(state, id, session, SUCCESS) {
        Ok(PollReport::Confirm(task)) => task,
        _ => panic!("the login was confirmed"),
    }
}

fn request(step: HopStep) -> Confirming {
    match step {
        HopStep::Request(task) => task,
        HopStep::Over(report) => panic!("{}", report.message),
    }
}

fn ended(step: HopStep) -> LoginStatus {
    match step {
        HopStep::Over(report) => report,
        HopStep::Request(_) => panic!("the login is over"),
    }
}

#[test]
fn confirmed_logins_are_followed() {
    let (mut state, id) = begun();
    let task = confirming(&mut state, &id);
    assert_eq!(task.callback, "10001");
    assert_eq!(task.hops, 0);
    let task = request(next_hop(&id, task));
    assert_eq!(task.hops, 1);
    assert_eq!(
        task.url.href,
        "https://ptlogin2.qzone.qq.com/check_sig?uin=10001&ptsigx=s"
    );
    let task = request(hop_redirected(&id, task, Some("https://h5.qzone.qq.com/mqzone/index")));
    assert_eq!(task.hops, 2);
    assert_eq!(task.url.href, "https://h5.qzone.qq.com/mqzone/index");
    let jar = task.session.jar.clone();
    let page = url("https://qzone.qq.com/");
    jar.add_cookie_str("uin=o0010001; Domain=.qq.com; Path=/", &page);
    jar.add_cookie_str("p_skey=key; Domain=.qzone.qq.com; Path=/", &page);
    let agent = task.session.user_agent.clone();
    let confirmed = match hop_arrived(&state, &id, task, true) {
        ConfirmStep::Commit(confirmed) => confirmed,
        ConfirmStep::Over(report) => panic!("{}", report.message),
    };
    let report = commit_qr_login(&mut state, &id, confirmed);
    says(&report, &id, "success", "登录成功");
    leave_poll(&mut state, &id);
    assert_eq!(state.sessions.len(), 0);
    let auth = state.qzone_auth().ok().unwrap();
    assert_eq!(auth.uin, "10001");
    assert_eq!(auth.g_tk, bkn("key"));
    assert_eq!(auth.user_agent, agent);
    let sent = header_cookies(&auth.cookie_header);
    assert_eq!(sent.get("p_skey").map(String::as_str), Some("key"));
    assert_eq!(sent.get("uin").map(String::as_str), Some("o0010001"));
    let status = get_login_status(&state).ok().unwrap();
    assert_eq!((status.status, status.message.as_str()), ("success", "已登录"));
}

#[test]
fn untrusted_confirmations_end_the_login() {
    for address in ["", "https://evil.example/check_sig?uin=1&ptsigx=2"] {
        let (mut state, id) = begun();
        let session = ask(&mut state, &id);
        let text = format!("ptuiCB('0','0','{address}','0','','')");
        let report = over(poll_text(&mut state, &id, session, &text));
        says(&report, &id, "error", "登录跳转校验失败");
        assert_eq!(state.sessions.len(), 0);
    }
}

#[test]
fn confirmations_name_an_account() {
    for query in ["uin=x&ptsigx=2", "uin=&uin=7&ptsigx=2", "uin=000&ptsigx=2"] {
        let (mut state, id) = begun();
        let session = ask(&mut state, &id);
        let checked = validate_success_url(&format!("https://ptlogin2.qq.com/check_sig?{query}"));
        assert_eq!(
            begin_confirm(&id, session, checked).err().as_deref(),
            Some("登录响应不完整")
        );
    }
}

#[test]
fn redirections_are_limited() {
    let (mut state, id) = begun();
    let task = confirming(&mut state, &id);
    let mut task = request(next_hop(&id, task));
    for n in 2..=MAX_HOPS {
        task = request(hop_redirected(&id, task, Some("/jump")));
        assert_eq!(task.hops, n);
    }
    let report = ended(hop_redirected(&id, task, Some("/jump")));
    says(&report, &id, "error", "确认 QQ 登录失败");
}

#[test]
fn redirections_stay_on_trusted_pages() {
    for location in [
        "https://evil.example/",
        "http://ptlogin2.qq.com/",
        "https://h5.qzone.qq.com/other",
        "https://",
    ] {
        let (mut state, id) = begun();
        let task = confirming(&mut state, &id);
        let task = request(next_hop(&id, task));
        let report = ended(hop_redirected(&id, task, Some(location)));
        says(&report, &id, "error", "登录跳转校验失败");
    }
}

#[test]
fn redirections_name_their_target() {
    let (mut state, id) = begun();
    let task = confirming(&mut state, &id);
    let task = request(next_hop(&id, task));
    let report = ended(hop_redirected(&id, task, None));
    says(&report, &id, "error", "登录跳转响应不完整");
}

#[test]
fn untrusted_addresses_are_not_requested() {
    let (mut state, id) = begun();
    let task = confirming(&mut state, &id);
    let bad = LoginUrl {
        href: "https://evil.example/".to_string(),
        scheme: "https".to_string(),
        host: Some("evil.example".to_string()),
        path: "/".to_string(),
        query: vec![],
    };
    let moved = Confirming { session: task.session, url: bad, callback: task.callback, hops: 0 };
    let report = ended(next_hop(&id, moved));
    says(&report, &id, "error", "登录跳转校验失败");
    let (mut state, id) = begun();
    let task = confirming(&mut state, &id);
    let report = ended(follow_redirect(&id, task, None));
    says(&report, &id, "error", "登录跳转校验失败");
}

fn arrived(state: &QLoginState, id: &QrSessionId, task: Confirming, ok: bool) -> LoginStatus {
    match hop_arrived(state, id, task, ok) {
        ConfirmStep::Over(report) => report,
        ConfirmStep::Commit(_) => panic!("the login is over"),
    }
}

#[test]
fn failed_confirmations_end_the_login() {
    let (mut state, id) = begun();
    let task = confirming(&mut state, &id);
    says(&arrived(&state, &id, task, false), &id, "error", "确认 QQ 登录失败");
    let (mut state, id) = begun();
    let task = confirming(&mut state, &id);
    says(&arrived(&state, &id, task, true), &id, "error", "登录凭据不完整");
    let (mut state, id) = begun();
    let task = confirming(&mut state, &id);
    assert!(cancel_qr_login(&mut state, &id).is_ok());
    says(&arrived(&state, &id, task, true), &id, "cancelled", "二维码登录已取消");
}

fn credentials(header: &str) -> Result<Confirmed, LoginStatus> {
    let (mut state, id) = begun();
    let session = ask(&mut state, &id);
    match confirm_credentials(&id, session, "10001", header_cookies(header)) {
        ConfirmStep::Commit(confirmed) => Ok(confirmed),
        ConfirmStep::Over(report) => Err(report),
    }
}

#[test]
fn credentials_are_checked() {
    for (header, message) in [
        ("", "登录凭据不完整"),
        ("p_skey=k", "登录凭据不完整"),
        ("uin=o10001", "登录凭据不完整"),
        ("uin=o10001; p_skey=", "登录凭据不完整"),
        ("uin=bad; p_uin=o10001; p_skey=k", "登录凭据不完整"),
        ("uin=o10002; p_skey=k", "登录身份校验失败"),
        ("p_uin=o10002; p_skey=k", "登录身份校验失败"),
    ] {
        let report = credentials(header).err().unwrap();
        assert_eq!(report.status, "error", "{header}");
        assert_eq!(report.message, message, "{header}");
    }
    for header in ["uin=o010001; p_skey=k", "p_uin=10001; p_skey=k"] {
        let login = credentials(header).ok().unwrap().login;
        assert_eq!(login.uin.as_deref(), Some("10001"));
        assert_eq!(login.g_tk, Some(bkn("k")));
        assert_eq!(login.web_attempt, None);
    }
}

#[test]
fn cancelled_logins_do_not_take_effect() {
    let (mut state, id) = begun();
    let session = ask(&mut state, &id);
    let step = confirm_credentials(&id, session, "7", header_cookies("uin=7; p_skey=k"));
    assert!(cancel_qr_login(&mut state, &id).is_ok());
    match step {
        ConfirmStep::Commit(confirmed) => {
            let report = commit_qr_login(&mut state, &id, confirmed);
            says(&report, &id, "cancelled", "二维码登录已取消");
        }
        ConfirmStep::Over(_) => panic!("the credentials are complete"),
    }
    assert!(state.session.is_none());
}

#[test]
fn secrets_are_cleared() {
    let (mut state, id) = begun();
    let mut session = ask(&mut state, &id);
    session.uin = Some("1".to_string());
    session.g_tk = Some(2);
    let jar = session.jar.clone();
    jar.add_cookie_str("a=b", &url("https://qq.com/"));
    session.clear_secrets();
    assert_eq!(session.user_agent, "");
    assert_eq!(session.ptqrtoken, 0);
    assert_eq!(session.login_sig, "");
    assert_eq!(session.uin, None);
    assert_eq!(session.g_tk, None);
    assert_eq!(session.poll_count, 1);
    assert!(!Arc::ptr_eq(&jar, &session.jar));
    assert!(jar_cookies(&session.jar, "https://qq.com/").get("a").is_none());
    assert!(jar_cookies(&jar, "https://qq.com/").get("a").is_some());
}

#[test]
fn new_states_are_logged_out() {
    let state = QLoginState::new();
    let status = get_login_status(&state).ok().unwrap();
    assert_eq!(status.status, "loggedOut");
    assert_eq!(status.message, "尚未登录");
    assert!(status.session_id.is_none() && status.qr_image.is_none());
    assert_eq!(state.qzone_auth().err().as_deref(), Some("尚未登录 QQ 空间"));
}
