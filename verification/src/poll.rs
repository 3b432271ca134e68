//! How a login by QR code goes on: each question to the login service, and what its answer does.
//!
//! A poll takes the login's session out of the state. Every function here either hands the
//! session on to the next step, puts it back, or gives the login up; the state may have changed
//! between two steps.

use vstd::prelude::*;
use vstd::string::*;

use crate::account::{account_number, normalized_uin};
use crate::callback::{is_callback, law_callback_fields_are_unique, parse_poll_callback};
use crate::codec::{base64_of, data_address, data_url};
use crate::cookies::{from_jar, jar_cookies, Cookies};
use crate::link::{
    check_address, first_value, pair_texts, query_value, redirect_target, signed_query,
    trusted_hop, url_joined, url_of, url_with_pairs, validate_login_hop, validate_success_url,
    LoginUrl, UrlView,
};
use crate::session::{discard, LoginSession, QrLoginSession, DAID, MAX_POLLS, MAX_REFRESHES};
use crate::start::{filled_cookie, filled_value, pair, show_pairs, show_url, PTQRSHOW_URL};
use crate::state::{cancelled, restore, QLoginState, StateView};
use crate::status::{login_status, opt_text, qr_report, LoginStatus, QrSessionId, StatusView};
use crate::text::{
    decimal, decimal_text, same_text, signed_decimal, signed_decimal_text, trimmed,
};
use crate::token::{bkn, hash33, ptqr_token, G_TK_SEED};

verus! {

/// Where the state of a QR code login is asked for.
pub const PTQRLOGIN_URL: &'static str = "https://ssl.ptlogin2.qq.com/ptqrlogin";

/// The page whose cookies make up the session of an account.
pub const QZONE_URL: &'static str = "https://qzone.qq.com/";

/// How many requests a confirmed login may be led over.
pub const MAX_HOPS: u32 = 6;

/// How a poll goes on: it is over, or the login service is to be asked.
pub enum PollStep {
    Over(LoginStatus),
    Ask(QrLoginSession),
}

/// Begins a poll of the QR code login `id`: at most one runs at a time.
pub fn enter_poll(state: &mut QLoginState, id: &QrSessionId) -> (busy: Option<LoginStatus>)
    ensures
        match busy {
            Some(report) => {
                &&& old(state)@.in_flight.contains(id@)
                &&& report@ == qr_report(id@, "error", "二维码登录正在处理中")
                &&& final(state)@ == old(state)@
            },
            None => {
                &&& !old(state)@.in_flight.contains(id@)
                &&& final(state)@ == (StateView {
                    in_flight: old(state)@.in_flight.insert(id@),
                    ..old(state)@
                })
            },
        },
{
    if state.in_flight.contains_key(id.0.as_str()) {
        return Some(login_status(id, "error", "二维码登录正在处理中", None));
    }
    state.in_flight.insert(id.0.clone(), ());
    assert(state.in_flight@.dom() =~= old(state).in_flight@.dom().insert(id@));
    None
}

/// The state after the poll of the QR code login `id` has ended: what is remembered of its
/// cancellations goes with the login itself.
pub open spec fn after_poll(before: StateView, id: Seq<char>) -> StateView {
    StateView {
        in_flight: before.in_flight.remove(id),
        cancel_epochs: if before.sessions.contains_key(id) {
            before.cancel_epochs
        } else {
            before.cancel_epochs.remove(id)
        },
        ..before
    }
}

/// Ends a poll of the QR code login `id`.
pub fn leave_poll(state: &mut QLoginState, id: &QrSessionId)
    ensures
        final(state)@ == after_poll(old(state)@, id@),
{
    let entered = state.in_flight.remove(id.0.as_str());
    if !state.sessions.contains_key(id.0.as_str()) {
        let epoch = state.cancel_epochs.remove(id.0.as_str());
    }
    assert(state.in_flight@.dom() =~= old(state).in_flight@.dom().remove(id@));
    assert(state@ =~= after_poll(old(state)@, id@));
}

/// `session` may not be polled any more at `now`.
pub open spec fn timed_out(session: QrLoginSession, now: u128) -> bool {
    session.outdated(now) || session.poll_count >= MAX_POLLS
}

/// What a poll of the QR code login `id` at the time `now` begins with.
pub open spec fn opening_outcome(
    before: StateView,
    id: Seq<char>,
    now: u128,
    step: Result<PollStep, String>,
) -> bool {
    let session = before.sessions[id];
    if !before.sessions.contains_key(id) {
        step matches Err(message) && message@ == "二维码登录会话不存在或已失效"@
    } else if before.is_cancelled(id, session) {
        step matches Ok(PollStep::Over(report)) && report@ == qr_report(
            id,
            "cancelled",
            "二维码登录已取消",
        )
    } else if timed_out(session, now) {
        step matches Ok(PollStep::Over(report)) && report@ == qr_report(
            id,
            "timedOut",
            "二维码登录已超时",
        )
    } else {
        step == Ok::<PollStep, String>(
            PollStep::Ask(
                QrLoginSession { poll_count: (session.poll_count + 1) as u32, ..session },
            ),
        )
    }
}

/// Takes the session of the QR code login `id` out of the state, to ask for its state at `now`.
pub fn take_session(state: &mut QLoginState, id: &QrSessionId, now: u128) -> (step: Result<
    PollStep,
    String,
>)
    ensures
        final(state)@ == (StateView {
            sessions: old(state)@.sessions.remove(id@),
            ..old(state)@
        }),
        opening_outcome(old(state)@, id@, now, step),
{
    let taken = state.sessions.remove(id.0.as_str());
    let mut session = match taken {
        Some(session) => session,
        None => return Err("二维码登录会话不存在或已失效".to_owned()),
    };
    if cancelled(state, id, &session) {
        discard(session);
        return Ok(PollStep::Over(login_status(id, "cancelled", "二维码登录已取消", None)));
    }
    if session.is_outdated(now) || session.poll_count >= MAX_POLLS {
        discard(session);
        return Ok(PollStep::Over(login_status(id, "timedOut", "二维码登录已超时", None)));
    }
    session.poll_count = session.poll_count + 1;
    Ok(PollStep::Ask(session))
}

/// The query of the request for the state of a login, at the time `now`.
pub open spec fn poll_pairs(session: QrLoginSession, now: u128) -> Seq<(Seq<char>, Seq<char>)> {
    seq![
        ("u1"@, session.u1@),
        ("ptqrtoken"@, signed_decimal(session.ptqrtoken as int)),
        ("ptredirect"@, "0"@),
        ("action"@, "0-0-"@ + decimal(now as nat)),
        ("login_sig"@, session.login_sig@),
        ("aid"@, session.appid@),
        ("daid"@, DAID@),
    ]
}

/// The query of the request for the state of a login, at the time `now`.
pub fn poll_query(session: &QrLoginSession, now: u128) -> (pairs: Vec<(String, String)>)
    ensures
        pair_texts(pairs@) == poll_pairs(*session, now),
{
    let mut action = "0-0-".to_owned();
    action.append(decimal_text(now).as_str());
    let mut pairs: Vec<(String, String)> = Vec::new();
    pairs.push(pair("u1", session.u1));
    pairs.push(pair("ptqrtoken", signed_decimal_text(session.ptqrtoken).as_str()));
    pairs.push(pair("ptredirect", "0"));
    pairs.push(pair("action", action.as_str()));
    pairs.push(pair("login_sig", session.login_sig.as_str()));
    pairs.push(pair("aid", session.appid));
    pairs.push(pair("daid", DAID));
    assert(pair_texts(pairs@) =~= poll_pairs(*session, now));
    pairs
}

/// A failure from which a login may recover: the next poll tries again.
pub enum PollFault {
    /// The state could not be asked for.
    Ask,
    /// The answer broke off.
    Answer,
    /// No new QR code was sent.
    Refresh,
    /// The image of the new QR code broke off.
    RefreshImage,
    /// The confirmation could not be followed.
    Confirm,
}

/// What is said of `fault`.
pub open spec fn poll_fault_text(fault: PollFault) -> Seq<char> {
    match fault {
        PollFault::Ask => "检查扫码状态失败，请稍后重试"@,
        PollFault::Answer => "读取扫码状态失败，请稍后重试"@,
        PollFault::Refresh => "刷新二维码失败，请稍后重试"@,
        PollFault::RefreshImage => "读取刷新二维码失败，请稍后重试"@,
        PollFault::Confirm => "确认 QQ 登录失败，请稍后重试"@,
    }
}

/// Puts the session of a poll that failed back, unless the login was given up meanwhile.
pub fn poll_failed(
    state: &mut QLoginState,
    id: &QrSessionId,
    session: QrLoginSession,
    fault: PollFault,
) -> (report: LoginStatus)
    ensures
        final(state)@ == old(state)@.restored(id@, session),
        report@ == (StatusView {
            session_id: Some(id@),
            status: "error"@,
            message: poll_fault_text(fault),
            qr_image: None,
        }),
{
    restore(state, id, session);
    let message = match fault {
        PollFault::Ask => "检查扫码状态失败，请稍后重试",
        PollFault::Answer => "读取扫码状态失败，请稍后重试",
        PollFault::Refresh => "刷新二维码失败，请稍后重试",
        PollFault::RefreshImage => "读取刷新二维码失败，请稍后重试",
        PollFault::Confirm => "确认 QQ 登录失败，请稍后重试",
    };
    login_status(id, "error", message, None)
}

/// The login service has answered; the answer counts unless the login was given up meanwhile.
pub fn poll_answered(state: &QLoginState, id: &QrSessionId, session: QrLoginSession) -> (step:
    PollStep)
    ensures
        if state@.is_cancelled(id@, session) {
            step matches PollStep::Over(report) && report@ == qr_report(
                id@,
                "cancelled",
                "二维码登录已取消",
            )
        } else {
            step == PollStep::Ask(session)
        },
{
    if cancelled(state, id, &session) {
        discard(session);
        return PollStep::Over(login_status(id, "cancelled", "二维码登录已取消", None));
    }
    PollStep::Ask(session)
}

/// A login that has been confirmed on the phone and is followed to its end.
pub struct Confirming {
    pub session: QrLoginSession,
    /// The address that is requested next.
    pub url: LoginUrl,
    /// The account that the confirmation names.
    pub callback: String,
    /// How many requests have been made.
    pub hops: u32,
}

/// What the answer to a poll leads to.
pub enum PollReport {
    /// The poll is over.
    Over(LoginStatus),
    /// A new QR code is due.
    Refresh(QrLoginSession),
    /// The login was confirmed.
    Confirm(Confirming),
}

/// What a confirmation at the address `url` leads to.
pub open spec fn confirm_outcome(
    id: Seq<char>,
    session: QrLoginSession,
    url: Option<UrlView>,
    result: Result<PollReport, String>,
) -> bool {
    match url {
        Some(found) if check_address(found) && signed_query(found.query) => {
            let named = first_value(found.query, "uin"@);
            match named {
                Some(value) if account_number(value) is Some => {
                    &&& result matches Ok(PollReport::Confirm(task))
                    &&& task.session == session
                    &&& task.url@ == found
                    &&& Some(task.callback@) == account_number(value)
                    &&& task.hops == 0
                },
                _ => result matches Err(message) && message@ == "登录响应不完整"@,
            }
        },
        _ => {
            &&& result matches Ok(PollReport::Over(report))
            &&& report@ == qr_report(id, "error", "登录跳转校验失败")
        },
    }
}

/// Begins to follow a confirmation, if its address has passed its check.
pub fn begin_confirm(
    id: &QrSessionId,
    session: QrLoginSession,
    checked: Result<LoginUrl, String>,
) -> (result: Result<PollReport, String>)
    ensures
        match checked {
            Ok(url) => {
                let named = first_value(url@.query, "uin"@);
                match named {
                    Some(value) if account_number(value) is Some => {
                        &&& result matches Ok(PollReport::Confirm(task))
                        &&& task.session == session
                        &&& task.url == url
                        &&& Some(task.callback@) == account_number(value)
                        &&& task.hops == 0
                    },
                    _ => result matches Err(message) && message@ == "登录响应不完整"@,
                }
            },
            Err(_) => {
                &&& result matches Ok(PollReport::Over(report))
                &&& report@ == qr_report(id@, "error", "登录跳转校验失败")
            },
        },
{
    let url = match checked {
        Ok(url) => url,
        Err(_) => {
            discard(session);
            return Ok(PollReport::Over(login_status(id, "error", "登录跳转校验失败", None)));
        },
    };
    let named = match query_value(&url.query, "uin") {
        Some(value) => normalized_uin(value.as_str()),
        None => None,
    };
    match named {
        Some(callback) => Ok(PollReport::Confirm(Confirming { session, url, callback, hops: 0 })),
        None => Err("登录响应不完整".to_owned()),
    }
}

/// What the state code `code` with the address `url` does to a login that has the session
/// `session`.
pub open spec fn code_outcome(
    before: StateView,
    after: StateView,
    id: Seq<char>,
    session: QrLoginSession,
    code: Seq<char>,
    url: Seq<char>,
    result: Result<PollReport, String>,
) -> bool {
    if code == "66"@ {
        &&& after == before.restored(id, session)
        &&& result matches Ok(PollReport::Over(report))
        &&& report@ == qr_report(id, "waiting", "请使用手机 QQ 扫描二维码")
    } else if code == "67"@ {
        &&& after == before.restored(id, session)
        &&& result matches Ok(PollReport::Over(report))
        &&& report@ == qr_report(id, "scanned", "已扫码，请在手机上确认登录")
    } else if code == "65"@ {
        &&& after == before
        &&& if session.refresh_count >= MAX_REFRESHES {
            &&& result matches Ok(PollReport::Over(report))
            &&& report@ == qr_report(id, "expired", "二维码刷新次数已达上限")
        } else {
            result == Ok::<PollReport, String>(PollReport::Refresh(session))
        }
    } else if code == "0"@ {
        &&& after == before
        &&& confirm_outcome(id, session, url_of(url), result)
    } else {
        &&& after == before
        &&& result matches Ok(PollReport::Over(report))
        &&& report@ == qr_report(id, "error", "QQ 登录返回了无法识别的状态")
    }
}

/// Acts on the state code `code` with the address `url`.
pub fn poll_code(
    state: &mut QLoginState,
    id: &QrSessionId,
    session: QrLoginSession,
    code: &str,
    url: &str,
) -> (result: Result<PollReport, String>)
    ensures
        code_outcome(old(state)@, final(state)@, id@, session, code@, url@, result),
{
    if same_text(code, "66") {
        restore(state, id, session);
        Ok(PollReport::Over(login_status(id, "waiting", "请使用手机 QQ 扫描二维码", None)))
    } else if same_text(code, "67") {
        restore(state, id, session);
        Ok(PollReport::Over(login_status(id, "scanned", "已扫码，请在手机上确认登录", None)))
    } else if same_text(code, "65") {
        if session.refresh_count >= MAX_REFRESHES {
            discard(session);
            return Ok(
                PollReport::Over(login_status(id, "expired", "二维码刷新次数已达上限", None)),
            );
        }
        Ok(PollReport::Refresh(session))
    } else if same_text(code, "0") {
        begin_confirm(id, session, validate_success_url(url))
    } else {
        discard(session);
        Ok(PollReport::Over(login_status(id, "error", "QQ 登录返回了无法识别的状态", None)))
    }
}

/// Acts on the answer `text` to a poll.
pub fn poll_text(
    state: &mut QLoginState,
    id: &QrSessionId,
    session: QrLoginSession,
    text: &str,
) -> (result: Result<PollReport, String>)
    ensures
        forall|fields: Seq<Seq<char>>| #[trigger]
            is_callback(trimmed(text@), fields) ==> code_outcome(
                old(state)@,
                final(state)@,
                id@,
                session,
                fields[0],
                fields[2],
                result,
            ),
        (forall|fields: Seq<Seq<char>>| !is_callback(trimmed(text@), fields)) ==> {
            &&& final(state)@ == old(state)@
            &&& result matches Ok(PollReport::Over(report))
            &&& report@ == qr_report(id@, "error", "QQ 登录返回了无法识别的状态")
        },
{
    match parse_poll_callback(text) {
        Ok(found) => {
            proof {
                let parsed = choose|fields: Seq<Seq<char>>| #[trigger]
                    is_callback(trimmed(text@), fields) && found.0@ == fields[0] && found.1@
                        == fields[2];
                assert forall|fields: Seq<Seq<char>>| #[trigger]
                    is_callback(trimmed(text@), fields) implies fields == parsed by {
                    law_callback_fields_are_unique(
                        trimmed(text@),
                        fields,
                        parsed,
                    );
                }
            }
            poll_code(state, id, session, found.0.as_str(), found.1.as_str())
        },
        Err(_) => {
            discard(session);
            Ok(PollReport::Over(login_status(id, "error", "QQ 登录返回了无法识别的状态", None)))
        },
    }
}

/// The address of a new QR code for the login with the session `session`, at the time `now`.
pub fn refresh_url(session: &QrLoginSession, now: u128) -> (url: Result<String, String>)
    ensures
        match url {
            Ok(text) => refresh_address(*session, now) == Some(text@),
            Err(message) => message@ == "登录配置无效"@,
        },
        url is Ok <==> url_of(PTQRSHOW_URL@) is Some,
{
    show_url(session.appid, session.u1, now)
}

/// The text of the address of a new QR code for the login with the session `session`.
pub open spec fn refresh_address(session: QrLoginSession, now: u128) -> Option<Seq<char>> {
    url_with_pairs(
        PTQRSHOW_URL@,
        show_pairs(session.appid@, session.u1@, now),
    )
}

/// The signature of the QR code that is shown now, which the jar of the login sends to `url`.
pub fn shown_signature(session: &QrLoginSession, url: &str) -> (signature: Option<String>)
    ensures
        exists|cookies: Map<Seq<char>, Seq<char>>| #[trigger]
            from_jar(*session.jar, url@, cookies) && match signature {
                Some(value) => cookies.contains_key("qrsig"@) && cookies["qrsig"@] == value@,
                None => !cookies.contains_key("qrsig"@),
            },
{
    let cookies = jar_cookies(&session.jar, url);
    match cookies.get("qrsig") {
        Some(value) => Some(value.clone()),
        None => None,
    }
}

/// The first value of `name` that is not empty.
pub open spec fn first_filled(pairs: Seq<(Seq<char>, Seq<char>)>, name: Seq<char>) -> Option<
    Seq<char>,
>
    decreases pairs.len(),
{
    if pairs.len() == 0 {
        None
    } else if pairs[0].0 == name && pairs[0].1.len() > 0 {
        Some(pairs[0].1)
    } else {
        first_filled(pairs.drop_first(), name)
    }
}

/// The signature of a new QR code in the cookies `pairs` of the answer: the first one that is not
/// empty, provided that it is not the signature `shown` of the code before it.
pub open spec fn new_signature(
    pairs: Seq<(Seq<char>, Seq<char>)>,
    shown: Option<Seq<char>>,
) -> Option<Seq<char>> {
    let found = first_filled(pairs, "qrsig"@);
    if found is Some && found != shown {
        found
    } else {
        None
    }
}

/// A new QR code whose signature is there and whose image is still to come.
pub struct Refreshing {
    pub session: QrLoginSession,
    pub signature: String,
}

/// How the replacement of a QR code goes on.
pub enum RefreshStep {
    Over(LoginStatus),
    Image(Refreshing),
}

/// Acts on the answer to a request for a new QR code: whether it succeeded, and its cookies. One
/// that did not succeed is a failure from which the login may recover.
pub fn refresh_answered(
    state: &mut QLoginState,
    id: &QrSessionId,
    session: QrLoginSession,
    succeeded: bool,
    cookies: &Vec<(String, String)>,
    shown: Option<String>,
) -> (step: RefreshStep)
    ensures
        final(state)@ == if succeeded {
            old(state)@
        } else {
            old(state)@.restored(id@, session)
        },
        if !succeeded {
            &&& step matches RefreshStep::Over(report)
            &&& report@ == qr_report(id@, "error", "刷新二维码失败，请稍后重试")
        } else {
            match new_signature(pair_texts(cookies@), opt_text(shown)) {
                Some(signature) => {
                    &&& step matches RefreshStep::Image(task)
                    &&& task.session == session
                    &&& task.signature@ == signature
                },
                None => {
                    &&& step matches RefreshStep::Over(report)
                    &&& report@ == qr_report(id@, "error", "二维码刷新响应不完整")
                },
            }
        },
{
    if !succeeded {
        return RefreshStep::Over(poll_failed(state, id, session, PollFault::Refresh));
    }
    let ghost all = pair_texts(cookies@);
    let mut found: Option<String> = None;
    let mut i: usize = 0;
    assert(all.skip(0) =~= all);
    while i < cookies.len() && found.is_none()
        invariant
            i <= cookies.len(),
            all == pair_texts(cookies@),
            match found {
                Some(value) => first_filled(all, "qrsig"@) == Some(value@),
                None => first_filled(all, "qrsig"@) == first_filled(all.skip(i as int), "qrsig"@),
            },
        decreases cookies.len() - i,
    {
        let pair = &cookies[i];
        assert(all.skip(i as int)[0] == (pair.0@, pair.1@));
        assert(all.skip(i as int).drop_first() =~= all.skip(i + 1));
        if same_text(pair.0.as_str(), "qrsig") && !pair.1.as_str().is_empty() {
            found = Some(pair.1.clone());
        }
        i += 1;
    }
    assert(found is None ==> all.skip(i as int).len() == 0);
    if let Some(signature) = found {
        let unchanged = match &shown {
            Some(value) => same_text(value.as_str(), signature.as_str()),
            None => false,
        };
        if !unchanged {
            return RefreshStep::Image(Refreshing { session, signature });
        }
    }
    discard(session);
    RefreshStep::Over(login_status(id, "error", "二维码刷新响应不完整", None))
}

/// The session of a login whose QR code was replaced by the one with the signature `signature`.
pub open spec fn refreshed(session: QrLoginSession, signature: Seq<char>) -> QrLoginSession {
    QrLoginSession {
        ptqrtoken: (hash33(0, signature) as int % 0x8000_0000) as i64,
        refresh_count: (session.refresh_count + 1) as u32,
        ..session
    }
}

/// Shows the new QR code, unless the login was given up meanwhile.
pub fn refresh_done(
    state: &mut QLoginState,
    id: &QrSessionId,
    task: Refreshing,
    image: &[u8],
) -> (report: LoginStatus)
    requires
        task.session.refresh_count < u32::MAX,
        (image@.len() + 2) / 3 * 4 <= isize::MAX,
    ensures
        final(state)@ == old(state)@.restored(id@, refreshed(task.session, task.signature@)),
        report@ == if old(state)@.is_cancelled(id@, task.session) {
            qr_report(id@, "cancelled", "二维码登录已取消")
        } else {
            StatusView {
                session_id: Some(id@),
                status: "refreshed"@,
                message: "二维码已自动刷新"@,
                qr_image: Some(data_address("image/png"@, base64_of(image@))),
            }
        },
{
    let mut session = task.session;
    session.ptqrtoken = ptqr_token(task.signature.as_str());
    session.refresh_count = session.refresh_count + 1;
    assert(session == refreshed(task.session, task.signature@));
    if cancelled(state, id, &session) {
        discard(session);
        return login_status(id, "cancelled", "二维码登录已取消", None);
    }
    state.sessions.insert(id.0.clone(), session);
    login_status(id, "refreshed", "二维码已自动刷新", Some(data_url("image/png", image)))
}

/// How a confirmed login goes on: it is over, or its address is to be requested.
pub enum HopStep {
    Over(LoginStatus),
    Request(Confirming),
}

/// What becomes of a confirmed login that is to go on at the address of `task`.
pub open spec fn hop_outcome(id: Seq<char>, task: Confirming, step: HopStep) -> bool {
    if task.hops >= MAX_HOPS {
        step matches HopStep::Over(report) && report@ == qr_report(id, "error", "确认 QQ 登录失败")
    } else if !trusted_hop(task.url@) {
        step matches HopStep::Over(report) && report@ == qr_report(id, "error", "登录跳转校验失败")
    } else {
        step == HopStep::Request(Confirming { hops: (task.hops + 1) as u32, ..task })
    }
}

/// Lets the address of `task` be requested, if it is trusted and not too many were before it.
pub fn next_hop(id: &QrSessionId, task: Confirming) -> (step: HopStep)
    ensures
        hop_outcome(id@, task, step),
{
    if task.hops >= MAX_HOPS {
        discard(task.session);
        return HopStep::Over(login_status(id, "error", "确认 QQ 登录失败", None));
    }
    if !validate_login_hop(&task.url) {
        discard(task.session);
        return HopStep::Over(login_status(id, "error", "登录跳转校验失败", None));
    }
    HopStep::Request(
        Confirming {
            session: task.session,
            url: task.url,
            callback: task.callback,
            hops: task.hops + 1,
        },
    )
}

/// What becomes of a confirmed login that was redirected to `next`.
pub open spec fn redirect_outcome(
    id: Seq<char>,
    task: Confirming,
    next: Option<UrlView>,
    step: HopStep,
) -> bool {
    if next matches Some(url) && trusted_hop(url) {
        if task.hops >= MAX_HOPS {
            step matches HopStep::Over(report) && report@ == qr_report(
                id,
                "error",
                "确认 QQ 登录失败",
            )
        } else {
            &&& step matches HopStep::Request(followed)
            &&& Some(followed.url@) == next
            &&& followed.session == task.session
            &&& followed.callback == task.callback
            &&& followed.hops == task.hops + 1
        }
    } else {
        step matches HopStep::Over(report) && report@ == qr_report(id, "error", "登录跳转校验失败")
    }
}

/// Follows a redirection to `next`, if that is an address at all and a trusted one.
pub fn follow_redirect(id: &QrSessionId, task: Confirming, next: Option<LoginUrl>) -> (step: HopStep)
    ensures
        redirect_outcome(
            id@,
            task,
            match next {
                Some(url) => Some(url@),
                None => None,
            },
            step,
        ),
{
    if let Some(url) = next {
        if validate_login_hop(&url) {
            return next_hop(
                id,
                Confirming {
                    session: task.session,
                    url,
                    callback: task.callback,
                    hops: task.hops,
                },
            );
        }
    }
    discard(task.session);
    HopStep::Over(login_status(id, "error", "登录跳转校验失败", None))
}

/// Acts on an answer that redirects a confirmed login, to `location` where it names one.
pub fn hop_redirected(id: &QrSessionId, task: Confirming, location: Option<&str>) -> (step: HopStep)
    ensures
        match location {
            Some(target) => redirect_outcome(
                id@,
                task,
                url_joined(task.url@.href, target@),
                step,
            ),
            None => step matches HopStep::Over(report) && report@ == qr_report(
                id@,
                "error",
                "登录跳转响应不完整",
            ),
        },
{
    match location {
        Some(target) => {
            let next = redirect_target(&task.url, target);
            follow_redirect(id, task, next)
        },
        None => {
            discard(task.session);
            HopStep::Over(login_status(id, "error", "登录跳转响应不完整", None))
        },
    }
}

/// A login whose credentials are complete.
pub struct Confirmed {
    pub session: QrLoginSession,
    pub login: LoginSession,
}

/// How a confirmed login ends: it is over, or its credentials are to take effect.
pub enum ConfirmStep {
    Over(LoginStatus),
    Commit(Confirmed),
}

/// The account that the cookies of a login name.
pub open spec fn cookie_account(cookies: Map<Seq<char>, Seq<char>>) -> Option<Seq<char>> {
    if cookies.contains_key("uin"@) {
        account_number(cookies["uin"@])
    } else if cookies.contains_key("p_uin"@) {
        account_number(cookies["p_uin"@])
    } else {
        None
    }
}

/// The request token that belongs to the session key `key`.
pub open spec fn g_tk_of(key: Seq<char>) -> i64 {
    (hash33(G_TK_SEED as nat, key) as int % 0x8000_0000) as i64
}

/// What becomes of a login that was confirmed for the account `callback` and has the cookies
/// `cookies`.
pub open spec fn credentials_outcome(
    id: Seq<char>,
    session: QrLoginSession,
    callback: Seq<char>,
    cookies: Map<Seq<char>, Seq<char>>,
    step: ConfirmStep,
) -> bool {
    let key = filled_cookie(cookies, "p_skey"@);
    if cookie_account(cookies) is None || key is None {
        step matches ConfirmStep::Over(report) && report@ == qr_report(
            id,
            "error",
            "登录凭据不完整",
        )
    } else if cookie_account(cookies) != Some(callback) {
        step matches ConfirmStep::Over(report) && report@ == qr_report(
            id,
            "error",
            "登录身份校验失败",
        )
    } else {
        &&& step matches ConfirmStep::Commit(found)
        &&& found.session == session
        &&& found.login.cookies@ == cookies
        &&& found.login@.uin == Some(callback)
        &&& found.login@.g_tk == Some(g_tk_of(key->0))
        &&& found.login@.user_agent == session.user_agent@
        &&& found.login@.web_attempt is None
    }
}

/// Makes the session of the account out of the cookies of a login that was confirmed for the
/// account `callback`.
pub fn confirm_credentials(
    id: &QrSessionId,
    session: QrLoginSession,
    callback: &str,
    cookies: Cookies,
) -> (step: ConfirmStep)
    ensures
        credentials_outcome(id@, session, callback@, cookies@, step),
        step matches ConfirmStep::Commit(found) ==> found.login.cookies == cookies,
{
    let named = match cookies.get("uin") {
        Some(value) => normalized_uin(value.as_str()),
        None => match cookies.get("p_uin") {
            Some(value) => normalized_uin(value.as_str()),
            None => None,
        },
    };
    let uin = match named {
        Some(uin) => uin,
        None => {
            discard(session);
            return ConfirmStep::Over(login_status(id, "error", "登录凭据不完整", None));
        },
    };
    let key = match filled_value(&cookies, "p_skey") {
        Some(key) => key,
        None => {
            discard(session);
            return ConfirmStep::Over(login_status(id, "error", "登录凭据不完整", None));
        },
    };
    if !same_text(uin.as_str(), callback) {
        discard(session);
        return ConfirmStep::Over(login_status(id, "error", "登录身份校验失败", None));
    }
    let login = LoginSession {
        cookies,
        uin: Some(uin),
        g_tk: Some(bkn(key.as_str())),
        user_agent: session.user_agent.clone(),
        web_attempt: None,
    };
    ConfirmStep::Commit(Confirmed { session, login })
}

/// Acts on the last answer to a confirmed login, one that redirects no further: whether it
/// succeeded decides, unless the login was given up meanwhile. Which cookies the login then has
/// depends on its jar.
pub fn hop_arrived(
    state: &QLoginState,
    id: &QrSessionId,
    task: Confirming,
    succeeded: bool,
) -> (step: ConfirmStep)
    ensures
        if !succeeded {
            step matches ConfirmStep::Over(report) && report@ == qr_report(
                id@,
                "error",
                "确认 QQ 登录失败",
            )
        } else if state@.is_cancelled(id@, task.session) {
            step matches ConfirmStep::Over(report) && report@ == qr_report(
                id@,
                "cancelled",
                "二维码登录已取消",
            )
        } else {
            exists|cookies: Map<Seq<char>, Seq<char>>| #[trigger]
                from_jar(*task.session.jar, QZONE_URL@, cookies) && credentials_outcome(
                    id@,
                    task.session,
                    task.callback@,
                    cookies,
                    step,
                )
        },
{
    if !succeeded {
        discard(task.session);
        return ConfirmStep::Over(login_status(id, "error", "确认 QQ 登录失败", None));
    }
    if cancelled(state, id, &task.session) {
        discard(task.session);
        return ConfirmStep::Over(login_status(id, "cancelled", "二维码登录已取消", None));
    }
    let cookies = jar_cookies(&task.session.jar, QZONE_URL);
    confirm_credentials(id, task.session, task.callback.as_str(), cookies)
}

/// Logs the account in, unless the login was given up meanwhile.
pub fn commit_qr_login(state: &mut QLoginState, id: &QrSessionId, confirmed: Confirmed) -> (report:
    LoginStatus)
    ensures
        if old(state)@.is_cancelled(id@, confirmed.session) {
            &&& final(state)@ == old(state)@
            &&& report@ == qr_report(id@, "cancelled", "二维码登录已取消")
        } else {
            &&& final(state)@ == (StateView { session: Some(confirmed.login@), ..old(state)@ })
            &&& report@ == qr_report(id@, "success", "登录成功")
        },
{
    if cancelled(state, id, &confirmed.session) {
        discard(confirmed.session);
        return login_status(id, "cancelled", "二维码登录已取消", None);
    }
    state.session = Some(confirmed.login);
    discard(confirmed.session);
    login_status(id, "success", "登录成功", None)
}

/// How a poll begins.
pub enum PollOpening {
    /// Another poll of the same login is running.
    Busy(LoginStatus),
    /// This poll runs now: it has ended at once, or the login service is to be asked.
    Running(Result<PollStep, String>),
}

/// Begins a poll of the QR code login `id` at the time `now`. Once it runs, `leave_poll` ends it.
pub fn poll_qr_login(state: &mut QLoginState, id: &QrSessionId, now: u128) -> (opening: PollOpening)
    ensures
        match opening {
            PollOpening::Busy(report) => {
                &&& old(state)@.in_flight.contains(id@)
                &&& report@ == qr_report(id@, "error", "二维码登录正在处理中")
                &&& final(state)@ == old(state)@
            },
            PollOpening::Running(step) => {
                &&& !old(state)@.in_flight.contains(id@)
                &&& final(state)@ == (StateView {
                    in_flight: old(state)@.in_flight.insert(id@),
                    sessions: old(state)@.sessions.remove(id@),
                    ..old(state)@
                })
                &&& opening_outcome(old(state)@, id@, now, step)
            },
        },
{
    match enter_poll(state, id) {
        Some(report) => PollOpening::Busy(report),
        None => {
            let step = take_session(state, id, now);
            PollOpening::Running(step)
        },
    }
}

} // verus!
