//! What holds of the state of all logins, of what is shown of it, and of how a login begins.

use vstd::prelude::*;
use vstd::string::*;

use crate::codec::hex_text;
use crate::laws_text::{law_decimals_read_back, read_decimal};
use crate::link::url_with_pairs;
use crate::poll::{refresh_address, MAX_HOPS, PTQRLOGIN_URL, QZONE_URL};
use crate::profile::{
    AVATAR_URL, MAX_AVATAR_BYTES, MAX_PROFILE_BYTES, USER_INFO_URL, VIP_INFO_URL,
};
use crate::session::{
    LoginSession, QrLoginSession, APP_ID, DAID, MAX_POLLS, MAX_QR_SESSIONS, MAX_REFRESHES,
    QR_SESSION_TTL_MS, S_URL,
};
use crate::start::{
    after_admission, device_cookie, device_lines, filled_cookie, show_pairs, start_fault_text,
    xlogin_pairs, StartFault, PTQRSHOW_URL, QQ_URL, XLOGIN_URL,
};
use crate::state::{auth_failure, QLoginState, StateView};
use crate::status::{opt_text, plain_report, qr_report, LoginStatus, QrSessionId};
use crate::strmap::map_of;
use crate::text::{decimal, white_space};
use crate::web::{
    WEB_LOGIN_CLOSE_POLL_ATTEMPTS, WEB_LOGIN_CLOSE_POLL_INTERVAL_MS, WEB_LOGIN_URL,
    WEB_LOGIN_WINDOW_LABEL,
};

verus! {

/// A status is shown in full: its login, its kind, its message and its image.
pub proof fn law_statuses_are_shown_in_full(report: LoginStatus)
    ensures
        report@.session_id is Some <==> report.session_id is Some,
        report.session_id matches Some(id) ==> report@.session_id == Some(id.0@),
        report@.status == report.status@,
        report@.message == report.message@,
        report@.qr_image is Some <==> report.qr_image is Some,
        report.qr_image matches Some(image) ==> report@.qr_image == Some(image@),
{
}

/// A report names its login, its kind and its message, and has no image.
pub proof fn law_reports_say_what_they_are_made_of(id: Seq<char>, status: &str, message: &str)
    ensures
        qr_report(id, status, message).session_id == Some(id),
        qr_report(id, status, message).status == status@,
        qr_report(id, status, message).message == message@,
        qr_report(id, status, message).qr_image is None,
        plain_report(status, message).session_id is None,
        plain_report(status, message).status == status@,
        plain_report(status, message).message == message@,
        plain_report(status, message).qr_image is None,
{
}

/// The name of a login is its whole text.
pub proof fn law_names_are_shown_in_full(id: QrSessionId)
    ensures
        id@ == id.0@,
{
}

/// An optional text is shown in full.
pub proof fn law_optional_texts_are_shown_in_full(s: Option<String>)
    ensures
        opt_text(s) is Some <==> s is Some,
        s matches Some(text) ==> opt_text(s) == Some(text@),
{
}

/// The session of an account is shown in full.
pub proof fn law_account_sessions_are_shown_in_full(login: LoginSession)
    ensures
        login@.cookies == login.cookies.pairs(),
        login.cookies@ == map_of(login@.cookies),
        login@.uin is Some <==> login.uin is Some,
        login.uin matches Some(uin) ==> login@.uin == Some(uin@),
        login@.g_tk == login.g_tk,
        login@.user_agent == login.user_agent@,
        login@.web_attempt == login.web_attempt,
{
}

/// The state is shown in full.
pub proof fn law_states_are_shown_in_full(state: QLoginState, id: Seq<char>)
    ensures
        state@.session is Some <==> state.session is Some,
        state.session matches Some(login) ==> state@.session == Some(login@),
        state@.sessions == state.sessions@,
        state@.last_user_agent is Some <==> state.last_user_agent is Some,
        state.last_user_agent matches Some(agent) ==> state@.last_user_agent == Some(agent@),
        state@.user_agent_sequence == state.user_agent_sequence,
        state@.generation == state.generation,
        state@.cancel_epochs == state.cancel_epochs@,
        state@.in_flight.contains(id) <==> state.in_flight@.contains_key(id),
        state@.web_generation == state.web_generation,
        state@.active_web_attempt == state.active_web_attempt,
{
}

/// A login counts as cancelled where its generation is over, or where it was cancelled another
/// number of times since it began; a login that nothing is remembered of was never cancelled.
pub proof fn law_cancelled_logins(state: StateView, id: Seq<char>, session: QrLoginSession)
    ensures
        session.generation != state.generation ==> state.is_cancelled(id, session),
        session.generation == state.generation && !state.cancel_epochs.contains_key(id) ==> (
        state.is_cancelled(id, session) <==> session.cancel_epoch != 0),
        session.generation == state.generation && state.cancel_epochs.contains_key(id) ==> (
        state.is_cancelled(id, session) <==> session.cancel_epoch != state.cancel_epochs[id]),
{
}

/// Putting a login back changes nothing but the login itself, and nothing at all where it was
/// cancelled.
pub proof fn law_putting_back_changes_one_login(
    before: StateView,
    id: Seq<char>,
    session: QrLoginSession,
    other: Seq<char>,
)
    ensures
        ({
            let after = before.restored(id, session);
            &&& !before.is_cancelled(id, session) ==> after.sessions.contains_key(id)
                && after.sessions[id] == session
            &&& before.is_cancelled(id, session) ==> after == before
            &&& other != id ==> (after.sessions.contains_key(other)
                <==> before.sessions.contains_key(other))
            &&& other != id && before.sessions.contains_key(other) ==> after.sessions[other]
                == before.sessions[other]
            &&& after.session == before.session
            &&& after.last_user_agent == before.last_user_agent
            &&& after.user_agent_sequence == before.user_agent_sequence
            &&& after.generation == before.generation
            &&& after.cancel_epochs == before.cancel_epochs
            &&& after.in_flight == before.in_flight
            &&& after.web_generation == before.web_generation
            &&& after.active_web_attempt == before.active_web_attempt
        }),
{
}

/// Cancelling a login counts one cancellation of it, and changes nothing but that and the login.
pub proof fn law_cancelling_counts_one(before: StateView, id: Seq<char>, other: Seq<char>)
    requires
        before.epoch(id) < u64::MAX,
    ensures
        ({
            let after = before.after_cancel(id);
            &&& after.cancel_epochs.contains_key(id)
            &&& before.cancel_epochs.contains_key(id) ==> after.cancel_epochs[id]
                == before.cancel_epochs[id] + 1
            &&& !before.cancel_epochs.contains_key(id) ==> after.cancel_epochs[id] == 1
            &&& other != id ==> (after.cancel_epochs.contains_key(other)
                <==> before.cancel_epochs.contains_key(other))
            &&& other != id && before.cancel_epochs.contains_key(other)
                ==> after.cancel_epochs[other] == before.cancel_epochs[other]
            &&& after.session == before.session
            &&& after.last_user_agent == before.last_user_agent
            &&& after.user_agent_sequence == before.user_agent_sequence
            &&& after.generation == before.generation
            &&& after.in_flight == before.in_flight
            &&& after.web_generation == before.web_generation
            &&& after.active_web_attempt == before.active_web_attempt
        }),
{
}

/// Logging out begins a new generation of logins and of browser windows, forgets all
/// cancellations, and keeps what is known of user agents.
pub proof fn law_logging_out_begins_anew(before: StateView)
    ensures
        ({
            let after = before.after_clear();
            &&& after.session is None
            &&& after.cancel_epochs == Map::<Seq<char>, u64>::empty()
            &&& after.active_web_attempt == 0
            &&& before.generation < u64::MAX ==> after.generation == before.generation + 1
            &&& before.generation == u64::MAX ==> after.generation == 0
            &&& before.web_generation < u64::MAX ==> after.web_generation == before.web_generation
                + 1
            &&& before.web_generation == u64::MAX ==> after.web_generation == 0
            &&& after.last_user_agent == before.last_user_agent
            &&& after.user_agent_sequence == before.user_agent_sequence
        }),
{
}

/// A QR code login goes on for five minutes from its beginning, and not longer; a login that goes
/// on is kept as it is.
pub proof fn law_logins_last_five_minutes(state: StateView, id: Seq<char>, now: u128)
    ensures
        state.live_sessions(now).contains_key(id) <==> state.sessions.contains_key(id) && now
            <= state.sessions[id].created_at + 5 * 60 * 1000,
        state.live_sessions(now).contains_key(id) ==> state.live_sessions(now)[id]
            == state.sessions[id],
{
}

/// An account is logged in where its session names it and has a request token.
pub proof fn law_logged_in(state: StateView)
    ensures
        state.session is None ==> !state.logged_in(),
        state.session matches Some(login) ==> (state.logged_in() <==> login.uin is Some
            && login.g_tk is Some),
{
}

/// Requests can be made where there is a session with a request token, a session key that is not
/// blank, and an account; what is missing is said in this order.
pub proof fn law_what_requests_need(state: StateView)
    ensures
        state.session is None ==> auth_failure(state.session) == Some("尚未登录 QQ 空间"@),
        state.session matches Some(login) ==> {
            let cookies = map_of(login.cookies);
            let keyed = cookies.contains_key("p_skey"@) && exists|k: int|
                0 <= k < cookies["p_skey"@].len() && !white_space(#[trigger] cookies["p_skey"@][k]);
            &&& login.g_tk is None ==> auth_failure(state.session) == Some("登录会话缺少 g_tk"@)
            &&& login.g_tk is Some && !keyed ==> auth_failure(state.session) == Some(
                "登录会话缺少有效的 p_skey"@,
            )
            &&& login.g_tk is Some && keyed && login.uin is None ==> auth_failure(state.session)
                == Some("登录会话缺少 uin"@)
            &&& login.g_tk is Some && keyed && login.uin is Some ==> auth_failure(
                state.session,
            ) is None
        },
{
}

/// A QR code is asked for with ten values: the application, the page that the login leads to and
/// the time as it is, and seven that never change.
pub proof fn law_codes_are_asked_for(appid: Seq<char>, u1: Seq<char>, now: u128)
    ensures
        ({
            let query = show_pairs(appid, u1, now);
            &&& query.len() == 10
            &&& query[0] == ("appid"@, appid)
            &&& query[1] == ("e"@, "2"@)
            &&& query[2] == ("l"@, "M"@)
            &&& query[3] == ("s"@, "3"@)
            &&& query[4] == ("d"@, "72"@)
            &&& query[5] == ("v"@, "4"@)
            &&& query[6].0 == "t"@
            &&& read_decimal(query[6].1) == now
            &&& query[6].1 == decimal(now as nat)
            &&& query[7] == ("daid"@, "5"@)
            &&& query[8] == ("pt_3rd_aid"@, "0"@)
            &&& query[9] == ("u1"@, u1)
        }),
{
    law_decimals_read_back(now as nat);
}

/// The page that a login begins on is asked for with twelve values that never change.
pub proof fn law_logins_begin_with_fixed_values()
    ensures
        xlogin_pairs() == seq![
            ("hide_title_bar"@, "1"@),
            ("style"@, "22"@),
            ("daid"@, "5"@),
            ("low_login"@, "0"@),
            ("qlogin_auto_login"@, "1"@),
            ("no_verifyimg"@, "1"@),
            ("link_target"@, "blank"@),
            ("appid"@, "549000929"@),
            ("target"@, "self"@),
            ("s_url"@, "https://h5.qzone.qq.com/mqzone/index"@),
            ("proxy_url"@, ""@),
            ("pt_no_auth"@, "1"@),
        ],
{
}

/// A new QR code is asked for as the first one was: for the application and the page of the login.
pub proof fn law_new_codes_are_asked_for_like_the_first(session: QrLoginSession, now: u128)
    ensures
        refresh_address(session, now) == url_with_pairs(
            "https://ssl.ptlogin2.qq.com/ptqrshow"@,
            show_pairs(session.appid@, session.u1@, now),
        ),
{
}

/// The addresses of the services.
pub proof fn law_addresses_of_the_services()
    ensures
        XLOGIN_URL@ == "https://xui.ptlogin2.qq.com/cgi-bin/xlogin"@,
        PTQRSHOW_URL@ == "https://ssl.ptlogin2.qq.com/ptqrshow"@,
        PTQRLOGIN_URL@ == "https://ssl.ptlogin2.qq.com/ptqrlogin"@,
        QQ_URL@ == "https://qq.com/"@,
        QZONE_URL@ == "https://qzone.qq.com/"@,
        S_URL@ == "https://h5.qzone.qq.com/mqzone/index"@,
        VIP_INFO_URL@
            == "https://h5.qzone.qq.com/proxy/domain/vip.qzone.qq.com/fcg-bin/fcg_get_vipinfo_mobile"@,
        USER_INFO_URL@
            == "https://h5.qzone.qq.com/proxy/domain/base.qzone.qq.com/cgi-bin/user/cgi_userinfo_get_all"@,
        AVATAR_URL@ == "https://q1.qlogo.cn/g"@,
        WEB_LOGIN_URL@ == "https://i.qq.com"@,
        WEB_LOGIN_WINDOW_LABEL@ == "qq-web-login"@,
        APP_ID@ == "549000929"@,
        DAID@ == "5"@,
{
}

/// The limits: five minutes, 16 logins, 180 polls, three new codes and six requests for a login, a
/// quarter of a megabyte for a profile and two for an avatar, and half a second for a window to
/// close.
pub proof fn law_limits_are_fixed()
    ensures
        QR_SESSION_TTL_MS == 5 * 60 * 1000,
        MAX_QR_SESSIONS == 16,
        MAX_POLLS == 180,
        MAX_REFRESHES == 3,
        MAX_HOPS == 6,
        MAX_PROFILE_BYTES == 256 * 1024,
        MAX_AVATAR_BYTES == 2 * 1024 * 1024,
        WEB_LOGIN_CLOSE_POLL_ATTEMPTS * WEB_LOGIN_CLOSE_POLL_INTERVAL_MS == 500,
        WEB_LOGIN_CLOSE_POLL_ATTEMPTS == 20,
{
}

/// A signature is the whole value of its cookie, and there is one exactly where that is not empty;
/// other cookies do not matter.
pub proof fn law_signatures_are_whole_values(
    cookies: Map<Seq<char>, Seq<char>>,
    name: Seq<char>,
    other: Seq<char>,
    value: Seq<char>,
)
    ensures
        filled_cookie(cookies, name) is Some <==> cookies.contains_key(name) && cookies[name].len()
            > 0,
        filled_cookie(cookies, name) is Some ==> filled_cookie(cookies, name)->0 == cookies[name],
        value.len() > 0 ==> filled_cookie(cookies.insert(name, value), name) == Some(value),
        other != name ==> filled_cookie(cookies.insert(other, value), name) == filled_cookie(
            cookies,
            name,
        ),
{
}

/// A cookie of the device has its name and its whole value, and is for all hosts of QQ.
pub proof fn law_device_cookies_are_for_all_of_qq(name: Seq<char>, value: Seq<char>)
    ensures
        ({
            let line = device_cookie(name, value);
            let n = name.len() as int;
            let m = n + 1 + value.len();
            &&& line.take(n) == name
            &&& line[n] == '='
            &&& line.subrange(n + 1, m) == value
            &&& line.skip(m) == "; Domain=.qq.com; Path=/; Secure"@
        }),
{
    reveal_strlit("=");
    let line = device_cookie(name, value);
    let n = name.len() as int;
    let m = n + 1 + value.len();
    assert(line.take(n) =~= name);
    assert(line.subrange(n + 1, m) =~= value);
    assert(line.skip(m) =~= "; Domain=.qq.com; Path=/; Secure"@);
}

/// A device has a fingerprint of 32 random digits and a name of 42, under the cookies that the login
/// service knows them by.
pub proof fn law_devices_have_two_cookies(lines: Seq<String>)
    requires
        device_lines(lines),
    ensures
        lines.len() == 2,
        exists|value: Seq<char>| #[trigger]
            hex_text(value) && value.len() == 32 && lines[0]@ == "_qimei_fingerprint"@ + seq!['=']
                + value + "; Domain=.qq.com; Path=/; Secure"@,
        exists|value: Seq<char>| #[trigger]
            hex_text(value) && value.len() == 42 && lines[1]@ == "_qimei_uuid42"@ + seq!['='] + value
                + "; Domain=.qq.com; Path=/; Secure"@,
{
    reveal_strlit("=");
    assert("="@ =~= seq!['=']);
    let first = choose|value: Seq<char>| #[trigger]
        hex_text(value) && value.len() == 32 && lines[0]@ == device_cookie(
            "_qimei_fingerprint"@,
            value,
        );
    let second = choose|value: Seq<char>| #[trigger]
        hex_text(value) && value.len() == 42 && lines[1]@ == device_cookie("_qimei_uuid42"@, value);
    assert(hex_text(first) && hex_text(second));
}

/// Each fault on the way to the first QR code has its own message.
pub proof fn law_start_faults_have_messages(fault: StartFault)
    ensures
        fault is Client ==> start_fault_text(fault) == "无法初始化登录客户端"@,
        fault is Page ==> start_fault_text(fault) == "初始化 QQ 登录失败"@,
        fault is Code ==> start_fault_text(fault) == "获取登录二维码失败"@,
        fault is Image ==> start_fault_text(fault) == "读取登录二维码失败"@,
{
}

/// Admitting a login remembers its user agent, counts the pick, drops what is outdated, and
/// changes nothing else; how often the login was cancelled stays as it was.
pub proof fn law_admission_changes_little(
    before: StateView,
    id: Seq<char>,
    agent: Seq<char>,
    now: u128,
    other: Seq<char>,
)
    ensures
        ({
            let after = after_admission(before, id, agent, now);
            &&& after.sessions == before.live_sessions(now)
            &&& after.last_user_agent == Some(agent)
            &&& before.user_agent_sequence < usize::MAX ==> after.user_agent_sequence
                == before.user_agent_sequence + 1
            &&& after.cancel_epochs.contains_key(id)
            &&& forall|session: QrLoginSession| #[trigger]
                after.is_cancelled(other, session) == before.is_cancelled(other, session)
            &&& after.session == before.session
            &&& after.generation == before.generation
            &&& after.in_flight == before.in_flight
            &&& after.web_generation == before.web_generation
            &&& after.active_web_attempt == before.active_web_attempt
        }),
{
}

} // verus!
