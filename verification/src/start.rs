//! How a login by QR code begins.

use std::sync::Arc;

use vstd::prelude::*;
use vstd::string::*;

use crate::agent::next_agent;
use crate::codec::{base64_of, data_address, data_url, hex_text, random_hex};
use crate::cookies::{from_jar, jar_add, jar_cookies, jar_texts, Cookies};
use crate::link::{pair_texts, query_url, url_of, url_with_pairs};
use crate::session::{discard, QrLoginSession, APP_ID, DAID, MAX_QR_SESSIONS, S_URL};
use crate::state::{QLoginState, StateView};
use crate::status::{QrLoginStart, QrSessionId};
use crate::strmap::lemma_map_entries;
use crate::text::{decimal, decimal_text};
use crate::token::{hash33, ptqr_token};

verus! {

/// The page that a login begins on.
pub const XLOGIN_URL: &'static str = "https://xui.ptlogin2.qq.com/cgi-bin/xlogin";

/// Where QR code images come from.
pub const PTQRSHOW_URL: &'static str = "https://ssl.ptlogin2.qq.com/ptqrshow";

/// The page that the device's cookies are set for.
pub const QQ_URL: &'static str = "https://qq.com/";

/// A pair of texts.
pub(crate) fn pair(name: &str, value: &str) -> (both: (String, String))
    ensures
        both.0@ == name@,
        both.1@ == value@,
{
    (name.to_owned(), value.to_owned())
}

/// The query of the request for the page that a login begins on.
pub open spec fn xlogin_pairs() -> Seq<(Seq<char>, Seq<char>)> {
    seq![
        ("hide_title_bar"@, "1"@),
        ("style"@, "22"@),
        ("daid"@, DAID@),
        ("low_login"@, "0"@),
        ("qlogin_auto_login"@, "1"@),
        ("no_verifyimg"@, "1"@),
        ("link_target"@, "blank"@),
        ("appid"@, APP_ID@),
        ("target"@, "self"@),
        ("s_url"@, S_URL@),
        ("proxy_url"@, ""@),
        ("pt_no_auth"@, "1"@),
    ]
}

/// The query of the request for the page that a login begins on.
pub fn xlogin_query() -> (pairs: Vec<(String, String)>)
    ensures
        pair_texts(pairs@) == xlogin_pairs(),
{
    let mut pairs: Vec<(String, String)> = Vec::new();
    pairs.push(pair("hide_title_bar", "1"));
    pairs.push(pair("style", "22"));
    pairs.push(pair("daid", DAID));
    pairs.push(pair("low_login", "0"));
    pairs.push(pair("qlogin_auto_login", "1"));
    pairs.push(pair("no_verifyimg", "1"));
    pairs.push(pair("link_target", "blank"));
    pairs.push(pair("appid", APP_ID));
    pairs.push(pair("target", "self"));
    pairs.push(pair("s_url", S_URL));
    pairs.push(pair("proxy_url", ""));
    pairs.push(pair("pt_no_auth", "1"));
    assert(pair_texts(pairs@) =~= xlogin_pairs());
    pairs
}

/// The query of the request for a QR code at the time `now`.
pub open spec fn show_pairs(appid: Seq<char>, u1: Seq<char>, now: u128) -> Seq<
    (Seq<char>, Seq<char>),
> {
    seq![
        ("appid"@, appid),
        ("e"@, "2"@),
        ("l"@, "M"@),
        ("s"@, "3"@),
        ("d"@, "72"@),
        ("v"@, "4"@),
        ("t"@, decimal(now as nat)),
        ("daid"@, DAID@),
        ("pt_3rd_aid"@, "0"@),
        ("u1"@, u1),
    ]
}

/// The query of the request for a QR code at the time `now`.
pub fn show_query(appid: &str, u1: &str, now: u128) -> (pairs: Vec<(String, String)>)
    ensures
        pair_texts(pairs@) == show_pairs(appid@, u1@, now),
{
    let mut pairs: Vec<(String, String)> = Vec::new();
    pairs.push(pair("appid", appid));
    pairs.push(pair("e", "2"));
    pairs.push(pair("l", "M"));
    pairs.push(pair("s", "3"));
    pairs.push(pair("d", "72"));
    pairs.push(pair("v", "4"));
    pairs.push(pair("t", decimal_text(now).as_str()));
    pairs.push(pair("daid", DAID));
    pairs.push(pair("pt_3rd_aid", "0"));
    pairs.push(pair("u1", u1));
    assert(pair_texts(pairs@) =~= show_pairs(appid@, u1@, now));
    pairs
}

/// The address of a QR code for the application `appid` and the page `u1` at the time `now`.
pub fn show_url(appid: &str, u1: &str, now: u128) -> (url: Result<String, String>)
    ensures
        match url {
            Ok(text) => url_with_pairs(PTQRSHOW_URL@, show_pairs(appid@, u1@, now)) == Some(text@),
            Err(message) => message@ == "登录配置无效"@,
        },
        url is Ok <==> url_of(PTQRSHOW_URL@) is Some,
{
    let pairs = show_query(appid, u1, now);
    proof {
        reveal_strlit("https://ssl.ptlogin2.qq.com/ptqrshow");
    }
    query_url(PTQRSHOW_URL, &pairs, "登录配置无效")
}

/// What can go wrong on the way to the first QR code.
pub enum StartFault {
    /// No HTTP client could be made.
    Client,
    /// The page that a login begins on did not answer.
    Page,
    /// The QR code was not sent.
    Code,
    /// The image of the QR code broke off.
    Image,
}

/// What is said of `fault`.
pub open spec fn start_fault_text(fault: StartFault) -> Seq<char> {
    match fault {
        StartFault::Client => "无法初始化登录客户端"@,
        StartFault::Page => "初始化 QQ 登录失败"@,
        StartFault::Code => "获取登录二维码失败"@,
        StartFault::Image => "读取登录二维码失败"@,
    }
}

/// What is said of `fault`.
pub fn start_failure(fault: StartFault) -> (message: String)
    ensures
        message@ == start_fault_text(fault),
{
    match fault {
        StartFault::Client => "无法初始化登录客户端".to_owned(),
        StartFault::Page => "初始化 QQ 登录失败".to_owned(),
        StartFault::Code => "获取登录二维码失败".to_owned(),
        StartFault::Image => "读取登录二维码失败".to_owned(),
    }
}

/// The cookie `name` where it has a value that is not empty.
pub open spec fn filled_cookie(
    cookies: Map<Seq<char>, Seq<char>>,
    name: Seq<char>,
) -> Option<Seq<char>> {
    if cookies.contains_key(name) && cookies[name].len() > 0 {
        Some(cookies[name])
    } else {
        None
    }
}

/// The value of the cookie `name`, if it has one that is not empty.
pub fn filled_value(cookies: &Cookies, name: &str) -> (value: Option<String>)
    ensures
        match value {
            Some(v) => filled_cookie(cookies@, name@) == Some(v@),
            None => filled_cookie(cookies@, name@) is None,
        },
{
    match cookies.get(name) {
        Some(value) => {
            if value.as_str().is_empty() {
                None
            } else {
                Some(value.clone())
            }
        },
        None => None,
    }
}

/// The signature of a login, from the answer of the page that it begins on: whether the request
/// succeeded, and the cookies that it left.
pub fn login_signature(succeeded: bool, cookies: &Cookies) -> (signature: Result<String, String>)
    ensures
        match signature {
            Ok(sig) => succeeded && filled_cookie(cookies@, "pt_login_sig"@) == Some(sig@),
            Err(message) => if succeeded {
                filled_cookie(cookies@, "pt_login_sig"@) is None && message@
                    == "QQ 登录初始化响应不完整"@
            } else {
                message@ == "初始化 QQ 登录失败"@
            },
        },
{
    if !succeeded {
        return Err("初始化 QQ 登录失败".to_owned());
    }
    match filled_value(cookies, "pt_login_sig") {
        Some(sig) => Ok(sig),
        None => Err("QQ 登录初始化响应不完整".to_owned()),
    }
}

/// The signature of a login, from the jar that the page it begins on has filled.
pub fn jar_login_signature(
    succeeded: bool,
    jar: &reqwest::cookie::Jar,
) -> (signature: Result<String, String>)
    ensures
        match signature {
            Ok(sig) => succeeded && exists|cookies: Map<Seq<char>, Seq<char>>| #[trigger]
                from_jar(*jar, XLOGIN_URL@, cookies) && filled_cookie(cookies, "pt_login_sig"@)
                    == Some(sig@),
            Err(message) => if succeeded {
                message@ == "QQ 登录初始化响应不完整"@ && exists|cookies: Map<Seq<char>, Seq<char>>|
                    #[trigger]
                    from_jar(*jar, XLOGIN_URL@, cookies) && filled_cookie(
                    cookies,
                    "pt_login_sig"@,
                ) is None
            } else {
                message@ == "初始化 QQ 登录失败"@
            },
        },
{
    login_signature(succeeded, &jar_cookies(jar, XLOGIN_URL))
}

/// The signature of a QR code, from the answer to the request for it: whether the request
/// succeeded, and the cookies that it left.
pub fn qr_signature(succeeded: bool, cookies: &Cookies) -> (signature: Result<String, String>)
    ensures
        match signature {
            Ok(sig) => succeeded && filled_cookie(cookies@, "qrsig"@) == Some(sig@),
            Err(message) => if succeeded {
                filled_cookie(cookies@, "qrsig"@) is None && message@ == "二维码响应不完整"@
            } else {
                message@ == "获取登录二维码失败"@
            },
        },
{
    if !succeeded {
        return Err("获取登录二维码失败".to_owned());
    }
    match filled_value(cookies, "qrsig") {
        Some(sig) => Ok(sig),
        None => Err("二维码响应不完整".to_owned()),
    }
}

/// The signature of a QR code, from the jar that the request to `url` for it has filled.
pub fn jar_qr_signature(
    succeeded: bool,
    jar: &reqwest::cookie::Jar,
    url: &str,
) -> (signature: Result<String, String>)
    ensures
        match signature {
            Ok(sig) => succeeded && exists|cookies: Map<Seq<char>, Seq<char>>| #[trigger]
                from_jar(*jar, url@, cookies) && filled_cookie(cookies, "qrsig"@) == Some(sig@),
            Err(message) => if succeeded {
                message@ == "二维码响应不完整"@ && exists|cookies: Map<Seq<char>, Seq<char>>|
                    #[trigger]
                    from_jar(*jar, url@, cookies) && filled_cookie(cookies, "qrsig"@) is None
            } else {
                message@ == "获取登录二维码失败"@
            },
        },
{
    qr_signature(succeeded, &jar_cookies(jar, url))
}

/// The cookie `name` of the device, for all hosts of QQ.
pub open spec fn device_cookie(name: Seq<char>, value: Seq<char>) -> Seq<char> {
    name + "="@ + value + "; Domain=.qq.com; Path=/; Secure"@
}

fn device_cookie_line(name: &str, value: &str) -> (line: String)
    ensures
        line@ == device_cookie(name@, value@),
{
    let mut line = name.to_owned();
    line.append("=");
    line.append(value);
    line.append("; Domain=.qq.com; Path=/; Secure");
    line
}

/// `lines` set the two cookies by which the login service tells devices apart.
pub open spec fn device_lines(lines: Seq<String>) -> bool {
    &&& lines.len() == 2
    &&& exists|value: Seq<char>| #[trigger]
        hex_text(value) && value.len() == 32 && lines[0]@ == device_cookie(
            "_qimei_fingerprint"@,
            value,
        )
    &&& exists|value: Seq<char>| #[trigger]
        hex_text(value) && value.len() == 42 && lines[1]@ == device_cookie("_qimei_uuid42"@, value)
}

/// Puts the cookies of a new device into `jar`, and gives the texts that set them. Their values
/// are random.
pub fn add_device_cookies(jar: &reqwest::cookie::Jar) -> (lines: Vec<String>)
    ensures
        device_lines(lines@),
        url_of(QQ_URL@) is Some ==> jar_texts(*jar).contains((QQ_URL@, lines@[0]@)) && jar_texts(
            *jar,
        ).contains((QQ_URL@, lines@[1]@)),
{
    let mut lines: Vec<String> = Vec::new();
    lines.push(device_cookie_line("_qimei_fingerprint", random_hex(32).as_str()));
    lines.push(device_cookie_line("_qimei_uuid42", random_hex(42).as_str()));
    let first = jar_add(jar, lines[0].as_str(), QQ_URL);
    let second = jar_add(jar, lines[1].as_str(), QQ_URL);
    lines
}

/// What a QR code login that may begin is known by.
pub struct QrTicket {
    pub id: QrSessionId,
    pub generation: u64,
    pub cancel_epoch: u64,
    pub user_agent: String,
}

/// The session and the image of a QR code login, once its signatures and its image are there.
pub fn initialize_qr(
    ticket: &QrTicket,
    jar: Arc<reqwest::cookie::Jar>,
    client: reqwest::Client,
    now: u128,
    login_sig: String,
    qrsig: &str,
    image: &[u8],
) -> (begun: (QrLoginSession, String))
    requires
        (image@.len() + 2) / 3 * 4 <= isize::MAX,
    ensures
        begun.0.created_at == now,
        begun.0.refresh_count == 0,
        begun.0.poll_count == 0,
        begun.0.generation == ticket.generation,
        begun.0.cancel_epoch == ticket.cancel_epoch,
        begun.0.jar == jar,
        begun.0.client == client,
        begun.0.user_agent@ == ticket.user_agent@,
        begun.0.appid@ == APP_ID@,
        begun.0.u1@ == S_URL@,
        begun.0.ptqrtoken as int == hash33(0, qrsig@) as int % 0x8000_0000,
        begun.0.login_sig == login_sig,
        begun.0.uin is None,
        begun.0.g_tk is None,
        begun.0.in_limits(),
        begun.1@ == data_address("image/png"@, base64_of(image@)),
{
    let mut session = QrLoginSession::new(
        jar,
        client,
        ticket.user_agent.clone(),
        ticket.generation,
        ticket.cancel_epoch,
        now,
    );
    session.ptqrtoken = ptqr_token(qrsig);
    session.login_sig = login_sig;
    (session, data_url("image/png", image))
}

/// The state after the QR code login `id` has been admitted at `now` with the user agent `agent`.
pub open spec fn after_admission(
    before: StateView,
    id: Seq<char>,
    agent: Seq<char>,
    now: u128,
) -> StateView {
    StateView {
        sessions: before.live_sessions(now),
        cancel_epochs: before.cancel_epochs.insert(id, before.epoch(id)),
        last_user_agent: Some(agent),
        user_agent_sequence: before.user_agent_sequence.wrapping_add(1),
        ..before
    }
}

/// Admits a QR code login under the name `id` at the time `now`, unless too many are under way.
pub fn admit_qr_login(state: &mut QLoginState, id: QrSessionId, now: u128) -> (ticket: Result<
    QrTicket,
    String,
>)
    ensures
        match ticket {
            Ok(found) => {
                &&& old(state)@.live_sessions(now).len() < MAX_QR_SESSIONS
                &&& found.id@ == id@
                &&& found.generation == old(state)@.generation
                &&& found.cancel_epoch == old(state)@.epoch(id@)
                &&& found.user_agent@ == next_agent(
                    old(state)@.last_user_agent,
                    now,
                    old(state)@.user_agent_sequence,
                )
                &&& final(state)@ == after_admission(old(state)@, id@, found.user_agent@, now)
            },
            Err(message) => {
                &&& old(state)@.live_sessions(now).len() >= MAX_QR_SESSIONS
                &&& message@ == "二维码登录会话过多，请稍后重试"@
                &&& final(state)@ == (StateView {
                    sessions: old(state)@.live_sessions(now),
                    ..old(state)@
                })
            },
        },
{
    state.drop_outdated(now);
    if state.sessions.len() >= MAX_QR_SESSIONS {
        return Err("二维码登录会话过多，请稍后重试".to_owned());
    }
    let generation: u64 = state.generation;
    let cancel_epoch: u64 = match state.cancel_epochs.get(id.0.as_str()) {
        Some(epoch) => *epoch,
        None => 0,
    };
    state.cancel_epochs.insert(id.0.clone(), cancel_epoch);
    let user_agent = state.next_mobile_user_agent(now);
    assert(state@ =~= after_admission(old(state)@, id@, user_agent@, now));
    Ok(QrTicket { id, generation, cancel_epoch, user_agent })
}

/// Admits a QR code login under a fresh name at the time `now`, unless too many are under way.
///
/// The name is random; `admit_qr_login` says what is done with it.
pub fn start_qr_login(state: &mut QLoginState, now: u128) -> (ticket: Result<QrTicket, String>)
    ensures
        match ticket {
            Ok(found) => {
                &&& old(state)@.live_sessions(now).len() < MAX_QR_SESSIONS
                &&& found.id@.len() == 32
                &&& hex_text(found.id@)
                &&& found.id@[12] == '4'
                &&& found.id@[16] == '8' || found.id@[16] == '9' || found.id@[16] == 'a'
                    || found.id@[16] == 'b'
                &&& found.generation == old(state)@.generation
                &&& found.cancel_epoch == old(state)@.epoch(found.id@)
                &&& found.user_agent@ == next_agent(
                    old(state)@.last_user_agent,
                    now,
                    old(state)@.user_agent_sequence,
                )
                &&& final(state)@ == after_admission(
                    old(state)@,
                    found.id@,
                    found.user_agent@,
                    now,
                )
            },
            Err(message) => {
                &&& old(state)@.live_sessions(now).len() >= MAX_QR_SESSIONS
                &&& message@ == "二维码登录会话过多，请稍后重试"@
                &&& final(state)@ == (StateView {
                    sessions: old(state)@.live_sessions(now),
                    ..old(state)@
                })
            },
        },
{
    admit_qr_login(state, QrSessionId::generate(), now)
}

/// Opens the QR code login `id` with its session and image, unless too many are under way by now.
pub fn open_qr_login(
    state: &mut QLoginState,
    id: QrSessionId,
    session: QrLoginSession,
    image: String,
    now: u128,
) -> (start: Result<QrLoginStart, String>)
    ensures
        match start {
            Ok(found) => {
                &&& old(state)@.live_sessions(now).len() < MAX_QR_SESSIONS
                &&& found.session_id@ == id@
                &&& found.qr_image == image
                &&& final(state)@ == (StateView {
                    sessions: old(state)@.live_sessions(now).insert(id@, session),
                    ..old(state)@
                })
                &&& final(state)@.sessions.len() <= MAX_QR_SESSIONS
            },
            Err(message) => {
                &&& old(state)@.live_sessions(now).len() >= MAX_QR_SESSIONS
                &&& message@ == "二维码登录会话过多，请稍后重试"@
                &&& final(state)@ == (StateView {
                    sessions: old(state)@.live_sessions(now),
                    ..old(state)@
                })
            },
        },
{
    state.drop_outdated(now);
    if state.sessions.len() >= MAX_QR_SESSIONS {
        discard(session);
        return Err("二维码登录会话过多，请稍后重试".to_owned());
    }
    proof {
        lemma_map_entries(state.sessions.pairs());
    }
    state.sessions.insert(id.0.clone(), session);
    Ok(QrLoginStart { session_id: id, qr_image: image })
}

} // verus!
