//! The sessions of a login: one per QR code that is shown, and the one of the account that is
//! logged in.

use std::sync::Arc;

use vstd::prelude::*;

use crate::cookies::Cookies;
use crate::status::opt_text;

verus! {

/// An HTTP client: `reqwest::Client`. It is carried, and never looked into.
#[verifier::external_type_specification]
#[verifier::external_body]
pub struct ExClient(reqwest::Client);

/// The application under which the login is made.
pub const APP_ID: &'static str = "549000929";

/// The number of the login domain.
pub const DAID: &'static str = "5";

/// The page that a login leads to.
pub const S_URL: &'static str = "https://h5.qzone.qq.com/mqzone/index";

/// How long a QR code login may last, in milliseconds.
pub const QR_SESSION_TTL_MS: u128 = 300_000;

/// How many QR code logins may be open when another one begins.
pub const MAX_QR_SESSIONS: usize = 16;

/// How often the state of one QR code login is asked for.
pub const MAX_POLLS: u32 = 180;

/// How often the QR code of one login is replaced.
pub const MAX_REFRESHES: u32 = 3;

/// A login by QR code that is under way.
pub struct QrLoginSession {
    pub created_at: u128,
    pub refresh_count: u32,
    pub poll_count: u32,
    pub generation: u64,
    pub cancel_epoch: u64,
    pub jar: Arc<reqwest::cookie::Jar>,
    pub client: reqwest::Client,
    pub user_agent: String,
    pub appid: &'static str,
    pub u1: &'static str,
    pub ptqrtoken: i64,
    pub login_sig: String,
    pub uin: Option<String>,
    pub g_tk: Option<i64>,
}

/// The cookies, by name and value, that `jar` held when it was made.
pub uninterp spec fn jar_made_with(jar: reqwest::cookie::Jar) -> Set<(Seq<char>, Seq<char>)>;

/// A new cookie jar without cookies, to take the place of `jar`.
///
/// Calls `reqwest::cookie::Jar::default`, which makes a jar of its own with an empty store: it is
/// another jar than `jar`, and it was made with no cookies. What it holds later changes behind
/// shared references and is not stated.
#[allow(unused_variables)]
#[verifier::external_body]
fn empty_jar(jar: &reqwest::cookie::Jar) -> (new: reqwest::cookie::Jar)
    ensures
        new != *jar,
        jar_made_with(new) == Set::<(Seq<char>, Seq<char>)>::empty(),
{
    reqwest::cookie::Jar::default()
}

impl QrLoginSession {
    /// A login that begins at `now`.
    pub fn new(
        jar: Arc<reqwest::cookie::Jar>,
        client: reqwest::Client,
        user_agent: String,
        generation: u64,
        cancel_epoch: u64,
        now: u128,
    ) -> (session: Self)
        ensures
            session.created_at == now,
            session.refresh_count == 0,
            session.poll_count == 0,
            session.generation == generation,
            session.cancel_epoch == cancel_epoch,
            session.jar == jar,
            session.client == client,
            session.user_agent == user_agent,
            session.appid@ == APP_ID@,
            session.u1@ == S_URL@,
            session.ptqrtoken == 0,
            session.login_sig@.len() == 0,
            session.uin is None,
            session.g_tk is None,
    {
        QrLoginSession {
            created_at: now,
            refresh_count: 0,
            poll_count: 0,
            generation,
            cancel_epoch,
            jar,
            client,
            user_agent,
            appid: APP_ID,
            u1: S_URL,
            ptqrtoken: 0,
            login_sig: String::new(),
            uin: None,
            g_tk: None,
        }
    }

    /// Forgets what could be used to continue this login. The jar is replaced by a new one that
    /// was made without cookies.
    pub fn clear_secrets(&mut self)
        ensures
            *final(self).jar != *old(self).jar,
            jar_made_with(*final(self).jar) == Set::<(Seq<char>, Seq<char>)>::empty(),
            final(self).user_agent@.len() == 0,
            final(self).ptqrtoken == 0,
            final(self).login_sig@.len() == 0,
            final(self).uin is None,
            final(self).g_tk is None,
            final(self).created_at == old(self).created_at,
            final(self).refresh_count == old(self).refresh_count,
            final(self).poll_count == old(self).poll_count,
            final(self).generation == old(self).generation,
            final(self).cancel_epoch == old(self).cancel_epoch,
            final(self).client == old(self).client,
            final(self).appid == old(self).appid,
            final(self).u1 == old(self).u1,
    {
        self.jar = Arc::new(empty_jar(&self.jar));
        self.user_agent = String::new();
        self.ptqrtoken = 0;
        self.login_sig = String::new();
        self.uin = None;
        self.g_tk = None;
    }

    /// The counts are within their limits, the token is one of 31 bits, and no account is named
    /// yet.
    pub open spec fn in_limits(&self) -> bool {
        &&& self.poll_count <= MAX_POLLS
        &&& self.refresh_count <= MAX_REFRESHES
        &&& 0 <= self.ptqrtoken < 0x8000_0000
        &&& self.uin is None
        &&& self.g_tk is None
    }

    /// More time has passed at `now` than a QR code login may last.
    pub open spec fn outdated(&self, now: u128) -> bool {
        now - self.created_at > QR_SESSION_TTL_MS
    }

    /// Whether more time has passed at `now` than a QR code login may last. A clock that was set
    /// back shows no time at all.
    pub fn is_outdated(&self, now: u128) -> (outdated: bool)
        ensures
            outdated == self.outdated(now),
    {
        now > self.created_at && now - self.created_at > QR_SESSION_TTL_MS
    }
}

/// Gives a login up: its secrets are forgotten before it is dropped.
pub(crate) fn discard(session: QrLoginSession) {
    let mut session = session;
    session.clear_secrets();
}

/// The session of the account that is logged in.
pub struct LoginSession {
    pub cookies: Cookies,
    pub uin: Option<String>,
    pub g_tk: Option<i64>,
    pub user_agent: String,
    /// The attempt of the browser window that the login came from, if it came from one.
    pub web_attempt: Option<u64>,
}

/// What a `LoginSession` holds.
#[verifier::ext_equal]
pub struct LoginView {
    /// The cookies, in the order in which they are sent.
    pub cookies: Seq<(Seq<char>, Seq<char>)>,
    pub uin: Option<Seq<char>>,
    pub g_tk: Option<i64>,
    pub user_agent: Seq<char>,
    pub web_attempt: Option<u64>,
}

impl View for LoginSession {
    type V = LoginView;

    open spec fn view(&self) -> LoginView {
        LoginView {
            cookies: self.cookies.pairs(),
            uin: opt_text(self.uin),
            g_tk: self.g_tk,
            user_agent: self.user_agent@,
            web_attempt: self.web_attempt,
        }
    }
}

/// What a request to Qzone needs to be made in the name of the account.
pub struct QzoneAuth {
    pub uin: String,
    pub g_tk: i64,
    pub cookie_header: String,
    pub user_agent: String,
}

} // verus!
