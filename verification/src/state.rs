//! The state of all logins, and the operations on it that belong to no single step of a login.

use vstd::prelude::*;

use crate::agent::{next_agent, select_mobile_user_agent};
use crate::cookies::{cookie_header, header_text};
use crate::session::{discard, LoginSession, LoginView, QrLoginSession, QzoneAuth};
use crate::status::{opt_text, plain_report, plain_status, LoginStatus, QrSessionId};
use crate::strmap::{distinct_keys, lemma_map_entries, map_of, StrMap};
use crate::text::{blank, is_blank};

verus! {

/// The state of all logins.
pub struct QLoginState {
    /// The account that is logged in.
    pub session: Option<LoginSession>,
    /// The QR code logins that are under way and not being polled at the moment.
    pub sessions: StrMap<QrLoginSession>,
    pub last_user_agent: Option<String>,
    /// How many user agents have been picked.
    pub user_agent_sequence: usize,
    /// Changes when all logins are given up.
    pub generation: u64,
    /// How often each QR code login has been cancelled.
    pub cancel_epochs: StrMap<u64>,
    /// The QR code logins that are being polled.
    pub in_flight: StrMap<()>,
    /// The number of the last attempt to log in through a browser window.
    pub web_generation: u64,
    /// The attempt whose browser window is open, or 0.
    pub active_web_attempt: u64,
}

/// What a `QLoginState` holds.
#[verifier::ext_equal]
pub struct StateView {
    pub session: Option<LoginView>,
    pub sessions: Map<Seq<char>, QrLoginSession>,
    pub last_user_agent: Option<Seq<char>>,
    pub user_agent_sequence: usize,
    pub generation: u64,
    pub cancel_epochs: Map<Seq<char>, u64>,
    pub in_flight: Set<Seq<char>>,
    pub web_generation: u64,
    pub active_web_attempt: u64,
}

impl View for QLoginState {
    type V = StateView;

    open spec fn view(&self) -> StateView {
        StateView {
            session: match self.session {
                Some(session) => Some(session@),
                None => None,
            },
            sessions: self.sessions@,
            last_user_agent: opt_text(self.last_user_agent),
            user_agent_sequence: self.user_agent_sequence,
            generation: self.generation,
            cancel_epochs: self.cancel_epochs@,
            in_flight: self.in_flight@.dom(),
            web_generation: self.web_generation,
            active_web_attempt: self.active_web_attempt,
        }
    }
}

impl StateView {
    /// How often the QR code login `id` has been cancelled.
    pub open spec fn epoch(self, id: Seq<char>) -> u64 {
        if self.cancel_epochs.contains_key(id) {
            self.cancel_epochs[id]
        } else {
            0
        }
    }

    /// The QR code login `id` was given up after `session` had begun.
    pub open spec fn is_cancelled(self, id: Seq<char>, session: QrLoginSession) -> bool {
        session.generation != self.generation || session.cancel_epoch != self.epoch(id)
    }

    /// The state with `session` put back under `id`, unless it was given up meanwhile.
    pub open spec fn restored(self, id: Seq<char>, session: QrLoginSession) -> StateView {
        if self.is_cancelled(id, session) {
            self
        } else {
            StateView { sessions: self.sessions.insert(id, session), ..self }
        }
    }

    /// The state after the QR code login `id` has been given up.
    pub open spec fn after_cancel(self, id: Seq<char>) -> StateView {
        StateView {
            cancel_epochs: self.cancel_epochs.insert(id, (self.epoch(id) + 1) as u64),
            sessions: self.sessions.remove(id),
            ..self
        }
    }

    /// The state after all logins have been given up.
    pub open spec fn after_clear(self) -> StateView {
        StateView {
            session: None,
            sessions: Map::empty(),
            generation: self.generation.wrapping_add(1),
            cancel_epochs: Map::empty(),
            in_flight: Set::empty(),
            web_generation: self.web_generation.wrapping_add(1),
            active_web_attempt: 0,
            ..self
        }
    }

    /// The QR code logins that may still go on at `now`.
    pub open spec fn live_sessions(self, now: u128) -> Map<Seq<char>, QrLoginSession> {
        self.sessions.restrict(
            Set::new(
                |id: Seq<char>|
                    self.sessions.contains_key(id) && !self.sessions[id].outdated(now),
            ),
        )
    }

    /// An account is logged in.
    pub open spec fn logged_in(self) -> bool {
        self.session matches Some(session) && session.uin is Some && session.g_tk is Some
    }
}

/// Why requests to Qzone cannot be made with `session`, or nothing where they can.
pub open spec fn auth_failure(session: Option<LoginView>) -> Option<Seq<char>> {
    match session {
        None => Some("尚未登录 QQ 空间"@),
        Some(login) => {
            let cookies = map_of(login.cookies);
            if login.g_tk is None {
                Some("登录会话缺少 g_tk"@)
            } else if !cookies.contains_key("p_skey"@) || blank(cookies["p_skey"@]) {
                Some("登录会话缺少有效的 p_skey"@)
            } else if login.uin is None {
                Some("登录会话缺少 uin"@)
            } else {
                None
            }
        },
    }
}

impl QLoginState {
    /// No login at all.
    pub fn new() -> (state: Self)
        ensures
            state@ == (StateView {
                session: None,
                sessions: Map::empty(),
                last_user_agent: None,
                user_agent_sequence: 0,
                generation: 0,
                cancel_epochs: Map::empty(),
                in_flight: Set::empty(),
                web_generation: 0,
                active_web_attempt: 0,
            }),
    {
        let state = QLoginState {
            session: None,
            sessions: StrMap::new(),
            last_user_agent: None,
            user_agent_sequence: 0,
            generation: 0,
            cancel_epochs: StrMap::new(),
            in_flight: StrMap::new(),
            web_generation: 0,
            active_web_attempt: 0,
        };
        assert(state.in_flight@.dom() =~= Set::empty());
        state
    }

    /// What requests to Qzone need, or why they cannot be made.
    pub fn qzone_auth(&self) -> (auth: Result<QzoneAuth, String>)
        ensures
            match auth {
                Ok(found) => {
                    &&& auth_failure(self@.session) is None
                    &&& Some(found.uin@) == self@.session->0.uin
                    &&& Some(found.g_tk) == self@.session->0.g_tk
                    &&& found.cookie_header@ == header_text(self@.session->0.cookies)
                    &&& distinct_keys(self@.session->0.cookies)
                    &&& found.user_agent@ == self@.session->0.user_agent
                },
                Err(message) => auth_failure(self@.session) == Some(message@),
            },
    {
        let session = match &self.session {
            Some(session) => session,
            None => return Err("尚未登录 QQ 空间".to_owned()),
        };
        let g_tk = match session.g_tk {
            Some(g_tk) => g_tk,
            None => return Err("登录会话缺少 g_tk".to_owned()),
        };
        let keyed = match session.cookies.get("p_skey") {
            Some(value) => !is_blank(value.as_str()),
            None => false,
        };
        if !keyed {
            return Err("登录会话缺少有效的 p_skey".to_owned());
        }
        let uin = match &session.uin {
            Some(uin) => uin.clone(),
            None => return Err("登录会话缺少 uin".to_owned()),
        };
        Ok(
            QzoneAuth {
                uin,
                g_tk,
                cookie_header: cookie_header(&session.cookies),
                user_agent: session.user_agent.clone(),
            },
        )
    }

    /// Picks the user agent of a new login at the time `now`, other than the one before it.
    pub fn next_mobile_user_agent(&mut self, now: u128) -> (agent: String)
        ensures
            agent@ == next_agent(old(self)@.last_user_agent, now, old(self)@.user_agent_sequence),
            final(self)@ == (StateView {
                last_user_agent: Some(agent@),
                user_agent_sequence: old(self)@.user_agent_sequence.wrapping_add(1),
                ..old(self)@
            }),
    {
        let sequence: usize = self.user_agent_sequence;
        self.user_agent_sequence = sequence.wrapping_add(1);
        let selected = match &self.last_user_agent {
            Some(previous) => select_mobile_user_agent(Some(previous.as_str()), now, sequence),
            None => select_mobile_user_agent(None, now, sequence),
        };
        self.last_user_agent = Some(selected.clone());
        selected
    }

    /// Gives up all logins and logs the account out.
    pub fn clear_session(&mut self)
        ensures
            final(self)@ == old(self)@.after_clear(),
    {
        self.generation = self.generation.wrapping_add(1);
        self.web_generation = self.web_generation.wrapping_add(1);
        self.active_web_attempt = 0;
        self.session = None;
        self.sessions = StrMap::new();
        self.cancel_epochs = StrMap::new();
        self.in_flight = StrMap::new();
        assert(self@ =~= old(self)@.after_clear());
    }

    /// Drops the QR code logins that have lasted too long at `now`.
    pub fn drop_outdated(&mut self, now: u128)
        ensures
            final(self)@ == (StateView {
                sessions: old(self)@.live_sessions(now),
                ..old(self)@
            }),
    {
        let ghost before = self.sessions@;
        let mut i: usize = 0;
        while i < self.sessions.len()
            invariant
                i <= self.sessions.pairs().len(),
                before == old(self)@.sessions,
                self@ == (StateView { sessions: self.sessions@, ..old(self)@ }),
                forall|id: Seq<char>| #[trigger]
                    self.sessions@.contains_key(id) ==> before.contains_key(id) && before[id]
                        == self.sessions@[id],
                forall|id: Seq<char>|
                    before.contains_key(id) && !before[id].outdated(now)
                        ==> #[trigger] self.sessions@.contains_key(id),
                forall|j: int|
                    0 <= j < i ==> !(#[trigger] self.sessions.pairs()[j]).1.outdated(now),
            decreases self.sessions.pairs().len() - i,
        {
            let entry = self.sessions.entry(i);
            let outdated = entry.1.is_outdated(now);
            let ghost pairs = self.sessions.pairs();
            if outdated {
                let gone = self.sessions.remove_at(i);
                assert forall|j: int| 0 <= j < i implies !(
                #[trigger] self.sessions.pairs()[j]).1.outdated(now) by {
                    assert(self.sessions.pairs()[j] == pairs[j]);
                }
            } else {
                i += 1;
            }
        }
        proof {
            lemma_map_entries(self.sessions.pairs());
            assert forall|id: Seq<char>| self.sessions@.contains_key(id) implies !before[id].outdated(
                now,
            ) by {
                let j = choose|j: int|
                    0 <= j < self.sessions.pairs().len() && #[trigger] self.sessions.pairs()[j] == (
                        id,
                        self.sessions@[id],
                    );
                assert(!self.sessions.pairs()[j].1.outdated(now));
            }
            assert(self.sessions@ =~= old(self)@.live_sessions(now));
        }
    }
}

/// Whether the QR code login `id` was given up after `session` had begun.
pub fn cancelled(state: &QLoginState, id: &QrSessionId, session: &QrLoginSession) -> (gone: bool)
    ensures
        gone == state@.is_cancelled(id@, *session),
{
    let epoch: u64 = match state.cancel_epochs.get(id.0.as_str()) {
        Some(epoch) => *epoch,
        None => 0,
    };
    session.generation != state.generation || epoch != session.cancel_epoch
}

/// Puts `session` back under `id`, unless it was given up meanwhile.
pub fn restore(state: &mut QLoginState, id: &QrSessionId, session: QrLoginSession)
    ensures
        final(state)@ == old(state)@.restored(id@, session),
{
    if cancelled(state, id, &session) {
        discard(session);
    } else {
        state.sessions.insert(id.0.clone(), session);
        assert(state@ =~= old(state)@.restored(id@, session));
    }
}

/// Gives up the QR code login `id`.
pub fn cancel_qr_login(state: &mut QLoginState, id: &QrSessionId) -> (done: Result<(), String>)
    requires
        old(state)@.epoch(id@) < u64::MAX,
    ensures
        done is Ok,
        final(state)@ == old(state)@.after_cancel(id@),
{
    let epoch: u64 = match state.cancel_epochs.get(id.0.as_str()) {
        Some(epoch) => *epoch,
        None => 0,
    };
    state.cancel_epochs.insert(id.0.clone(), epoch + 1);
    let removed = state.sessions.remove(id.0.as_str());
    if let Some(session) = removed {
        discard(session);
    }
    assert(state@ =~= old(state)@.after_cancel(id@));
    Ok(())
}

/// Whether an account is logged in.
pub fn get_login_status(state: &QLoginState) -> (status: Result<LoginStatus, String>)
    ensures
        status matches Ok(report) && report@ == if state@.logged_in() {
            plain_report("success", "已登录")
        } else {
            plain_report("loggedOut", "尚未登录")
        },
{
    let logged_in = match &state.session {
        Some(session) => session.uin.is_some() && session.g_tk.is_some(),
        None => false,
    };
    if logged_in {
        return Ok(plain_status("success", "已登录"));
    }
    Ok(plain_status("loggedOut", "尚未登录"))
}

} // verus!
