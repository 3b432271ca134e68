//! What holds of logins as a whole, over several operations.

use vstd::prelude::*;

use crate::agent::{agent_text, next_agent, picked_agent};
use crate::cookies::{from_jar, header_fields, header_line, item_field};
use crate::link::{trusted_hop, UrlView};
use crate::poll::{
    after_poll, code_outcome, credentials_outcome, hop_outcome, opening_outcome, redirect_outcome,
    refreshed, timed_out, ConfirmStep, Confirming, HopStep, PollReport, PollStep, MAX_HOPS,
    QZONE_URL,
};
use crate::profile::braced;
use crate::session::{LoginView, QrLoginSession, MAX_REFRESHES};
use crate::start::after_admission;
use crate::state::{auth_failure, StateView};
use crate::strmap::{lemma_map_entries, map_of};
use crate::text::{
    blank, first_index, last_index, lemma_first_index, lemma_last_index, skip_leading,
    skip_trailing, trimmed, white_space,
};
use crate::web::{
    after_revocation, cancelled_attempt, law_only_required_cookies_are_taken, login_cookies,
    web_attempt_stands, web_outcome, CookieView, WebCheck,
};

verus! {

/// The QR code login `id` was given up after `session` had begun, by itself or with all others.
pub open spec fn given_up(state: StateView, id: Seq<char>, session: QrLoginSession) -> bool {
    session.generation < state.generation || session.cancel_epoch < state.epoch(id)
}

/// Cancelling a QR code login takes it out of the state and stops a poll of it that is under way;
/// other logins go on as before.
pub proof fn law_cancel_stops_one_login(before: StateView, id: Seq<char>)
    requires
        before.epoch(id) < u64::MAX,
    ensures
        !before.after_cancel(id).sessions.contains_key(id),
        forall|session: QrLoginSession|
            !before.is_cancelled(id, session) ==> #[trigger] before.after_cancel(id).is_cancelled(
                id,
                session,
            ),
        forall|other: Seq<char>, session: QrLoginSession|
            other != id ==> #[trigger] before.after_cancel(id).is_cancelled(other, session)
                == before.is_cancelled(other, session),
        forall|other: Seq<char>|
            other != id ==> #[trigger] before.after_cancel(id).sessions.contains_key(other)
                == before.sessions.contains_key(other),
        forall|other: Seq<char>|
            other != id && before.sessions.contains_key(other)
                ==> #[trigger] before.after_cancel(id).sessions[other] == before.sessions[other],
        before.after_cancel(id).session == before.session,
{
}

/// Logging out leaves no account and no login, and stops every poll that is under way.
pub proof fn law_logout_stops_everything(before: StateView)
    ensures
        !before.after_clear().logged_in(),
        auth_failure(before.after_clear().session) == Some("尚未登录 QQ 空间"@),
        before.after_clear().sessions == Map::<Seq<char>, QrLoginSession>::empty(),
        before.after_clear().in_flight == Set::<Seq<char>>::empty(),
        forall|id: Seq<char>, session: QrLoginSession|
            session.generation == before.generation ==> #[trigger] before.after_clear().is_cancelled(
                id,
                session,
            ),
        forall|attempt: u64, window_open: bool|
            attempt != 0 ==> !#[trigger] web_attempt_stands(
                before.after_clear(),
                attempt,
                window_open,
            ),
{
}

/// A login that was given up counts as cancelled, and stays given up through everything that can
/// happen while its poll is under way. Only the end of that poll forgets it.
pub proof fn law_given_up_stays_given_up(
    before: StateView,
    id: Seq<char>,
    session: QrLoginSession,
    other: Seq<char>,
    other_session: QrLoginSession,
    login: LoginView,
    agent: Seq<char>,
    now: u128,
    attempt: Option<u64>,
)
    requires
        given_up(before, id, session),
        before.epoch(other) < u64::MAX,
        before.generation < u64::MAX,
    ensures
        before.is_cancelled(id, session),
        before.restored(id, session) == before,
        given_up(before.restored(other, other_session), id, session),
        given_up(before.after_cancel(other), id, session),
        session.generation <= before.generation ==> given_up(before.after_clear(), id, session),
        given_up(after_admission(before, other, agent, now), id, session),
        given_up(
            StateView { sessions: before.live_sessions(now).insert(other, other_session), ..before },
            id,
            session,
        ),
        given_up(
            StateView {
                sessions: before.sessions.remove(other),
                in_flight: before.in_flight.insert(other),
                ..before
            },
            id,
            session,
        ),
        given_up(StateView { session: Some(login), ..before }, id, session),
        given_up(after_revocation(before, attempt), id, session),
        other != id ==> given_up(after_poll(before, other), id, session),
{
}

/// While a poll runs, another one of the same login finds it running; when it has ended, the login
/// can be polled again, and nothing is left of a login that is over.
pub proof fn law_poll_leaves_no_trace(before: StateView, id: Seq<char>)
    ensures
        !after_poll(before, id).in_flight.contains(id),
        after_poll(before, id).sessions == before.sessions,
        !before.sessions.contains_key(id) ==> !after_poll(before, id).cancel_epochs.contains_key(
            id,
        ),
{
}

/// A poll whose answer changes nothing puts the login back as it was, with one more poll counted.
pub proof fn law_waiting_counts_one_poll(before: StateView, id: Seq<char>, now: u128)
    requires
        before.sessions.contains_key(id),
        !before.in_flight.contains(id),
        !before.is_cancelled(id, before.sessions[id]),
        !timed_out(before.sessions[id], now),
    ensures
        ({
            let session = before.sessions[id];
            let polled = QrLoginSession { poll_count: (session.poll_count + 1) as u32, ..session };
            let running = StateView {
                in_flight: before.in_flight.insert(id),
                sessions: before.sessions.remove(id),
                ..before
            };
            &&& opening_outcome(before, id, now, Ok(PollStep::Ask(polled)))
            &&& after_poll(running.restored(id, polled), id) == (StateView {
                sessions: before.sessions.insert(id, polled),
                ..before
            })
        }),
{
    let session = before.sessions[id];
    let polled = QrLoginSession { poll_count: (session.poll_count + 1) as u32, ..session };
    let running = StateView {
        in_flight: before.in_flight.insert(id),
        sessions: before.sessions.remove(id),
        ..before
    };
    let after = after_poll(running.restored(id, polled), id);
    assert(after.in_flight =~= before.in_flight);
    assert(after.sessions =~= before.sessions.insert(id, polled));
}

/// All QR code logins that wait for a poll are within their limits.
pub open spec fn limits_kept(state: StateView) -> bool {
    forall|id: Seq<char>| #[trigger]
        state.sessions.contains_key(id) ==> state.sessions[id].in_limits()
}

/// No login is polled or given a new QR code more often than it may be, and none names an account
/// before it is confirmed: the limits are kept by every operation on the state.
pub proof fn law_limits_are_kept(
    before: StateView,
    id: Seq<char>,
    session: QrLoginSession,
    agent: Seq<char>,
    login: Option<LoginView>,
    attempt: Option<u64>,
    active: u64,
    generation: u64,
    now: u128,
)
    requires
        limits_kept(before),
        session.in_limits(),
    ensures
        limits_kept(before.restored(id, session)),
        limits_kept(before.after_cancel(id)),
        limits_kept(before.after_clear()),
        limits_kept(after_poll(before, id)),
        limits_kept(after_admission(before, id, agent, now)),
        limits_kept(StateView { sessions: before.live_sessions(now), ..before }),
        limits_kept(
            StateView { sessions: before.live_sessions(now).insert(id, session), ..before },
        ),
        limits_kept(
            StateView {
                in_flight: before.in_flight.insert(id),
                sessions: before.sessions.remove(id),
                ..before
            },
        ),
        limits_kept(after_revocation(before, attempt)),
        limits_kept(
            StateView {
                session: login,
                active_web_attempt: active,
                web_generation: generation,
                ..before
            },
        ),
{
}

/// Each poll is counted, and so is each new QR code; neither passes its limit.
pub proof fn law_steps_are_counted(
    before: StateView,
    id: Seq<char>,
    now: u128,
    step: Result<PollStep, String>,
    session: QrLoginSession,
    signature: Seq<char>,
)
    requires
        limits_kept(before),
        opening_outcome(before, id, now, step),
        session.in_limits(),
        session.refresh_count < MAX_REFRESHES,
    ensures
        step matches Ok(PollStep::Ask(asked)) ==> asked.in_limits() && asked.poll_count
            == before.sessions[id].poll_count + 1,
        refreshed(session, signature).in_limits(),
        refreshed(session, signature).refresh_count == session.refresh_count + 1,
{
}

/// A poll keeps all QR code logins within their limits, however it ends: whatever the answers are,
/// and whatever else has happened to the state before each of them.
///
/// `before` is the state that the poll begins in and `asked` the session that it takes out;
/// `answered` is the state in which the answer with the code `code` and the address `url` is acted
/// on, and `last` the one in which the poll ends.
pub proof fn law_poll_keeps_limits(
    before: StateView,
    answered: StateView,
    after: StateView,
    last: StateView,
    id: Seq<char>,
    now: u128,
    asked: QrLoginSession,
    code: Seq<char>,
    url: Seq<char>,
    result: Result<PollReport, String>,
    signature: Seq<char>,
    login: LoginView,
)
    requires
        limits_kept(before),
        limits_kept(answered),
        limits_kept(last),
        opening_outcome(before, id, now, Ok(PollStep::Ask(asked))),
        code_outcome(answered, after, id, asked, code, url, result),
    ensures
        // The poll ends without an answer that could be read.
        limits_kept(after_poll(answered, id)),
        limits_kept(after_poll(answered.restored(id, asked), id)),
        // The answer is acted on, and the poll ends.
        limits_kept(after),
        limits_kept(after_poll(after, id)),
        // A new QR code comes, or does not.
        match result {
            Ok(PollReport::Refresh(session)) => {
                &&& limits_kept(after_poll(last.restored(id, session), id))
                &&& limits_kept(after_poll(last.restored(id, refreshed(session, signature)), id))
            },
            _ => true,
        },
        // The login is confirmed, or its confirmation cannot be followed.
        match result {
            Ok(PollReport::Confirm(task)) => {
                &&& task.session == asked
                &&& limits_kept(after_poll(last.restored(id, task.session), id))
            },
            _ => true,
        },
        limits_kept(after_poll(StateView { session: Some(login), ..last }, id)),
        limits_kept(after_poll(last, id)),
{
    assert(asked.in_limits()) by {
        assert(before.sessions.contains_key(id));
    }
}

/// A confirmed login is led over trusted addresses only, and over no more than a few.
pub proof fn law_only_trusted_addresses_are_requested(
    id: Seq<char>,
    task: Confirming,
    next: Option<UrlView>,
    step: HopStep,
)
    requires
        hop_outcome(id, task, step) || redirect_outcome(id, task, next, step),
    ensures
        step matches HopStep::Request(followed) ==> {
            &&& trusted_hop(followed.url@)
            &&& followed.hops == task.hops + 1
            &&& followed.hops <= MAX_HOPS
            &&& followed.session == task.session
            &&& followed.callback == task.callback
        },
{
}

/// The numbers of attempts to log in through a browser window grow: neither an open window nor a
/// session has a number that is still to come.
pub open spec fn attempts_counted(state: StateView) -> bool {
    &&& state.active_web_attempt <= state.web_generation
    &&& match state.session {
        Some(session) => match session.web_attempt {
            Some(attempt) => attempt <= state.web_generation,
            None => true,
        },
        None => true,
    }
}

/// The numbers of attempts go on growing through every operation on the state, so no attempt is
/// taken for another one.
pub proof fn law_attempts_are_counted(
    before: StateView,
    attempt: u64,
    captured: Option<u64>,
    login: LoginView,
    window_open: bool,
)
    requires
        attempts_counted(before),
        before.web_generation < u64::MAX,
    ensures
        attempts_counted(
            StateView {
                web_generation: (before.web_generation + 1) as u64,
                active_web_attempt: (before.web_generation + 1) as u64,
                ..before
            },
        ),
        attempts_counted(StateView { active_web_attempt: 0, ..before }),
        attempts_counted(after_revocation(before, captured)),
        attempts_counted(before.after_clear()),
        login.web_attempt is None ==> attempts_counted(
            StateView { session: Some(login), ..before },
        ),
        web_attempt_stands(before, attempt, window_open) && login.web_attempt == Some(attempt)
            ==> attempts_counted(
            StateView { session: Some(login), active_web_attempt: 0, ..before },
        ),
        before.session matches Some(session) ==> session.web_attempt != Some(
            (before.web_generation + 1) as u64,
        ),
        before.active_web_attempt != before.web_generation + 1,
{
}

/// Cancelling the browser login gives up the attempt that is under way and nothing else: that
/// attempt cannot log in any more, a session that it brought about is revoked, and any other
/// session stays.
pub proof fn law_web_cancel_revokes_its_own_attempt(before: StateView, session: LoginView)
    ensures
        ({
            let captured = cancelled_attempt(before);
            let without = StateView { active_web_attempt: 0, ..before };
            let logged_in = StateView { session: Some(session), ..without };
            let after = after_revocation(logged_in, captured);
            &&& captured is Some ==> forall|window_open: bool|
                !#[trigger] web_attempt_stands(without, captured->0, window_open)
            &&& captured is Some && session.web_attempt == captured ==> after.session is None
            &&& captured is None || session.web_attempt != captured ==> after.session == Some(
                session,
            )
            &&& after.sessions == before.sessions
            &&& after.generation == before.generation
        }),
{
}

/// Requests can be made only where an account is shown as logged in.
pub proof fn law_authorised_means_logged_in(state: StateView)
    requires
        auth_failure(state.session) is None,
    ensures
        state.logged_in(),
{
}

/// What the login through a browser window makes of its cookies is enough to make requests.
pub proof fn law_web_login_authorises(
    attempt: u64,
    page: Seq<CookieView>,
    all: Seq<CookieView>,
    check: Result<WebCheck, String>,
)
    requires
        web_outcome(attempt, login_cookies(page, all), check),
    ensures
        check matches Ok(WebCheck::Ready(login)) ==> auth_failure(Some(login@)) is None,
{
    law_only_required_cookies_are_taken(page, all);
    assert(login_cookies(page, all).contains_key("p_skey"@) ==> !blank(
        login_cookies(page, all)["p_skey"@],
    ));
}

/// A value in a header does not end in white space.
proof fn lemma_trimmed_end(s: Seq<char>)
    ensures
        trimmed(s).len() > 0 ==> !white_space(trimmed(s).last()),
{
    lemma_skip_trailing_end(
        skip_leading(s, |c: char| white_space(c)),
        |c: char| white_space(c),
    );
}

proof fn lemma_skip_trailing_end(s: Seq<char>, p: spec_fn(char) -> bool)
    ensures
        skip_trailing(s, p).len() > 0 ==> !p(skip_trailing(s, p).last()),
    decreases s.len(),
{
    if s.len() > 0 && p(s.last()) {
        lemma_skip_trailing_end(s.drop_last(), p);
    }
}

proof fn lemma_item_field_end(item: Seq<char>)
    requires
        item.len() > 0 ==> !white_space(item.last()),
    ensures
        forall|i: int|
            0 <= i < item_field(item).len() && (#[trigger] item_field(item)[i]).1.len() > 0
                ==> !blank(item_field(item)[i].1),
{
    lemma_first_index(item, '=');
    let at = first_index(item, '=');
    if at < item.len() {
        let value = item.skip(at + 1);
        if value.len() > 0 {
            assert(value[value.len() - 1] == item.last());
            assert(!white_space(value[value.len() - 1]));
        }
    }
}

proof fn lemma_header_fields_end(line: Seq<char>)
    ensures
        forall|i: int|
            0 <= i < header_fields(line).len() && (#[trigger] header_fields(line)[i]).1.len() > 0
                ==> !blank(header_fields(line)[i].1),
    decreases line.len(),
{
    lemma_first_index(line, ';');
    let at = first_index(line, ';');
    if at < line.len() {
        let item = trimmed(line.take(at));
        lemma_trimmed_end(line.take(at));
        lemma_item_field_end(item);
        lemma_header_fields_end(line.skip(at + 1));
        let rest = header_fields(line.skip(at + 1));
        assert forall|i: int|
            0 <= i < header_fields(line).len() && (#[trigger] header_fields(line)[i]).1.len()
                > 0 implies !blank(header_fields(line)[i].1) by {
            let n = item_field(item).len();
            if i < n {
                assert(header_fields(line)[i] == item_field(item)[i]);
            } else {
                assert(header_fields(line)[i] == rest[i - n]);
            }
        }
    } else {
        lemma_trimmed_end(line);
        lemma_item_field_end(trimmed(line));
    }
}

/// What the login by QR code makes of the cookies in its jar is enough to make requests, in the
/// name of the account that was confirmed.
pub proof fn law_qr_login_authorises(
    id: Seq<char>,
    session: QrLoginSession,
    callback: Seq<char>,
    cookies: Map<Seq<char>, Seq<char>>,
    step: ConfirmStep,
)
    requires
        from_jar(*session.jar, QZONE_URL@, cookies),
        credentials_outcome(id, session, callback, cookies, step),
    ensures
        step matches ConfirmStep::Commit(found) ==> auth_failure(Some(found.login@)) is None
            && found.login@.uin == Some(callback),
{
    let line = choose|line: Seq<char>| #[trigger]
        header_line(line) && cookies == map_of(header_fields(line));
    let fields = header_fields(line);
    lemma_header_fields_end(line);
    lemma_map_entries(fields);
    if cookies.contains_key("p_skey"@) {
        let i = choose|i: int|
            0 <= i < fields.len() && #[trigger] fields[i] == ("p_skey"@, map_of(fields)["p_skey"@]);
        assert(fields[i].1 == cookies["p_skey"@]);
    }
}

/// No two user agents that follow each other in the list are the same.
proof fn lemma_neighbours_differ(i: int)
    requires
        0 <= i < 6,
    ensures
        agent_text(i) != agent_text((i + 1) % 6),
{
    reveal_strlit(
        "Mozilla/5.0 (iPhone; CPU iPhone OS 18_5 like Mac OS X) AppleWebKit/605.1.15 (KHTML, like Gecko) Version/18.5 Mobile/15E148 Safari/604.1",
    );
    reveal_strlit(
        "Mozilla/5.0 (iPhone; CPU iPhone OS 17_6 like Mac OS X) AppleWebKit/605.1.15 (KHTML, like Gecko) Version/17.6 Mobile/15E148 Safari/604.1",
    );
    reveal_strlit(
        "Mozilla/5.0 (Linux; Android 15; Pixel 8 Build/AP3A.241105.007) AppleWebKit/537.36 (KHTML, like Gecko) Chrome/131.0.0.0 Mobile Safari/537.36",
    );
    reveal_strlit(
        "Mozilla/5.0 (Linux; Android 14; SM-S9280 Build/UP1A.231005.007) AppleWebKit/537.36 (KHTML, like Gecko) Chrome/130.0.0.0 Mobile Safari/537.36",
    );
    reveal_strlit(
        "Mozilla/5.0 (Linux; Android 14; 23127PN0CC Build/UKQ1.231003.002) AppleWebKit/537.36 (KHTML, like Gecko) Chrome/131.0.0.0 Mobile Safari/537.36",
    );
    reveal_strlit(
        "Mozilla/5.0 (Linux; Android 14; V2309A Build/UP1A.231005.007) AppleWebKit/537.36 (KHTML, like Gecko) Chrome/129.0.0.0 Mobile Safari/537.36",
    );
    // The first place at which each pair differs: the system's version or the device's name.
    let a = agent_text(i);
    let b = agent_text((i + 1) % 6);
    if i == 0 {
        assert(a[36] != b[36]);
    } else if i == 1 || i == 5 {
        assert(a[13] != b[13]);
    } else if i == 2 {
        assert(a[29] != b[29]);
    } else {
        assert(a[32] != b[32]);
    }
}

/// A new login never has the user agent of the one before it, and always one of the list.
pub proof fn law_user_agent_changes(previous: Option<Seq<char>>, now: u128, sequence: usize)
    ensures
        Some(next_agent(previous, now, sequence)) != previous,
        exists|i: int| 0 <= i < 6 && next_agent(previous, now, sequence) == #[trigger] agent_text(i),
{
    let i = picked_agent(now, sequence);
    lemma_neighbours_differ(i);
    assert(agent_text(i) == agent_text(i));
    assert(0 <= (i + 1) % 6 < 6);
}

/// What is read of an answer as its object begins and ends with a brace, and stands in the answer.
pub proof fn law_object_is_braced(text: Seq<char>)
    requires
        braced(text) is Some,
    ensures
        ({
            let object = braced(text)->0;
            &&& object.len() >= 2
            &&& object[0] == '{'
            &&& object.last() == '}'
            &&& exists|from: int, to: int|
                0 <= from <= to <= text.len() && object == #[trigger] text.subrange(from, to)
        }),
{
    lemma_first_index(text, '{');
    lemma_last_index(text, '}');
    let start = first_index(text, '{');
    let end = last_index(text, '}');
    assert(text[start] == '{');
    assert(text[end] == '}');
    assert(braced(text)->0 == text.subrange(start, end + 1));
}

} // verus!
