//! What holds of the login by QR code, from one poll to the session of the account.

use vstd::arithmetic::div_mod::*;
use vstd::prelude::*;
use vstd::string::*;

use crate::account::account_number;
use crate::laws_text::{
    law_account_is_read_as_written, law_decimals_read_back, law_hash_grows_by_characters,
    law_signed_decimals_read_back, only_digits, read_decimal, read_signed, writes_account,
};
use crate::link::{check_address, first_value, signed_query, trusted_hop, url_of, UrlView};
use crate::poll::{
    after_poll, code_outcome, confirm_outcome, credentials_outcome, first_filled, g_tk_of,
    hop_outcome, new_signature, opening_outcome, poll_fault_text, poll_pairs, redirect_outcome,
    refreshed, ConfirmStep, Confirming, HopStep, PollFault, PollReport, PollStep,
};
use crate::session::QrLoginSession;
use crate::state::StateView;
use crate::status::StatusView;
use crate::text::decimal;
use crate::token::hash33;

verus! {

/// A report on the login `id` of the kind `status` with the message `message`, and no image.
pub open spec fn says(report: StatusView, id: Seq<char>, status: &str, message: &str) -> bool {
    &&& report.session_id == Some(id)
    &&& report.status == status@
    &&& report.message == message@
    &&& report.qr_image is None
}

/// A poll sends the token of the QR code in full: read as a decimal number it is the token, and
/// two logins with different tokens never send the same one. The other values are sent as they
/// are, and the time can be read back.
pub proof fn law_polls_send_the_whole_token(
    session: QrLoginSession,
    now: u128,
    other: QrLoginSession,
    later: u128,
)
    ensures
        ({
            let query = poll_pairs(session, now);
            let others = poll_pairs(other, later);
            &&& query.len() == 7
            &&& query[0] == ("u1"@, session.u1@)
            &&& query[1].0 == "ptqrtoken"@
            &&& read_signed(query[1].1) == session.ptqrtoken
            &&& session.ptqrtoken >= 0 ==> only_digits(query[1].1) && read_decimal(query[1].1)
                == session.ptqrtoken
            &&& session.ptqrtoken != other.ptqrtoken ==> query[1].1 != others[1].1
            &&& query[2] == ("ptredirect"@, "0"@)
            &&& query[3].0 == "action"@
            &&& query[3].1.take(4) == seq!['0', '-', '0', '-']
            &&& read_decimal(query[3].1.skip(4)) == now
            &&& only_digits(query[3].1.skip(4))
            &&& query[4] == ("login_sig"@, session.login_sig@)
            &&& query[5] == ("aid"@, session.appid@)
            &&& query[6] == ("daid"@, "5"@)
        }),
{
    law_signed_decimals_read_back(session.ptqrtoken as int, other.ptqrtoken as int);
    law_decimals_read_back(now as nat);
    reveal_strlit("0-0-");
    let action = poll_pairs(session, now)[3].1;
    assert(action == "0-0-"@ + decimal(now as nat));
    assert(action.take(4) =~= seq!['0', '-', '0', '-']);
    assert(action.skip(4) =~= decimal(now as nat));
}

/// A poll after a new QR code sends the 31-bit token of that code's signature.
pub proof fn law_polls_send_the_token_of_the_signature(
    session: QrLoginSession,
    signature: Seq<char>,
    now: u128,
)
    ensures
        read_decimal(poll_pairs(refreshed(session, signature), now)[1].1) == hash33(0, signature)
            as int % 0x8000_0000,
{
    let next = refreshed(session, signature);
    law_polls_send_the_whole_token(next, now, next, now);
}

/// The token of a signature follows from that of the signature without its last character, and a
/// new QR code changes nothing of the login but its token and the count of its codes.
pub proof fn law_new_codes_change_token_and_count(
    session: QrLoginSession,
    signature: Seq<char>,
    c: char,
)
    requires
        session.refresh_count < u32::MAX,
    ensures
        ({
            let next = refreshed(session, signature);
            &&& refreshed(session, Seq::empty()).ptqrtoken == 0
            &&& refreshed(session, signature.push(c)).ptqrtoken as int == (33 * (
            next.ptqrtoken as int) + c as int) % 0x8000_0000
            &&& 0 <= next.ptqrtoken < 0x8000_0000
            &&& next.refresh_count == session.refresh_count + 1
            &&& next.created_at == session.created_at
            &&& next.poll_count == session.poll_count
            &&& next.generation == session.generation
            &&& next.cancel_epoch == session.cancel_epoch
            &&& next.jar == session.jar
            &&& next.client == session.client
            &&& next.user_agent == session.user_agent
            &&& next.appid == session.appid
            &&& next.u1 == session.u1
            &&& next.login_sig == session.login_sig
            &&& next.uin == session.uin
            &&& next.g_tk == session.g_tk
        }),
{
    law_hash_grows_by_characters(0, signature, Seq::empty(), c);
    let h = hash33(0, signature) as int;
    lemma_mul_mod_noop_right(33, h, 0x8000_0000);
    lemma_add_mod_noop(33 * h, c as int, 0x8000_0000);
    lemma_add_mod_noop(33 * (h % 0x8000_0000), c as int, 0x8000_0000);
}

/// What a poll begins with: a login that is there, was not cancelled, is no older than five minutes
/// and was polled fewer than 180 times is asked for, with one more poll counted and nothing else of
/// it changed. Any other is over, or was never there.
pub proof fn law_which_logins_are_polled(
    before: StateView,
    id: Seq<char>,
    now: u128,
    step: Result<PollStep, String>,
)
    requires
        opening_outcome(before, id, now, step),
    ensures
        ({
            let session = before.sessions[id];
            let there = before.sessions.contains_key(id);
            let gone = before.is_cancelled(id, session);
            let late = now > session.created_at + 5 * 60 * 1000 || session.poll_count >= 180;
            &&& !there ==> (step matches Err(message) && message@
                == "二维码登录会话不存在或已失效"@)
            &&& there && gone ==> (step matches Ok(PollStep::Over(report)) && says(
                report@,
                id,
                "cancelled",
                "二维码登录已取消",
            ))
            &&& there && !gone && late ==> (step matches Ok(PollStep::Over(report)) && says(
                report@,
                id,
                "timedOut",
                "二维码登录已超时",
            ))
            &&& there && !gone && !late ==> {
                &&& step matches Ok(PollStep::Ask(asked))
                &&& asked.poll_count == session.poll_count + 1
                &&& asked.refresh_count == session.refresh_count
                &&& asked.created_at == session.created_at
                &&& asked.generation == session.generation
                &&& asked.cancel_epoch == session.cancel_epoch
                &&& asked.jar == session.jar
                &&& asked.client == session.client
                &&& asked.user_agent == session.user_agent
                &&& asked.appid == session.appid
                &&& asked.u1 == session.u1
                &&& asked.ptqrtoken == session.ptqrtoken
                &&& asked.login_sig == session.login_sig
                &&& asked.uin == session.uin
                &&& asked.g_tk == session.g_tk
            }
        }),
{
}

/// The end of a poll changes what is remembered of its own login alone.
pub proof fn law_ended_polls_leave_others_alone(before: StateView, id: Seq<char>, other: Seq<char>)
    ensures
        ({
            let after = after_poll(before, id);
            &&& before.sessions.contains_key(id) ==> after.cancel_epochs == before.cancel_epochs
            &&& other != id ==> (after.in_flight.contains(other) <==> before.in_flight.contains(
                other,
            ))
            &&& other != id ==> (after.cancel_epochs.contains_key(other)
                <==> before.cancel_epochs.contains_key(other))
            &&& other != id && before.cancel_epochs.contains_key(other)
                ==> after.cancel_epochs[other] == before.cancel_epochs[other]
            &&& after.session == before.session
            &&& after.last_user_agent == before.last_user_agent
            &&& after.user_agent_sequence == before.user_agent_sequence
            &&& after.generation == before.generation
            &&& after.web_generation == before.web_generation
            &&& after.active_web_attempt == before.active_web_attempt
        }),
{
}

/// What each code of the login service does: 66 and 67 put the login back as it is, 65 asks for a
/// new QR code up to three times, 0 follows the confirmation, and any other code is an error.
pub proof fn law_what_codes_do(
    before: StateView,
    after: StateView,
    id: Seq<char>,
    session: QrLoginSession,
    code: Seq<char>,
    url: Seq<char>,
    result: Result<PollReport, String>,
)
    requires
        code_outcome(before, after, id, session, code, url, result),
    ensures
        code == "66"@ || code == "67"@ ==> after == before.restored(id, session),
        code == "66"@ ==> (result matches Ok(PollReport::Over(report)) && says(
            report@,
            id,
            "waiting",
            "请使用手机 QQ 扫描二维码",
        )),
        code == "67"@ ==> (result matches Ok(PollReport::Over(report)) && says(
            report@,
            id,
            "scanned",
            "已扫码，请在手机上确认登录",
        )),
        code != "66"@ && code != "67"@ ==> after == before,
        code == "65"@ && session.refresh_count < 3 ==> (result matches Ok(PollReport::Refresh(same))
            && same == session),
        code == "65"@ && session.refresh_count >= 3 ==> (result matches Ok(PollReport::Over(report))
            && says(report@, id, "expired", "二维码刷新次数已达上限")),
        code != "66"@ && code != "67"@ && code != "65"@ && code != "0"@ ==> (result matches Ok(
            PollReport::Over(report),
        ) && says(report@, id, "error", "QQ 登录返回了无法识别的状态")),
        code == "0"@ ==> confirm_outcome(id, session, url_of(url), result),
{
    reveal_strlit("66");
    reveal_strlit("67");
    reveal_strlit("65");
    reveal_strlit("0");
    assert("66"@[1] == '6');
    assert("67"@[1] == '7');
    assert("65"@[1] == '5');
    assert("0"@.len() == 1);
}

/// A confirmation is followed where its address is one of the login service and names an account
/// in its first `uin`; the login goes on with its own session, towards that address and for that
/// account.
pub proof fn law_which_confirmations_are_followed(
    id: Seq<char>,
    session: QrLoginSession,
    url: Option<UrlView>,
    result: Result<PollReport, String>,
    number: Seq<char>,
)
    requires
        confirm_outcome(id, session, url, result),
    ensures
        url is None ==> (result matches Ok(PollReport::Over(report)) && says(
            report@,
            id,
            "error",
            "登录跳转校验失败",
        )),
        url matches Some(found) ==> {
            let good = check_address(found) && signed_query(found.query);
            let named = first_value(found.query, "uin"@);
            &&& !good ==> (result matches Ok(PollReport::Over(report)) && says(
                report@,
                id,
                "error",
                "登录跳转校验失败",
            ))
            &&& good && (named matches Some(value) && writes_account(value, number)) ==> {
                &&& result matches Ok(PollReport::Confirm(task))
                &&& task.session == session
                &&& task.url@ == found
                &&& task.callback@ == number
                &&& task.hops == 0
            }
            &&& good && !(result matches Ok(PollReport::Confirm(_))) ==> (result matches Err(message)
                && message@ == "登录响应不完整"@)
            &&& result matches Ok(PollReport::Confirm(task)) ==> good && named is Some
                && writes_account(named->0, task.callback@)
        },
{
    if let Some(found) = url {
        if let Some(value) = first_value(found.query, "uin"@) {
            law_account_is_read_as_written(value, number);
            if account_number(value) is Some {
                law_account_is_read_as_written(value, account_number(value)->0);
            }
        }
    }
}

/// The signature of a new QR code is the first one in the answer that is not empty, in full, and it
/// must not be the one shown before.
pub proof fn law_first_new_signature_counts(
    before: Seq<(Seq<char>, Seq<char>)>,
    after: Seq<(Seq<char>, Seq<char>)>,
    value: Seq<char>,
    shown: Option<Seq<char>>,
)
    requires
        forall|i: int|
            0 <= i < before.len() ==> (#[trigger] before[i]).0 != "qrsig"@ || before[i].1.len() == 0,
        value.len() > 0,
    ensures
        new_signature(before, shown) is None,
        shown != Some(value) ==> new_signature(before.push(("qrsig"@, value)) + after, shown)
            == Some(value),
        shown == Some(value) ==> new_signature(
            before.push(("qrsig"@, value)) + after,
            shown,
        ) is None,
{
    lemma_first_filled(before, after, value);
}

proof fn lemma_first_filled(
    before: Seq<(Seq<char>, Seq<char>)>,
    after: Seq<(Seq<char>, Seq<char>)>,
    value: Seq<char>,
)
    requires
        forall|i: int|
            0 <= i < before.len() ==> (#[trigger] before[i]).0 != "qrsig"@ || before[i].1.len() == 0,
        value.len() > 0,
    ensures
        first_filled(before, "qrsig"@) is None,
        first_filled(before.push(("qrsig"@, value)) + after, "qrsig"@) == Some(value),
    decreases before.len(),
{
    let whole = before.push(("qrsig"@, value)) + after;
    if before.len() > 0 {
        let rest = before.drop_first();
        assert forall|i: int| 0 <= i < rest.len() implies (#[trigger] rest[i]).0 != "qrsig"@
            || rest[i].1.len() == 0 by {
            assert(rest[i] == before[i + 1]);
        }
        lemma_first_filled(rest, after, value);
        assert(whole[0] == before[0]);
        assert(whole.drop_first() =~= rest.push(("qrsig"@, value)) + after);
    } else {
        assert(whole[0] == ("qrsig"@, value));
    }
}

/// Each failure of a poll that may be repeated has its own message.
pub proof fn law_poll_faults_have_messages(fault: PollFault)
    ensures
        fault is Ask ==> poll_fault_text(fault) == "检查扫码状态失败，请稍后重试"@,
        fault is Answer ==> poll_fault_text(fault) == "读取扫码状态失败，请稍后重试"@,
        fault is Refresh ==> poll_fault_text(fault) == "刷新二维码失败，请稍后重试"@,
        fault is RefreshImage ==> poll_fault_text(fault) == "读取刷新二维码失败，请稍后重试"@,
        fault is Confirm ==> poll_fault_text(fault) == "确认 QQ 登录失败，请稍后重试"@,
{
}

/// A trusted address is requested as long as fewer than six requests have been made for the login,
/// and nothing else is.
pub proof fn law_which_addresses_are_requested(id: Seq<char>, task: Confirming, step: HopStep)
    requires
        hop_outcome(id, task, step),
    ensures
        task.hops < 6 && trusted_hop(task.url@) ==> {
            &&& step matches HopStep::Request(next)
            &&& next.url == task.url
            &&& next.session == task.session
            &&& next.callback == task.callback
            &&& next.hops == task.hops + 1
        },
        task.hops >= 6 ==> (step matches HopStep::Over(report) && says(
            report@,
            id,
            "error",
            "确认 QQ 登录失败",
        )),
        task.hops < 6 && !trusted_hop(task.url@) ==> (step matches HopStep::Over(report) && says(
            report@,
            id,
            "error",
            "登录跳转校验失败",
        )),
{
}

/// A redirection is followed to its trusted target as long as fewer than six requests have been
/// made for the login, and no other redirection is.
pub proof fn law_which_redirections_are_followed(
    id: Seq<char>,
    task: Confirming,
    next: Option<UrlView>,
    step: HopStep,
)
    requires
        redirect_outcome(id, task, next, step),
    ensures
        next is None || !trusted_hop(next->0) ==> (step matches HopStep::Over(report) && says(
            report@,
            id,
            "error",
            "登录跳转校验失败",
        )),
        next matches Some(url) ==> {
            &&& trusted_hop(url) && task.hops >= 6 ==> (step matches HopStep::Over(report) && says(
                report@,
                id,
                "error",
                "确认 QQ 登录失败",
            ))
            &&& trusted_hop(url) && task.hops < 6 ==> {
                &&& step matches HopStep::Request(followed)
                &&& followed.url@ == url
                &&& followed.session == task.session
                &&& followed.callback == task.callback
                &&& followed.hops == task.hops + 1
            }
        },
{
}

/// A confirmed login succeeds where its `uin` cookie names the account that was confirmed and its
/// session key is not empty, whether or not there is a `p_uin` too; that one counts only where
/// there is no `uin`. The session then has these cookies, this account, the token of this key and
/// the user agent of the login.
pub proof fn law_which_credentials_log_in(
    id: Seq<char>,
    session: QrLoginSession,
    callback: Seq<char>,
    cookies: Map<Seq<char>, Seq<char>>,
    step: ConfirmStep,
)
    requires
        credentials_outcome(id, session, callback, cookies, step),
    ensures
        ({
            let keyed = cookies.contains_key("p_skey"@) && cookies["p_skey"@].len() > 0;
            let by_uin = cookies.contains_key("uin"@) && writes_account(cookies["uin"@], callback);
            let by_p_uin = !cookies.contains_key("uin"@) && cookies.contains_key("p_uin"@)
                && writes_account(cookies["p_uin"@], callback);
            &&& keyed && (by_uin || by_p_uin) <==> step is Commit
            &&& step matches ConfirmStep::Commit(found) ==> {
                &&& found.session == session
                &&& found.login.cookies@ == cookies
                &&& found.login@.uin == Some(callback)
                &&& found.login@.g_tk == Some(g_tk_of(cookies["p_skey"@]))
                &&& found.login@.user_agent == session.user_agent@
                &&& found.login@.web_attempt is None
            }
            &&& !keyed ==> (step matches ConfirmStep::Over(report) && says(
                report@,
                id,
                "error",
                "登录凭据不完整",
            ))
            &&& !cookies.contains_key("uin"@) && !cookies.contains_key("p_uin"@) ==> (
            step matches ConfirmStep::Over(report) && says(
                report@,
                id,
                "error",
                "登录凭据不完整",
            ))
        }),
{
    if cookies.contains_key("uin"@) {
        law_account_is_read_as_written(cookies["uin"@], callback);
    }
    if cookies.contains_key("p_uin"@) {
        law_account_is_read_as_written(cookies["p_uin"@], callback);
    }
}

/// A login for another account than the one that was confirmed is refused for that, and one whose
/// cookies name no account for being incomplete.
pub proof fn law_why_credentials_are_refused(
    id: Seq<char>,
    session: QrLoginSession,
    callback: Seq<char>,
    cookies: Map<Seq<char>, Seq<char>>,
    step: ConfirmStep,
    number: Seq<char>,
)
    requires
        credentials_outcome(id, session, callback, cookies, step),
        cookies.contains_key("p_skey"@),
        cookies["p_skey"@].len() > 0,
        cookies.contains_key("uin"@),
    ensures
        number != callback && writes_account(cookies["uin"@], number) ==> (
        step matches ConfirmStep::Over(report) && says(
            report@,
            id,
            "error",
            "登录身份校验失败",
        )),
        (forall|any: Seq<char>| !writes_account(cookies["uin"@], any)) ==> (
        step matches ConfirmStep::Over(report) && says(
            report@,
            id,
            "error",
            "登录凭据不完整",
        )),
{
    law_account_is_read_as_written(cookies["uin"@], number);
    if account_number(cookies["uin"@]) is Some {
        law_account_is_read_as_written(cookies["uin"@], account_number(cookies["uin"@])->0);
    }
}

/// Cookies other than `uin`, `p_uin` and `p_skey` do not decide whether a login succeeds, nor does
/// `p_uin` where there is a `uin`; the token of two logins with one session key is the same.
pub proof fn law_other_cookies_do_not_decide(
    id: Seq<char>,
    session: QrLoginSession,
    callback: Seq<char>,
    cookies: Map<Seq<char>, Seq<char>>,
    step: ConfirmStep,
    name: Seq<char>,
    value: Seq<char>,
    next: ConfirmStep,
)
    requires
        credentials_outcome(id, session, callback, cookies, step),
        credentials_outcome(id, session, callback, cookies.insert(name, value), next),
        name != "uin"@,
        name != "p_skey"@,
        name != "p_uin"@ || cookies.contains_key("uin"@),
    ensures
        step is Commit <==> next is Commit,
        match (step, next) {
            (ConfirmStep::Commit(a), ConfirmStep::Commit(b)) => a.login@.g_tk == b.login@.g_tk
                && a.login@.uin == b.login@.uin && a.login@.user_agent == b.login@.user_agent,
            (ConfirmStep::Over(a), ConfirmStep::Over(b)) => a@ == b@,
            _ => true,
        },
{
    law_which_credentials_log_in(id, session, callback, cookies, step);
    law_which_credentials_log_in(id, session, callback, cookies.insert(name, value), next);
}

} // verus!
