//! Texts, tokens, user agents, account numbers and times.

use qlogin::account::normalized_uin;
use qlogin::agent::{account_user_agent, select_mobile_user_agent, MOBILE_USER_AGENTS};
use qlogin::clock::{unix_millis, whole_millis};
use qlogin::state::QLoginState;
use qlogin::strmap::StrMap;
use qlogin::text::{
    chars_of, decimal_text, find_char, find_last_char, is_blank, is_white_space, lowers_to,
    same_text, signed_decimal_text, skip_char, trim,
};
use qlogin::token::{bkn, ptqr_token};

#[test]
fn white_space_is_that_of_unicode() {
    for code in 0..=0x10ffffu32 {
        if let Some(c) = char::from_u32(code) {
            assert_eq!(is_white_space(c), c.is_whitespace(), "U+{code:04X}");
        }
    }
}

#[test]
fn trimming_takes_white_space_from_both_ends() {
    for s in ["", " ", "a", " a", "a ", "\t\u{3000}登 录\u{a0}\r\n", "\u{200b}a\u{200b}", "\n \n"] {
        assert_eq!(trim(s), s.trim());
        assert_eq!(is_blank(s), s.trim().is_empty());
    }
}

#[test]
fn characters_are_found_by_position() {
    assert_eq!(find_char("登录{x}", '{'), 2);
    assert_eq!(find_char("登录", '{'), 2);
    assert_eq!(find_char("", '{'), 0);
    assert_eq!(find_last_char("}登}录", '}'), 3);
    assert_eq!(find_last_char("登录", '}'), 0);
    assert_eq!(skip_char("...qq.com.", '.'), "qq.com.");
    assert_eq!(skip_char("...", '.'), "");
    assert_eq!(skip_char("登录", '.'), "登录");
    assert_eq!(chars_of("a登"), vec!['a', '登']);
}

#[test]
fn only_ascii_letters_are_lowered() {
    assert!(lowers_to("Image/PNG", "image/png"));
    assert!(lowers_to("", ""));
    assert!(!lowers_to("image/pn", "image/png"));
    assert!(!lowers_to("É", "é"));
    assert!(!lowers_to("\u{212a}", "k"));
    assert!(!lowers_to("[", "{"));
    assert!(same_text("登录", "登录"));
    assert!(!same_text("登录", "登"));
}

#[test]
fn numbers_are_written_as_std_writes_them() {
    for n in [0u128, 7, 10, 99, 1_700_000_000_000, u64::MAX as u128, u128::MAX] {
        assert_eq!(decimal_text(n), n.to_string());
    }
    for n in [0i64, 5, -1, 2_147_483_647, i64::MAX, i64::MIN, -10] {
        assert_eq!(signed_decimal_text(n), n.to_string());
    }
}

#[test]
fn maps_keep_one_value_per_key() {
    let mut map: StrMap<u64> = StrMap::new();
    assert_eq!(map.len(), 0);
    map.insert("a".to_string(), 1);
    map.insert("b".to_string(), 2);
    map.insert("a".to_string(), 3);
    assert_eq!(map.len(), 2);
    assert_eq!(map.get("a"), Some(&3));
    assert_eq!(map.get("c"), None);
    assert!(map.contains_key("b"));
    assert_eq!(map.entry(0), (&"a".to_string(), &3));
    assert_eq!(map.remove("a"), Some(3));
    assert_eq!(map.remove("a"), None);
    assert_eq!(map.remove_at(0), 2);
    assert_eq!(map.len(), 0);
}

#[test]
fn request_tokens_have_known_values() {
    assert_eq!(bkn(""), 5381);
    assert_eq!(bkn("a"), 177670);
    assert_eq!(bkn("@abcDEF123"), 890803408);
    assert_eq!(bkn("zZ9-_.~zZ9-_.~zZ9-_.~"), 1158229492);
    assert_eq!(bkn("登录"), 6885237);
}

#[test]
fn qr_tokens_have_known_values() {
    assert_eq!(ptqr_token(""), 0);
    assert_eq!(ptqr_token("a"), 97);
    assert_eq!(ptqr_token("@abcDEF123"), 2137699723);
    assert_eq!(ptqr_token("zZ9-_.~zZ9-_.~zZ9-_.~"), 1703707599);
    assert_eq!(ptqr_token("登录"), 1025328);
}

#[test]
fn tokens_agree_with_shift_and_add() {
    fn hash(seed: u32, text: &str) -> i64 {
        let mut value = seed;
        for character in text.chars() {
            value = value
                .wrapping_add(value.wrapping_shl(5))
                .wrapping_add(character as u32);
        }
        (value & 0x7fff_ffff) as i64
    }
    let mut text = String::new();
    for i in 0..200u32 {
        text.push(char::from_u32(33 + i * 97 % 5000).unwrap_or('x'));
        assert_eq!(bkn(&text), hash(5381, &text));
        assert_eq!(ptqr_token(&text), hash(0, &text));
    }
}

#[test]
fn accounts_keep_their_user_agent() {
    assert_eq!(account_user_agent(""), MOBILE_USER_AGENTS[0]);
    assert_eq!(account_user_agent("1"), MOBILE_USER_AGENTS[1]);
    assert_eq!(account_user_agent("10001"), MOBILE_USER_AGENTS[2]);
    assert_eq!(account_user_agent("123456789"), MOBILE_USER_AGENTS[1]);
    assert_eq!(account_user_agent("3000000000"), MOBILE_USER_AGENTS[5]);
    assert_eq!(account_user_agent("10001"), account_user_agent("10001"));
}

#[test]
fn user_agents_are_picked_by_time_and_number() {
    assert_eq!(select_mobile_user_agent(None, 0, 0), MOBILE_USER_AGENTS[0]);
    assert_eq!(select_mobile_user_agent(None, 1, 0), MOBILE_USER_AGENTS[1]);
    assert_eq!(
        select_mobile_user_agent(Some("another"), 1, 0),
        MOBILE_USER_AGENTS[1]
    );
    for now in 0..6u128 {
        let previous = MOBILE_USER_AGENTS[now as usize];
        assert_eq!(
            select_mobile_user_agent(Some(previous), now, 0),
            MOBILE_USER_AGENTS[(now as usize + 1) % 6]
        );
    }
}

#[test]
fn following_user_agents_differ() {
    let mut state = QLoginState::new();
    let mut last = String::new();
    for now in [0u128, 0, 5, 5, 5, 6, 12, 12, 1_700_000_000_000, 1_700_000_000_001] {
        let agent = state.next_mobile_user_agent(now);
        assert!(MOBILE_USER_AGENTS.contains(&agent.as_str()));
        assert_ne!(agent, last);
        assert_eq!(state.last_user_agent.as_deref(), Some(agent.as_str()));
        last = agent;
    }
    assert_eq!(state.user_agent_sequence, 10);
}

#[test]
fn account_numbers_lose_their_mark_and_zeros() {
    assert_eq!(normalized_uin("o0123"), Some("123".to_string()));
    assert_eq!(normalized_uin("o123456789"), Some("123456789".to_string()));
    assert_eq!(normalized_uin("10001"), Some("10001".to_string()));
    assert_eq!(normalized_uin("0010"), Some("10".to_string()));
    assert_eq!(normalized_uin(""), None);
    assert_eq!(normalized_uin("o"), None);
    assert_eq!(normalized_uin("0"), None);
    assert_eq!(normalized_uin("o000"), None);
    assert_eq!(normalized_uin("oo1"), None);
    assert_eq!(normalized_uin("O1"), None);
    assert_eq!(normalized_uin("12a"), None);
    assert_eq!(normalized_uin(" 12"), None);
    assert_eq!(normalized_uin("１２"), None);
}

#[test]
fn normal_account_numbers_stay() {
    for value in ["o0123", "77", "o9", "0009000"] {
        let once = normalized_uin(value).unwrap();
        assert_eq!(normalized_uin(&once), Some(once.clone()));
        assert_eq!(normalized_uin(&format!("o000{once}")), Some(once));
    }
}

#[test]
fn times_are_whole_milliseconds() {
    assert_eq!(whole_millis(None), 0);
    assert_eq!(whole_millis(Some((0, 0))), 0);
    assert_eq!(whole_millis(Some((1, 999_999))), 1000);
    assert_eq!(whole_millis(Some((1, 1_000_000))), 1001);
    assert_eq!(
        whole_millis(Some((u64::MAX, 999_999_999))),
        u64::MAX as u128 * 1000 + 999
    );
}

#[test]
fn clock_shows_the_time_of_the_system() {
    let before = std::time::SystemTime::now()
        .duration_since(std::time::UNIX_EPOCH)
        .unwrap()
        .as_millis();
    let now = unix_millis();
    let after = std::time::SystemTime::now()
        .duration_since(std::time::UNIX_EPOCH)
        .unwrap()
        .as_millis();
    assert!(before <= now && now <= after);
}
