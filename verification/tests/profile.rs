//! The profile of the account.

use qlogin::profile::{
    accept_avatar, accept_profile, after_vip_info, allowed_avatar_content_type, avatar_url,
    get_qzone_login_user, parse_user_info, profile_failure, profile_referer, push_avatar_chunk,
    push_profile_chunk, user_info_json, user_info_object, user_info_url, vip_info_url,
    ProfileFault, ProfileStep, UserInfoResponse, MAX_AVATAR_BYTES, MAX_PROFILE_BYTES,
};
use qlogin::session::QzoneAuth;
use qlogin::strmap::StrMap;

fn auth() -> QzoneAuth {
    QzoneAuth {
        uin: "10001".to_string(),
        g_tk: 177670,
        cookie_header: String::new(),
        user_agent: String::new(),
    }
}

#[test]
fn profile_addresses_name_the_account() {
    assert_eq!(
        vip_info_url(&auth()),
        Ok("https://h5.qzone.qq.com/proxy/domain/vip.qzone.qq.com/fcg-bin/fcg_get_vipinfo_mobile?get_all=1&uin=10001&g_tk=177670".to_string())
    );
    assert_eq!(
        user_info_url(&auth()),
        Ok("https://h5.qzone.qq.com/proxy/domain/base.qzone.qq.com/cgi-bin/user/cgi_userinfo_get_all?uin=10001&vuin=10001&fupdate=1&g_tk=177670".to_string())
    );
    assert_eq!(
        avatar_url("10001"),
        Ok("https://q1.qlogo.cn/g?b=qq&nk=10001&s=100".to_string())
    );
    assert_eq!(profile_referer("10001"), "https://user.qzone.qq.com/10001");
}

#[test]
fn long_profiles_are_refused() {
    let limit = MAX_PROFILE_BYTES as u64;
    assert_eq!(limit, 256 * 1024);
    assert!(accept_profile(true, None).is_ok());
    assert!(accept_profile(true, Some(limit)).is_ok());
    assert_eq!(
        accept_profile(true, Some(limit + 1)).err().as_deref(),
        Some("QQ 用户资料响应过大")
    );
    assert_eq!(
        accept_profile(false, Some(0)).err().as_deref(),
        Some("QQ 用户资料接口暂时不可用")
    );
    let mut bytes = vec![0u8; MAX_PROFILE_BYTES - 2];
    assert!(push_profile_chunk(&mut bytes, &[1, 2]).is_ok());
    assert_eq!(bytes.len(), MAX_PROFILE_BYTES);
    assert_eq!(&bytes[MAX_PROFILE_BYTES - 2..], &[1, 2]);
    assert!(push_profile_chunk(&mut bytes, &[]).is_ok());
    assert_eq!(
        push_profile_chunk(&mut bytes, &[3]).err().as_deref(),
        Some("QQ 用户资料响应过大")
    );
    assert_eq!(bytes.len(), MAX_PROFILE_BYTES);
}

#[test]
fn profiles_stand_between_braces() {
    assert_eq!(
        user_info_object("_Callback({\"a\":{}});"),
        Ok("{\"a\":{}}".to_string())
    );
    assert_eq!(user_info_object("登{录}录"), Ok("{录}".to_string()));
    assert_eq!(user_info_object("{}"), Ok("{}".to_string()));
    for text in ["", "{", "}", "}{", "no object"] {
        assert_eq!(
            user_info_object(text).err().as_deref(),
            Some("用户资料响应格式不正确"),
            "{text}"
        );
    }
    assert_eq!(user_info_json(b"x({\"n\":1})"), Ok("{\"n\":1}".to_string()));
    assert_eq!(user_info_json(b"({\"\xea\xc7\"})"), Ok("{\"昵\"}".to_string()));
    assert!(user_info_json(&[0xff]).is_err());
}

fn response(code: i64, data: &[(&str, Option<&str>)]) -> Option<UserInfoResponse> {
    let mut map: StrMap<Option<String>> = StrMap::new();
    for (name, value) in data {
        map.insert(name.to_string(), value.map(str::to_string));
    }
    Some(UserInfoResponse { code, data: Some(map) })
}

#[test]
fn profiles_are_read() {
    for (data, nickname, avatar) in [
        (vec![], "QQ 用户", None),
        (vec![("nickname", Some("A")), ("nick", Some("B")), ("name", Some("C"))], "A", None),
        (vec![("name", Some("C")), ("nick", Some("B"))], "B", None),
        (vec![("name", Some("")), ("face", Some("f"))], "", Some("f")),
        (vec![("nickname", None), ("nick", Some("B"))], "QQ 用户", None),
        (vec![("avatar", Some("a")), ("face", Some("f"))], "QQ 用户", Some("a")),
        (vec![("avatar", None), ("face", Some("f"))], "QQ 用户", None),
    ] {
        let info = parse_user_info(response(0, &data)).unwrap();
        assert_eq!(info.0, nickname);
        assert_eq!(info.1.as_deref(), avatar);
    }
}

#[test]
fn bad_profiles_are_refused() {
    assert_eq!(
        parse_user_info(None).err().as_deref(),
        Some("用户资料响应格式不正确")
    );
    assert_eq!(
        parse_user_info(response(-3000, &[("nick", Some("B"))])).err().as_deref(),
        Some("QQ 用户资料接口返回错误")
    );
    assert_eq!(
        parse_user_info(Some(UserInfoResponse { code: 0, data: None })).err().as_deref(),
        Some("QQ 用户资料接口未返回资料")
    );
}

#[test]
fn profiles_are_asked_for_twice() {
    assert!(matches!(
        after_vip_info(Err("any".to_string())),
        ProfileStep::AskAgain
    ));
    match after_vip_info(Ok(("A".to_string(), Some("b".to_string())))) {
        ProfileStep::Known(nickname) => assert_eq!(nickname, "A"),
        ProfileStep::AskAgain => panic!("the profile is known"),
    }
    assert_eq!(profile_failure(ProfileFault::Request), "获取 QQ 用户资料失败");
    assert_eq!(profile_failure(ProfileFault::Answer), "读取 QQ 用户资料失败");
}

#[test]
fn avatars_are_images() {
    for (value, name) in [
        ("image/jpeg", "image/jpeg"),
        ("IMAGE/PNG", "image/png"),
        (" image/webp ; charset=x", "image/webp"),
        ("image/gif;", "image/gif"),
    ] {
        assert_eq!(allowed_avatar_content_type(value), Some(name));
    }
    for value in ["", ";image/png", "image/svg+xml", "image/jpg", "text/html; image/png"] {
        assert_eq!(allowed_avatar_content_type(value), None, "{value}");
    }
}

#[test]
fn long_avatars_are_refused() {
    let limit = MAX_AVATAR_BYTES as u64;
    assert_eq!(limit, 2 * 1024 * 1024);
    assert_eq!(accept_avatar(true, Some(limit), Some("image/png")), Some("image/png"));
    assert_eq!(accept_avatar(true, None, Some("image/png")), Some("image/png"));
    assert_eq!(accept_avatar(true, Some(limit + 1), Some("image/png")), None);
    assert_eq!(accept_avatar(false, None, Some("image/png")), None);
    assert_eq!(accept_avatar(true, None, None), None);
    assert_eq!(accept_avatar(true, None, Some("text/html")), None);
    let mut bytes = vec![0u8; MAX_AVATAR_BYTES];
    assert!(push_avatar_chunk(&mut bytes, &[]));
    assert!(!push_avatar_chunk(&mut bytes, &[1]));
    assert_eq!(bytes.len(), MAX_AVATAR_BYTES);
}

#[test]
fn users_have_a_name_and_an_avatar() {
    let user = get_qzone_login_user(
        "1".to_string(),
        "A".to_string(),
        Some(("image/gif", b"abc".to_vec())),
    );
    assert_eq!(user.uin, "1");
    assert_eq!(user.nickname, "A");
    assert_eq!(user.avatar_image.as_deref(), Some("data:image/gif;base64,YWJj"));
    let user = get_qzone_login_user("1".to_string(), "A".to_string(), None);
    assert_eq!(user.avatar_image, None);
}
