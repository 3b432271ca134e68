//! The profile of the account that is logged in: where it is asked for, and what is read from the
//! answers.

use vstd::prelude::*;
use vstd::string::*;

use crate::codec::{base64_of, data_address, data_url, decode_legacy_text, gb18030_of};
use crate::link::{pair_texts, query_url, url_of, url_with_pairs};
use crate::session::QzoneAuth;
use crate::start::pair;
use crate::status::{opt_text, QzoneLoginUser};
use crate::strmap::StrMap;
use crate::text::{
    find_char, find_last_char, first_index, last_index, lemma_first_index, lemma_last_index,
    lowered, lowers_to, signed_decimal, signed_decimal_text, trim, trimmed,
};

verus! {

/// The longest profile that is read.
pub const MAX_PROFILE_BYTES: usize = 262_144;

/// The longest avatar that is read.
pub const MAX_AVATAR_BYTES: usize = 2_097_152;

/// Where the profile is asked for.
pub const VIP_INFO_URL: &'static str =
    "https://h5.qzone.qq.com/proxy/domain/vip.qzone.qq.com/fcg-bin/fcg_get_vipinfo_mobile";

/// Where the profile is asked for once more.
pub const USER_INFO_URL: &'static str =
    "https://h5.qzone.qq.com/proxy/domain/base.qzone.qq.com/cgi-bin/user/cgi_userinfo_get_all";

/// Where avatars come from.
pub const AVATAR_URL: &'static str = "https://q1.qlogo.cn/g";

/// The query of the first request for the profile.
pub open spec fn vip_pairs(auth: QzoneAuth) -> Seq<(Seq<char>, Seq<char>)> {
    seq![
        ("get_all"@, "1"@),
        ("uin"@, auth.uin@),
        ("g_tk"@, signed_decimal(auth.g_tk as int)),
    ]
}

/// The address of the first request for the profile.
pub fn vip_info_url(auth: &QzoneAuth) -> (url: Result<String, String>)
    ensures
        match url {
            Ok(text) => url_with_pairs(VIP_INFO_URL@, vip_pairs(*auth)) == Some(text@),
            Err(message) => message@ == "用户资料地址无效"@,
        },
        url is Ok <==> url_of(VIP_INFO_URL@) is Some,
{
    let mut pairs: Vec<(String, String)> = Vec::new();
    pairs.push(pair("get_all", "1"));
    pairs.push(pair("uin", auth.uin.as_str()));
    pairs.push(pair("g_tk", signed_decimal_text(auth.g_tk).as_str()));
    assert(pair_texts(pairs@) =~= vip_pairs(*auth));
    proof {
        reveal_strlit(
            "https://h5.qzone.qq.com/proxy/domain/vip.qzone.qq.com/fcg-bin/fcg_get_vipinfo_mobile",
        );
    }
    query_url(VIP_INFO_URL, &pairs, "用户资料地址无效")
}

/// The query of the second request for the profile.
pub open spec fn user_info_pairs(auth: QzoneAuth) -> Seq<(Seq<char>, Seq<char>)> {
    seq![
        ("uin"@, auth.uin@),
        ("vuin"@, auth.uin@),
        ("fupdate"@, "1"@),
        ("g_tk"@, signed_decimal(auth.g_tk as int)),
    ]
}

/// The address of the second request for the profile.
pub fn user_info_url(auth: &QzoneAuth) -> (url: Result<String, String>)
    ensures
        match url {
            Ok(text) => url_with_pairs(USER_INFO_URL@, user_info_pairs(*auth)) == Some(text@),
            Err(message) => message@ == "用户资料地址无效"@,
        },
        url is Ok <==> url_of(USER_INFO_URL@) is Some,
{
    let mut pairs: Vec<(String, String)> = Vec::new();
    pairs.push(pair("uin", auth.uin.as_str()));
    pairs.push(pair("vuin", auth.uin.as_str()));
    pairs.push(pair("fupdate", "1"));
    pairs.push(pair("g_tk", signed_decimal_text(auth.g_tk).as_str()));
    assert(pair_texts(pairs@) =~= user_info_pairs(*auth));
    proof {
        reveal_strlit(
            "https://h5.qzone.qq.com/proxy/domain/base.qzone.qq.com/cgi-bin/user/cgi_userinfo_get_all",
        );
    }
    query_url(USER_INFO_URL, &pairs, "用户资料地址无效")
}

/// The query of the request for an avatar.
pub open spec fn avatar_pairs(uin: Seq<char>) -> Seq<(Seq<char>, Seq<char>)> {
    seq![("b"@, "qq"@), ("nk"@, uin), ("s"@, "100"@)]
}

/// The address of the avatar of the account `uin`.
pub fn avatar_url(uin: &str) -> (url: Result<String, String>)
    ensures
        match url {
            Ok(text) => url_with_pairs(AVATAR_URL@, avatar_pairs(uin@)) == Some(text@),
            Err(message) => message@ == "头像地址无效"@,
        },
        url is Ok <==> url_of(AVATAR_URL@) is Some,
{
    let mut pairs: Vec<(String, String)> = Vec::new();
    pairs.push(pair("b", "qq"));
    pairs.push(pair("nk", uin));
    pairs.push(pair("s", "100"));
    assert(pair_texts(pairs@) =~= avatar_pairs(uin@));
    proof {
        reveal_strlit("https://q1.qlogo.cn/g");
    }
    query_url(AVATAR_URL, &pairs, "头像地址无效")
}

/// The page that requests for the profile of the account `uin` come from.
pub fn profile_referer(uin: &str) -> (referer: String)
    ensures
        referer@ == "https://user.qzone.qq.com/"@ + uin@,
{
    let mut referer = "https://user.qzone.qq.com/".to_owned();
    referer.append(uin);
    referer
}

/// Decides by its head whether the answer to a request for the profile is read.
pub fn accept_profile(succeeded: bool, content_length: Option<u64>) -> (accepted: Result<
    (),
    String,
>)
    ensures
        match accepted {
            Ok(_) => succeeded && (content_length matches Some(n) ==> n <= MAX_PROFILE_BYTES),
            Err(message) => if succeeded {
                content_length matches Some(n) && n > MAX_PROFILE_BYTES && message@
                    == "QQ 用户资料响应过大"@
            } else {
                message@ == "QQ 用户资料接口暂时不可用"@
            },
        },
{
    if !succeeded {
        return Err("QQ 用户资料接口暂时不可用".to_owned());
    }
    if let Some(length) = content_length {
        if length > MAX_PROFILE_BYTES as u64 {
            return Err("QQ 用户资料响应过大".to_owned());
        }
    }
    Ok(())
}

/// Adds `chunk` to the bytes read so far, unless there would be more than `limit` then.
pub fn push_chunk(bytes: &mut Vec<u8>, chunk: &[u8], limit: usize) -> (fits: bool)
    ensures
        fits == (old(bytes)@.len() + chunk@.len() <= limit),
        final(bytes)@ == if fits {
            old(bytes)@ + chunk@
        } else {
            old(bytes)@
        },
{
    if bytes.len() > limit || chunk.len() > limit - bytes.len() {
        return false;
    }
    bytes.extend_from_slice(chunk);
    assert(bytes@ =~= old(bytes)@ + chunk@);
    true
}

/// Adds `chunk` to the profile read so far, unless that grows too long.
pub fn push_profile_chunk(bytes: &mut Vec<u8>, chunk: &[u8]) -> (pushed: Result<(), String>)
    ensures
        match pushed {
            Ok(_) => old(bytes)@.len() + chunk@.len() <= MAX_PROFILE_BYTES && final(bytes)@ == old(
                bytes,
            )@ + chunk@,
            Err(message) => old(bytes)@.len() + chunk@.len() > MAX_PROFILE_BYTES && final(bytes)@
                == old(bytes)@ && message@ == "QQ 用户资料响应过大"@,
        },
{
    if push_chunk(bytes, chunk, MAX_PROFILE_BYTES) {
        Ok(())
    } else {
        Err("QQ 用户资料响应过大".to_owned())
    }
}

/// The object in the answer `text`: everything from the first opening brace to the last closing
/// one.
pub open spec fn braced(text: Seq<char>) -> Option<Seq<char>> {
    let start = first_index(text, '{');
    let end = last_index(text, '}');
    if start < text.len() && start <= end {
        Some(text.subrange(start, end + 1))
    } else {
        None
    }
}

/// The object in the answer `text`.
pub fn user_info_object(text: &str) -> (object: Result<String, String>)
    ensures
        match object {
            Ok(found) => braced(text@) == Some(found@),
            Err(message) => braced(text@) is None && message@ == "用户资料响应格式不正确"@,
        },
{
    let len = text.unicode_len();
    let start = find_char(text, '{');
    let end = find_last_char(text, '}');
    proof {
        lemma_first_index(text@, '{');
        lemma_last_index(text@, '}');
    }
    if start < len && start < end {
        Ok(text.substring_char(start, end).to_owned())
    } else {
        Err("用户资料响应格式不正确".to_owned())
    }
}

/// The text of the answer `bytes`: UTF-8 where it is well-formed, GB18030 otherwise.
pub open spec fn answer_text(bytes: Seq<u8>) -> Seq<char> {
    if vstd::utf8::valid_utf8(bytes) {
        vstd::utf8::decode_utf8(bytes)
    } else {
        gb18030_of(bytes)
    }
}

/// The object in the answer `bytes`.
pub fn user_info_json(bytes: &[u8]) -> (object: Result<String, String>)
    requires
        bytes@.len() <= usize::MAX / 16,
    ensures
        match object {
            Ok(found) => braced(answer_text(bytes@)) == Some(found@),
            Err(message) => braced(answer_text(bytes@)) is None && message@
                == "用户资料响应格式不正确"@,
        },
{
    user_info_object(decode_legacy_text(bytes).as_str())
}

/// The answer to a request for the profile. Each entry of its data has its text, or none where it
/// is something else than a text.
pub struct UserInfoResponse {
    pub code: i64,
    pub data: Option<StrMap<Option<String>>>,
}

/// The texts of the entries.
pub open spec fn field_text(
    data: Map<Seq<char>, Option<String>>,
    name: Seq<char>,
) -> Option<Seq<char>> {
    opt_text(data[name])
}

/// The text of the first of the entries `nickname`, `nick` and `name` that is there.
pub open spec fn nickname_in(data: Map<Seq<char>, Option<String>>) -> Option<Seq<char>> {
    if data.contains_key("nickname"@) {
        field_text(data, "nickname"@)
    } else if data.contains_key("nick"@) {
        field_text(data, "nick"@)
    } else if data.contains_key("name"@) {
        field_text(data, "name"@)
    } else {
        None
    }
}

/// The nickname as it is shown: a stand-in where the profile has none.
pub open spec fn shown_nickname(data: Map<Seq<char>, Option<String>>) -> Seq<char> {
    match nickname_in(data) {
        Some(text) => text,
        None => "QQ 用户"@,
    }
}

/// The text of the first of the entries `avatar` and `face` that is there.
pub open spec fn avatar_in(data: Map<Seq<char>, Option<String>>) -> Option<Seq<char>> {
    if data.contains_key("avatar"@) {
        field_text(data, "avatar"@)
    } else if data.contains_key("face"@) {
        field_text(data, "face"@)
    } else {
        None
    }
}

fn copy_field(field: &Option<String>) -> (copy: Option<String>)
    ensures
        opt_text(copy) == opt_text(*field),
{
    match field {
        Some(text) => Some(text.clone()),
        None => None,
    }
}

/// The nickname and the avatar in the answer to a request for the profile, as far as the answer
/// could be read at all.
pub fn parse_user_info(response: Option<UserInfoResponse>) -> (info: Result<
    (String, Option<String>),
    String,
>)
    ensures
        match response {
            None => info matches Err(message) && message@ == "用户资料响应格式不正确"@,
            Some(answer) => if answer.code != 0 {
                info matches Err(message) && message@ == "QQ 用户资料接口返回错误"@
            } else {
                match answer.data {
                    None => info matches Err(message) && message@ == "QQ 用户资料接口未返回资料"@,
                    Some(data) => {
                        &&& info matches Ok(found)
                        &&& found.0@ == shown_nickname(data@)
                        &&& opt_text(found.1) == avatar_in(data@)
                    },
                }
            },
        },
{
    let answer = match response {
        Some(answer) => answer,
        None => return Err("用户资料响应格式不正确".to_owned()),
    };
    if answer.code != 0 {
        return Err("QQ 用户资料接口返回错误".to_owned());
    }
    let data = match answer.data {
        Some(data) => data,
        None => return Err("QQ 用户资料接口未返回资料".to_owned()),
    };
    let nickname = match data.get("nickname") {
        Some(field) => copy_field(field),
        None => match data.get("nick") {
            Some(field) => copy_field(field),
            None => match data.get("name") {
                Some(field) => copy_field(field),
                None => None,
            },
        },
    };
    let avatar = match data.get("avatar") {
        Some(field) => copy_field(field),
        None => match data.get("face") {
            Some(field) => copy_field(field),
            None => None,
        },
    };
    let shown = match nickname {
        Some(text) => text,
        None => "QQ 用户".to_owned(),
    };
    Ok((shown, avatar))
}

/// What can go wrong on the way to the profile.
pub enum ProfileFault {
    /// The request was not answered.
    Request,
    /// The answer broke off.
    Answer,
}

/// What is said of `fault`.
pub fn profile_failure(fault: ProfileFault) -> (message: String)
    ensures
        message@ == match fault {
            ProfileFault::Request => "获取 QQ 用户资料失败"@,
            ProfileFault::Answer => "读取 QQ 用户资料失败"@,
        },
{
    match fault {
        ProfileFault::Request => "获取 QQ 用户资料失败".to_owned(),
        ProfileFault::Answer => "读取 QQ 用户资料失败".to_owned(),
    }
}

/// How the request for the profile goes on.
pub enum ProfileStep {
    /// The profile is there.
    Known(String),
    /// The profile is to be asked for at the second address.
    AskAgain,
}

/// Decides by the outcome of the first request whether a second one is made. A nickname is all
/// that is taken from the profile.
pub fn after_vip_info(info: Result<(String, Option<String>), String>) -> (step: ProfileStep)
    ensures
        match info {
            Ok(found) => step == ProfileStep::Known(found.0),
            Err(_) => step is AskAgain,
        },
{
    match info {
        Ok(found) => ProfileStep::Known(found.0),
        Err(_) => ProfileStep::AskAgain,
    }
}

/// The part of `value` before its first semicolon, without white space around it.
pub open spec fn media_type(value: Seq<char>) -> Seq<char> {
    trimmed(value.take(first_index(value, ';')))
}

/// The image type that the content type `value` names, if it is one that an avatar may have.
pub open spec fn avatar_type(value: Seq<char>) -> Option<Seq<char>> {
    let name = lowered(media_type(value));
    if name == "image/jpeg"@ || name == "image/png"@ || name == "image/webp"@ || name
        == "image/gif"@ {
        Some(name)
    } else {
        None
    }
}

/// The image type that the content type `value` names, if it is one that an avatar may have.
pub fn allowed_avatar_content_type(value: &str) -> (allowed: Option<&'static str>)
    ensures
        match allowed {
            Some(name) => avatar_type(value@) == Some(name@),
            None => avatar_type(value@) is None,
        },
{
    let at = find_char(value, ';');
    proof {
        lemma_first_index(value@, ';');
        assert(value@.subrange(0, at as int) =~= value@.take(at as int));
    }
    let media = trim(value.substring_char(0, at));
    if lowers_to(media, "image/jpeg") {
        Some("image/jpeg")
    } else if lowers_to(media, "image/png") {
        Some("image/png")
    } else if lowers_to(media, "image/webp") {
        Some("image/webp")
    } else if lowers_to(media, "image/gif") {
        Some("image/gif")
    } else {
        None
    }
}

/// The type of an avatar by the head of the answer to a request for it, or nothing where the
/// avatar is not taken.
pub open spec fn accepted_avatar(
    succeeded: bool,
    content_length: Option<u64>,
    content_type: Option<Seq<char>>,
) -> Option<Seq<char>> {
    if succeeded && (content_length matches Some(n) ==> n <= MAX_AVATAR_BYTES) && content_type is Some {
        avatar_type(content_type->0)
    } else {
        None
    }
}

/// Decides by its head whether an avatar is read, and gives its type.
pub fn accept_avatar(
    succeeded: bool,
    content_length: Option<u64>,
    content_type: Option<&str>,
) -> (accepted: Option<&'static str>)
    ensures
        match accepted {
            Some(name) => accepted_avatar(
                succeeded,
                content_length,
                match content_type {
                    Some(value) => Some(value@),
                    None => None,
                },
            ) == Some(name@),
            None => accepted_avatar(
                succeeded,
                content_length,
                match content_type {
                    Some(value) => Some(value@),
                    None => None,
                },
            ) is None,
        },
{
    if !succeeded {
        return None;
    }
    if let Some(length) = content_length {
        if length > MAX_AVATAR_BYTES as u64 {
            return None;
        }
    }
    match content_type {
        Some(value) => allowed_avatar_content_type(value),
        None => None,
    }
}

/// Adds `chunk` to the avatar read so far, unless that grows too long.
pub fn push_avatar_chunk(bytes: &mut Vec<u8>, chunk: &[u8]) -> (fits: bool)
    ensures
        fits == (old(bytes)@.len() + chunk@.len() <= MAX_AVATAR_BYTES),
        final(bytes)@ == if fits {
            old(bytes)@ + chunk@
        } else {
            old(bytes)@
        },
{
    push_chunk(bytes, chunk, MAX_AVATAR_BYTES)
}

/// The account `uin` as it is shown, with the image of the type `avatar.0` and the bytes
/// `avatar.1` where an avatar was read.
pub fn get_qzone_login_user(
    uin: String,
    nickname: String,
    avatar: Option<(&'static str, Vec<u8>)>,
) -> (user: QzoneLoginUser)
    requires
        avatar matches Some(image) ==> image.1@.len() <= MAX_AVATAR_BYTES,
    ensures
        user.uin == uin,
        user.nickname == nickname,
        opt_text(user.avatar_image) == match avatar {
            Some(image) => Some(data_address(image.0@, base64_of(image.1@))),
            None => None,
        },
{
    let avatar_image = match avatar {
        Some(image) => Some(data_url(image.0, image.1.as_slice())),
        None => None,
    };
    QzoneLoginUser { uin, nickname, avatar_image }
}

} // verus!
