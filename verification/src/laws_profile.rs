//! What holds of the profile of the account.

use vstd::prelude::*;
use vstd::string::*;

use crate::codec::gb18030_of;
use crate::laws_format::lacks;
use crate::laws_text::{
    law_signed_decimals_read_back, law_trimming_finds_the_inner_text, read_signed,
};
use crate::profile::{
    accepted_avatar, answer_text, avatar_in, avatar_pairs, avatar_type, braced, media_type,
    nickname_in, shown_nickname, user_info_pairs, vip_pairs,
};
use crate::session::QzoneAuth;
use crate::text::{
    blank, first_index, last_index, lemma_first_index, lemma_first_index_is, lemma_last_index,
    lemma_last_index_is, lowered, white_space,
};

verus! {

/// The profile is asked for in the name of the account, with its whole number and its whole token;
/// two accounts with different tokens never send the same one.
pub proof fn law_profiles_are_asked_for(auth: QzoneAuth, other: QzoneAuth)
    ensures
        ({
            let vip = vip_pairs(auth);
            &&& vip.len() == 3
            &&& vip[0] == ("get_all"@, "1"@)
            &&& vip[1] == ("uin"@, auth.uin@)
            &&& vip[2].0 == "g_tk"@
            &&& read_signed(vip[2].1) == auth.g_tk
            &&& auth.g_tk != other.g_tk ==> vip[2].1 != vip_pairs(other)[2].1
        }),
        ({
            let info = user_info_pairs(auth);
            &&& info.len() == 4
            &&& info[0] == ("uin"@, auth.uin@)
            &&& info[1] == ("vuin"@, auth.uin@)
            &&& info[2] == ("fupdate"@, "1"@)
            &&& info[3].0 == "g_tk"@
            &&& read_signed(info[3].1) == auth.g_tk
            &&& auth.g_tk != other.g_tk ==> info[3].1 != user_info_pairs(other)[3].1
        }),
        ({
            let avatar = avatar_pairs(auth.uin@);
            &&& avatar.len() == 3
            &&& avatar[0] == ("b"@, "qq"@)
            &&& avatar[1] == ("nk"@, auth.uin@)
            &&& avatar[2] == ("s"@, "100"@)
        }),
{
    law_signed_decimals_read_back(auth.g_tk as int, other.g_tk as int);
}

/// An answer that is well-formed UTF-8 is read as that, and any other as GB18030.
pub proof fn law_answers_are_read_in_their_encoding(bytes: Seq<u8>)
    ensures
        vstd::utf8::valid_utf8(bytes) ==> answer_text(bytes) == vstd::utf8::decode_utf8(bytes),
        !vstd::utf8::valid_utf8(bytes) ==> answer_text(bytes) == gb18030_of(bytes),
{
}

/// The object of an answer goes from its first opening brace to its last closing one, with all that
/// stands between them; an answer without such a pair has none.
pub proof fn law_objects_go_from_brace_to_brace(
    before: Seq<char>,
    inner: Seq<char>,
    after: Seq<char>,
)
    requires
        lacks(before, '{'),
        lacks(after, '}'),
    ensures
        braced(before + seq!['{'] + inner + seq!['}'] + after) == Some(
            seq!['{'] + inner + seq!['}'],
        ),
        braced(before) is None,
        braced(after) is None,
        lacks(before, '}') ==> braced(before + seq!['{'] + after) is None,
        braced(after + before) is Some ==> !lacks(after, '{') && !lacks(before, '}'),
{
    let text = before + seq!['{'] + inner + seq!['}'] + after;
    let start = before.len() as int;
    let end = start + 1 + inner.len();
    assert forall|i: int| 0 <= i < start implies #[trigger] text[i] != '{' by {
        assert(before[i] != '{');
    }
    assert(text[start] == '{');
    lemma_first_index_is(text, '{', start);
    assert forall|i: int| end < i < text.len() implies #[trigger] text[i] != '}' by {
        assert(after[i - end - 1] != '}');
    }
    assert(text[end] == '}');
    lemma_last_index_is(text, '}', end);
    assert(text.subrange(start, end + 1) =~= seq!['{'] + inner + seq!['}']);
    lemma_first_index_is(before, '{', before.len() as int);
    lemma_last_index_is(after, '}', -1);
    lemma_first_index(after, '{');
    if lacks(before, '}') {
        let open = before + seq!['{'] + after;
        assert forall|i: int| -1 < i < open.len() implies #[trigger] open[i] != '}' by {
            if i < start {
                assert(before[i] != '}');
            } else if i > start {
                assert(after[i - start - 1] != '}');
            }
        }
        lemma_last_index_is(open, '}', -1);
        lemma_first_index(open, '{');
    }
    let both = after + before;
    if braced(both) is Some {
        lemma_first_index(both, '{');
        lemma_last_index(both, '}');
        let f = first_index(both, '{');
        let l = last_index(both, '}');
        assert(both[f] == '{');
        assert(both[l] == '}');
        if f < after.len() {
            assert(after[f] == '{');
        } else {
            assert(before[f - after.len()] == '{');
        }
        if l < after.len() {
            assert(after[l] == '}');
        } else {
            assert(before[l - after.len()] == '}');
        }
    }
}

/// The nickname is the whole text of the first of the entries `nickname`, `nick` and `name` that is
/// there, with as many characters and the same ones; where that entry is no text, or none is there,
/// a stand-in is shown.
pub proof fn law_nicknames_are_shown_in_full(data: Map<Seq<char>, Option<String>>, text: String)
    ensures
        ({
            let entry = if data.contains_key("nickname"@) {
                data["nickname"@]
            } else if data.contains_key("nick"@) {
                data["nick"@]
            } else if data.contains_key("name"@) {
                data["name"@]
            } else {
                None
            };
            let shown = shown_nickname(data);
            &&& entry == Some(text) ==> shown.len() == text@.len() && forall|i: int|
                0 <= i < text@.len() ==> #[trigger] shown[i] == text@[i]
            &&& entry == Some(text) ==> nickname_in(data) == Some(text@)
            &&& entry is None ==> shown == "QQ 用户"@ && nickname_in(data) is None
        }),
{
}

/// The avatar's address is the whole text of the first of the entries `avatar` and `face` that is
/// there.
pub proof fn law_avatar_addresses_are_taken_in_full(
    data: Map<Seq<char>, Option<String>>,
    text: String,
)
    ensures
        data.contains_key("avatar"@) && data["avatar"@] == Some(text) ==> avatar_in(data) == Some(
            text@,
        ),
        data.contains_key("avatar"@) && data["avatar"@] is None ==> avatar_in(data) is None,
        !data.contains_key("avatar"@) && data.contains_key("face"@) && data["face"@] == Some(text)
            ==> avatar_in(data) == Some(text@),
        !data.contains_key("avatar"@) && data.contains_key("face"@) && data["face"@] is None
            ==> avatar_in(data) is None,
        !data.contains_key("avatar"@) && !data.contains_key("face"@) ==> avatar_in(data) is None,
{
}

/// What stands behind the first semicolon of a content type does not matter, and neither does white
/// space around what stands before it, or the case of its letters.
pub proof fn law_avatar_types(
    before: Seq<char>,
    name: Seq<char>,
    after: Seq<char>,
    parameters: Seq<char>,
)
    requires
        blank(before),
        blank(after),
        lacks(name, ';'),
        name.len() > 0,
        !white_space(name[0]),
        !white_space(name.last()),
    ensures
        ({
            let low = lowered(name);
            let bare = avatar_type(before + name + after);
            let full = avatar_type(before + name + after + seq![';'] + parameters);
            &&& full == bare
            &&& low == "image/jpeg"@ || low == "image/png"@ || low == "image/webp"@ || low
                == "image/gif"@ ==> bare == Some(low)
            &&& low != "image/jpeg"@ && low != "image/png"@ && low != "image/webp"@ && low
                != "image/gif"@ ==> bare is None
        }),
{
    let value = before + name + after;
    let n = value.len() as int;
    assert forall|i: int| 0 <= i < n implies #[trigger] value[i] != ';' by {
        if i < before.len() {
            assert(white_space(before[i]));
        } else if i < before.len() + name.len() {
            assert(name[i - before.len()] != ';');
        } else {
            assert(white_space(after[i - before.len() - name.len()]));
        }
    }
    lemma_first_index_is(value, ';', n);
    assert(value.take(n) =~= value);
    let full = value + seq![';'] + parameters;
    assert forall|i: int| 0 <= i < n implies #[trigger] full[i] != ';' by {
        assert(full[i] == value[i]);
    }
    assert(full[n] == ';');
    lemma_first_index_is(full, ';', n);
    assert(full.take(n) =~= value);
    law_trimming_finds_the_inner_text(before, name, after);
    assert(media_type(value) == name);
    assert(media_type(full) == name);
}

/// An avatar is taken where the request succeeded, no more than two megabytes are announced, and
/// its type is one that an avatar may have.
pub proof fn law_which_avatars_are_taken(
    succeeded: bool,
    length: Option<u64>,
    content_type: Option<Seq<char>>,
)
    ensures
        !succeeded ==> accepted_avatar(succeeded, length, content_type) is None,
        length matches Some(n) ==> n > 2 * 1024 * 1024 ==> accepted_avatar(
            succeeded,
            length,
            content_type,
        ) is None,
        content_type is None ==> accepted_avatar(succeeded, length, content_type) is None,
        content_type matches Some(value) ==> succeeded && (length is None || length->0 <= 2 * 1024
            * 1024) ==> accepted_avatar(succeeded, length, content_type) == avatar_type(value),
{
}

} // verus!
