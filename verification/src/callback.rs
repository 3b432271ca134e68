//! The script call with which the login service answers a poll:
//! `ptuiCB('66','0','','0','message','')`, six quoted fields.

use vstd::prelude::*;
use vstd::string::*;

use crate::text::{
    chars_of, first_index, lemma_first_index, lemma_first_index_is, trim, trimmed, white_space,
};

verus! {

/// No quotation mark stands in `s`.
pub open spec fn unquoted(s: Seq<char>) -> bool {
    forall|i: int| 0 <= i < s.len() ==> #[trigger] s[i] != '\''
}

/// The fields from the first one on, up to the closing bracket, each but the first with its
/// opening quotation mark.
pub open spec fn fields_text(fields: Seq<Seq<char>>) -> Seq<char>
    decreases fields.len(),
{
    if fields.len() <= 1 {
        fields[0] + seq!['\'', ')']
    } else {
        fields[0] + seq!['\'', ',', '\''] + fields_text(fields.drop_first())
    }
}

/// The call with the given fields.
pub open spec fn callback_text(fields: Seq<Seq<char>>) -> Seq<char> {
    "ptuiCB('"@ + fields_text(fields)
}

/// `text` is the call with these six fields, perhaps with a semicolon behind it.
pub open spec fn is_callback(text: Seq<char>, fields: Seq<Seq<char>>) -> bool {
    &&& fields.len() == 6
    &&& forall|i: int| 0 <= i < 6 ==> unquoted(#[trigger] fields[i])
    &&& text == callback_text(fields) || text == callback_text(fields).push(';')
}

/// The `n` fields that `s` begins with, read from the left up to the end of the call.
spec fn scan(s: Seq<char>, n: nat) -> Option<Seq<Seq<char>>>
    decreases n,
{
    let q = first_index(s, '\'');
    let rest = s.skip(q);
    if n == 0 || !(0 <= q < s.len()) {
        None
    } else if n == 1 {
        if rest == seq!['\'', ')'] || rest == seq!['\'', ')', ';'] {
            Some(seq![s.take(q)])
        } else {
            None
        }
    } else if rest.len() >= 3 && rest[1] == ',' && rest[2] == '\'' {
        match scan(rest.skip(3), (n - 1) as nat) {
            Some(fields) => Some(seq![s.take(q)] + fields),
            None => None,
        }
    } else {
        None
    }
}

/// What is scanned is there.
proof fn lemma_scan_sound(s: Seq<char>, n: nat)
    ensures
        scan(s, n) matches Some(fields) ==> {
            &&& fields.len() == n
            &&& n > 0
            &&& forall|i: int| 0 <= i < n ==> unquoted(#[trigger] fields[i])
            &&& s == fields_text(fields) || s == fields_text(fields).push(';')
        },
    decreases n,
{
    if scan(s, n) is Some {
        lemma_first_index(s, '\'');
        let q = first_index(s, '\'');
        let rest = s.skip(q);
        let fields = scan(s, n)->0;
        let head = s.take(q);
        assert(unquoted(head)) by {
            assert forall|i: int| 0 <= i < head.len() implies #[trigger] head[i] != '\'' by {
                assert(s[i] != '\'');
            }
        }
        assert(s =~= head + rest);
        if n == 1 {
            assert(fields[0] == head);
            if rest == seq!['\'', ')'] {
                assert(s =~= fields_text(fields));
            } else {
                assert(s =~= fields_text(fields).push(';'));
            }
        } else {
            lemma_scan_sound(rest.skip(3), (n - 1) as nat);
            let tail = scan(rest.skip(3), (n - 1) as nat)->0;
            assert(fields =~= seq![head] + tail);
            assert(fields.drop_first() =~= tail);
            assert forall|i: int| 0 <= i < n implies unquoted(#[trigger] fields[i]) by {
                if i > 0 {
                    assert(fields[i] == tail[i - 1]);
                }
            }
            assert(rest[0] == '\'');
            assert(rest =~= seq!['\'', ',', '\''] + rest.skip(3));
            if rest.skip(3) == fields_text(tail) {
                assert(s =~= fields_text(fields));
            } else {
                assert(s =~= fields_text(fields).push(';'));
            }
        }
    }
}

/// What is there is scanned.
proof fn lemma_scan_complete(fields: Seq<Seq<char>>, s: Seq<char>)
    requires
        fields.len() > 0,
        forall|i: int| 0 <= i < fields.len() ==> unquoted(#[trigger] fields[i]),
        s == fields_text(fields) || s == fields_text(fields).push(';'),
    ensures
        scan(s, fields.len()) == Some(fields),
    decreases fields.len(),
{
    let head = fields[0];
    assert(unquoted(head));
    let q = head.len() as int;
    assert(s.take(q) =~= head);
    assert forall|i: int| 0 <= i < q implies #[trigger] s[i] != '\'' by {
        assert(head[i] != '\'');
    }
    assert(s[q] == '\'');
    lemma_first_index_is(s, '\'', q);
    let rest = s.skip(q);
    if fields.len() == 1 {
        if s == fields_text(fields) {
            assert(rest =~= seq!['\'', ')']);
        } else {
            assert(rest =~= seq!['\'', ')', ';']);
        }
        assert(fields =~= seq![head]);
    } else {
        let tail = fields.drop_first();
        assert forall|i: int| 0 <= i < tail.len() implies unquoted(#[trigger] tail[i]) by {
            assert(tail[i] == fields[i + 1]);
        }
        if s == fields_text(fields) {
            assert(rest.skip(3) =~= fields_text(tail));
        } else {
            assert(rest.skip(3) =~= fields_text(tail).push(';'));
        }
        lemma_scan_complete(tail, rest.skip(3));
        assert(fields =~= seq![head] + tail);
        assert(rest.len() >= 3) by {
            lemma_fields_text_end(tail);
        }
    }
}

/// A text is the call with at most one list of fields.
pub proof fn law_callback_fields_are_unique(
    text: Seq<char>,
    fields: Seq<Seq<char>>,
    others: Seq<Seq<char>>,
)
    requires
        is_callback(text, fields),
        is_callback(text, others),
    ensures
        fields == others,
{
    let open = "ptuiCB('"@;
    let body = text.skip(open.len() as int);
    lemma_body(text, fields);
    lemma_body(text, others);
    lemma_scan_complete(fields, body);
    lemma_scan_complete(others, body);
}

proof fn lemma_body(text: Seq<char>, fields: Seq<Seq<char>>)
    requires
        is_callback(text, fields),
    ensures
        text.len() >= "ptuiCB('"@.len(),
        text.take("ptuiCB('"@.len() as int) == "ptuiCB('"@,
        text.skip("ptuiCB('"@.len() as int) == fields_text(fields) || text.skip(
            "ptuiCB('"@.len() as int,
        ) == fields_text(fields).push(';'),
{
    let open = "ptuiCB('"@;
    assert(text.take(open.len() as int) =~= open);
    if text == callback_text(fields) {
        assert(text.skip(open.len() as int) =~= fields_text(fields));
    } else {
        assert(text.skip(open.len() as int) =~= fields_text(fields).push(';'));
    }
}

/// A text that neither begins nor ends with white space is not changed by trimming it.
proof fn lemma_trim_keeps(s: Seq<char>)
    requires
        s.len() > 0,
        !white_space(s[0]),
        !white_space(s.last()),
    ensures
        trimmed(s) == s,
{
}

proof fn lemma_fields_text_end(fields: Seq<Seq<char>>)
    ensures
        fields_text(fields).len() >= 2,
        fields_text(fields).last() == ')',
    decreases fields.len(),
{
    if fields.len() > 1 {
        lemma_fields_text_end(fields.drop_first());
    }
}

/// Every call with six fields is read, with and without a semicolon behind it, and its fields are
/// the ones that it was written with.
pub proof fn law_callbacks_are_read_back(fields: Seq<Seq<char>>)
    requires
        fields.len() == 6,
        forall|i: int| 0 <= i < 6 ==> unquoted(#[trigger] fields[i]),
    ensures
        is_callback(trimmed(callback_text(fields)), fields),
        is_callback(trimmed(callback_text(fields).push(';')), fields),
{
    reveal_strlit("ptuiCB('");
    lemma_fields_text_end(fields);
    let text = callback_text(fields);
    assert(text[0] == 'p');
    assert(text.last() == fields_text(fields).last());
    lemma_trim_keeps(text);
    lemma_trim_keeps(text.push(';'));
}

/// The six fields of the call `text`, or nothing where it is no such call.
fn callback_fields(text: &str) -> (found: Option<Vec<String>>)
    ensures
        match found {
            Some(fields) => is_callback(text@, Seq::new(fields@.len(), |i: int| fields@[i]@)),
            None => forall|fields: Seq<Seq<char>>| !is_callback(text@, fields),
        },
{
    let chars = chars_of(text);
    let open = chars_of("ptuiCB('");
    let ghost body = text@.skip(open@.len() as int);
    proof {
        reveal_strlit("ptuiCB('");
        assert forall|fields: Seq<Seq<char>>| is_callback(text@, fields) implies text@.len()
            >= open@.len() && text@.take(open@.len() as int) == open@ && scan(body, 6) == Some(
            fields,
        ) by {
            lemma_body(text@, fields);
            lemma_scan_complete(fields, body);
        }
    }
    if chars.len() < open.len() {
        return None;
    }
    let mut pos: usize = 0;
    while pos < open.len()
        invariant
            pos <= open.len() <= chars.len(),
            forall|i: int| 0 <= i < pos ==> #[trigger] chars@[i] == open@[i],
            chars@ == text@,
            body == text@.skip(open@.len() as int),
            forall|fields: Seq<Seq<char>>| #[trigger] is_callback(text@, fields) ==> text@.take(
                open@.len() as int,
            ) == open@,
        decreases open.len() - pos,
    {
        if chars[pos] != open[pos] {
            proof {
                assert forall|fields: Seq<Seq<char>>| !is_callback(text@, fields) by {
                    if is_callback(text@, fields) {
                        assert(text@.take(open@.len() as int)[pos as int] == open@[pos as int]);
                    }
                }
            }
            return None;
        }
        pos += 1;
    }
    assert(text@ =~= open@ + body);
    let mut found: Vec<String> = Vec::new();
    let mut k: usize = 0;
    let ghost mut texts: Seq<Seq<char>> = Seq::empty();
    proof {
        match scan(body, 6) {
            Some(fields) => {
                assert(texts + fields =~= fields);
            },
            None => {},
        }
    }
    while k < 6
        invariant
            k <= 6,
            k < 6 ==> pos <= chars.len(),
            chars@ == text@,
            body == text@.skip(open@.len() as int),
            found@.len() == k,
            texts =~= Seq::new(found@.len(), |i: int| found@[i]@),
            k < 6 ==> scan(body, 6) == (match scan(text@.skip(pos as int), (6 - k) as nat) {
                Some(fields) => Some(texts + fields),
                None => None,
            }),
            k == 6 ==> scan(body, 6) == Some(texts),
            forall|fields: Seq<Seq<char>>| #[trigger]
                is_callback(text@, fields) ==> scan(body, 6) == Some(fields),
        decreases 6 - k,
    {
        let ghost s = text@.skip(pos as int);
        let ghost before = texts;
        let mut end: usize = pos;
        while end < chars.len() && chars[end] != '\''
            invariant
                pos <= end <= chars.len(),
                chars@ == text@,
                s == text@.skip(pos as int),
                forall|i: int| 0 <= i < end - pos ==> #[trigger] s[i] != '\'',
            decreases chars.len() - end,
        {
            assert(s[end - pos] == chars@[end as int]);
            end += 1;
        }
        proof {
            lemma_first_index_is(s, '\'', end - pos);
            assert(s.skip(end - pos) =~= text@.skip(end as int));
        }
        if end >= chars.len() {
            return None;
        }
        let ghost rest = text@.skip(end as int);
        let field = text.substring_char(pos, end).to_owned();
        assert(field@ =~= s.take(end - pos));
        found.push(field);
        proof {
            texts = texts.push(field@);
            assert(texts =~= Seq::new(found@.len(), |i: int| found@[i]@));
        }
        let left: usize = chars.len() - end;
        if k == 5 {
            if !(left == 2 && chars[end + 1] == ')') && !(left == 3 && chars[end + 1] == ')'
                && chars[end + 2] == ';') {
                proof {
                    assert(left > 1 ==> rest[1] == chars@[end + 1]);
                    assert(left > 2 ==> rest[2] == chars@[end + 2]);
                    assert(scan(s, 1) is None);
                }
                return None;
            }
            proof {
                if left == 2 {
                    assert(rest =~= seq!['\'', ')']);
                } else {
                    assert(rest =~= seq!['\'', ')', ';']);
                }
                assert(before + seq![s.take(end - pos)] =~= texts);
            }
        } else {
            if !(left >= 3 && chars[end + 1] == ',' && chars[end + 2] == '\'') {
                proof {
                    assert(left > 1 ==> rest[1] == chars@[end + 1]);
                    assert(left > 2 ==> rest[2] == chars@[end + 2]);
                    assert(scan(s, (6 - k) as nat) is None);
                }
                return None;
            }
            proof {
                assert(rest.skip(3) =~= text@.skip(end + 3));
                assert(rest[1] == chars@[end + 1]);
                assert(rest[2] == chars@[end + 2]);
                match scan(rest.skip(3), (6 - k - 1) as nat) {
                    Some(fields) => {
                        assert(before + (seq![s.take(end - pos)] + fields) =~= texts + fields);
                    },
                    None => {},
                }
            }
            pos = end + 3;
        }
        k += 1;
    }
    proof {
        lemma_scan_sound(body, 6);
        assert(text@ == callback_text(texts) || text@ =~= callback_text(texts).push(';'));
    }
    Some(found)
}

/// The state code and the address in the poll answer `text`: the first and the third field.
pub fn parse_poll_callback(text: &str) -> (parsed: Result<(String, String), String>)
    ensures
        match parsed {
            Ok(found) => exists|fields: Seq<Seq<char>>| #[trigger]
                is_callback(trimmed(text@), fields) && found.0@ == fields[0] && found.1@
                    == fields[2],
            Err(message) => (forall|fields: Seq<Seq<char>>|
                !is_callback(trimmed(text@), fields)) && message@ == "QQ 登录返回了无法识别的状态"@,
        },
{
    match callback_fields(trim(text)) {
        Some(fields) => {
            assert(Seq::new(fields@.len(), |i: int| fields@[i]@)[0] == fields@[0]@);
            assert(Seq::new(fields@.len(), |i: int| fields@[i]@)[2] == fields@[2]@);
            Ok((fields[0].clone(), fields[2].clone()))
        },
        None => Err("QQ 登录返回了无法识别的状态".to_owned()),
    }
}

} // verus!
