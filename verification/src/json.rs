//! The JSON that a run reads and writes: objects whose members are strings.
//! Reading a document and quoting a string are `serde_json`'s work; finding a
//! member in what was read is done here.
use vstd::prelude::*;

verus! {

/// One member of a JSON object: its name and, where its value is a string,
/// that string.
pub struct Member {
    pub name: String,
    pub text: Option<String>,
}

/// What a [`Member`] holds, as plain text.
pub struct MemberView {
    pub name: Seq<char>,
    pub text: Option<Seq<char>>,
}

impl View for Member {
    type V = MemberView;

    open spec fn view(&self) -> MemberView {
        MemberView {
            name: self.name@,
            text: match self.text {
                Some(t) => Some(t@),
                None => None,
            },
        }
    }
}

/// The members of a list, each as plain text.
pub open spec fn members_view(members: Seq<Member>) -> Seq<MemberView> {
    members.map_values(|m: Member| m@)
}

/// The members of the JSON object that `serde_json::from_str` reads from
/// `text`, in the order in which the object's map hands them out; `None` where
/// the text is not one JSON document or the document is not an object.
pub uninterp spec fn json_object_members(text: Seq<char>) -> Option<Seq<MemberView>>;

/// Reads `text` with `serde_json::from_str` as a `serde_json::Value`, takes
/// the value's map with `as_object`, and copies each entry out of the map:
/// the key, and what `as_str` gives for the value.
///
/// Trusted: the result is a function of the text alone, and `None` exactly
/// where the parse fails or the document is not an object. Nothing is claimed
/// of which texts parse or of what they hold.
#[verifier::external_body]
pub(crate) fn object_members(text: &str) -> (members: Option<Vec<Member>>)
    ensures
        members matches Some(list) ==> json_object_members(text@) == Some(members_view(list@)),
        members is None ==> json_object_members(text@) is None,
{
    let document: serde_json::Value = serde_json::from_str(text).ok()?;
    let object = document.as_object()?;
    Some(
        object.iter().map(
            |(name, value)| Member { name: name.clone(), text: value.as_str().map(String::from) },
        ).collect(),
    )
}

/// The string under `name`: the text of the first member of that name, where
/// that member's value is a string.
pub open spec fn text_of(members: Seq<MemberView>, name: Seq<char>) -> Option<Seq<char>>
    decreases members.len(),
{
    if members.len() == 0 {
        None
    } else if members[0].name == name {
        members[0].text
    } else {
        text_of(members.drop_first(), name)
    }
}

/// The string that the object holds under `name`; `None` where it has no such
/// member or the member is not a string.
pub fn find_text(members: &Vec<Member>, name: &str) -> (found: Option<String>)
    ensures
        found matches Some(t) ==> text_of(members_view(members@), name@) == Some(t@),
        found is None ==> text_of(members_view(members@), name@) is None,
{
    let key = name.to_owned();
    let ghost all = members_view(members@);
    let mut i: usize = 0;
    assert(all.skip(0) == all);
    while i < members.len()
        invariant
            i <= members.len(),
            all == members_view(members@),
            key@ == name@,
            text_of(all, name@) == text_of(all.skip(i as int), name@),
        decreases members.len() - i,
    {
        assert(all.skip(i as int)[0] == members@[i as int]@);
        assert(all.skip(i as int).drop_first() == all.skip(i + 1));
        if members[i].name == key {
            return match &members[i].text {
                Some(t) => Some(t.clone()),
                None => None,
            };
        }
        i = i + 1;
    }
    None
}

/// What stands for `c` inside a JSON string: an escape for the quote, the
/// backslash and the control characters, the character itself otherwise.
pub open spec fn json_escape_char(c: char) -> Seq<char> {
    if c == '"' {
        seq!['\\', '"']
    } else if c == '\\' {
        seq!['\\', '\\']
    } else if c == '\u{8}' {
        seq!['\\', 'b']
    } else if c == '\t' {
        seq!['\\', 't']
    } else if c == '\n' {
        seq!['\\', 'n']
    } else if c == '\u{c}' {
        seq!['\\', 'f']
    } else if c == '\r' {
        seq!['\\', 'r']
    } else if (c as u32) < 0x20 {
        seq![
            '\\',
            'u',
            '0',
            '0',
            "0123456789abcdef"@[(c as u32) as int / 16],
            "0123456789abcdef"@[(c as u32) as int % 16],
        ]
    } else {
        seq![c]
    }
}

/// The characters of `text`, each as it stands inside a JSON string.
pub open spec fn json_escape(text: Seq<char>) -> Seq<char>
    decreases text.len(),
{
    if text.len() == 0 {
        Seq::<char>::empty()
    } else {
        json_escape(text.drop_last()) + json_escape_char(text.last())
    }
}

/// `text` as a JSON string: escaped, between two quotes.
pub open spec fn json_quoted(text: Seq<char>) -> Seq<char> {
    seq!['"'] + json_escape(text) + seq!['"']
}

/// Serializes `text` with `serde_json::to_string`.
///
/// Trusted: for a string slice the serializer writes a quote, the text with
/// `"` and `\` behind a backslash, the control characters below U+0020 as
/// `\b`, `\t`, `\n`, `\f`, `\r` or `\u00` and two lower-case hex digits, every
/// other character as it is, and a closing quote. It writes into memory, so
/// it has no way to fail and the error's arm is never taken.
#[verifier::external_body]
pub(crate) fn quote(text: &str) -> (quoted: String)
    ensures
        quoted@ == json_quoted(text@),
{
    serde_json::to_string(text).unwrap_or_default()
}

} // verus!
