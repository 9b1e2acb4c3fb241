//! Form-encoded request bodies. The encoding of one name or value is the
//! `url` crate's work; the body is put together here.
use vstd::prelude::*;
use vstd::utf8::encode_utf8;

verus! {

/// One name and value of a form.
pub struct Field {
    pub name: String,
    pub value: String,
}

/// What a [`Field`] holds, as plain text.
pub struct FieldView {
    pub name: Seq<char>,
    pub value: Seq<char>,
}

impl View for Field {
    type V = FieldView;

    open spec fn view(&self) -> FieldView {
        FieldView { name: self.name@, value: self.value@ }
    }
}

/// The fields of a list, each as plain text.
pub open spec fn fields_view(fields: Seq<Field>) -> Seq<FieldView> {
    fields.map_values(|f: Field| f@)
}

/// The bytes that a form's encoding leaves as they are: the ASCII letters and
/// digits, `*`, `-`, `.` and `_`.
pub open spec fn form_unchanged(byte: u8) -> bool {
    ||| byte == 0x2a
    ||| byte == 0x2d
    ||| byte == 0x2e
    ||| 0x30 <= byte <= 0x39
    ||| 0x41 <= byte <= 0x5a
    ||| byte == 0x5f
    ||| 0x61 <= byte <= 0x7a
}

/// What stands for one byte in a form's encoding: the byte itself where it is
/// left unchanged, `+` for a space, and otherwise `%` and the byte's two
/// upper-case hex digits.
pub open spec fn form_escape_byte(byte: u8) -> Seq<char> {
    if form_unchanged(byte) {
        seq![byte as char]
    } else if byte == 0x20 {
        seq!['+']
    } else {
        seq!['%', "0123456789ABCDEF"@[byte as int / 16], "0123456789ABCDEF"@[byte as int % 16]]
    }
}

/// The encoding of a byte string in a form.
pub open spec fn form_escape(bytes: Seq<u8>) -> Seq<char>
    decreases bytes.len(),
{
    if bytes.len() == 0 {
        Seq::<char>::empty()
    } else {
        form_escape(bytes.drop_last()) + form_escape_byte(bytes.last())
    }
}

/// The encoding of a name or a value: that of its UTF-8 bytes.
pub open spec fn form_component(text: Seq<char>) -> Seq<char> {
    form_escape(encode_utf8(text))
}

/// The encoding of one field: name, `=`, value.
pub open spec fn form_pair(field: FieldView) -> Seq<char> {
    form_component(field.name) + "="@ + form_component(field.value)
}

/// The body that carries a list of fields: the fields' encodings in order,
/// with `&` between them.
pub open spec fn form_body(fields: Seq<FieldView>) -> Seq<char>
    decreases fields.len(),
{
    if fields.len() == 0 {
        Seq::<char>::empty()
    } else if fields.len() == 1 {
        form_pair(fields[0])
    } else {
        form_body(fields.drop_last()) + "&"@ + form_pair(fields.last())
    }
}

/// Collects what `url::form_urlencoded::byte_serialize` yields for `bytes`.
///
/// Trusted: the serializer walks the bytes in order and yields, for each, the
/// byte itself where it is an ASCII letter or digit or one of `*-._`, `+` for
/// a space, and for any other byte `%` with its two upper-case hex digits.
#[verifier::external_body]
pub(crate) fn escape(bytes: &[u8]) -> (escaped: String)
    ensures
        escaped@ == form_escape(bytes@),
{
    url::form_urlencoded::byte_serialize(bytes).collect()
}

/// The form-encoded body for `fields`.
pub fn encode_form(fields: &Vec<Field>) -> (body: String)
    ensures
        body@ == form_body(fields_view(fields@)),
{
    let ghost all = fields_view(fields@);
    let mut body = String::new();
    let mut i: usize = 0;
    assert(all.take(0) == Seq::<FieldView>::empty());
    while i < fields.len()
        invariant
            i <= fields.len(),
            all == fields_view(fields@),
            body@ == form_body(all.take(i as int)),
        decreases fields.len() - i,
    {
        let ghost before = all.take(i as int);
        let ghost now = all.take(i + 1);
        assert(now.drop_last() == before);
        assert(now.last() == fields@[i as int]@);
        if i > 0 {
            body.append("&");
        }
        body.append(escape(fields[i].name.as_str().as_bytes()).as_str());
        body.append("=");
        body.append(escape(fields[i].value.as_str().as_bytes()).as_str());
        assert(body@ == form_body(now)) by {
            let pair = form_pair(now.last());
            assert(Seq::<char>::empty() + form_component(now.last().name) == form_component(
                now.last().name,
            ));
            if i == 0 {
                assert(form_body(before) == Seq::<char>::empty());
                assert(body@ == pair);
            } else {
                assert(body@ == form_body(before) + "&"@ + pair);
            }
        }
        i = i + 1;
    }
    assert(all.take(fields.len() as int) == all);
    body
}

} // verus!
