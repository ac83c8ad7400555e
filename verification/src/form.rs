//! `application/x-www-form-urlencoded` fields: what a serialized field looks
//! like, and the call that appends one.

use vstd::prelude::*;
use vstd::utf8::{encode_utf8, is_ascii_chars, is_ascii_chars_encode_utf8};

verus! {

/// Bytes that the form serializer copies as they are: `*`, `-`, `.`, `_`,
/// the ASCII digits and the ASCII letters.
pub open spec fn is_form_safe(byte: u8) -> bool {
    ||| byte == 0x2a
    ||| byte == 0x2d
    ||| byte == 0x2e
    ||| byte == 0x5f
    ||| 0x30 <= byte <= 0x39
    ||| 0x41 <= byte <= 0x5a
    ||| 0x61 <= byte <= 0x7a
}

/// The upper-case hexadecimal digit for a value below sixteen.
pub open spec fn upper_hex_digit(nibble: u8) -> char
    recommends
        nibble < 16,
{
    if nibble < 10 {
        (0x30 + nibble) as u8 as char
    } else {
        (0x37 + nibble) as u8 as char
    }
}

/// One byte in form encoding: itself if safe, `+` for a space, `%XX` otherwise.
pub open spec fn form_encode_byte(byte: u8) -> Seq<char> {
    if is_form_safe(byte) {
        seq![byte as char]
    } else if byte == 0x20 {
        seq!['+']
    } else {
        seq!['%', upper_hex_digit(byte / 16), upper_hex_digit(byte % 16)]
    }
}

/// A byte string in form encoding, byte by byte.
pub open spec fn form_encode_bytes(bytes: Seq<u8>) -> Seq<char>
    decreases bytes.len(),
{
    if bytes.len() == 0 {
        Seq::empty()
    } else {
        form_encode_bytes(bytes.drop_last()) + form_encode_byte(bytes.last())
    }
}

/// A text in form encoding: the encoding of its UTF-8 bytes.
pub open spec fn form_encode(text: Seq<char>) -> Seq<char> {
    form_encode_bytes(encode_utf8(text))
}

/// One serialized field: the encoded name, `=`, the encoded value.
pub open spec fn form_pair(name: Seq<char>, value: Seq<char>) -> Seq<char> {
    form_encode(name) + seq!['='] + form_encode(value)
}

/// `target` with one more field: an `&` goes between unless `target` is empty.
pub open spec fn form_append(target: Seq<char>, name: Seq<char>, value: Seq<char>) -> Seq<char> {
    if target.len() == 0 {
        form_pair(name, value)
    } else {
        target + seq!['&'] + form_pair(name, value)
    }
}

/// `target` with all of `fields` appended in order.
pub open spec fn form_extend(target: Seq<char>, fields: Seq<(Seq<char>, Seq<char>)>) -> Seq<char>
    decreases fields.len(),
{
    if fields.len() == 0 {
        target
    } else {
        let last = fields.last();
        form_append(form_extend(target, fields.drop_last()), last.0, last.1)
    }
}

/// Whether `text` holds `part` from position `at` on.
pub open spec fn holds_at(text: Seq<char>, at: int, part: Seq<char>) -> bool {
    &&& 0 <= at
    &&& at + part.len() <= text.len()
    &&& text.subrange(at, at + part.len()) == part
}

/// Whether `field` is one of the fields of a form body, from position `at`
/// on: it is bounded by the ends of the body or by `&`.
pub open spec fn is_field_at(body: Seq<char>, at: int, field: Seq<char>) -> bool {
    &&& holds_at(body, at, field)
    &&& at == 0 || body[at - 1] == '&'
    &&& at + field.len() == body.len() || body[at + field.len()] == '&'
}

/// Whether a form body has a field with this name and this value.
pub open spec fn has_field(body: Seq<char>, name: Seq<char>, value: Seq<char>) -> bool {
    exists|at: int| is_field_at(body, at, form_pair(name, value))
}

/// Whether a character is written as it is both in a URL and in a form: an
/// ASCII letter or digit, or one of `-`, `.`, `_`.
pub open spec fn is_plain(c: char) -> bool {
    ||| '0' <= c <= '9'
    ||| 'a' <= c <= 'z'
    ||| 'A' <= c <= 'Z'
    ||| c == '-'
    ||| c == '.'
    ||| c == '_'
}

/// Whether a text holds plain characters only.
pub open spec fn is_plain_text(text: Seq<char>) -> bool {
    forall|i: int| 0 <= i < text.len() ==> is_plain(#[trigger] text[i])
}

proof fn lemma_safe_bytes_encode_as_themselves(bytes: Seq<u8>)
    requires
        forall|i: int| 0 <= i < bytes.len() ==> is_form_safe(#[trigger] bytes[i]),
    ensures
        form_encode_bytes(bytes) == Seq::new(bytes.len(), |i: int| bytes[i] as char),
    decreases bytes.len(),
{
    if bytes.len() > 0 {
        lemma_safe_bytes_encode_as_themselves(bytes.drop_last());
        assert(is_form_safe(bytes.last()));
        assert(form_encode_bytes(bytes) =~= Seq::new(bytes.len(), |i: int| bytes[i] as char));
    } else {
        assert(form_encode_bytes(bytes) =~= Seq::new(bytes.len(), |i: int| bytes[i] as char));
    }
}

/// Form encoding leaves a plain text as it is.
pub proof fn lemma_plain_text_stays(text: Seq<char>)
    requires
        is_plain_text(text),
    ensures
        form_encode(text) == text,
{
    assert(is_ascii_chars(text)) by {
        assert forall|i: int| 0 <= i < text.len() implies '\0' <= #[trigger] text[i] <= '\u{7f}' by {
            assert(is_plain(text[i]));
        }
    }
    is_ascii_chars_encode_utf8(text);
    let bytes = encode_utf8(text);
    assert forall|i: int| 0 <= i < bytes.len() implies is_form_safe(#[trigger] bytes[i]) by {
        assert(is_plain(text[i]));
        assert(bytes[i] == text[i] as u8);
    }
    lemma_safe_bytes_encode_as_themselves(bytes);
    assert forall|i: int| 0 <= i < text.len() implies bytes[i] as char == text[i] by {
        assert(is_plain(text[i]));
        assert(bytes[i] == text[i] as u8);
    }
    assert(form_encode(text) =~= text);
}

/// A field with a plain name and a plain value reads `name=value`.
pub proof fn lemma_plain_pair(name: Seq<char>, value: Seq<char>)
    requires
        is_plain_text(name),
        is_plain_text(value),
    ensures
        form_pair(name, value) == name + seq!['='] + value,
{
    lemma_plain_text_stays(name);
    lemma_plain_text_stays(value);
}

/// Whether one of `fields` goes by `name`.
pub open spec fn has_name(fields: Seq<(Seq<char>, Seq<char>)>, name: Seq<char>) -> bool {
    exists|k: int| 0 <= k < fields.len() && (#[trigger] fields[k]).0 == name
}

/// The field that was appended last is a field of the result.
pub proof fn lemma_append_adds_field(target: Seq<char>, name: Seq<char>, value: Seq<char>)
    ensures
        has_field(form_append(target, name, value), name, value),
{
    let field = form_pair(name, value);
    let body = form_append(target, name, value);
    let at: int = if target.len() == 0 {
        0
    } else {
        (target.len() + 1) as int
    };
    assert(body.subrange(at, at + field.len()) =~= field);
    assert(is_field_at(body, at, field));
}

/// Appending a field keeps the fields that were there.
pub proof fn lemma_append_keeps_field(
    target: Seq<char>,
    kept_name: Seq<char>,
    kept_value: Seq<char>,
    name: Seq<char>,
    value: Seq<char>,
)
    requires
        has_field(target, kept_name, kept_value),
    ensures
        has_field(form_append(target, name, value), kept_name, kept_value),
{
    let field = form_pair(kept_name, kept_value);
    let at = choose|at: int| is_field_at(target, at, field);
    let body = form_append(target, name, value);
    assert(target.len() > 0);
    assert(body.subrange(at, at + field.len()) =~= target.subrange(at, at + field.len()));
    assert(is_field_at(body, at, field));
}

/// Every field that a body was extended by is a field of the result.
pub proof fn lemma_extend_has_field(
    target: Seq<char>,
    fields: Seq<(Seq<char>, Seq<char>)>,
    k: int,
)
    requires
        0 <= k < fields.len(),
    ensures
        has_field(form_extend(target, fields), fields[k].0, fields[k].1),
    decreases fields.len(),
{
    let last = fields.last();
    let before = form_extend(target, fields.drop_last());
    if k == fields.len() - 1 {
        lemma_append_adds_field(before, last.0, last.1);
    } else {
        lemma_extend_has_field(target, fields.drop_last(), k);
        lemma_append_keeps_field(before, fields[k].0, fields[k].1, last.0, last.1);
    }
}

/// The names and values of a list of fields, as texts.
pub open spec fn field_texts(fields: Seq<(String, String)>) -> Seq<(Seq<char>, Seq<char>)> {
    Seq::new(fields.len(), |i: int| (fields[i].0@, fields[i].1@))
}

/// Extending by the first `n + 1` fields is extending by the first `n` and
/// appending the next.
pub proof fn lemma_form_extend_step(
    target: Seq<char>,
    fields: Seq<(Seq<char>, Seq<char>)>,
    n: int,
)
    requires
        0 <= n < fields.len(),
    ensures
        form_extend(target, fields.take(n + 1)) == form_append(
            form_extend(target, fields.take(n)),
            fields[n].0,
            fields[n].1,
        ),
{
    assert(fields.take(n + 1).drop_last() =~= fields.take(n));
}

/// Serializes fields as a form body: the fields in order, `&` between them.
pub fn serialize_fields(fields: &Vec<(String, String)>) -> (body: String)
    ensures
        body@ == form_extend(Seq::empty(), field_texts(fields@)),
{
    let mut body = String::new();
    let mut i: usize = 0;
    while i < fields.len()
        invariant
            i <= fields@.len(),
            body@ == form_extend(Seq::empty(), field_texts(fields@).take(i as int)),
        decreases fields@.len() - i,
    {
        proof {
            lemma_form_extend_step(Seq::empty(), field_texts(fields@), i as int);
        }
        append_form_pair(&mut body, fields[i].0.as_str(), fields[i].1.as_str());
        i += 1;
    }
    assert(field_texts(fields@).take(i as int) =~= field_texts(fields@));
    body
}

/// Appends one field to a form body.
///
/// Trusted: calls `url::form_urlencoded::Serializer::new` on the target and
/// `append_pair` on the result. The contract restates the serializer: a
/// separator `&` when the target already holds something, then the name and
/// the value, each as UTF-8 run through the byte serializer, with `=` between.
#[verifier::external_body]
pub(crate) fn append_form_pair(target: &mut String, name: &str, value: &str)
    ensures
        final(target)@ == form_append(old(target)@, name@, value@),
{
    url::form_urlencoded::Serializer::new(target).append_pair(name, value);
}

} // verus!
