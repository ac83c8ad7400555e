//! URIs: the parts of a parsed URL, the calls that parse one and add query
//! parameters to it, and the absolute URI that a redirect points at.

use vstd::prelude::*;

use crate::error::{fails_about, Error, ErrorKind};
use crate::form::{
    field_texts,
    form_append,
    form_extend,
    form_pair,
    has_field,
    holds_at,
    is_field_at,
    lemma_extend_has_field,
};
use crate::text::byte_len;

verus! {

/// A parsed URL, cut at its query and its fragment.
pub struct UrlParts {
    /// Everything before the `?` of the query (or before the `#`, or all of it).
    pub stem: Seq<char>,
    /// The query without its `?`, if the URL has one.
    pub query: Option<Seq<char>>,
    /// The fragment without its `#`, if the URL has one.
    pub fragment: Option<Seq<char>>,
}

impl UrlParts {
    /// The URL written out.
    pub open spec fn text(self) -> Seq<char> {
        self.stem + (match self.query {
            Some(query) => seq!['?'] + query,
            None => Seq::empty(),
        }) + (match self.fragment {
            Some(fragment) => seq!['#'] + fragment,
            None => Seq::empty(),
        })
    }

    /// The query, or the empty text where there is none.
    pub open spec fn query_text(self) -> Seq<char> {
        match self.query {
            Some(query) => query,
            None => Seq::empty(),
        }
    }

    /// The same URL with one more query parameter.
    pub open spec fn with_pair(self, name: Seq<char>, value: Seq<char>) -> UrlParts {
        UrlParts {
            stem: self.stem,
            query: Some(form_append(self.query_text(), name, value)),
            fragment: self.fragment,
        }
    }

    /// The same URL with `fields` added to its query, in order.
    #[verifier::opaque]
    pub open spec fn with_pairs(self, fields: Seq<(Seq<char>, Seq<char>)>) -> UrlParts
        decreases fields.len(),
    {
        if fields.len() == 0 {
            self
        } else {
            let last = fields.last();
            self.with_pairs(fields.drop_last()).with_pair(last.0, last.1)
        }
    }
}

/// Whether one more parameter can be added to a URL of these parts: the URL
/// keeps its offsets in 32 bits, and each byte of a name or value may grow
/// to three.
pub open spec fn pair_fits(parts: UrlParts, name: Seq<char>, value: Seq<char>) -> bool {
    byte_len(parts.text()) + 3 * byte_len(name) + 3 * byte_len(value) + 2 <= u32::MAX
}

/// Whether all of `fields` can be added one after the other.
#[verifier::opaque]
pub open spec fn pairs_fit(parts: UrlParts, fields: Seq<(Seq<char>, Seq<char>)>) -> bool
    decreases fields.len(),
{
    if fields.len() == 0 {
        true
    } else {
        let last = fields.last();
        &&& pairs_fit(parts, fields.drop_last())
        &&& pair_fits(parts.with_pairs(fields.drop_last()), last.0, last.1)
    }
}

#[verifier::external_type_specification]
#[verifier::external_body]
pub struct ExUrl(url::Url);

#[verifier::external_type_specification]
#[verifier::external_body]
pub struct ExUrlParseError(url::ParseError);

/// What `url::Url::parse` makes of a text: the parts of the URL it returns,
/// or `None` where it returns an error.
pub uninterp spec fn url_parse(text: Seq<char>) -> Option<UrlParts>;

/// The parts of a `url::Url`: its serialization cut where `query` and
/// `fragment` cut it.
pub uninterp spec fn url_parts(url: url::Url) -> UrlParts;

/// What `rocket::http::uri::Absolute::parse` says of a text: whether it is an
/// absolute URI.
pub uninterp spec fn is_absolute_uri(text: Seq<char>) -> bool;

/// Parses an absolute URL.
///
/// Trusted: calls `url::Url::parse`. The contract only names the result: the
/// same text always parses to the same URL, or always fails.
#[verifier::external_body]
pub(crate) fn parse_url(text: &str) -> (parsed: Result<url::Url, url::ParseError>)
    ensures
        parsed is Ok <==> url_parse(text@) is Some,
        parsed matches Ok(url) ==> url_parse(text@) == Some(url_parts(url)),
{
    url::Url::parse(text)
}

/// The serialization of a URL.
///
/// Trusted: calls `url::Url::as_str`, which returns the stored serialization:
/// the stem, then `?` and the query if there is one, then `#` and the
/// fragment if there is one.
#[verifier::external_body]
pub(crate) fn url_text<'a>(url: &'a url::Url) -> (text: &'a str)
    ensures
        text@ == url_parts(*url).text(),
{
    url.as_str()
}

/// Adds one parameter to the query of a URL.
///
/// Trusted: calls `url::Url::query_pairs_mut` and `append_pair` on what it
/// returns. The URL gets a query if it had none; the pair goes to the end of
/// the query, after an `&` unless the query is empty; stem and fragment stay.
/// The precondition keeps the serialization within the 32-bit offsets that
/// the URL stores, beyond which the call panics.
#[verifier::external_body]
pub(crate) fn append_query_pair(url: &mut url::Url, name: &str, value: &str)
    requires
        pair_fits(url_parts(*old(url)), name@, value@),
    ensures
        url_parts(*final(url)) == url_parts(*old(url)).with_pair(name@, value@),
{
    url.query_pairs_mut().append_pair(name, value);
}

/// Going on by one field: the URL after `n + 1` fields is the URL after `n`
/// with the next added, and it fits if those before it did and it does.
pub proof fn lemma_with_pairs_step(parts: UrlParts, fields: Seq<(Seq<char>, Seq<char>)>, n: int)
    requires
        0 <= n < fields.len(),
    ensures
        parts.with_pairs(fields.take(n + 1)) == parts.with_pairs(fields.take(n)).with_pair(
            fields[n].0,
            fields[n].1,
        ),
        pairs_fit(parts, fields.take(n + 1)) == (pairs_fit(parts, fields.take(n)) && pair_fits(
            parts.with_pairs(fields.take(n)),
            fields[n].0,
            fields[n].1,
        )),
{
    reveal(UrlParts::with_pairs);
    reveal(pairs_fit);
    assert(fields.take(n + 1).drop_last() =~= fields.take(n));
    assert(fields.take(n + 1).last() == fields[n]);
}

/// Adding no field leaves the URL as it is, and always fits.
pub proof fn lemma_with_no_pairs(parts: UrlParts)
    ensures
        parts.with_pairs(Seq::empty()) == parts,
        pairs_fit(parts, Seq::empty()),
{
    reveal(UrlParts::with_pairs);
    reveal(pairs_fit);
}

/// If the first fields do not fit, neither do all of them.
pub proof fn lemma_pairs_fit_prefix(parts: UrlParts, fields: Seq<(Seq<char>, Seq<char>)>, n: int)
    requires
        0 <= n <= fields.len(),
        pairs_fit(parts, fields),
    ensures
        pairs_fit(parts, fields.take(n)),
    decreases fields.len(),
{
    reveal(pairs_fit);
    if n == fields.len() {
        assert(fields.take(n) =~= fields);
    } else {
        assert(fields.drop_last().take(n) =~= fields.take(n));
        lemma_pairs_fit_prefix(parts, fields.drop_last(), n);
    }
}

/// Whether `field` is one of the query parameters of a URL, from position
/// `at` on: it follows the `?` or an `&`, and the URL ends after it or goes
/// on with `&` or `#`.
pub open spec fn is_parameter_at(text: Seq<char>, at: int, field: Seq<char>) -> bool {
    &&& holds_at(text, at, field)
    &&& at > 0
    &&& text[at - 1] == '?' || text[at - 1] == '&'
    &&& at + field.len() == text.len() || text[at + field.len()] == '&' || text[at + field.len()]
        == '#'
}

/// Whether a URL has a query parameter with this name and this value.
pub open spec fn has_parameter(text: Seq<char>, name: Seq<char>, value: Seq<char>) -> bool {
    exists|at: int| is_parameter_at(text, at, form_pair(name, value))
}

/// The query of a URL that fields were added to is its old query, extended
/// by those fields; stem and fragment are as they were.
pub proof fn lemma_with_pairs_query(parts: UrlParts, fields: Seq<(Seq<char>, Seq<char>)>)
    requires
        fields.len() > 0,
    ensures
        parts.with_pairs(fields) == (UrlParts {
            stem: parts.stem,
            query: Some(form_extend(parts.query_text(), fields)),
            fragment: parts.fragment,
        }),
    decreases fields.len(),
{
    reveal(UrlParts::with_pairs);
    if fields.len() == 1 {
        assert(fields.drop_last() =~= Seq::empty());
        assert(form_extend(parts.query_text(), fields.drop_last()) == parts.query_text());
    } else {
        lemma_with_pairs_query(parts, fields.drop_last());
    }
}

/// A field of the query is a parameter of the URL.
pub proof fn lemma_query_field_is_parameter(parts: UrlParts, name: Seq<char>, value: Seq<char>)
    requires
        parts.query is Some,
        has_field(parts.query->0, name, value),
    ensures
        has_parameter(parts.text(), name, value),
{
    let query = parts.query->0;
    let field = form_pair(name, value);
    let at = choose|at: int| is_field_at(query, at, field);
    let text = parts.text();
    let start = parts.stem.len() + 1 + at;
    assert(text.subrange(start, start + field.len()) =~= query.subrange(at, at + field.len()));
    assert(is_parameter_at(text, start, field));
}

/// Every field that was added to a URL is one of its parameters.
pub proof fn lemma_added_field_is_parameter(
    parts: UrlParts,
    fields: Seq<(Seq<char>, Seq<char>)>,
    k: int,
)
    requires
        0 <= k < fields.len(),
    ensures
        has_parameter(parts.with_pairs(fields).text(), fields[k].0, fields[k].1),
{
    lemma_with_pairs_query(parts, fields);
    lemma_extend_has_field(parts.query_text(), fields, k);
    lemma_query_field_is_parameter(parts.with_pairs(fields), fields[k].0, fields[k].1);
}

/// Adds one parameter to the query of a URL, unless it does not fit.
fn add_query_pair(url: &mut url::Url, name: &str, value: &str) -> (added: bool)
    ensures
        added == pair_fits(url_parts(*old(url)), name@, value@),
        added ==> url_parts(*final(url)) == url_parts(*old(url)).with_pair(name@, value@),
        !added ==> url_parts(*final(url)) == url_parts(*old(url)),
{
    let held: u128 = url_text(url).as_bytes().len() as u128;
    let name_len: u128 = name.as_bytes().len() as u128;
    let value_len: u128 = value.as_bytes().len() as u128;
    if held + 3 * name_len + 3 * value_len + 2 <= 0xffff_ffff {
        append_query_pair(url, name, value);
        true
    } else {
        false
    }
}

/// Adds `fields` to the query of a URL, in order. Where one of them does not
/// fit, nothing is promised of the URL.
pub(crate) fn add_query_fields(url: &mut url::Url, fields: &Vec<(String, String)>) -> (added: bool)
    ensures
        added == pairs_fit(url_parts(*old(url)), field_texts(fields@)),
        added ==> url_parts(*final(url)) == url_parts(*old(url)).with_pairs(field_texts(fields@)),
{
    let ghost start = url_parts(*url);
    let ghost texts = field_texts(fields@);
    let mut i: usize = 0;
    proof {
        lemma_with_no_pairs(start);
        assert(texts.take(0) =~= Seq::empty());
    }
    while i < fields.len()
        invariant
            i <= fields@.len(),
            start == url_parts(*old(url)),
            texts == field_texts(fields@),
            pairs_fit(start, texts.take(i as int)),
            url_parts(*url) == start.with_pairs(texts.take(i as int)),
        decreases fields@.len() - i,
    {
        proof {
            lemma_with_pairs_step(start, texts, i as int);
            assert(texts[i as int] == (fields@[i as int].0@, fields@[i as int].1@));
        }
        if !add_query_pair(url, fields[i].0.as_str(), fields[i].1.as_str()) {
            proof {
                if pairs_fit(start, texts) {
                    lemma_pairs_fit_prefix(start, texts, i + 1);
                }
            }
            return false;
        }
        i += 1;
    }
    assert(texts.take(i as int) =~= texts);
    true
}

/// Whether a text is an absolute URI.
///
/// Trusted: calls `rocket::http::uri::Absolute::parse` and reports whether it
/// succeeded. The contract only names the answer.
#[verifier::external_body]
pub(crate) fn parses_as_absolute(text: &str) -> (ok: bool)
    ensures
        ok == is_absolute_uri(text@),
{
    rocket::http::uri::Absolute::parse(text).is_ok()
}

/// A URI that is known to be absolute.
#[derive(Debug, PartialEq, Eq)]
pub struct AbsoluteUri {
    text: String,
}

impl Clone for AbsoluteUri {
    fn clone(&self) -> (copy: Self)
        ensures
            copy@ == self@,
    {
        proof {
            use_type_invariant(self);
        }
        AbsoluteUri { text: self.text.clone() }
    }
}

impl View for AbsoluteUri {
    type V = Seq<char>;

    closed spec fn view(&self) -> Seq<char> {
        self.text@
    }
}

impl AbsoluteUri {
    #[verifier::type_invariant]
    spec fn absolute(self) -> bool {
        is_absolute_uri(self.text@)
    }

    /// Accepts `text` if it is an absolute URI; otherwise the error is
    /// `InvalidUri` and carries the text.
    pub fn parse(text: String) -> (parsed: Result<AbsoluteUri, Error>)
        ensures
            is_absolute_uri(text@) ==> (parsed matches Ok(uri) && uri@ == text@),
            !is_absolute_uri(text@) ==> fails_about(parsed, ErrorKind::InvalidUri, text@),
    {
        if parses_as_absolute(text.as_str()) {
            Ok(AbsoluteUri { text })
        } else {
            Err(Error::new(ErrorKind::InvalidUri, text))
        }
    }

    /// The URI as text.
    pub fn as_str(&self) -> (text: &str)
        ensures
            text@ == self@,
            is_absolute_uri(text@),
    {
        proof {
            use_type_invariant(self);
        }
        self.text.as_str()
    }

    /// The URI as an owned string.
    pub fn into_string(self) -> (text: String)
        ensures
            text@ == self@,
            is_absolute_uri(text@),
    {
        proof {
            use_type_invariant(&self);
        }
        self.text
    }
}

} // verus!
