//! The default adapter: how the authorization URI is put together, what the
//! token request looks like, and how the token endpoint's answer is read.
//!
//! The adapter never touches the network. It prepares the request for the
//! token endpoint and reads the reply; sending the one and receiving the
//! other, over TLS, is the caller's part.

use vstd::prelude::*;

use crate::config::OAuthConfig;
use crate::error::{fails_about, fails_with, Error, ErrorKind};
use crate::form::{
    field_texts,
    form_encode,
    form_extend,
    form_pair,
    has_field,
    has_name,
    is_plain,
    is_plain_text,
    lemma_extend_has_field,
    lemma_plain_text_stays,
    serialize_fields,
};
use crate::json::{json_document, JsonValue};
use crate::state::{hex_encode, lemma_hex_is_url_safe};
use crate::token::{TokenRequest, TokenResponse};
use crate::uri::{
    add_query_fields,
    has_parameter,
    is_absolute_uri,
    lemma_added_field_is_parameter,
    pairs_fit,
    parse_url,
    url_parse,
    url_text,
    AbsoluteUri,
    UrlParts,
};

verus! {

/// Texts joined by single spaces.
pub open spec fn space_joined(items: Seq<Seq<char>>) -> Seq<char>
    decreases items.len(),
{
    if items.len() == 0 {
        Seq::empty()
    } else if items.len() == 1 {
        items[0]
    } else {
        space_joined(items.drop_last()) + seq![' '] + items.last()
    }
}

/// The scopes of a request, as texts.
pub open spec fn scope_texts(scopes: Seq<&str>) -> Seq<Seq<char>> {
    Seq::new(scopes.len(), |i: int| scopes[i]@)
}

/// The parameters that an authorization request adds to the provider's
/// authorization endpoint, in order: `response_type=code`, `client_id` and
/// `state` always; `redirect_uri` if one is configured; `scope`, the scopes
/// joined by spaces, unless there are none.
pub open spec fn authorization_fields(
    config: OAuthConfig,
    state: Seq<char>,
    scopes: Seq<Seq<char>>,
) -> Seq<(Seq<char>, Seq<char>)> {
    seq![
        ("response_type"@, "code"@),
        ("client_id"@, config.spec_client_id()),
        ("state"@, state),
    ] + (match config.spec_redirect_uri() {
        Some(uri) => seq![("redirect_uri"@, uri)],
        None => Seq::empty(),
    }) + (if scopes.len() > 0 {
        seq![("scope"@, space_joined(scopes))]
    } else {
        Seq::empty()
    })
}

/// The fields of a token request, in order. For an authorization code:
/// `grant_type=authorization_code`, `code`, and `redirect_uri` if one is
/// configured. For a refresh token: `grant_type=refresh_token` and
/// `refresh_token`. Then, in both cases, `client_id` and `client_secret`.
pub open spec fn token_fields(config: OAuthConfig, token: TokenRequest) -> Seq<
    (Seq<char>, Seq<char>),
> {
    (match token {
        TokenRequest::AuthorizationCode(code) => seq![
            ("grant_type"@, "authorization_code"@),
            ("code"@, code@),
        ] + (match config.spec_redirect_uri() {
            Some(uri) => seq![("redirect_uri"@, uri)],
            None => Seq::empty(),
        }),
        TokenRequest::RefreshToken(refresh) => seq![
            ("grant_type"@, "refresh_token"@),
            ("refresh_token"@, refresh@),
        ],
    }) + seq![
        ("client_id"@, config.spec_client_id()),
        ("client_secret"@, config.spec_client_secret()),
    ]
}

proof fn lemma_name_is_plain(name: Seq<char>)
    requires
        name == "response_type"@ || name == "client_id"@ || name == "state"@ || name
            == "redirect_uri"@ || name == "scope"@ || name == "grant_type"@ || name == "code"@
            || name == "refresh_token"@ || name == "client_secret"@ || name
            == "authorization_code"@,
    ensures
        is_plain_text(name),
        form_encode(name) == name,
{
    reveal_strlit("response_type");
    reveal_strlit("client_id");
    reveal_strlit("state");
    reveal_strlit("redirect_uri");
    reveal_strlit("scope");
    reveal_strlit("grant_type");
    reveal_strlit("code");
    reveal_strlit("refresh_token");
    reveal_strlit("client_secret");
    reveal_strlit("authorization_code");
    assert forall|i: int| 0 <= i < name.len() implies is_plain(#[trigger] name[i]) by {}
    lemma_plain_text_stays(name);
}

/// The fixed names and values of both requests hold plain characters only,
/// so they stand in a URI and in a form body as they are written here: an
/// authorization URI reads `response_type=code`, a token request
/// `grant_type=authorization_code` or `grant_type=refresh_token`, and every
/// other field begins with its name and `=`.
pub proof fn lemma_fixed_texts_stay()
    ensures
        form_pair("response_type"@, "code"@) == "response_type"@ + seq!['='] + "code"@,
        form_pair("grant_type"@, "authorization_code"@) == "grant_type"@ + seq!['=']
            + "authorization_code"@,
        form_pair("grant_type"@, "refresh_token"@) == "grant_type"@ + seq!['=']
            + "refresh_token"@,
        forall|value: Seq<char>| #[trigger]
            form_pair("client_id"@, value) == "client_id"@ + seq!['='] + form_encode(value),
        forall|value: Seq<char>| #[trigger]
            form_pair("client_secret"@, value) == "client_secret"@ + seq!['='] + form_encode(value),
        forall|value: Seq<char>| #[trigger]
            form_pair("state"@, value) == "state"@ + seq!['='] + form_encode(value),
        forall|value: Seq<char>| #[trigger]
            form_pair("redirect_uri"@, value) == "redirect_uri"@ + seq!['='] + form_encode(value),
        forall|value: Seq<char>| #[trigger]
            form_pair("scope"@, value) == "scope"@ + seq!['='] + form_encode(value),
        forall|value: Seq<char>| #[trigger]
            form_pair("code"@, value) == "code"@ + seq!['='] + form_encode(value),
        forall|value: Seq<char>| #[trigger]
            form_pair("refresh_token"@, value) == "refresh_token"@ + seq!['='] + form_encode(value),
{
    lemma_name_is_plain("response_type"@);
    lemma_name_is_plain("client_id"@);
    lemma_name_is_plain("state"@);
    lemma_name_is_plain("redirect_uri"@);
    lemma_name_is_plain("scope"@);
    lemma_name_is_plain("grant_type"@);
    lemma_name_is_plain("code"@);
    lemma_name_is_plain("refresh_token"@);
    lemma_name_is_plain("client_secret"@);
    lemma_name_is_plain("authorization_code"@);
}

/// A state made from entropy stands in the authorization URI as it is: the
/// parameter reads `state=` and then the state.
pub proof fn lemma_state_parameter_is_verbatim(entropy: Seq<u8>)
    ensures
        form_pair("state"@, hex_encode(entropy)) == "state"@ + seq!['='] + hex_encode(entropy),
{
    lemma_name_is_plain("state"@);
    lemma_hex_is_url_safe(entropy);
}

proof fn lemma_authorization_field_names(
    config: OAuthConfig,
    state: Seq<char>,
    scopes: Seq<Seq<char>>,
)
    ensures
        config.spec_redirect_uri() is None ==> !has_name(
            authorization_fields(config, state, scopes),
            "redirect_uri"@,
        ),
        scopes.len() == 0 ==> !has_name(authorization_fields(config, state, scopes), "scope"@),
{
    reveal_strlit("response_type");
    reveal_strlit("client_id");
    reveal_strlit("state");
    reveal_strlit("redirect_uri");
    reveal_strlit("scope");
    assert("state"@[1] != "scope"@[1]);
    assert("response_type"@.len() == 13 && "client_id"@.len() == 9 && "state"@.len() == 5);
    assert("redirect_uri"@.len() == 12 && "scope"@.len() == 5);
    let fields = authorization_fields(config, state, scopes);
    let kind = ("response_type"@, "code"@);
    let id = ("client_id"@, config.spec_client_id());
    let bound = ("state"@, state);
    if scopes.len() == 0 {
        match config.spec_redirect_uri() {
            Some(uri) => {
                assert(fields =~= seq![kind, id, bound, ("redirect_uri"@, uri)]);
            },
            None => {
                assert(fields =~= seq![kind, id, bound]);
            },
        }
        assert forall|k: int| 0 <= k < fields.len() implies (#[trigger] fields[k]).0
            != "scope"@ by {}
    }
    if config.spec_redirect_uri() is None {
        if scopes.len() > 0 {
            assert(fields =~= seq![kind, id, bound, ("scope"@, space_joined(scopes))]);
        }
        assert forall|k: int| 0 <= k < fields.len() implies (#[trigger] fields[k]).0
            != "redirect_uri"@ by {}
    }
}

/// Every authorization URI carries `response_type=code`, the client
/// identifier and the state as query parameters; the redirect URI exactly
/// when one is configured; and `scope`, holding the scopes joined by spaces,
/// exactly when there are scopes. Names and values stand form encoded.
pub proof fn lemma_authorization_uri_parameters(
    config: OAuthConfig,
    state: Seq<char>,
    scopes: Seq<Seq<char>>,
    parts: UrlParts,
)
    ensures
        ({
            let fields = authorization_fields(config, state, scopes);
            let text = parts.with_pairs(fields).text();
            &&& has_parameter(text, "response_type"@, "code"@)
            &&& has_parameter(text, "client_id"@, config.spec_client_id())
            &&& has_parameter(text, "state"@, state)
            &&& config.spec_redirect_uri() matches Some(uri) ==> has_parameter(
                text,
                "redirect_uri"@,
                uri,
            )
            &&& config.spec_redirect_uri() is None ==> !has_name(fields, "redirect_uri"@)
            &&& scopes.len() > 0 ==> has_parameter(text, "scope"@, space_joined(scopes))
            &&& scopes.len() == 0 ==> !has_name(fields, "scope"@)
        }),
{
    let fields = authorization_fields(config, state, scopes);
    lemma_authorization_field_names(config, state, scopes);
    lemma_added_field_is_parameter(parts, fields, 0);
    lemma_added_field_is_parameter(parts, fields, 1);
    lemma_added_field_is_parameter(parts, fields, 2);
    assert(fields[0] == ("response_type"@, "code"@));
    assert(fields[1] == ("client_id"@, config.spec_client_id()));
    assert(fields[2] == ("state"@, state));
    if config.spec_redirect_uri() is Some {
        lemma_added_field_is_parameter(parts, fields, 3);
        assert(fields[3] == ("redirect_uri"@, config.spec_redirect_uri()->0));
        if scopes.len() > 0 {
            lemma_added_field_is_parameter(parts, fields, 4);
            assert(fields[4] == ("scope"@, space_joined(scopes)));
        }
    } else if scopes.len() > 0 {
        lemma_added_field_is_parameter(parts, fields, 3);
        assert(fields[3] == ("scope"@, space_joined(scopes)));
    }
}

proof fn lemma_token_field_names(config: OAuthConfig, token: TokenRequest)
    ensures
        token is AuthorizationCode ==> !has_name(token_fields(config, token), "refresh_token"@),
        token is AuthorizationCode && config.spec_redirect_uri() is None ==> !has_name(
            token_fields(config, token),
            "redirect_uri"@,
        ),
        token is RefreshToken ==> !has_name(token_fields(config, token), "code"@),
        token is RefreshToken ==> !has_name(token_fields(config, token), "redirect_uri"@),
{
    reveal_strlit("grant_type");
    reveal_strlit("code");
    reveal_strlit("client_id");
    reveal_strlit("client_secret");
    reveal_strlit("redirect_uri");
    reveal_strlit("refresh_token");
    assert("client_secret"@[0] != "refresh_token"@[0]);
    assert("grant_type"@.len() == 10 && "code"@.len() == 4 && "client_id"@.len() == 9);
    assert("client_secret"@.len() == 13 && "redirect_uri"@.len() == 12);
    assert("refresh_token"@.len() == 13);
    let fields = token_fields(config, token);
    let id = ("client_id"@, config.spec_client_id());
    let secret = ("client_secret"@, config.spec_client_secret());
    match token {
        TokenRequest::AuthorizationCode(code) => {
            let grant = ("grant_type"@, "authorization_code"@);
            match config.spec_redirect_uri() {
                Some(uri) => {
                    assert(fields =~= seq![grant, ("code"@, code@), ("redirect_uri"@, uri), id, secret]);
                },
                None => {
                    assert(fields =~= seq![grant, ("code"@, code@), id, secret]);
                },
            }
            assert forall|k: int| 0 <= k < fields.len() implies (#[trigger] fields[k]).0
                != "refresh_token"@ by {}
            if config.spec_redirect_uri() is None {
                assert forall|k: int| 0 <= k < fields.len() implies (#[trigger] fields[k]).0
                    != "redirect_uri"@ by {}
            }
        },
        TokenRequest::RefreshToken(refresh) => {
            let grant = ("grant_type"@, "refresh_token"@);
            assert(fields =~= seq![grant, ("refresh_token"@, refresh@), id, secret]);
            assert forall|k: int| 0 <= k < fields.len() implies (#[trigger] fields[k]).0
                != "code"@ by {}
            assert forall|k: int| 0 <= k < fields.len() implies (#[trigger] fields[k]).0
                != "redirect_uri"@ by {}
        },
    }
}

/// Every token request for an authorization code carries
/// `grant_type=authorization_code`, the code, the client identifier and the
/// client secret as fields, and the redirect URI exactly when one is
/// configured; it has no field `refresh_token`.
pub proof fn lemma_code_request_fields(config: OAuthConfig, code: String)
    ensures
        ({
            let fields = token_fields(config, TokenRequest::AuthorizationCode(code));
            let body = form_extend(Seq::empty(), fields);
            &&& has_field(body, "grant_type"@, "authorization_code"@)
            &&& has_field(body, "code"@, code@)
            &&& has_field(body, "client_id"@, config.spec_client_id())
            &&& has_field(body, "client_secret"@, config.spec_client_secret())
            &&& config.spec_redirect_uri() matches Some(uri) ==> has_field(
                body,
                "redirect_uri"@,
                uri,
            )
            &&& config.spec_redirect_uri() is None ==> !has_name(fields, "redirect_uri"@)
            &&& !has_name(fields, "refresh_token"@)
        }),
{
    let fields = token_fields(config, TokenRequest::AuthorizationCode(code));
    lemma_token_field_names(config, TokenRequest::AuthorizationCode(code));
    lemma_extend_has_field(Seq::empty(), fields, 0);
    lemma_extend_has_field(Seq::empty(), fields, 1);
    lemma_extend_has_field(Seq::empty(), fields, 2);
    lemma_extend_has_field(Seq::empty(), fields, 3);
    assert(fields[0] == ("grant_type"@, "authorization_code"@));
    assert(fields[1] == ("code"@, code@));
    if config.spec_redirect_uri() is Some {
        lemma_extend_has_field(Seq::empty(), fields, 4);
        assert(fields[2] == ("redirect_uri"@, config.spec_redirect_uri()->0));
        assert(fields[3] == ("client_id"@, config.spec_client_id()));
        assert(fields[4] == ("client_secret"@, config.spec_client_secret()));
    } else {
        assert(fields[2] == ("client_id"@, config.spec_client_id()));
        assert(fields[3] == ("client_secret"@, config.spec_client_secret()));
    }
}

/// Every token request for a refresh token carries
/// `grant_type=refresh_token`, the refresh token, the client identifier and
/// the client secret as fields; it has neither a field `code` nor a field
/// `redirect_uri`.
pub proof fn lemma_refresh_request_fields(config: OAuthConfig, refresh: String)
    ensures
        ({
            let fields = token_fields(config, TokenRequest::RefreshToken(refresh));
            let body = form_extend(Seq::empty(), fields);
            &&& has_field(body, "grant_type"@, "refresh_token"@)
            &&& has_field(body, "refresh_token"@, refresh@)
            &&& has_field(body, "client_id"@, config.spec_client_id())
            &&& has_field(body, "client_secret"@, config.spec_client_secret())
            &&& !has_name(fields, "code"@)
            &&& !has_name(fields, "redirect_uri"@)
        }),
{
    let fields = token_fields(config, TokenRequest::RefreshToken(refresh));
    lemma_token_field_names(config, TokenRequest::RefreshToken(refresh));
    lemma_extend_has_field(Seq::empty(), fields, 0);
    lemma_extend_has_field(Seq::empty(), fields, 1);
    lemma_extend_has_field(Seq::empty(), fields, 2);
    lemma_extend_has_field(Seq::empty(), fields, 3);
    assert(fields[0] == ("grant_type"@, "refresh_token"@));
    assert(fields[1] == ("refresh_token"@, refresh@));
    assert(fields[2] == ("client_id"@, config.spec_client_id()));
    assert(fields[3] == ("client_secret"@, config.spec_client_secret()));
}

/// Whether a status is a success: 200 to 299.
pub open spec fn is_success(status: u16) -> bool {
    200 <= status < 300
}

/// Whether `read` is what a reply with this status and this body, parsed,
/// is read as.
pub open spec fn reply_is_read(
    status: u16,
    document: Option<JsonValue>,
    read: Result<TokenResponse<()>, Error>,
) -> bool {
    if !is_success(status) {
        fails_about(read, ErrorKind::ExchangeError(status), Seq::empty())
    } else {
        match document {
            None => fails_with(read, ErrorKind::ExchangeFailure),
            Some(document) => if document.text_member("access_token"@) is None {
                fails_about(read, ErrorKind::ExchangeFailure, "access_token"@)
            } else if document.text_member("token_type"@) is None {
                fails_about(read, ErrorKind::ExchangeFailure, "token_type"@)
            } else {
                read matches Ok(response) && response.wf() && response.spec_raw() == document
            },
        }
    }
}

/// What `hyper::Uri::try_from` says of a text: whether a request can be
/// addressed to it.
pub uninterp spec fn is_request_uri(text: Seq<char>) -> bool;

/// Whether a request can be addressed to a text.
///
/// Trusted: calls `hyper::Uri::try_from` on the text, as the request builder
/// does, and reports whether it succeeded. The contract only names the answer.
#[verifier::external_body]
fn parses_as_request_uri(text: &str) -> (ok: bool)
    ensures
        ok == is_request_uri(text@),
{
    hyper::Uri::try_from(text).is_ok()
}

fn join_scopes(scopes: &[&str]) -> (joined: String)
    ensures
        joined@ == space_joined(scope_texts(scopes@)),
{
    let ghost texts = scope_texts(scopes@);
    let mut joined = String::new();
    let mut i: usize = 0;
    while i < scopes.len()
        invariant
            i <= scopes@.len(),
            texts == scope_texts(scopes@),
            joined@ == space_joined(texts.take(i as int)),
        decreases scopes@.len() - i,
    {
        proof {
            reveal_strlit(" ");
            assert(texts.take(i + 1).drop_last() =~= texts.take(i as int));
            assert(texts.take(i + 1).last() == scopes@[i as int]@);
            assert(" "@ =~= seq![' ']);
        }
        if i > 0 {
            joined.append(" ");
        }
        joined.append(scopes[i]);
        proof {
            if i == 0 {
                assert(joined@ =~= texts.take(1)[0]);
            }
        }
        i += 1;
    }
    assert(texts.take(i as int) =~= texts);
    joined
}

fn field(name: &str, value: &str) -> (made: (String, String))
    ensures
        made.0@ == name@,
        made.1@ == value@,
{
    (String::from_str(name), String::from_str(value))
}

fn build_authorization_fields(config: &OAuthConfig, state: &str, scopes: &[&str]) -> (fields: Vec<
    (String, String),
>)
    ensures
        field_texts(fields@) == authorization_fields(*config, state@, scope_texts(scopes@)),
{
    let mut fields: Vec<(String, String)> = Vec::new();
    fields.push(field("response_type", "code"));
    fields.push(field("client_id", config.client_id()));
    fields.push(field("state", state));
    if let Some(redirect_uri) = config.redirect_uri() {
        fields.push(field("redirect_uri", redirect_uri));
    }
    if scopes.len() > 0 {
        let joined = join_scopes(scopes);
        fields.push(field("scope", joined.as_str()));
    }
    assert(field_texts(fields@) =~= authorization_fields(*config, state@, scope_texts(scopes@)));
    fields
}

fn build_token_fields(config: &OAuthConfig, token: &TokenRequest) -> (fields: Vec<
    (String, String),
>)
    ensures
        field_texts(fields@) == token_fields(*config, *token),
{
    let mut fields: Vec<(String, String)> = Vec::new();
    match token {
        TokenRequest::AuthorizationCode(code) => {
            fields.push(field("grant_type", "authorization_code"));
            fields.push(field("code", code.as_str()));
            if let Some(redirect_uri) = config.redirect_uri() {
                fields.push(field("redirect_uri", redirect_uri));
            }
        },
        TokenRequest::RefreshToken(refresh) => {
            fields.push(field("grant_type", "refresh_token"));
            fields.push(field("refresh_token", refresh.as_str()));
        },
    }
    fields.push(field("client_id", config.client_id()));
    fields.push(field("client_secret", config.client_secret()));
    assert(field_texts(fields@) =~= token_fields(*config, *token));
    fields
}

/// The request that exchanges a grant for a token: a `POST` to the token
/// endpoint with a form body, asking for JSON.
#[derive(Debug, Clone, PartialEq, Eq)]
pub struct ExchangeRequest {
    uri: String,
    body: String,
}

impl ExchangeRequest {
    /// The URI that the request goes to.
    pub closed spec fn spec_uri(&self) -> Seq<char> {
        self.uri@
    }

    /// The body of the request.
    pub closed spec fn spec_body(&self) -> Seq<char> {
        self.body@
    }

    /// The method of the request: always `POST`.
    pub fn method(&self) -> (method: &'static str)
        ensures
            method@ == "POST"@,
    {
        "POST"
    }

    /// The URI that the request goes to.
    pub fn uri(&self) -> (uri: &str)
        ensures
            uri@ == self.spec_uri(),
    {
        self.uri.as_str()
    }

    /// The value of the `Accept` header: always `application/json`.
    pub fn accept(&self) -> (value: &'static str)
        ensures
            value@ == "application/json"@,
    {
        "application/json"
    }

    /// The value of the `Content-Type` header: always
    /// `application/x-www-form-urlencoded`.
    pub fn content_type(&self) -> (value: &'static str)
        ensures
            value@ == "application/x-www-form-urlencoded"@,
    {
        "application/x-www-form-urlencoded"
    }

    /// The body of the request, form encoded.
    pub fn body(&self) -> (body: &str)
        ensures
            body@ == self.spec_body(),
    {
        self.body.as_str()
    }
}

/// The default adapter. It holds no state, so one value serves any number of
/// exchanges at once.
#[derive(Clone, Debug)]
pub struct HyperRustlsAdapter;

impl HyperRustlsAdapter {
    /// The URI to send the user to: the provider's authorization endpoint
    /// with the parameters of [`authorization_fields`] added to its query.
    ///
    /// The error is `InvalidUri` in three cases: the endpoint does not parse
    /// as a URL, a parameter does not fit (both carry the endpoint), or the
    /// finished text is not an absolute URI (carries the text).
    pub fn authorization_uri(&self, config: &OAuthConfig, state: &str, scopes: &[&str]) -> (built:
        Result<AbsoluteUri, Error>)
        ensures
            match url_parse(config.spec_provider().spec_auth_uri()) {
                None => fails_about(
                    built,
                    ErrorKind::InvalidUri,
                    config.spec_provider().spec_auth_uri(),
                ),
                Some(parts) => {
                    let fields = authorization_fields(*config, state@, scope_texts(scopes@));
                    let text = parts.with_pairs(fields).text();
                    if !pairs_fit(parts, fields) {
                        fails_about(
                            built,
                            ErrorKind::InvalidUri,
                            config.spec_provider().spec_auth_uri(),
                        )
                    } else if is_absolute_uri(text) {
                        built matches Ok(uri) && uri@ == text
                    } else {
                        fails_about(built, ErrorKind::InvalidUri, text)
                    }
                },
            },
    {
        let auth_uri = config.provider().auth_uri();
        let mut url = match parse_url(auth_uri) {
            Ok(url) => url,
            Err(_) => {
                return Err(Error::new(ErrorKind::InvalidUri, String::from_str(auth_uri)));
            },
        };
        let fields = build_authorization_fields(config, state, scopes);
        if !add_query_fields(&mut url, &fields) {
            return Err(Error::new(ErrorKind::InvalidUri, String::from_str(auth_uri)));
        }
        AbsoluteUri::parse(String::from_str(url_text(&url)))
    }

    /// The request that exchanges `token` at the provider's token endpoint.
    /// Its body holds the fields of [`token_fields`]. The error is
    /// `InvalidUri`, carrying the endpoint, if no request can be addressed to
    /// the endpoint.
    pub fn exchange_request(&self, config: &OAuthConfig, token: &TokenRequest) -> (request: Result<
        ExchangeRequest,
        Error,
    >)
        ensures
            is_request_uri(config.spec_provider().spec_token_uri()) ==> (request matches Ok(r)
                && r.spec_uri() == config.spec_provider().spec_token_uri() && r.spec_body()
                == form_extend(Seq::empty(), token_fields(*config, *token))),
            !is_request_uri(config.spec_provider().spec_token_uri()) ==> fails_about(
                request,
                ErrorKind::InvalidUri,
                config.spec_provider().spec_token_uri(),
            ),
    {
        let token_uri = config.provider().token_uri();
        if !parses_as_request_uri(token_uri) {
            return Err(Error::new(ErrorKind::InvalidUri, String::from_str(token_uri)));
        }
        let fields = build_token_fields(config, token);
        let body = serialize_fields(&fields);
        Ok(ExchangeRequest { uri: String::from_str(token_uri), body })
    }

    /// Judges the status of the token endpoint's reply, before its body is
    /// read: a status outside 200 to 299 gives `ExchangeError` with that
    /// status.
    pub fn check_status(&self, status: u16) -> (checked: Result<(), Error>)
        ensures
            is_success(status) ==> checked is Ok,
            !is_success(status) ==> fails_about(
                checked,
                ErrorKind::ExchangeError(status),
                Seq::empty(),
            ),
    {
        if 200 <= status && status < 300 {
            Ok(())
        } else {
            Err(Error::bare(ErrorKind::ExchangeError(status)))
        }
    }

    /// Reads the token endpoint's reply.
    ///
    /// A status outside 200 to 299 gives `ExchangeError` with that status,
    /// whatever the body. A body that is not JSON gives `ExchangeFailure`;
    /// so does one that lacks a string `access_token` or `token_type`, and
    /// the error then names the first that is missing. Anything else is a
    /// token.
    pub fn read_reply(&self, status: u16, body: &[u8]) -> (read: Result<TokenResponse<()>, Error>)
        ensures
            reply_is_read(status, json_document(body@), read),
    {
        match self.check_status(status) {
            Ok(_) => {},
            Err(error) => {
                return Err(error);
            },
        }
        match JsonValue::parse(body) {
            Ok(document) => TokenResponse::from_json(document),
            Err(message) => Err(Error::new(ErrorKind::ExchangeFailure, message)),
        }
    }

    /// The error for an exchange that failed in transport (connection, TLS,
    /// timeout): `ExchangeFailure`, carrying the cause.
    pub fn transport_failure(&self, cause: String) -> (error: Error)
        ensures
            error.kind() == ErrorKind::ExchangeFailure,
            error.spec_detail() == cause@,
    {
        Error::new(ErrorKind::ExchangeFailure, cause)
    }
}

} // verus!
