//! The grant that is exchanged, and the token that comes back.

use std::marker::PhantomData;
use vstd::prelude::*;

use crate::error::{fails_about, Error, ErrorKind};
use crate::json::JsonValue;

verus! {

/// The grant being exchanged at the token endpoint.
#[derive(Debug, Clone, PartialEq, Eq)]
pub enum TokenRequest {
    /// An authorization code from the provider's callback.
    AuthorizationCode(String),
    /// A refresh token from an earlier exchange.
    RefreshToken(String),
}

/// What a token response must hold: two members of the document that are
/// strings, `access_token` and `token_type`.
pub open spec fn is_token_document(document: JsonValue) -> bool {
    &&& document.text_member("access_token"@) is Some
    &&& document.text_member("token_type"@) is Some
}

/// The lifetime that a document announces: its member `expires_in`, where
/// that is an integer of seconds and not negative.
pub open spec fn announced_lifetime(document: JsonValue) -> Option<u64> {
    match document.integer_member("expires_in"@) {
        Some(seconds) => if seconds >= 0 {
            Some(seconds as u64)
        } else {
            None
        },
        None => None,
    }
}

/// The result of a successful exchange.
///
/// The marker `M` tells the responses of different providers apart at compile
/// time. It carries no data and nothing here looks at it.
#[derive(Debug, PartialEq, Eq)]
pub struct TokenResponse<M> {
    access_token: String,
    token_type: String,
    refresh_token: Option<String>,
    expires_in: Option<u64>,
    scope: Option<String>,
    raw: JsonValue,
    marker: PhantomData<M>,
}

impl<M> TokenResponse<M> {
    /// The document that the provider sent.
    pub closed spec fn spec_raw(&self) -> JsonValue {
        self.raw
    }

    /// The access token.
    pub closed spec fn spec_access_token(&self) -> Seq<char> {
        self.access_token@
    }

    /// The token type.
    pub closed spec fn spec_token_type(&self) -> Seq<char> {
        self.token_type@
    }

    /// The refresh token, if one was sent.
    pub closed spec fn spec_refresh_token(&self) -> Option<Seq<char>> {
        match self.refresh_token {
            Some(token) => Some(token@),
            None => None,
        }
    }

    /// The lifetime of the access token in seconds, if one was sent.
    pub closed spec fn spec_expires_in(&self) -> Option<u64> {
        self.expires_in
    }

    /// The scope, if one was sent.
    pub closed spec fn spec_scope(&self) -> Option<Seq<char>> {
        match self.scope {
            Some(scope) => Some(scope@),
            None => None,
        }
    }

    /// Every field is what the document holds under its name.
    pub open spec fn wf(&self) -> bool {
        let raw = self.spec_raw();
        &&& raw.text_member("access_token"@) == Some(self.spec_access_token())
        &&& raw.text_member("token_type"@) == Some(self.spec_token_type())
        &&& raw.text_member("refresh_token"@) == self.spec_refresh_token()
        &&& raw.text_member("scope"@) == self.spec_scope()
        &&& announced_lifetime(raw) == self.spec_expires_in()
    }

    #[verifier::type_invariant]
    spec fn well_formed(&self) -> bool {
        self.wf()
    }

    /// The access token.
    pub fn access_token(&self) -> (token: &str)
        ensures
            token@ == self.spec_access_token(),
            self.spec_raw().text_member("access_token"@) == Some(token@),
    {
        proof {
            use_type_invariant(self);
        }
        self.access_token.as_str()
    }

    /// The token type, such as `bearer`.
    pub fn token_type(&self) -> (kind: &str)
        ensures
            kind@ == self.spec_token_type(),
            self.spec_raw().text_member("token_type"@) == Some(kind@),
    {
        proof {
            use_type_invariant(self);
        }
        self.token_type.as_str()
    }

    /// The refresh token, if the provider sent one.
    pub fn refresh_token(&self) -> (token: Option<&str>)
        ensures
            match token {
                Some(text) => self.spec_refresh_token() == Some(text@),
                None => self.spec_refresh_token() is None,
            },
            self.spec_raw().text_member("refresh_token"@) == self.spec_refresh_token(),
    {
        proof {
            use_type_invariant(self);
        }
        match &self.refresh_token {
            Some(token) => Some(token.as_str()),
            None => None,
        }
    }

    /// The lifetime of the access token in seconds, if the provider sent one.
    pub fn expires_in(&self) -> (seconds: Option<u64>)
        ensures
            seconds == self.spec_expires_in(),
            seconds == announced_lifetime(self.spec_raw()),
    {
        proof {
            use_type_invariant(self);
        }
        self.expires_in
    }

    /// The scope that was granted, if the provider sent one.
    pub fn scope(&self) -> (scope: Option<&str>)
        ensures
            match scope {
                Some(text) => self.spec_scope() == Some(text@),
                None => self.spec_scope() is None,
            },
            self.spec_raw().text_member("scope"@) == self.spec_scope(),
    {
        proof {
            use_type_invariant(self);
        }
        match &self.scope {
            Some(scope) => Some(scope.as_str()),
            None => None,
        }
    }

    /// The whole document that the provider sent.
    pub fn as_value(&self) -> (raw: &JsonValue)
        ensures
            *raw == self.spec_raw(),
            is_token_document(*raw),
    {
        proof {
            use_type_invariant(self);
        }
        &self.raw
    }

    /// The same response under another marker.
    pub fn cast<N>(self) -> (same: TokenResponse<N>)
        ensures
            same.wf(),
            same.spec_raw() == self.spec_raw(),
            same.spec_access_token() == self.spec_access_token(),
            same.spec_token_type() == self.spec_token_type(),
            same.spec_refresh_token() == self.spec_refresh_token(),
            same.spec_expires_in() == self.spec_expires_in(),
            same.spec_scope() == self.spec_scope(),
    {
        proof {
            use_type_invariant(&self);
        }
        TokenResponse {
            access_token: self.access_token,
            token_type: self.token_type,
            refresh_token: self.refresh_token,
            expires_in: self.expires_in,
            scope: self.scope,
            raw: self.raw,
            marker: PhantomData,
        }
    }
}

fn owned_text_member(document: &JsonValue, name: &str) -> (text: Option<String>)
    ensures
        match text {
            Some(t) => document.text_member(name@) == Some(t@),
            None => document.text_member(name@) is None,
        },
{
    match document.get(name) {
        Some(value) => match value.as_text() {
            Some(text) => Some(String::from_str(text)),
            None => None,
        },
        None => None,
    }
}

fn lifetime_member(document: &JsonValue) -> (seconds: Option<u64>)
    ensures
        seconds == announced_lifetime(*document),
{
    match document.get("expires_in") {
        Some(value) => match value.as_integer() {
            Some(seconds) => if seconds >= 0 {
                Some(seconds as u64)
            } else {
                None
            },
            None => None,
        },
        None => None,
    }
}

impl TokenResponse<()> {
    /// Reads a token response out of a JSON document.
    ///
    /// The document must be an object whose members `access_token` and
    /// `token_type` are strings. Otherwise the error is `ExchangeFailure` and
    /// names the first of the two that is missing.
    pub fn from_json(document: JsonValue) -> (read: Result<TokenResponse<()>, Error>)
        ensures
            is_token_document(document) ==> (read matches Ok(response) && response.wf()
                && response.spec_raw() == document),
            document.text_member("access_token"@) is None ==> fails_about(
                read,
                ErrorKind::ExchangeFailure,
                "access_token"@,
            ),
            document.text_member("access_token"@) is Some && document.text_member("token_type"@)
                is None ==> fails_about(read, ErrorKind::ExchangeFailure, "token_type"@),
    {
        let access_token = match owned_text_member(&document, "access_token") {
            Some(token) => token,
            None => {
                return Err(
                    Error::new(ErrorKind::ExchangeFailure, String::from_str("access_token")),
                );
            },
        };
        let token_type = match owned_text_member(&document, "token_type") {
            Some(kind) => kind,
            None => {
                return Err(Error::new(ErrorKind::ExchangeFailure, String::from_str("token_type")));
            },
        };
        let refresh_token = owned_text_member(&document, "refresh_token");
        let scope = owned_text_member(&document, "scope");
        let expires_in = lifetime_member(&document);
        Ok(
            TokenResponse {
                access_token,
                token_type,
                refresh_token,
                expires_in,
                scope,
                raw: document,
                marker: PhantomData,
            },
        )
    }
}

} // verus!
