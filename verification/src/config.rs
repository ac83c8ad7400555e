//! Provider endpoints and per-application client configuration.

use vstd::prelude::*;

use crate::error::{fails_about, Error, ErrorKind};
use crate::text::str_eq;
use crate::uri::{parse_url, url_parse};

verus! {

/// Whether `c` is the given ASCII letter in either case.
pub open spec fn is_letter(c: char, lower: char, upper: char) -> bool {
    c == lower || c == upper
}

/// Whether a text begins with the scheme `http:`, in any case.
pub open spec fn is_http_uri(text: Seq<char>) -> bool {
    &&& text.len() >= 5
    &&& is_letter(text[0], 'h', 'H')
    &&& is_letter(text[1], 't', 'T')
    &&& is_letter(text[2], 't', 'T')
    &&& is_letter(text[3], 'p', 'P')
    &&& text[4] == ':'
}

/// Whether a text begins with the scheme `https:`, in any case.
pub open spec fn is_https_uri(text: Seq<char>) -> bool {
    &&& text.len() >= 6
    &&& is_letter(text[0], 'h', 'H')
    &&& is_letter(text[1], 't', 'T')
    &&& is_letter(text[2], 't', 'T')
    &&& is_letter(text[3], 'p', 'P')
    &&& is_letter(text[4], 's', 'S')
    &&& text[5] == ':'
}

/// Whether a text may serve as an endpoint: an absolute URL with the scheme
/// `https`, or also `http` where plain HTTP is allowed.
pub open spec fn is_endpoint(text: Seq<char>, allow_http: bool) -> bool {
    &&& is_https_uri(text) || (allow_http && is_http_uri(text))
    &&& url_parse(text) is Some
}

fn has_http_scheme(text: &str) -> (yes: bool)
    ensures
        yes == is_http_uri(text@),
{
    if text.unicode_len() < 5 {
        return false;
    }
    let c0 = text.get_char(0);
    let c1 = text.get_char(1);
    let c2 = text.get_char(2);
    let c3 = text.get_char(3);
    let c4 = text.get_char(4);
    (c0 == 'h' || c0 == 'H') && (c1 == 't' || c1 == 'T') && (c2 == 't' || c2 == 'T') && (c3 == 'p'
        || c3 == 'P') && c4 == ':'
}

fn has_https_scheme(text: &str) -> (yes: bool)
    ensures
        yes == is_https_uri(text@),
{
    if text.unicode_len() < 6 {
        return false;
    }
    let c0 = text.get_char(0);
    let c1 = text.get_char(1);
    let c2 = text.get_char(2);
    let c3 = text.get_char(3);
    let c4 = text.get_char(4);
    let c5 = text.get_char(5);
    (c0 == 'h' || c0 == 'H') && (c1 == 't' || c1 == 'T') && (c2 == 't' || c2 == 'T') && (c3 == 'p'
        || c3 == 'P') && (c4 == 's' || c4 == 'S') && c5 == ':'
}

/// Decides whether `text` may serve as an endpoint.
pub fn check_endpoint(text: &str, allow_http: bool) -> (ok: bool)
    ensures
        ok == is_endpoint(text@, allow_http),
{
    if !(has_https_scheme(text) || (allow_http && has_http_scheme(text))) {
        return false;
    }
    match parse_url(text) {
        Ok(_) => true,
        Err(_) => false,
    }
}

/// The providers whose endpoints are built in.
#[derive(Debug, Clone, Copy, PartialEq, Eq, Structural)]
pub enum Preset {
    Discord,
    GitHub,
    Google,
    Microsoft,
    Reddit,
    Yahoo,
}

impl Preset {
    /// The preset that goes by `name`, if any. Names are matched exactly.
    pub open spec fn spec_from_name(name: Seq<char>) -> Option<Preset> {
        if name == "Discord"@ {
            Some(Preset::Discord)
        } else if name == "GitHub"@ {
            Some(Preset::GitHub)
        } else if name == "Google"@ {
            Some(Preset::Google)
        } else if name == "Microsoft"@ {
            Some(Preset::Microsoft)
        } else if name == "Reddit"@ {
            Some(Preset::Reddit)
        } else if name == "Yahoo"@ {
            Some(Preset::Yahoo)
        } else {
            None
        }
    }

    /// The authorization endpoint of this provider.
    pub open spec fn spec_auth_uri(self) -> Seq<char> {
        match self {
            Preset::Discord => "https://discord.com/api/oauth2/authorize"@,
            Preset::GitHub => "https://github.com/login/oauth/authorize"@,
            Preset::Google => "https://accounts.google.com/o/oauth2/v2/auth"@,
            Preset::Microsoft => "https://login.microsoftonline.com/common/oauth2/v2.0/authorize"@,
            Preset::Reddit => "https://www.reddit.com/api/v1/authorize"@,
            Preset::Yahoo => "https://api.login.yahoo.com/oauth2/request_auth"@,
        }
    }

    /// The token endpoint of this provider.
    pub open spec fn spec_token_uri(self) -> Seq<char> {
        match self {
            Preset::Discord => "https://discord.com/api/oauth2/token"@,
            Preset::GitHub => "https://github.com/login/oauth/access_token"@,
            Preset::Google => "https://www.googleapis.com/oauth2/v4/token"@,
            Preset::Microsoft => "https://login.microsoftonline.com/common/oauth2/v2.0/token"@,
            Preset::Reddit => "https://www.reddit.com/api/v1/access_token"@,
            Preset::Yahoo => "https://api.login.yahoo.com/oauth2/get_token"@,
        }
    }

    /// Looks a preset up by its name.
    pub fn from_name(name: &str) -> (preset: Option<Preset>)
        ensures
            preset == Preset::spec_from_name(name@),
    {
        if str_eq(name, "Discord") {
            Some(Preset::Discord)
        } else if str_eq(name, "GitHub") {
            Some(Preset::GitHub)
        } else if str_eq(name, "Google") {
            Some(Preset::Google)
        } else if str_eq(name, "Microsoft") {
            Some(Preset::Microsoft)
        } else if str_eq(name, "Reddit") {
            Some(Preset::Reddit)
        } else if str_eq(name, "Yahoo") {
            Some(Preset::Yahoo)
        } else {
            None
        }
    }

    /// The authorization endpoint of this provider.
    pub fn auth_uri(self) -> (uri: &'static str)
        ensures
            uri@ == self.spec_auth_uri(),
            is_https_uri(uri@),
    {
        proof {
            reveal_strlit("https://discord.com/api/oauth2/authorize");
            reveal_strlit("https://github.com/login/oauth/authorize");
            reveal_strlit("https://accounts.google.com/o/oauth2/v2/auth");
            reveal_strlit("https://login.microsoftonline.com/common/oauth2/v2.0/authorize");
            reveal_strlit("https://www.reddit.com/api/v1/authorize");
            reveal_strlit("https://api.login.yahoo.com/oauth2/request_auth");
        }
        match self {
            Preset::Discord => "https://discord.com/api/oauth2/authorize",
            Preset::GitHub => "https://github.com/login/oauth/authorize",
            Preset::Google => "https://accounts.google.com/o/oauth2/v2/auth",
            Preset::Microsoft => "https://login.microsoftonline.com/common/oauth2/v2.0/authorize",
            Preset::Reddit => "https://www.reddit.com/api/v1/authorize",
            Preset::Yahoo => "https://api.login.yahoo.com/oauth2/request_auth",
        }
    }

    /// The token endpoint of this provider.
    pub fn token_uri(self) -> (uri: &'static str)
        ensures
            uri@ == self.spec_token_uri(),
            is_https_uri(uri@),
    {
        proof {
            reveal_strlit("https://discord.com/api/oauth2/token");
            reveal_strlit("https://github.com/login/oauth/access_token");
            reveal_strlit("https://www.googleapis.com/oauth2/v4/token");
            reveal_strlit("https://login.microsoftonline.com/common/oauth2/v2.0/token");
            reveal_strlit("https://www.reddit.com/api/v1/access_token");
            reveal_strlit("https://api.login.yahoo.com/oauth2/get_token");
        }
        match self {
            Preset::Discord => "https://discord.com/api/oauth2/token",
            Preset::GitHub => "https://github.com/login/oauth/access_token",
            Preset::Google => "https://www.googleapis.com/oauth2/v4/token",
            Preset::Microsoft => "https://login.microsoftonline.com/common/oauth2/v2.0/token",
            Preset::Reddit => "https://www.reddit.com/api/v1/access_token",
            Preset::Yahoo => "https://api.login.yahoo.com/oauth2/get_token",
        }
    }
}

/// The two endpoints of one OAuth2 provider. Immutable once made.
#[derive(Debug, PartialEq, Eq)]
pub struct ProviderConfig {
    auth_uri: String,
    token_uri: String,
}

impl ProviderConfig {
    /// The authorization endpoint.
    pub closed spec fn spec_auth_uri(&self) -> Seq<char> {
        self.auth_uri@
    }

    /// The token endpoint.
    pub closed spec fn spec_token_uri(&self) -> Seq<char> {
        self.token_uri@
    }

    /// Both endpoints carry the scheme `https`, or `http`.
    pub open spec fn wf(&self) -> bool {
        &&& is_https_uri(self.spec_auth_uri()) || is_http_uri(self.spec_auth_uri())
        &&& is_https_uri(self.spec_token_uri()) || is_http_uri(self.spec_token_uri())
    }

    #[verifier::type_invariant]
    spec fn well_formed(&self) -> bool {
        self.wf()
    }

    fn checked(auth_uri: &str, token_uri: &str, allow_http: bool) -> (made: Result<
        ProviderConfig,
        Error,
    >)
        ensures
            is_endpoint(auth_uri@, allow_http) && is_endpoint(token_uri@, allow_http) ==> (
            made matches Ok(p) && p.wf() && p.spec_auth_uri() == auth_uri@ && p.spec_token_uri()
                == token_uri@),
            !is_endpoint(auth_uri@, allow_http) ==> fails_about(
                made,
                ErrorKind::ConfigError,
                "auth_uri"@,
            ),
            is_endpoint(auth_uri@, allow_http) && !is_endpoint(token_uri@, allow_http)
                ==> fails_about(made, ErrorKind::ConfigError, "token_uri"@),
    {
        if !check_endpoint(auth_uri, allow_http) {
            return Err(Error::new(ErrorKind::ConfigError, String::from_str("auth_uri")));
        }
        if !check_endpoint(token_uri, allow_http) {
            return Err(Error::new(ErrorKind::ConfigError, String::from_str("token_uri")));
        }
        Ok(
            ProviderConfig {
                auth_uri: String::from_str(auth_uri),
                token_uri: String::from_str(token_uri),
            },
        )
    }

    /// A provider with the given endpoints, both of which must be absolute
    /// HTTPS URLs. Otherwise the error is `ConfigError` and names the first
    /// field that is at fault.
    pub fn new(auth_uri: &str, token_uri: &str) -> (made: Result<ProviderConfig, Error>)
        ensures
            is_endpoint(auth_uri@, false) && is_endpoint(token_uri@, false) ==> (made matches Ok(p)
                && p.wf() && p.spec_auth_uri() == auth_uri@ && p.spec_token_uri() == token_uri@),
            !is_endpoint(auth_uri@, false) ==> fails_about(
                made,
                ErrorKind::ConfigError,
                "auth_uri"@,
            ),
            is_endpoint(auth_uri@, false) && !is_endpoint(token_uri@, false) ==> fails_about(
                made,
                ErrorKind::ConfigError,
                "token_uri"@,
            ),
    {
        ProviderConfig::checked(auth_uri, token_uri, false)
    }

    /// As [`ProviderConfig::new`], but plain HTTP endpoints are accepted too.
    /// Meant for tests and local development.
    pub fn new_allowing_http(auth_uri: &str, token_uri: &str) -> (made: Result<
        ProviderConfig,
        Error,
    >)
        ensures
            is_endpoint(auth_uri@, true) && is_endpoint(token_uri@, true) ==> (made matches Ok(p)
                && p.wf() && p.spec_auth_uri() == auth_uri@ && p.spec_token_uri() == token_uri@),
            !is_endpoint(auth_uri@, true) ==> fails_about(
                made,
                ErrorKind::ConfigError,
                "auth_uri"@,
            ),
            is_endpoint(auth_uri@, true) && !is_endpoint(token_uri@, true) ==> fails_about(
                made,
                ErrorKind::ConfigError,
                "token_uri"@,
            ),
    {
        ProviderConfig::checked(auth_uri, token_uri, true)
    }

    /// The endpoints of a built-in provider.
    pub fn from_preset(preset: Preset) -> (made: ProviderConfig)
        ensures
            made.wf(),
            made.spec_auth_uri() == preset.spec_auth_uri(),
            made.spec_token_uri() == preset.spec_token_uri(),
    {
        ProviderConfig {
            auth_uri: String::from_str(preset.auth_uri()),
            token_uri: String::from_str(preset.token_uri()),
        }
    }

    /// The endpoints of the built-in provider that goes by `name`.
    pub fn named(name: &str) -> (made: Option<ProviderConfig>)
        ensures
            match Preset::spec_from_name(name@) {
                Some(preset) => made matches Some(p) && p.wf() && p.spec_auth_uri()
                    == preset.spec_auth_uri() && p.spec_token_uri() == preset.spec_token_uri(),
                None => made is None,
            },
    {
        match Preset::from_name(name) {
            Some(preset) => Some(ProviderConfig::from_preset(preset)),
            None => None,
        }
    }

    /// The authorization endpoint.
    pub fn auth_uri(&self) -> (uri: &str)
        ensures
            uri@ == self.spec_auth_uri(),
    {
        self.auth_uri.as_str()
    }

    /// The token endpoint.
    pub fn token_uri(&self) -> (uri: &str)
        ensures
            uri@ == self.spec_token_uri(),
    {
        self.token_uri.as_str()
    }
}

impl Clone for ProviderConfig {
    fn clone(&self) -> (copy: Self)
        ensures
            copy == *self,
    {
        proof {
            use_type_invariant(self);
        }
        ProviderConfig { auth_uri: self.auth_uri.clone(), token_uri: self.token_uri.clone() }
    }
}

/// What one application needs to log users in at one provider. Immutable once
/// made, so it can be shared by all requests.
#[derive(Debug, PartialEq, Eq)]
pub struct OAuthConfig {
    provider: ProviderConfig,
    client_id: String,
    client_secret: String,
    redirect_uri: Option<String>,
}

impl OAuthConfig {
    /// The provider's endpoints.
    pub closed spec fn spec_provider(&self) -> ProviderConfig {
        self.provider
    }

    /// The client identifier.
    pub closed spec fn spec_client_id(&self) -> Seq<char> {
        self.client_id@
    }

    /// The client secret.
    pub closed spec fn spec_client_secret(&self) -> Seq<char> {
        self.client_secret@
    }

    /// The redirect URI, if one is configured.
    pub closed spec fn spec_redirect_uri(&self) -> Option<Seq<char>> {
        match self.redirect_uri {
            Some(uri) => Some(uri@),
            None => None,
        }
    }

    /// The provider is well formed, and neither the client identifier nor the
    /// client secret is empty.
    pub open spec fn wf(&self) -> bool {
        &&& self.spec_provider().wf()
        &&& self.spec_client_id().len() > 0
        &&& self.spec_client_secret().len() > 0
    }

    #[verifier::type_invariant]
    spec fn well_formed(&self) -> bool {
        self.wf()
    }

    /// A configuration for `provider`. The client identifier and the client
    /// secret must not be empty; otherwise the error is `ConfigError` and
    /// names the first field that is at fault.
    pub fn new(
        provider: ProviderConfig,
        client_id: String,
        client_secret: String,
        redirect_uri: Option<String>,
    ) -> (made: Result<OAuthConfig, Error>)
        ensures
            client_id@.len() > 0 && client_secret@.len() > 0 ==> (made matches Ok(c) && c.wf()
                && c.spec_provider() == provider && c.spec_client_id() == client_id@
                && c.spec_client_secret() == client_secret@ && c.spec_redirect_uri() == (
            match redirect_uri {
                Some(uri) => Some(uri@),
                None => None,
            })),
            client_id@.len() == 0 ==> fails_about(made, ErrorKind::ConfigError, "client_id"@),
            client_id@.len() > 0 && client_secret@.len() == 0 ==> fails_about(
                made,
                ErrorKind::ConfigError,
                "client_secret"@,
            ),
    {
        proof {
            use_type_invariant(&provider);
        }
        if client_id.as_str().is_empty() {
            return Err(Error::new(ErrorKind::ConfigError, String::from_str("client_id")));
        }
        if client_secret.as_str().is_empty() {
            return Err(Error::new(ErrorKind::ConfigError, String::from_str("client_secret")));
        }
        Ok(OAuthConfig { provider, client_id, client_secret, redirect_uri })
    }

    /// The provider's endpoints.
    pub fn provider(&self) -> (provider: &ProviderConfig)
        ensures
            *provider == self.spec_provider(),
            provider.wf(),
    {
        proof {
            use_type_invariant(self);
        }
        &self.provider
    }

    /// The client identifier. Never empty.
    pub fn client_id(&self) -> (id: &str)
        ensures
            id@ == self.spec_client_id(),
            id@.len() > 0,
    {
        proof {
            use_type_invariant(self);
        }
        self.client_id.as_str()
    }

    /// The client secret. Never empty.
    pub fn client_secret(&self) -> (secret: &str)
        ensures
            secret@ == self.spec_client_secret(),
            secret@.len() > 0,
    {
        proof {
            use_type_invariant(self);
        }
        self.client_secret.as_str()
    }

    /// The redirect URI, if one is configured.
    pub fn redirect_uri(&self) -> (uri: Option<&str>)
        ensures
            match uri {
                Some(text) => self.spec_redirect_uri() == Some(text@),
                None => self.spec_redirect_uri() is None,
            },
    {
        match &self.redirect_uri {
            Some(uri) => Some(uri.as_str()),
            None => None,
        }
    }
}

impl Clone for OAuthConfig {
    fn clone(&self) -> (copy: Self)
        ensures
            copy == *self,
    {
        proof {
            use_type_invariant(self);
        }
        let redirect_uri = match &self.redirect_uri {
            Some(uri) => Some(uri.clone()),
            None => None,
        };
        OAuthConfig {
            provider: self.provider.clone(),
            client_id: self.client_id.clone(),
            client_secret: self.client_secret.clone(),
            redirect_uri,
        }
    }
}

} // verus!
