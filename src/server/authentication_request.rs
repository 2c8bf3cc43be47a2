use vstd::prelude::*;

use crate::store::{Client, Store, StoreError};
use crate::text::{str_eq, trim, trimmed};

verus! {

/// An OpenID Connect authorization request, as received at the authorize
/// endpoint. After a successful validation `state` holds the server's own
/// correlation token and `display` is set.
#[derive(Debug, Clone)]
pub struct AuthenticationRequest {
    pub response_type: String,
    pub nonce: Option<String>,
    pub redirect_uri: String,
    pub client_id: String,
    pub scope: String,
    pub state: Option<String>,
    pub display: Option<String>,
    pub prompt: Option<String>,
    pub max_age: Option<String>,
    pub ui_locales: Option<String>,
    pub id_token_hint: Option<String>,
    pub login_hint: Option<String>,
    pub acr_values: Option<String>,
}

/// Why a request was refused by the client's fault.
#[derive(Debug, Clone, Copy, PartialEq, Eq, Structural)]
pub enum ClientErrKind {
    InvalidScope,
    MissingNonce,
    UnsupportedResponseType,
    InvalidRedirectUri,
    InsecureRedirectUri,
    UnknownClient,
    UnregisteredRedirectUri,
}

/// The text that tells a caller why its request was refused.
pub open spec fn message_text(k: ClientErrKind) -> Seq<char> {
    match k {
        ClientErrKind::InvalidScope => "only scope openid is supported"@,
        ClientErrKind::MissingNonce => "nonce field required"@,
        ClientErrKind::UnsupportedResponseType => "invalid response type"@,
        ClientErrKind::InvalidRedirectUri => "invalid redirect url"@,
        ClientErrKind::InsecureRedirectUri => "insecure redirect url"@,
        ClientErrKind::UnknownClient => "invalid client id"@,
        ClientErrKind::UnregisteredRedirectUri => "invalid redirect uri"@,
    }
}

impl ClientErrKind {
    /// A short text for the caller.
    pub fn message(&self) -> (r: &'static str)
        ensures
            r@ == message_text(*self),
    {
        match self {
            ClientErrKind::InvalidScope => "only scope openid is supported",
            ClientErrKind::MissingNonce => "nonce field required",
            ClientErrKind::UnsupportedResponseType => "invalid response type",
            ClientErrKind::InvalidRedirectUri => "invalid redirect url",
            ClientErrKind::InsecureRedirectUri => "insecure redirect url",
            ClientErrKind::UnknownClient => "invalid client id",
            ClientErrKind::UnregisteredRedirectUri => "invalid redirect uri",
        }
    }
}

/// A failed validation: the client's fault, or a failure of the store.
#[derive(Debug, Clone, PartialEq, Eq)]
pub enum OidcErr {
    InternalErr(StoreError),
    ClientErr(ClientErrKind),
}

/// The host part of a parsed URL.
#[derive(Debug, Clone, PartialEq, Eq)]
pub enum UrlHost {
    NoHost,
    Domain(String),
    /// An IPv4 address, most significant octet first.
    Ipv4(u32),
    Ipv6(u128),
}

/// What the validation reads of a parsed URL.
#[derive(Debug, Clone, PartialEq, Eq)]
pub struct ParsedUrl {
    pub scheme: String,
    pub host: UrlHost,
}

/// What `url::Url::parse` makes of a text: `None` where it is no absolute URL.
pub uninterp spec fn url_parse_of(s: Seq<char>) -> Option<ParsedUrl>;

/// Relies on `url::Url::parse` and on the `scheme` and `host` of its result.
#[verifier::external_body]
fn parse_url(s: &str) -> (r: Option<ParsedUrl>)
    ensures
        r == url_parse_of(s@),
{
    match url::Url::parse(s) {
        Err(_) => None,
        Ok(u) => {
            let host = match u.host() {
                None => UrlHost::NoHost,
                Some(url::Host::Domain(d)) => UrlHost::Domain(d.to_string()),
                Some(url::Host::Ipv4(a)) => UrlHost::Ipv4(u32::from(a)),
                Some(url::Host::Ipv6(a)) => UrlHost::Ipv6(u128::from(a)),
            };
            Some(ParsedUrl { scheme: u.scheme().to_string(), host })
        },
    }
}

/// Relies on `uuid::Uuid::new_v4` and the simple format of a UUID: 32
/// lower-case hexadecimal digits of random bits.
#[verifier::external_body]
pub(crate) fn new_correlation_token() -> (r: String)
    ensures
        is_token(r@),
{
    uuid::Uuid::new_v4().simple().to_string()
}

pub open spec fn is_lower_hex_digit(c: char) -> bool {
    ('0' <= c && c <= '9') || ('a' <= c && c <= 'f')
}

/// A correlation token: 32 lower-case hexadecimal digits.
pub open spec fn is_token(s: Seq<char>) -> bool {
    s.len() == 32 && forall|i: int| 0 <= i < s.len() ==> is_lower_hex_digit(#[trigger] s[i])
}

/// `o` with its text as a view.
pub open spec fn opt_view(o: Option<String>) -> Option<Seq<char>> {
    match o {
        Some(s) => Some(s@),
        None => None,
    }
}

/// A host to which a redirect over plain `http` is allowed.
pub open spec fn is_local_host(h: UrlHost) -> bool {
    match h {
        UrlHost::Domain(d) => d@ == "localhost"@,
        UrlHost::Ipv4(a) => a == 0x7f00_0001u32,
        _ => false,
    }
}

/// A redirect target over plain `http` to another machine.
pub open spec fn is_insecure(u: ParsedUrl) -> bool {
    u.scheme@ == "http"@ && !is_local_host(u.host)
}

/// An implicit-flow request needs a nonce that is present and not empty.
pub open spec fn nonce_missing(nonce: Option<String>) -> bool {
    match nonce {
        Some(n) => n@.len() == 0,
        None => true,
    }
}

/// The verdict on the redirect URI, before any client is looked up.
pub open spec fn redirect_error(redirect_uri: Seq<char>) -> Option<ClientErrKind> {
    match url_parse_of(trimmed(redirect_uri)) {
        None => Some(ClientErrKind::InvalidRedirectUri),
        Some(u) => if is_insecure(u) {
            Some(ClientErrKind::InsecureRedirectUri)
        } else {
            None
        },
    }
}

/// The first rule that `req` breaks among those checked before the client
/// lookup, in the order scope, response type and nonce, redirect URI.
pub open spec fn request_error(req: AuthenticationRequest) -> Option<ClientErrKind> {
    if req.scope@ != "openid"@ {
        Some(ClientErrKind::InvalidScope)
    } else if trimmed(req.response_type@) == "id_token"@ {
        if nonce_missing(req.nonce) {
            Some(ClientErrKind::MissingNonce)
        } else {
            redirect_error(req.redirect_uri@)
        }
    } else if trimmed(req.response_type@) == "code"@ {
        redirect_error(req.redirect_uri@)
    } else {
        Some(ClientErrKind::UnsupportedResponseType)
    }
}

/// Whether `client` lists `uri` among its redirect URLs, character for
/// character.
pub open spec fn registers(client: Client, uri: Seq<char>) -> bool {
    exists|i: int| 0 <= i < client.redirect_urls@.len() && (#[trigger] client.redirect_urls@[i])@ == uri
}

/// The verdict once the store has answered the lookup of the client.
pub open spec fn client_outcome(
    req: AuthenticationRequest,
    lookup: Result<Option<Client>, StoreError>,
) -> Result<(), OidcErr> {
    match lookup {
        Err(e) => Err(OidcErr::InternalErr(e)),
        Ok(None) => Err(OidcErr::ClientErr(ClientErrKind::UnknownClient)),
        Ok(Some(c)) => if registers(c, trimmed(req.redirect_uri@)) {
            Ok(())
        } else {
            Err(OidcErr::ClientErr(ClientErrKind::UnregisteredRedirectUri))
        },
    }
}

/// The request after a successful validation: `display` defaults to `page`,
/// `state` is the server's token, the other fields are kept.
pub open spec fn normalized(
    new: AuthenticationRequest,
    old: AuthenticationRequest,
    token: Seq<char>,
) -> bool {
    &&& new.response_type == old.response_type
    &&& new.nonce == old.nonce
    &&& new.redirect_uri == old.redirect_uri
    &&& new.client_id == old.client_id
    &&& new.scope == old.scope
    &&& opt_view(new.state) == Some(token)
    &&& opt_view(new.display) == match old.display {
        Some(d) => Some(d@),
        None => Some("page"@),
    }
    &&& new.prompt == old.prompt
    &&& new.max_age == old.max_age
    &&& new.ui_locales == old.ui_locales
    &&& new.id_token_hint == old.id_token_hint
    &&& new.login_hint == old.login_hint
    &&& new.acr_values == old.acr_values
}

impl AuthenticationRequest {
    /// Checks the rules that need no client data: the scope, the response
    /// type with its nonce, and the redirect URI.
    pub fn check_request(&self) -> (r: Result<(), OidcErr>)
        ensures
            r == match request_error(*self) {
                Some(k) => Err(OidcErr::ClientErr(k)),
                None => Ok(()),
            },
    {
        if !str_eq(self.scope.as_str(), "openid") {
            return Err(OidcErr::ClientErr(ClientErrKind::InvalidScope));
        }
        let response_type = trim(self.response_type.as_str());
        if str_eq(response_type, "id_token") {
            let missing = match &self.nonce {
                Some(n) => n.as_str().unicode_len() == 0,
                None => true,
            };
            if missing {
                return Err(OidcErr::ClientErr(ClientErrKind::MissingNonce));
            }
        } else if !str_eq(response_type, "code") {
            return Err(OidcErr::ClientErr(ClientErrKind::UnsupportedResponseType));
        }
        match check_redirect_uri(self.redirect_uri.as_str()) {
            Some(k) => Err(OidcErr::ClientErr(k)),
            None => Ok(()),
        }
    }

    /// Decides on the answer of the store to the lookup of the request's
    /// client.
    pub fn check_client(&self, lookup: &Result<Option<Client>, StoreError>) -> (r: Result<(), OidcErr>)
        ensures
            r == client_outcome(*self, *lookup),
    {
        match lookup {
            Err(e) => Err(OidcErr::InternalErr(e.duplicate())),
            Ok(None) => Err(OidcErr::ClientErr(ClientErrKind::UnknownClient)),
            Ok(Some(c)) => {
                if is_registered(c, trim(self.redirect_uri.as_str())) {
                    Ok(())
                } else {
                    Err(OidcErr::ClientErr(ClientErrKind::UnregisteredRedirectUri))
                }
            },
        }
    }

    /// Sets the default display and replaces `state` by `token`.
    pub fn normalize(&mut self, token: String)
        ensures
            normalized(*final(self), *old(self), token@),
    {
        if self.display.is_none() {
            self.display = Some(String::from_str("page"));
        }
        self.state = Some(token);
    }

    /// Validation once the outside answers are in: `lookup` is what the store
    /// answered for the client, `token` the fresh correlation token. On success
    /// the request is normalized; on failure it is left as it was.
    pub fn complete_validation(
        &mut self,
        lookup: &Result<Option<Client>, StoreError>,
        token: String,
    ) -> (r: Result<(), OidcErr>)
        ensures
            r == client_outcome(*old(self), *lookup),
            r is Ok ==> normalized(*final(self), *old(self), token@),
            r is Err ==> *final(self) == *old(self),
    {
        let r = self.check_client(lookup);
        if r.is_ok() {
            self.normalize(token);
        }
        r
    }

    /// Validates the request against the protocol rules and the registered
    /// client data of `store`. The rules are checked in order: scope, response
    /// type and nonce, redirect URI, client, registered redirect URL. On
    /// success `state` holds a fresh correlation token and `display` is set.
    pub fn validate<S: Store>(&mut self, store: &S) -> (r: Result<(), OidcErr>)
        ensures
            request_error(*old(self)) matches Some(k) ==> r == Err::<(), OidcErr>(
                OidcErr::ClientErr(k),
            ) && *final(self) == *old(self),
            request_error(*old(self)) is None ==> exists|lookup: Result<Option<Client>, StoreError>|
                r == #[trigger] client_outcome(*old(self), lookup),
            r is Ok ==> normalized(*final(self), *old(self), final(self).state->0@),
            r is Ok ==> is_token(final(self).state->0@),
            r is Err ==> *final(self) == *old(self),
    {
        let checked = self.check_request();
        if checked.is_err() {
            return checked;
        }
        let lookup = store.get_client(trim(self.client_id.as_str()));
        let token = new_correlation_token();
        let ghost t = token@;
        let r = self.complete_validation(&lookup, token);
        proof {
            if r is Ok {
                assert(opt_view(self.state) == Some(t));
            }
        }
        r
    }
}

/// The verdict on a redirect URI before any client is looked up.
pub fn check_redirect_uri(redirect_uri: &str) -> (r: Option<ClientErrKind>)
    ensures
        r == redirect_error(redirect_uri@),
{
    redirect_verdict(&parse_url(trim(redirect_uri)))
}

/// The verdict on a redirect URI from what the URL parser made of it: no URL
/// is `InvalidRedirectUri`, plain `http` to a host other than `localhost` or
/// `127.0.0.1` is `InsecureRedirectUri`.
pub fn redirect_verdict(parsed: &Option<ParsedUrl>) -> (r: Option<ClientErrKind>)
    ensures
        r == match *parsed {
            None => Some(ClientErrKind::InvalidRedirectUri),
            Some(u) => if is_insecure(u) {
                Some(ClientErrKind::InsecureRedirectUri)
            } else {
                None
            },
        },
{
    match parsed {
        None => Some(ClientErrKind::InvalidRedirectUri),
        Some(u) => {
            if str_eq(u.scheme.as_str(), "http") && !is_local(&u.host) {
                Some(ClientErrKind::InsecureRedirectUri)
            } else {
                None
            }
        },
    }
}

fn is_local(h: &UrlHost) -> (r: bool)
    ensures
        r == is_local_host(*h),
{
    match h {
        UrlHost::Domain(d) => str_eq(d.as_str(), "localhost"),
        UrlHost::Ipv4(a) => *a == 0x7f00_0001u32,
        _ => false,
    }
}

/// Whether `client` lists `uri` among its redirect URLs.
pub fn is_registered(client: &Client, uri: &str) -> (r: bool)
    ensures
        r == registers(*client, uri@),
{
    let mut i: usize = 0;
    while i < client.redirect_urls.len()
        invariant
            i <= client.redirect_urls@.len(),
            forall|j: int| 0 <= j < i ==> (#[trigger] client.redirect_urls@[j])@ != uri@,
        decreases client.redirect_urls@.len() - i,
    {
        if str_eq(client.redirect_urls[i].as_str(), uri) {
            return true;
        }
        i = i + 1;
    }
    false
}

/// A request whose scope is not exactly `openid` is refused with
/// `InvalidScope`, whatever its other fields hold.
pub proof fn lemma_scope_must_be_openid(req: AuthenticationRequest)
    requires
        req.scope@ != "openid"@,
    ensures
        request_error(req) == Some(ClientErrKind::InvalidScope),
{
}

/// An implicit-flow request (scope `openid`) whose nonce is absent or empty is
/// refused with `MissingNonce`; with a non-empty nonce the same request passes
/// that check.
pub proof fn lemma_implicit_flow_needs_nonce(req: AuthenticationRequest, nonce: String)
    requires
        req.scope@ == "openid"@,
        trimmed(req.response_type@) == "id_token"@,
        nonce@.len() > 0,
    ensures
        nonce_missing(req.nonce) ==> request_error(req) == Some(ClientErrKind::MissingNonce),
        request_error(AuthenticationRequest { nonce: Some(nonce), ..req }) != Some(
            ClientErrKind::MissingNonce,
        ),
{
    let with_nonce = AuthenticationRequest { nonce: Some(nonce), ..req };
    assert(!nonce_missing(with_nonce.nonce));
    match url_parse_of(trimmed(req.redirect_uri@)) {
        None => {},
        Some(u) => {},
    }
}

/// A request that passes the scope and response-type checks and whose
/// redirect URI is plain `http` to a host other than `localhost` or
/// `127.0.0.1` is refused with `InsecureRedirectUri`; an `https` redirect URI
/// of any host passes that check.
pub proof fn lemma_plain_http_only_to_local_host(req: AuthenticationRequest)
    requires
        req.scope@ == "openid"@,
        trimmed(req.response_type@) == "code"@ || (trimmed(req.response_type@) == "id_token"@
            && !nonce_missing(req.nonce)),
        url_parse_of(trimmed(req.redirect_uri@)) is Some,
    ensures
        is_insecure(url_parse_of(trimmed(req.redirect_uri@))->0) ==> request_error(req) == Some(
            ClientErrKind::InsecureRedirectUri,
        ),
        url_parse_of(trimmed(req.redirect_uri@))->0.scheme@ == "https"@ ==> request_error(req)
            != Some(ClientErrKind::InsecureRedirectUri),
{
    reveal_strlit("http");
    reveal_strlit("https");
    reveal_strlit("id_token");
    reveal_strlit("code");
    assert("code"@.len() != "id_token"@.len());
    let u = url_parse_of(trimmed(req.redirect_uri@))->0;
    assert(request_error(req) == redirect_error(req.redirect_uri@));
    if u.scheme@ == "https"@ {
        assert(u.scheme@.len() != "http"@.len());
    }
}

/// Once the request's own checks pass and the store resolves the client, a
/// redirect URI (trimmed) that is not one of the client's registered URLs is
/// refused with `UnregisteredRedirectUri`, and one that is registered passes.
pub proof fn lemma_redirect_must_be_registered(req: AuthenticationRequest, client: Client)
    ensures
        !registers(client, trimmed(req.redirect_uri@)) ==> client_outcome(req, Ok(Some(client)))
            == Err::<(), OidcErr>(OidcErr::ClientErr(ClientErrKind::UnregisteredRedirectUri)),
        registers(client, trimmed(req.redirect_uri@)) ==> client_outcome(req, Ok(Some(client)))
            == Ok::<(), OidcErr>(()),
{
}

/// A client that the store does not know gives `UnknownClient`; a failure of
/// the store during the lookup gives `InternalErr` with that failure, never
/// `UnknownClient`.
pub proof fn lemma_client_lookup_outcomes(req: AuthenticationRequest, e: StoreError)
    ensures
        client_outcome(req, Ok(None)) == Err::<(), OidcErr>(
            OidcErr::ClientErr(ClientErrKind::UnknownClient),
        ),
        client_outcome(req, Err(e)) == Err::<(), OidcErr>(OidcErr::InternalErr(e)),
{
}

} // verus!
