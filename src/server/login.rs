use vstd::prelude::*;

use base64::Engine;
use vstd::utf8::encode_utf8;

use crate::server::authentication_request::{opt_view, AuthenticationRequest};
use crate::server::context::{context_decoding, copy_text, decode_context};
use crate::server::id_token::IdTokenClaims;
use crate::server::session::SessionTracker;
use crate::store::{Store, StoreError, User};
use crate::text::{str_eq, trim, trimmed};

verus! {

/// Seconds for which an identity token is valid.
pub const ID_TOKEN_VALIDITY_SECS: u64 = 1200;

/// Why a login attempt failed.
#[derive(Debug, Clone, PartialEq, Eq)]
pub enum LoginError {
    /// No pending-context cookie came with the login.
    MissingContext,
    /// The pending-context cookie does not hold a request.
    CorruptContext,
    /// The submitted state is not the state of the pending request.
    StateMismatch,
    /// The credential store failed.
    InternalError(StoreError),
    /// No user has these credentials.
    UserNotFound,
}

impl LoginError {
    /// The HTTP status that answers this failure.
    pub fn status(&self) -> (r: u16)
        ensures
            r == match self {
                LoginError::InternalError(_) => 500u16,
                LoginError::UserNotFound => 404u16,
                _ => 400u16,
            },
    {
        match self {
            LoginError::InternalError(_) => 500,
            LoginError::UserNotFound => 404,
            _ => 400,
        }
    }
}

/// The fields of the login form.
#[derive(Debug, Clone)]
pub struct LoginForm {
    pub email: String,
    pub password: String,
    pub state: String,
}

/// A successful login: the claims of the identity token to deliver, how to
/// deliver it, where, and with which state.
#[derive(Debug, Clone)]
pub struct LoginGrant {
    pub claims: IdTokenClaims,
    /// Whether the token goes out behind an authorization code (else it is
    /// signed and sent directly).
    pub code_flow: bool,
    pub redirect_uri: String,
    pub state: String,
}

/// The SHA-256 digest of `data`.
pub uninterp spec fn sha256_of(data: Seq<u8>) -> Seq<u8>;

/// The standard padded base64 text of `data`.
pub uninterp spec fn base64_of(data: Seq<u8>) -> Seq<char>;

/// Relies on `openssl::sha::sha256`: the 32-byte digest of its input.
#[verifier::external_body]
fn sha256(data: &[u8]) -> (r: Vec<u8>)
    ensures
        r@ == sha256_of(data@),
        r@.len() == 32,
{
    openssl::sha::sha256(data).to_vec()
}

/// Relies on `base64`'s standard engine, which encodes with padding.
#[verifier::external_body]
fn base64_encode(data: &[u8]) -> (r: String)
    ensures
        r@ == base64_of(data@),
{
    base64::engine::general_purpose::STANDARD.encode(data)
}

/// The stored form of a password: the base64 text of the SHA-256 digest of
/// the password followed by the salt, in UTF-8.
pub open spec fn password_hash(password: Seq<char>, salt: Seq<char>) -> Seq<char> {
    base64_of(sha256_of(encode_utf8(password + salt)))
}

/// Hashes `password` with the process-wide `salt`.
pub fn hash_password(password: &str, salt: &str) -> (r: String)
    ensures
        r@ == password_hash(password@, salt@),
{
    let mut salted = String::from_str(password);
    salted.append(salt);
    let digest = sha256(salted.as_str().as_bytes());
    base64_encode(digest.as_slice())
}

/// The verdict on the pending request read from the context cookie, against
/// the state submitted with the login form.
pub open spec fn state_verdict(
    decoded: Option<AuthenticationRequest>,
    form_state: Seq<char>,
) -> Result<AuthenticationRequest, LoginError> {
    match decoded {
        None => Err(LoginError::CorruptContext),
        Some(d) => if opt_view(d.state) == Some(form_state) {
            Ok(d)
        } else {
            Err(LoginError::StateMismatch)
        },
    }
}

/// Compares the state of the decoded pending request with the submitted one.
pub fn check_state(decoded: Option<AuthenticationRequest>, form_state: &str) -> (r: Result<
    AuthenticationRequest,
    LoginError,
>)
    ensures
        r == state_verdict(decoded, form_state@),
{
    match decoded {
        None => Err(LoginError::CorruptContext),
        Some(d) => {
            let same = match &d.state {
                Some(s) => str_eq(s.as_str(), form_state),
                None => false,
            };
            if same {
                Ok(d)
            } else {
                Err(LoginError::StateMismatch)
            }
        },
    }
}

/// Reads the pending request from the context cookie and ties it to the
/// login form by its state: no cookie gives `MissingContext`, a cookie that
/// holds no request `CorruptContext`, another state `StateMismatch`.
pub fn check_context(cookie: Option<&str>, form_state: &str) -> (r: Result<
    AuthenticationRequest,
    LoginError,
>)
    ensures
        cookie is None ==> r == Err::<AuthenticationRequest, LoginError>(
            LoginError::MissingContext,
        ),
        cookie matches Some(c) ==> exists|d: Option<AuthenticationRequest>|
            context_decoding(c@, d) && r == #[trigger] state_verdict(d, form_state@),
{
    match cookie {
        None => Err(LoginError::MissingContext),
        Some(c) => {
            let decoded = decode_context(c);
            let ghost d = decoded;
            let r = check_state(decoded, form_state);
            assert(context_decoding(c@, d) && r == state_verdict(d, form_state@));
            r
        },
    }
}

/// A login whose submitted state is not the state of the pending request is
/// refused with `StateMismatch` by the context check, which `login` passes
/// before it hashes or looks up any credential.
pub proof fn lemma_state_mismatch_rejected(pending: AuthenticationRequest, form_state: Seq<char>)
    requires
        opt_view(pending.state) != Some(form_state),
    ensures
        state_verdict(Some(pending), form_state) == Err::<AuthenticationRequest, LoginError>(
            LoginError::StateMismatch,
        ),
{
}

/// Whether `g` is the grant owed to `user` for the pending request `req`:
/// claims issued by the configured issuer (else the requested host) to the
/// request's client for the user's e-mail, valid for twenty minutes, by
/// password, with the request's nonce; the code flow for response type
/// `code`; the request's redirect URI (trimmed) and `state`.
pub open spec fn is_grant(
    g: LoginGrant,
    req: AuthenticationRequest,
    user: User,
    issuer: Option<String>,
    host: Seq<char>,
    state: Seq<char>,
) -> bool {
    &&& g.claims.issuer@ == match issuer {
        Some(i) => i@,
        None => host,
    }
    &&& g.claims.subject@ == user.email@
    &&& g.claims.audience@.len() == 1
    &&& g.claims.audience@[0]@ == req.client_id@
    &&& g.claims.validity_secs == ID_TOKEN_VALIDITY_SECS
    &&& g.claims.auth_methods@.len() == 1
    &&& g.claims.auth_methods@[0]@ == "password"@
    &&& g.claims.nonce == req.nonce
    &&& g.code_flow == (trimmed(req.response_type@) == "code"@)
    &&& g.redirect_uri@ == trimmed(req.redirect_uri@)
    &&& g.state@ == state
}

/// Decides on the answer of the store to the credential lookup for the
/// pending request `req`, whose state is `state`.
pub fn login_outcome(
    req: &AuthenticationRequest,
    lookup: &Result<Option<User>, StoreError>,
    issuer: &Option<String>,
    host: &str,
    state: &str,
) -> (r: Result<LoginGrant, LoginError>)
    ensures
        *lookup matches Err(e) ==> r == Err::<LoginGrant, LoginError>(LoginError::InternalError(e)),
        *lookup matches Ok(None) ==> r == Err::<LoginGrant, LoginError>(LoginError::UserNotFound),
        *lookup matches Ok(Some(u)) ==> r matches Ok(g) && is_grant(
            g,
            *req,
            u,
            *issuer,
            host@,
            state@,
        ),
{
    match lookup {
        Err(e) => Err(LoginError::InternalError(e.duplicate())),
        Ok(None) => Err(LoginError::UserNotFound),
        Ok(Some(user)) => {
            let iss = match issuer {
                Some(i) => i.clone(),
                None => String::from_str(host),
            };
            let audience = vec![req.client_id.clone()];
            let methods = vec![String::from_str("password")];
            let claims = IdTokenClaims::build(
                iss,
                user.email.clone(),
                audience,
                ID_TOKEN_VALIDITY_SECS,
            ).amr(methods).nonce(copy_text(&req.nonce));
            let code_flow = str_eq(trim(req.response_type.as_str()), "code");
            Ok(
                LoginGrant {
                    claims,
                    code_flow,
                    redirect_uri: String::from_str(trim(req.redirect_uri.as_str())),
                    state: String::from_str(state),
                },
            )
        },
    }
}

/// Handles a submitted login form. The pending request comes from the
/// context cookie and must carry the submitted state; only then are the
/// credentials hashed with `salt` and looked up in `store`.
pub fn login<S: Store>(
    store: &S,
    cookie: Option<&str>,
    form: &LoginForm,
    salt: &str,
    issuer: &Option<String>,
    host: &str,
) -> (r: Result<LoginGrant, LoginError>)
    ensures
        cookie is None ==> r == Err::<LoginGrant, LoginError>(LoginError::MissingContext),
        cookie matches Some(c) ==> exists|d: Option<AuthenticationRequest>|
            #[trigger] context_decoding(c@, d) && match state_verdict(d, form.state@) {
                Err(e) => r == Err::<LoginGrant, LoginError>(e),
                Ok(req) => match r {
                    Ok(g) => exists|u: User| #[trigger]
                        is_grant(g, req, u, *issuer, host@, form.state@),
                    Err(e) => e is UserNotFound || e is InternalError,
                },
            },
{
    let req = match check_context(cookie, form.state.as_str()) {
        Ok(req) => req,
        Err(e) => return Err(e),
    };
    let hashed = hash_password(form.password.as_str(), salt);
    let lookup = store.get_user(form.email.as_str(), hashed.as_str());
    let r = login_outcome(&req, &lookup, issuer, host, form.state.as_str());
    proof {
        if r is Ok {
            let u = lookup->Ok_0->0;
            assert(is_grant(r->Ok_0, req, u, *issuer, host@, form.state@));
        }
    }
    r
}

/// Delivers a code-flow grant: stores its claims under a fresh authorization
/// code and returns the redirect location carrying the code and the state.
pub fn deliver_code(tracker: &mut SessionTracker, grant: LoginGrant) -> (r: String)
    ensures
        exists|code: Seq<char>|
            #[trigger] final(tracker).code(code) == Some(grant.claims) && r@ == code_location_text(
                grant.redirect_uri@,
                code,
                grant.state@,
            ),
{
    let code = tracker.issue_code(grant.claims);
    code_location(grant.redirect_uri.as_str(), code.as_str(), grant.state.as_str())
}

/// The redirect location of the code flow.
pub open spec fn code_location_text(redirect_uri: Seq<char>, code: Seq<char>, state: Seq<char>) -> Seq<
    char,
> {
    redirect_uri + "?code="@ + code + "&state="@ + state
}

/// The redirect location of the implicit flow.
pub open spec fn implicit_location_text(
    redirect_uri: Seq<char>,
    jwt: Seq<char>,
    expires_in: nat,
    state: Seq<char>,
) -> Seq<char> {
    redirect_uri + "?token_type=bearer&id_token="@ + jwt + "&expires_in="@ + decimal_text(
        expires_in,
    ) + "&state="@ + state
}

/// Builds the redirect location of the code flow.
pub fn code_location(redirect_uri: &str, code: &str, state: &str) -> (r: String)
    ensures
        r@ == code_location_text(redirect_uri@, code@, state@),
{
    let mut r = String::from_str(redirect_uri);
    r.append("?code=");
    r.append(code);
    r.append("&state=");
    r.append(state);
    r
}

/// Builds the redirect location of the implicit flow, which carries the
/// signed token `jwt` and its lifetime `expires_in` in seconds.
pub fn implicit_location(redirect_uri: &str, jwt: &str, expires_in: u64, state: &str) -> (r:
    String)
    ensures
        r@ == implicit_location_text(redirect_uri@, jwt@, expires_in as nat, state@),
{
    let mut r = String::from_str(redirect_uri);
    r.append("?token_type=bearer&id_token=");
    r.append(jwt);
    r.append("&expires_in=");
    let digits = decimal(expires_in);
    r.append(digits.as_str());
    r.append("&state=");
    r.append(state);
    r
}

/// The decimal digit for `d`.
pub open spec fn digit_char(d: nat) -> char {
    if d == 0 {
        '0'
    } else if d == 1 {
        '1'
    } else if d == 2 {
        '2'
    } else if d == 3 {
        '3'
    } else if d == 4 {
        '4'
    } else if d == 5 {
        '5'
    } else if d == 6 {
        '6'
    } else if d == 7 {
        '7'
    } else if d == 8 {
        '8'
    } else {
        '9'
    }
}

/// `n` in decimal, without leading zeros.
pub open spec fn decimal_text(n: nat) -> Seq<char>
    decreases n,
{
    if n < 10 {
        seq![digit_char(n)]
    } else {
        decimal_text(n / 10).push(digit_char(n % 10))
    }
}

fn digit_text(d: u64) -> (r: &'static str)
    requires
        d < 10,
    ensures
        r@ == seq![digit_char(d as nat)],
{
    proof {
        reveal_strlit("0");
        reveal_strlit("1");
        reveal_strlit("2");
        reveal_strlit("3");
        reveal_strlit("4");
        reveal_strlit("5");
        reveal_strlit("6");
        reveal_strlit("7");
        reveal_strlit("8");
        reveal_strlit("9");
    }
    let r = if d == 0 {
        "0"
    } else if d == 1 {
        "1"
    } else if d == 2 {
        "2"
    } else if d == 3 {
        "3"
    } else if d == 4 {
        "4"
    } else if d == 5 {
        "5"
    } else if d == 6 {
        "6"
    } else if d == 7 {
        "7"
    } else if d == 8 {
        "8"
    } else {
        "9"
    };
    assert(r@ =~= seq![digit_char(d as nat)]);
    r
}

/// `n` written in decimal.
pub fn decimal(n: u64) -> (r: String)
    ensures
        r@ == decimal_text(n as nat),
    decreases n,
{
    if n < 10 {
        String::from_str(digit_text(n))
    } else {
        let mut r = decimal(n / 10);
        r.append(digit_text(n % 10));
        r
    }
}

} // verus!
