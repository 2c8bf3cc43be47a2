use openid_rs::server::authentication_request::{
    redirect_verdict, AuthenticationRequest, ClientErrKind, OidcErr, ParsedUrl, UrlHost,
};
use openid_rs::server::authorize;
use openid_rs::server::session::SessionTracker;
use openid_rs::store::{Client, Store, StoreError, User};

/// A store that holds its users and clients in memory.
struct MemoryStore {
    users: Vec<User>,
    clients: Vec<Client>,
    failing: bool,
}

impl Store for MemoryStore {
    fn get_user(&self, email: &str, pwd: &str) -> Result<Option<User>, StoreError> {
        if self.failing {
            return Err(StoreError::IoError(String::from("disk gone")));
        }
        Ok(self
            .users
            .iter()
            .find(|u| u.email == email && u.password.as_deref() == Some(pwd))
            .cloned())
    }
    fn get_client(&self, reference: &str) -> Result<Option<Client>, StoreError> {
        if self.failing {
            return Err(StoreError::InternalError(String::from("database locked")));
        }
        Ok(self
            .clients
            .iter()
            .find(|c| c.name == reference || c.id == reference)
            .cloned())
    }
    fn save_user(&self, _user: &User) -> Result<(), StoreError> {
        Ok(())
    }
    fn save_client(&self, _client: &Client) -> Result<(), StoreError> {
        Ok(())
    }
    fn delete_user(&self, _reference: &str) -> Result<(), StoreError> {
        Ok(())
    }
    fn delete_client(&self, _reference: &str) -> Result<(), StoreError> {
        Ok(())
    }
    fn get_users(&self) -> Result<Vec<User>, StoreError> {
        Ok(self.users.clone())
    }
    fn get_clients(&self) -> Result<Vec<Client>, StoreError> {
        Ok(self.clients.clone())
    }
    fn add_group(&self, _reference: &str, _group_name: &str) -> Result<(), StoreError> {
        Ok(())
    }
    fn remove_group(&self, _reference: &str, _group_name: &str) -> Result<(), StoreError> {
        Ok(())
    }
    fn add_redirect_url(&self, _reference: &str, _redirect_url: &str) -> Result<(), StoreError> {
        Ok(())
    }
    fn remove_redirect_url(&self, _reference: &str, _redirect_url: &str) -> Result<(), StoreError> {
        Ok(())
    }
}

fn foobar_store() -> MemoryStore {
    MemoryStore {
        users: vec![],
        clients: vec![Client {
            id: String::from("111"),
            name: String::from("foobar"),
            redirect_urls: vec![
                String::from("https://example.com/cb"),
                String::from("http://localhost/cb"),
                String::from("http://example.com/cb"),
            ],
        }],
        failing: false,
    }
}

fn request(
    response_type: &str,
    nonce: Option<&str>,
    redirect_uri: &str,
    client_id: &str,
    scope: &str,
) -> AuthenticationRequest {
    AuthenticationRequest {
        response_type: String::from(response_type),
        nonce: nonce.map(String::from),
        redirect_uri: String::from(redirect_uri),
        client_id: String::from(client_id),
        scope: String::from(scope),
        state: None,
        display: None,
        prompt: None,
        max_age: None,
        ui_locales: None,
        id_token_hint: None,
        login_hint: None,
        acr_values: None,
    }
}

fn outcome(store: &MemoryStore, mut req: AuthenticationRequest) -> Result<(), OidcErr> {
    authorize(&mut req, store).map(|_| ())
}

#[test]
fn test_authorization_endpoint() {
    let store = foobar_store();
    assert!(store.get_client("foobar").expect("load client").is_some());

    let sep = "\n    ";
    let r = request(&format!("id_token{}", sep), Some(&format!("123{}", sep)),
        &format!("https://example.com/cb{}", sep), "foobar", "openid");
    assert!(outcome(&store, r).is_ok());

    // code flow is allowed to leave nonce empty
    let r = request(&format!("code{}", sep), None, &format!("https://example.com/cb{}", sep),
        "foobar", "openid");
    assert!(outcome(&store, r).is_ok());

    // http is allowed as a callback protocol if the host is localhost
    let r = request(&format!("code{}", sep), None, &format!("http://localhost/cb{}", sep),
        "foobar", "openid");
    assert!(outcome(&store, r).is_ok());

    // http is NOT allowed as a callback protocol if the host is NOT localhost
    let r = request(&format!("code{}", sep), None, &format!("http://example.com/cb{}", sep),
        "foobar", "openid");
    assert!(outcome(&store, r).is_err());

    // only registered callbacks are allowed
    let r = request(&format!("id_token{}", sep), Some(&format!("123{}", sep)),
        &format!("https://example.com/wrong_cb{}", sep), "foobar", "openid");
    assert!(outcome(&store, r).is_err());

    // implicit flow must have nonce
    let r = request(&format!("id_token{}", sep), None, &format!("https://example.com/cb{}", sep),
        "foobar", "openid");
    assert!(outcome(&store, r).is_err());

    // scope must be openid
    let r = request("code\n            ", None, "https://example.com/cb", "foobar", "bla");
    assert!(outcome(&store, r).is_err());

    // only registered clients are allowed
    let r = request("code\n            ", None, "https://example.com/cb", "222", "openid");
    assert!(outcome(&store, r).is_err());

    // the response type must be either code or token
    let r = request("asdf\n            ", None, "https://example.com/cb", "foobar", "openid");
    assert!(outcome(&store, r).is_err());
}

#[test]
fn scope_other_than_openid_is_invalid_scope() {
    let store = foobar_store();
    for scope in ["bla", "openid ", "OPENID", "", "openid profile"] {
        let r = request("code", None, "https://example.com/cb", "foobar", scope);
        assert_eq!(outcome(&store, r), Err(OidcErr::ClientErr(ClientErrKind::InvalidScope)));
    }
    // scope is checked before everything else
    let r = request("bogus", None, "not a url", "nobody", "email");
    assert_eq!(outcome(&store, r), Err(OidcErr::ClientErr(ClientErrKind::InvalidScope)));
}

#[test]
fn implicit_flow_without_nonce_is_missing_nonce() {
    let store = foobar_store();
    let r = request("id_token", None, "https://example.com/cb", "foobar", "openid");
    assert_eq!(outcome(&store, r), Err(OidcErr::ClientErr(ClientErrKind::MissingNonce)));
    let r = request("id_token", Some(""), "https://example.com/cb", "foobar", "openid");
    assert_eq!(outcome(&store, r), Err(OidcErr::ClientErr(ClientErrKind::MissingNonce)));
    let r = request("id_token", Some("abc"), "https://example.com/cb", "foobar", "openid");
    assert_eq!(outcome(&store, r), Ok(()));
}

#[test]
fn unknown_response_type_is_unsupported() {
    let store = foobar_store();
    let r = request("token", None, "https://example.com/cb", "foobar", "openid");
    assert_eq!(
        outcome(&store, r),
        Err(OidcErr::ClientErr(ClientErrKind::UnsupportedResponseType))
    );
}

#[test]
fn unparsable_redirect_is_invalid_redirect_uri() {
    let store = foobar_store();
    for uri in ["example.com/cb", "", "/cb", "http://"] {
        let r = request("code", None, uri, "foobar", "openid");
        assert_eq!(outcome(&store, r), Err(OidcErr::ClientErr(ClientErrKind::InvalidRedirectUri)));
    }
}

#[test]
fn plain_http_to_remote_host_is_insecure() {
    let store = foobar_store();
    let r = request("code", None, "http://example.com/cb", "foobar", "openid");
    assert_eq!(outcome(&store, r), Err(OidcErr::ClientErr(ClientErrKind::InsecureRedirectUri)));
    let r = request("code", None, "http://127.0.0.2/cb", "foobar", "openid");
    assert_eq!(outcome(&store, r), Err(OidcErr::ClientErr(ClientErrKind::InsecureRedirectUri)));
    // https passes this check; the URL is then not registered
    let r = request("code", None, "https://example.org/cb", "foobar", "openid");
    assert_eq!(
        outcome(&store, r),
        Err(OidcErr::ClientErr(ClientErrKind::UnregisteredRedirectUri))
    );
}

#[test]
fn plain_http_to_loopback_address_is_accepted() {
    let mut store = foobar_store();
    store.clients[0].redirect_urls.push(String::from("http://127.0.0.1/cb"));
    let r = request("code", None, "http://127.0.0.1/cb", "foobar", "openid");
    assert_eq!(outcome(&store, r), Ok(()));
}

#[test]
fn unregistered_redirect_is_refused() {
    let store = foobar_store();
    let r = request("code", None, "https://example.com/wrong_cb", "foobar", "openid");
    assert_eq!(
        outcome(&store, r),
        Err(OidcErr::ClientErr(ClientErrKind::UnregisteredRedirectUri))
    );
    let r = request("code", None, "https://example.com/cb/", "foobar", "openid");
    assert_eq!(
        outcome(&store, r),
        Err(OidcErr::ClientErr(ClientErrKind::UnregisteredRedirectUri))
    );
}

#[test]
fn unknown_client_and_store_failure() {
    let store = foobar_store();
    let r = request("code", None, "https://example.com/cb", "222", "openid");
    assert_eq!(outcome(&store, r), Err(OidcErr::ClientErr(ClientErrKind::UnknownClient)));
    let mut failing = foobar_store();
    failing.failing = true;
    let r = request("code", None, "https://example.com/cb", "foobar", "openid");
    assert_eq!(
        outcome(&failing, r),
        Err(OidcErr::InternalErr(StoreError::InternalError(String::from("database locked"))))
    );
}

#[test]
fn client_id_is_trimmed_for_lookup() {
    let store = foobar_store();
    let r = request("code", None, "https://example.com/cb", "  foobar\n", "openid");
    assert_eq!(outcome(&store, r), Ok(()));
}

#[test]
fn successful_validation_normalizes_request() {
    let store = foobar_store();
    let mut req = request("code", None, "https://example.com/cb", "foobar", "openid");
    req.state = Some(String::from("client-state"));
    let a = authorize(&mut req, &store).expect("authorize");
    assert_eq!(req.display.as_deref(), Some("page"));
    assert_eq!(req.state.as_deref(), Some(a.state.as_str()));
    assert_ne!(a.state, "client-state");
    assert_eq!(a.state.len(), 32);
    assert!(a.state.chars().all(|c| c.is_ascii_hexdigit() && !c.is_ascii_uppercase()));
    let mut tracker = SessionTracker::new();
    let session_id = tracker.begin_session(a.state.clone());
    assert_eq!(session_id.len(), 32);
    assert_eq!(tracker.lookup_session(&session_id), Some(a.state.clone()));

    let mut req = request("code", None, "https://example.com/cb", "foobar", "openid");
    req.display = Some(String::from("popup"));
    authorize(&mut req, &store).expect("authorize");
    assert_eq!(req.display.as_deref(), Some("popup"));
}

#[test]
fn failed_validation_leaves_request_and_sessions_alone() {
    let store = foobar_store();
    let mut req = request("code", None, "https://example.com/wrong", "foobar", "openid");
    req.state = Some(String::from("s"));
    assert!(authorize(&mut req, &store).is_err());
    assert_eq!(req.state.as_deref(), Some("s"));
    assert_eq!(req.display, None);
}

#[test]
fn client_error_messages() {
    assert_eq!(ClientErrKind::InvalidScope.message(), "only scope openid is supported");
    assert_eq!(ClientErrKind::MissingNonce.message(), "nonce field required");
    assert_eq!(ClientErrKind::UnregisteredRedirectUri.message(), "invalid redirect uri");
}

#[test]
fn redirect_verdict_on_parsed_urls() {
    let parsed = |scheme: &str, host: UrlHost| Some(ParsedUrl { scheme: String::from(scheme), host });
    assert_eq!(redirect_verdict(&None), Some(ClientErrKind::InvalidRedirectUri));
    assert_eq!(
        redirect_verdict(&parsed("http", UrlHost::Domain(String::from("example.com")))),
        Some(ClientErrKind::InsecureRedirectUri)
    );
    assert_eq!(redirect_verdict(&parsed("http", UrlHost::Domain(String::from("localhost")))), None);
    assert_eq!(redirect_verdict(&parsed("http", UrlHost::Ipv4(0x7f00_0001))), None);
    assert_eq!(
        redirect_verdict(&parsed("http", UrlHost::Ipv4(0x7f00_0002))),
        Some(ClientErrKind::InsecureRedirectUri)
    );
    assert_eq!(redirect_verdict(&parsed("http", UrlHost::Ipv6(1))), Some(ClientErrKind::InsecureRedirectUri));
    assert_eq!(redirect_verdict(&parsed("https", UrlHost::Domain(String::from("example.com")))), None);
    assert_eq!(redirect_verdict(&parsed("myapp", UrlHost::NoHost)), None);
}
