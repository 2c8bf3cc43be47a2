use vstd::prelude::*;

pub mod authentication_request;
pub mod context;
pub mod id_token;
pub mod login;
pub mod session;

use crate::server::authentication_request::{
    client_outcome, is_token, normalized, opt_view, request_error, AuthenticationRequest, OidcErr,
};
use crate::server::context::{encode_context, json_text_of, request_fields};
use crate::store::{Client, Store, StoreError};

verus! {

/// What a successful authorization hands to the browser: the pending-context
/// cookie and the correlation state for the login form. The session that
/// waits for the login is opened with `SessionTracker::begin_session`.
#[derive(Debug, Clone)]
pub struct Authorization {
    pub context: String,
    pub state: String,
}

/// Handles an authorization request: validates it against `store` and writes
/// the pending context of the normalized request. On failure the request is
/// left as it was.
pub fn authorize<S: Store>(req: &mut AuthenticationRequest, store: &S) -> (r: Result<
    Authorization,
    OidcErr,
>)
    ensures
        request_error(*old(req)) matches Some(k) ==> r == Err::<Authorization, OidcErr>(
            OidcErr::ClientErr(k),
        ),
        request_error(*old(req)) is None ==> exists|lookup: Result<Option<Client>, StoreError>|
            match #[trigger] client_outcome(*old(req), lookup) {
                Ok(_) => r is Ok,
                Err(e) => r == Err::<Authorization, OidcErr>(e),
            },
        r is Err ==> *final(req) == *old(req),
        r matches Ok(a) ==> {
            &&& normalized(*final(req), *old(req), a.state@)
            &&& is_token(a.state@)
            &&& a.context@ == json_text_of(request_fields(*final(req)))
        },
{
    match req.validate(store) {
        Err(e) => Err(e),
        Ok(()) => {
            let state = match &req.state {
                Some(s) => s.clone(),
                None => String::new(),
            };
            let context = encode_context(req);
            proof {
                assert(opt_view(req.state) == Some(state@));
            }
            Ok(Authorization { context, state })
        },
    }
}

} // verus!
