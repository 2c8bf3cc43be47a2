use vstd::prelude::*;

use crate::server::authentication_request::{opt_view, AuthenticationRequest};

verus! {

/// What `serde_json::to_string` writes for a list of optional texts.
pub uninterp spec fn json_text_of(v: Seq<Option<Seq<char>>>) -> Seq<char>;

/// What `serde_json::from_str` reads from a text as a list of optional texts:
/// `None` where the text is no such list.
pub uninterp spec fn json_fields_of(s: Seq<char>) -> Option<Seq<Option<Seq<char>>>>;

pub open spec fn fields_view(v: Seq<Option<String>>) -> Seq<Option<Seq<char>>> {
    v.map_values(|o: Option<String>| opt_view(o))
}

pub open spec fn opt_fields_view(r: Option<Vec<Option<String>>>) -> Option<Seq<Option<Seq<char>>>> {
    match r {
        Some(v) => Some(fields_view(v@)),
        None => None,
    }
}

/// Relies on `serde_json::to_string`, which cannot fail on a list of optional
/// strings.
#[verifier::external_body]
fn to_json(v: &Vec<Option<String>>) -> (r: String)
    ensures
        r@ == json_text_of(fields_view(v@)),
{
    serde_json::to_string(v).unwrap_or_default()
}

/// Relies on `serde_json::from_str`, which reads back what `to_json` wrote.
#[verifier::external_body]
fn from_json(s: &str) -> (r: Option<Vec<Option<String>>>)
    ensures
        opt_fields_view(r) == json_fields_of(s@),
        forall|v: Seq<Option<Seq<char>>>| #[trigger] json_text_of(v) == s@ ==> opt_fields_view(r)
            == Some(v),
{
    serde_json::from_str(s).ok()
}

/// The fields of a request in the order in which the pending context holds
/// them.
pub open spec fn request_fields(req: AuthenticationRequest) -> Seq<Option<Seq<char>>> {
    seq![
        Some(req.response_type@),
        opt_view(req.nonce),
        Some(req.redirect_uri@),
        Some(req.client_id@),
        Some(req.scope@),
        opt_view(req.state),
        opt_view(req.display),
        opt_view(req.prompt),
        opt_view(req.max_age),
        opt_view(req.ui_locales),
        opt_view(req.id_token_hint),
        opt_view(req.login_hint),
        opt_view(req.acr_values),
    ]
}

/// A list of fields that makes a request: thirteen, with the four required
/// ones present.
pub open spec fn is_request_fields(f: Seq<Option<Seq<char>>>) -> bool {
    &&& f.len() == 13
    &&& f[0] is Some
    &&& f[2] is Some
    &&& f[3] is Some
    &&& f[4] is Some
}

/// What decoding the pending context `s` may give: a request exactly where
/// the text holds a list of request fields, with those fields; and a text
/// written for a list of fields reads back as that list.
pub open spec fn context_decoding(s: Seq<char>, r: Option<AuthenticationRequest>) -> bool {
    &&& r is Some <==> (json_fields_of(s) matches Some(f) && is_request_fields(f))
    &&& r matches Some(d) ==> json_fields_of(s) == Some(request_fields(d))
    &&& forall|v: Seq<Option<Seq<char>>>| #[trigger] json_text_of(v) == s ==> json_fields_of(s)
        == Some(v)
}

pub(crate) fn copy_text(o: &Option<String>) -> (r: Option<String>)
    ensures
        r == *o,
{
    match o {
        Some(s) => Some(s.clone()),
        None => None,
    }
}

/// The pending-context cookie for a validated request.
pub fn encode_context(req: &AuthenticationRequest) -> (r: String)
    ensures
        r@ == json_text_of(request_fields(*req)),
{
    let v: Vec<Option<String>> = vec![
        Some(req.response_type.clone()),
        copy_text(&req.nonce),
        Some(req.redirect_uri.clone()),
        Some(req.client_id.clone()),
        Some(req.scope.clone()),
        copy_text(&req.state),
        copy_text(&req.display),
        copy_text(&req.prompt),
        copy_text(&req.max_age),
        copy_text(&req.ui_locales),
        copy_text(&req.id_token_hint),
        copy_text(&req.login_hint),
        copy_text(&req.acr_values),
    ];
    assert(fields_view(v@) =~= request_fields(*req));
    to_json(&v)
}

/// The request held by a pending-context cookie; `None` where the cookie is
/// corrupt.
pub fn decode_context(s: &str) -> (r: Option<AuthenticationRequest>)
    ensures
        context_decoding(s@, r),
{
    match from_json(s) {
        Some(v) => request_from_fields(&v),
        None => None,
    }
}

/// The request that a list of fields describes: `None` unless there are
/// thirteen with the four required ones present.
pub fn request_from_fields(v: &Vec<Option<String>>) -> (r: Option<AuthenticationRequest>)
    ensures
        r is Some <==> is_request_fields(fields_view(v@)),
        r matches Some(d) ==> request_fields(d) == fields_view(v@),
{
    let ghost f = fields_view(v@);
    if v.len() != 13 {
        return None;
    }
    assert(f[0] == opt_view(v@[0]));
    assert(f[2] == opt_view(v@[2]));
    assert(f[3] == opt_view(v@[3]));
    assert(f[4] == opt_view(v@[4]));
    let response_type = match copy_text(&v[0]) {
        Some(t) => t,
        None => return None,
    };
    let redirect_uri = match copy_text(&v[2]) {
        Some(t) => t,
        None => return None,
    };
    let client_id = match copy_text(&v[3]) {
        Some(t) => t,
        None => return None,
    };
    let scope = match copy_text(&v[4]) {
        Some(t) => t,
        None => return None,
    };
    let req = AuthenticationRequest {
        response_type,
        nonce: copy_text(&v[1]),
        redirect_uri,
        client_id,
        scope,
        state: copy_text(&v[5]),
        display: copy_text(&v[6]),
        prompt: copy_text(&v[7]),
        max_age: copy_text(&v[8]),
        ui_locales: copy_text(&v[9]),
        id_token_hint: copy_text(&v[10]),
        login_hint: copy_text(&v[11]),
        acr_values: copy_text(&v[12]),
    };
    assert(request_fields(req) =~= f);
    Some(req)
}

/// A validated request written into the pending-context cookie reads back,
/// at login time, with the same response type, nonce, redirect URI, client,
/// and state.
pub proof fn lemma_context_round_trip(req: AuthenticationRequest, decoded: Option<AuthenticationRequest>)
    requires
        context_decoding(json_text_of(request_fields(req)), decoded),
    ensures
        decoded matches Some(d) && {
            &&& d.response_type@ == req.response_type@
            &&& opt_view(d.nonce) == opt_view(req.nonce)
            &&& d.redirect_uri@ == req.redirect_uri@
            &&& d.client_id@ == req.client_id@
            &&& d.scope@ == req.scope@
            &&& opt_view(d.state) == opt_view(req.state)
        },
{
    let s = json_text_of(request_fields(req));
    assert(json_fields_of(s) == Some(request_fields(req)));
    let d = decoded->0;
    assert(request_fields(d) == request_fields(req));
    assert(request_fields(d)[0] == request_fields(req)[0]);
    assert(request_fields(d)[1] == request_fields(req)[1]);
    assert(request_fields(d)[2] == request_fields(req)[2]);
    assert(request_fields(d)[3] == request_fields(req)[3]);
    assert(request_fields(d)[4] == request_fields(req)[4]);
    assert(request_fields(d)[5] == request_fields(req)[5]);
}

} // verus!
