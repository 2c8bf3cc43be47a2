use vstd::prelude::*;

use crate::server::context::copy_text;
use crate::text::copy_texts;

verus! {

/// The claim set of an identity token, before signing. The expiry is stated
/// as a validity window counted from the moment of signing.
#[derive(Debug, Clone)]
pub struct IdTokenClaims {
    pub issuer: String,
    pub subject: String,
    pub audience: Vec<String>,
    pub validity_secs: u64,
    pub auth_methods: Vec<String>,
    pub nonce: Option<String>,
}

/// Whether two claim sets hold the same claims.
pub open spec fn same_claims(a: IdTokenClaims, b: IdTokenClaims) -> bool {
    &&& a.issuer == b.issuer
    &&& a.subject == b.subject
    &&& a.audience@ == b.audience@
    &&& a.validity_secs == b.validity_secs
    &&& a.auth_methods@ == b.auth_methods@
    &&& a.nonce == b.nonce
}

impl IdTokenClaims {
    /// Claims for `subject`, issued by `issuer` to `audience`, valid for
    /// `validity_secs` seconds, with no authentication method and no nonce.
    pub fn build(issuer: String, subject: String, audience: Vec<String>, validity_secs: u64) -> (r:
        IdTokenClaims)
        ensures
            r.issuer == issuer,
            r.subject == subject,
            r.audience == audience,
            r.validity_secs == validity_secs,
            r.auth_methods@.len() == 0,
            r.nonce is None,
    {
        IdTokenClaims {
            issuer,
            subject,
            audience,
            validity_secs,
            auth_methods: Vec::new(),
            nonce: None,
        }
    }

    /// The same claims with the authentication methods `methods`.
    pub fn amr(self, methods: Vec<String>) -> (r: IdTokenClaims)
        ensures
            r == (IdTokenClaims { auth_methods: methods, ..self }),
    {
        IdTokenClaims { auth_methods: methods, ..self }
    }

    /// The same claims with the nonce `nonce`.
    pub fn nonce(self, nonce: Option<String>) -> (r: IdTokenClaims)
        ensures
            r == (IdTokenClaims { nonce: nonce, ..self }),
    {
        IdTokenClaims { nonce, ..self }
    }

    /// A copy of these claims.
    pub fn duplicate(&self) -> (r: IdTokenClaims)
        ensures
            same_claims(r, *self),
    {
        IdTokenClaims {
            issuer: self.issuer.clone(),
            subject: self.subject.clone(),
            audience: copy_texts(&self.audience),
            validity_secs: self.validity_secs,
            auth_methods: copy_texts(&self.auth_methods),
            nonce: copy_text(&self.nonce),
        }
    }
}

} // verus!
