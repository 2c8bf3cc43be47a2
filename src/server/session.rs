use vstd::prelude::*;

use crate::server::authentication_request::{is_token, new_correlation_token, opt_view};
use crate::server::id_token::{same_claims, IdTokenClaims};
use crate::text::str_eq;

verus! {

/// The value that the latest entry for `key` holds, if any.
pub open spec fn latest<V>(entries: Seq<(String, V)>, key: Seq<char>) -> Option<V>
    decreases entries.len(),
{
    if entries.len() == 0 {
        None
    } else if entries.last().0@ == key {
        Some(entries.last().1)
    } else {
        latest(entries.drop_last(), key)
    }
}

/// The correlation between browser sessions and pending requests, and
/// between issued authorization codes and their identity tokens. Entries are
/// never removed: a later entry for the same key shadows an earlier one.
pub struct SessionTracker {
    sessions: Vec<(String, String)>,
    codes: Vec<(String, IdTokenClaims)>,
}

impl SessionTracker {
    /// The correlation state of the session `id`.
    pub closed spec fn session(&self, id: Seq<char>) -> Option<Seq<char>> {
        match latest(self.sessions@, id) {
            Some(s) => Some(s@),
            None => None,
        }
    }

    /// The identity token stored under the authorization code `code`.
    pub closed spec fn code(&self, code: Seq<char>) -> Option<IdTokenClaims> {
        latest(self.codes@, code)
    }

    /// A tracker with no session and no code.
    pub fn new() -> (r: SessionTracker)
        ensures
            forall|k: Seq<char>| #[trigger] r.session(k) is None,
            forall|k: Seq<char>| #[trigger] r.code(k) is None,
    {
        SessionTracker { sessions: Vec::new(), codes: Vec::new() }
    }

    /// Records that session `id` waits for the request with correlation state
    /// `state`.
    pub fn insert_session(&mut self, id: String, state: String)
        ensures
            final(self).session(id@) == Some(state@),
            forall|k: Seq<char>| k != id@ ==> #[trigger] final(self).session(k) == old(self).session(k),
            forall|k: Seq<char>| #[trigger] final(self).code(k) == old(self).code(k),
    {
        let ghost before = self.sessions@;
        self.sessions.push((id, state));
        assert(self.sessions@.drop_last() =~= before);
    }

    /// Opens a session for the correlation state `state` under a fresh random
    /// identifier, which it returns.
    pub fn begin_session(&mut self, state: String) -> (id: String)
        ensures
            is_token(id@),
            final(self).session(id@) == Some(state@),
            forall|k: Seq<char>| k != id@ ==> #[trigger] final(self).session(k) == old(self).session(k),
            forall|k: Seq<char>| #[trigger] final(self).code(k) == old(self).code(k),
    {
        let id = new_correlation_token();
        self.insert_session(id.clone(), state);
        id
    }

    /// The correlation state of the session `id`.
    pub fn lookup_session(&self, id: &str) -> (r: Option<String>)
        ensures
            opt_view(r) == self.session(id@),
    {
        let mut i: usize = self.sessions.len();
        assert(self.sessions@.subrange(0, i as int) =~= self.sessions@);
        while i > 0
            invariant
                i <= self.sessions@.len(),
                latest(self.sessions@, id@) == latest(self.sessions@.subrange(0, i as int), id@),
            decreases i,
        {
            let ghost prefix = self.sessions@.subrange(0, i as int);
            if str_eq(self.sessions[i - 1].0.as_str(), id) {
                return Some(self.sessions[i - 1].1.clone());
            }
            assert(prefix.drop_last() =~= self.sessions@.subrange(0, i - 1));
            i = i - 1;
        }
        None
    }

    /// Stores `token` under the authorization code `code`.
    pub fn insert_code(&mut self, code: String, token: IdTokenClaims)
        ensures
            final(self).code(code@) == Some(token),
            forall|k: Seq<char>| k != code@ ==> #[trigger] final(self).code(k) == old(self).code(k),
            forall|k: Seq<char>| #[trigger] final(self).session(k) == old(self).session(k),
    {
        let ghost before = self.codes@;
        self.codes.push((code, token));
        assert(self.codes@.drop_last() =~= before);
    }

    /// Stores `token` under a fresh random authorization code, which it
    /// returns.
    pub fn issue_code(&mut self, token: IdTokenClaims) -> (code: String)
        ensures
            is_token(code@),
            final(self).code(code@) == Some(token),
            forall|k: Seq<char>| k != code@ ==> #[trigger] final(self).code(k) == old(self).code(k),
            forall|k: Seq<char>| #[trigger] final(self).session(k) == old(self).session(k),
    {
        let code = new_correlation_token();
        self.insert_code(code.clone(), token);
        code
    }

    /// The identity token stored under `code`. The entry stays: a code can be
    /// redeemed more than once.
    pub fn redeem_code(&self, code: &str) -> (r: Option<IdTokenClaims>)
        ensures
            r is Some <==> self.code(code@) is Some,
            r matches Some(t) ==> same_claims(t, self.code(code@)->0),
    {
        let mut i: usize = self.codes.len();
        assert(self.codes@.subrange(0, i as int) =~= self.codes@);
        while i > 0
            invariant
                i <= self.codes@.len(),
                latest(self.codes@, code@) == latest(self.codes@.subrange(0, i as int), code@),
            decreases i,
        {
            let ghost prefix = self.codes@.subrange(0, i as int);
            if str_eq(self.codes[i - 1].0.as_str(), code) {
                return Some(self.codes[i - 1].1.duplicate());
            }
            assert(prefix.drop_last() =~= self.codes@.subrange(0, i - 1));
            i = i - 1;
        }
        None
    }
}

} // verus!
