//! The bearer token and the store that owns it.
//!
//! Instants and lifetimes are whole seconds. The store never reads a clock:
//! every function that depends on the time takes the current instant from
//! its caller.

use crate::decode::FromJson;
use crate::json::{json_as_str, json_as_u64, json_get, json_model, Json};
use serde_json::Value;
use vstd::prelude::*;

verus! {

/// A token is replaced once no more than this many seconds of its lifetime
/// are left.
pub const REFRESH_MARGIN: u64 = 30;

/// What the token endpoint grants: the members of its answer.
#[derive(Debug, Clone, PartialEq, Eq)]
pub struct Grant {
    pub access_token: String,
    pub token_type: String,
    pub expires_in: u64,
    pub scope: String,
    pub jti: String,
}

pub struct GrantView {
    pub access_token: Seq<char>,
    pub token_type: Seq<char>,
    pub expires_in: u64,
    pub scope: Seq<char>,
    pub jti: Seq<char>,
}

impl View for Grant {
    type V = GrantView;

    open spec fn view(&self) -> GrantView {
        GrantView {
            access_token: self.access_token@,
            token_type: self.token_type@,
            expires_in: self.expires_in,
            scope: self.scope@,
            jti: self.jti@,
        }
    }
}

impl FromJson for Grant {
    /// A grant is an object with the texts `access_token`, `token_type`,
    /// `scope` and `jti` and a non-negative integer `expires_in`; other
    /// members are ignored.
    open spec fn described(doc: Json) -> Option<GrantView> {
        match (
            doc.text_member("access_token"@),
            doc.text_member("token_type"@),
            doc.unsigned_member("expires_in"@),
            doc.text_member("scope"@),
            doc.text_member("jti"@),
        ) {
            (Some(access_token), Some(token_type), Some(expires_in), Some(scope), Some(jti)) => Some(
                GrantView { access_token, token_type, expires_in, scope, jti },
            ),
            _ => None,
        }
    }

    fn from_json(v: &Value) -> (r: Option<Grant>) {
        let access_token = match json_get(v, "access_token") {
            Some(m) => match json_as_str(m) {
                Some(s) => s,
                None => { return None; },
            },
            None => { return None; },
        };
        let token_type = match json_get(v, "token_type") {
            Some(m) => match json_as_str(m) {
                Some(s) => s,
                None => { return None; },
            },
            None => { return None; },
        };
        let expires_in = match json_get(v, "expires_in") {
            Some(m) => match json_as_u64(m) {
                Some(n) => n,
                None => { return None; },
            },
            None => { return None; },
        };
        let scope = match json_get(v, "scope") {
            Some(m) => match json_as_str(m) {
                Some(s) => s,
                None => { return None; },
            },
            None => { return None; },
        };
        let jti = match json_get(v, "jti") {
            Some(m) => match json_as_str(m) {
                Some(s) => s,
                None => { return None; },
            },
            None => { return None; },
        };
        Some(
            Grant {
                access_token: access_token.to_owned(),
                token_type: token_type.to_owned(),
                expires_in,
                scope: scope.to_owned(),
                jti: jti.to_owned(),
            },
        )
    }
}

/// A granted token together with the instant at which it was issued.
#[derive(Debug, Clone, PartialEq, Eq)]
pub struct AccessToken {
    grant: Grant,
    issued_at: u64,
}

pub struct AccessTokenView {
    pub grant: GrantView,
    pub issued_at: u64,
}

impl AccessTokenView {
    /// The instant at which the token ends: issuance plus lifetime.
    pub open spec fn expires_at(self) -> int {
        self.issued_at + self.grant.expires_in
    }

    /// Whether more than the margin is left of the token at `now`.
    pub open spec fn usable_at(self, now: u64) -> bool {
        now + REFRESH_MARGIN < self.expires_at()
    }
}

impl View for AccessToken {
    type V = AccessTokenView;

    closed spec fn view(&self) -> AccessTokenView {
        AccessTokenView { grant: self.grant@, issued_at: self.issued_at }
    }
}

impl AccessToken {
    /// The token of a grant received at `issued_at`.
    pub fn new(grant: Grant, issued_at: u64) -> (r: AccessToken)
        ensures
            r@ == (AccessTokenView { grant: grant@, issued_at }),
    {
        AccessToken { grant, issued_at }
    }

    pub fn grant(&self) -> (r: &Grant)
        ensures
            r@ == self@.grant,
    {
        &self.grant
    }

    /// The text that is sent as the bearer credential.
    pub fn access_token(&self) -> (r: &str)
        ensures
            r@ == self@.grant.access_token,
    {
        self.grant.access_token.as_str()
    }

    pub fn issued_at(&self) -> (r: u64)
        ensures
            r == self@.issued_at,
    {
        self.issued_at
    }

    /// The instant at which the token ends, or the last instant there is
    /// where the sum lies beyond it.
    pub fn expires_at(&self) -> (r: u64)
        ensures
            r == if self@.expires_at() <= u64::MAX {
                self@.expires_at()
            } else {
                u64::MAX as int
            },
    {
        self.issued_at.saturating_add(self.grant.expires_in)
    }

    /// Whether more than the margin is left of the token at `now`.
    pub fn usable_at(&self, now: u64) -> (r: bool)
        ensures
            r == self@.usable_at(now),
    {
        let end: u128 = self.issued_at as u128 + self.grant.expires_in as u128;
        (now as u128) + (REFRESH_MARGIN as u128) < end
    }
}

/// What a caller that needs a token has to do.
#[derive(Debug, Clone, Copy, PartialEq, Eq, Structural)]
pub enum TokenDecision {
    /// The stored token can be used.
    Ready,
    /// The caller acquires a token and reports how that ended.
    Refresh,
    /// Another caller is acquiring a token; ask again later.
    Wait,
}

/// The owner of the current token. At most one acquisition is under way at
/// any time.
#[derive(Debug)]
pub struct TokenStore {
    token: Option<AccessToken>,
    refreshing: bool,
}

pub struct TokenStoreView {
    pub token: Option<AccessTokenView>,
    pub refreshing: bool,
}

impl TokenStoreView {
    /// Whether the store holds a token that can be used at `now`.
    pub open spec fn usable_at(self, now: u64) -> bool {
        self.token is Some && self.token->Some_0.usable_at(now)
    }

    /// What a caller is told at `now`.
    pub open spec fn decision(self, now: u64) -> TokenDecision {
        if self.usable_at(now) {
            TokenDecision::Ready
        } else if self.refreshing {
            TokenDecision::Wait
        } else {
            TokenDecision::Refresh
        }
    }

    /// What a caller is told who wants a new token whatever the stored one
    /// is worth.
    pub open spec fn forced_decision(self) -> TokenDecision {
        if self.refreshing {
            TokenDecision::Wait
        } else {
            TokenDecision::Refresh
        }
    }

    /// The store after a caller was told what to do at `now`: the caller who
    /// is told to refresh has the acquisition from then on.
    pub open spec fn after_decision(self, now: u64) -> TokenStoreView {
        if self.decision(now) == TokenDecision::Refresh {
            TokenStoreView { refreshing: true, ..self }
        } else {
            self
        }
    }
}

/// How many of a sequence of decisions tell the caller to acquire a token.
pub open spec fn acquisitions(decisions: Seq<TokenDecision>) -> nat
    decreases decisions.len(),
{
    if decisions.len() == 0 {
        0
    } else {
        acquisitions(decisions.drop_last()) + if decisions.last() == TokenDecision::Refresh {
            1nat
        } else {
            0nat
        }
    }
}

impl TokenStoreView {
    /// The store after callers have asked at the instants `calls`, one after
    /// another, while no acquisition ended.
    pub open spec fn after_calls(self, calls: Seq<u64>) -> TokenStoreView
        decreases calls.len(),
    {
        if calls.len() == 0 {
            self
        } else {
            self.after_calls(calls.drop_last()).after_decision(calls.last())
        }
    }

    /// What those callers were told, in the order in which they asked.
    pub open spec fn decisions(self, calls: Seq<u64>) -> Seq<TokenDecision>
        decreases calls.len(),
    {
        if calls.len() == 0 {
            Seq::empty()
        } else {
            self.decisions(calls.drop_last()).push(
                self.after_calls(calls.drop_last()).decision(calls.last()),
            )
        }
    }

    /// However many callers find the token missing or stale before an
    /// acquisition has ended, exactly one of them, the first, is told to
    /// acquire a token; all the others wait, and the stored token is not
    /// touched.
    pub proof fn one_acquisition_for_all_callers(self, calls: Seq<u64>)
        requires
            calls.len() > 0,
            !self.refreshing,
            forall|i: int| 0 <= i < calls.len() ==> !self.usable_at(#[trigger] calls[i]),
        ensures
            self.decisions(calls).len() == calls.len(),
            self.decisions(calls)[0] == TokenDecision::Refresh,
            forall|i: int|
                1 <= i < calls.len() ==> (#[trigger] self.decisions(calls)[i]) == TokenDecision::Wait,
            acquisitions(self.decisions(calls)) == 1,
            self.after_calls(calls) == (TokenStoreView { refreshing: true, ..self }),
        decreases calls.len(),
    {
        let before = calls.drop_last();
        if before.len() == 0 {
            assert(self.decisions(before) =~= Seq::empty());
            assert(self.after_calls(before) == self);
            assert(self.decisions(calls).drop_last() =~= self.decisions(before));
            assert(acquisitions(self.decisions(before)) == 0);
        } else {
            assert forall|i: int| 0 <= i < before.len() implies !self.usable_at(
                #[trigger] before[i],
            ) by {
                assert(before[i] == calls[i]);
            }
            self.one_acquisition_for_all_callers(before);
            assert(self.decisions(calls).drop_last() =~= self.decisions(before));
        }
    }

    /// Once an acquisition has ended with a token, every caller that asks
    /// while more than the margin is left of it is told to use it, and the
    /// store stays as it is: nobody acquires another.
    pub proof fn acquired_token_serves_all_callers(self, token: AccessTokenView, calls: Seq<u64>)
        requires
            self.token == Some(token),
            forall|i: int| 0 <= i < calls.len() ==> token.usable_at(#[trigger] calls[i]),
        ensures
            self.decisions(calls).len() == calls.len(),
            forall|i: int|
                0 <= i < calls.len() ==> (#[trigger] self.decisions(calls)[i]) == TokenDecision::Ready,
            acquisitions(self.decisions(calls)) == 0,
            self.after_calls(calls) == self,
        decreases calls.len(),
    {
        if calls.len() > 0 {
            let before = calls.drop_last();
            assert forall|i: int| 0 <= i < before.len() implies token.usable_at(
                #[trigger] before[i],
            ) by {
                assert(before[i] == calls[i]);
            }
            self.acquired_token_serves_all_callers(token, before);
            assert(self.decisions(calls).drop_last() =~= self.decisions(before));
        }
    }
}

impl View for TokenStore {
    type V = TokenStoreView;

    closed spec fn view(&self) -> TokenStoreView {
        TokenStoreView {
            token: match self.token {
                Some(t) => Some(t@),
                None => None,
            },
            refreshing: self.refreshing,
        }
    }
}

impl TokenStore {
    /// A store without a token and without an acquisition under way.
    pub fn new() -> (r: TokenStore)
        ensures
            r@ == (TokenStoreView { token: None, refreshing: false }),
    {
        TokenStore { token: None, refreshing: false }
    }

    /// The stored token, usable or not.
    pub fn token(&self) -> (r: Option<&AccessToken>)
        ensures
            match r {
                Some(t) => self@.token == Some(t@),
                None => self@.token is None,
            },
    {
        self.token.as_ref()
    }

    /// Whether an acquisition is under way.
    pub fn is_refreshing(&self) -> (r: bool)
        ensures
            r == self@.refreshing,
    {
        self.refreshing
    }

    /// Tells a caller that needs a token at `now` what to do. A stored token
    /// with more than the margin left is used. Otherwise the first caller is
    /// told to acquire one, and every caller after it to wait until that
    /// acquisition has ended.
    pub fn ensure_token(&mut self, now: u64) -> (r: TokenDecision)
        ensures
            r == old(self)@.decision(now),
            final(self)@ == old(self)@.after_decision(now),
    {
        let usable = match &self.token {
            Some(t) => t.usable_at(now),
            None => false,
        };
        if usable {
            TokenDecision::Ready
        } else if self.refreshing {
            TokenDecision::Wait
        } else {
            self.refreshing = true;
            TokenDecision::Refresh
        }
    }

    /// Tells a caller that wants a new token, whatever the stored one is
    /// worth, what to do: acquire one, or wait for the acquisition that is
    /// under way.
    pub fn force_refresh(&mut self) -> (r: TokenDecision)
        ensures
            r == old(self)@.forced_decision(),
            final(self)@ == (TokenStoreView { refreshing: true, ..old(self)@ }),
    {
        if self.refreshing {
            TokenDecision::Wait
        } else {
            self.refreshing = true;
            TokenDecision::Refresh
        }
    }

    /// Ends an acquisition with the token it brought: the token replaces the
    /// stored one as a whole.
    pub fn complete(&mut self, token: AccessToken)
        ensures
            final(self)@ == (TokenStoreView { token: Some(token@), refreshing: false }),
    {
        self.token = Some(token);
        self.refreshing = false;
    }

    /// Stores a token that was had elsewhere; an acquisition that is under
    /// way goes on.
    pub fn replace(&mut self, token: AccessToken)
        ensures
            final(self)@ == (TokenStoreView { token: Some(token@), ..old(self)@ }),
    {
        self.token = Some(token);
    }

    /// Ends an acquisition that brought no token: the stored token stays.
    pub fn abandon(&mut self)
        ensures
            final(self)@ == (TokenStoreView { refreshing: false, ..old(self)@ }),
    {
        self.refreshing = false;
    }

    /// Discards the stored token, as after the service has refused it.
    pub fn invalidate(&mut self)
        ensures
            final(self)@ == (TokenStoreView { token: None, ..old(self)@ }),
    {
        self.token = None;
    }
}

} // verus!
