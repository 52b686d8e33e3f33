//! The persisted representation of a credential: a token record and the
//! secret-string wrapper its sensitive fields use.

use vstd::prelude::*;

verus! {

/// A sensitive string (access token, refresh token, client secret).
///
/// Kept in a dedicated wrapper so that secrets are only reachable through
/// an explicit `expose` call and never leak through generic formatting.
pub struct Secret {
    inner: String,
}

impl View for Secret {
    type V = Seq<char>;

    closed spec fn view(&self) -> Seq<char> {
        self.inner@
    }
}

impl Secret {
    pub fn new(value: String) -> (r: Secret)
        ensures
            r@ == value@,
    {
        Secret { inner: value }
    }

    /// Deliberate access to the secret value.
    pub fn expose(&self) -> (r: &str)
        ensures
            r@ == self@,
    {
        self.inner.as_str()
    }

    pub fn is_empty(&self) -> (r: bool)
        ensures
            r == (self@.len() == 0),
    {
        self.inner.as_str().is_empty()
    }
}

impl Clone for Secret {
    fn clone(&self) -> (r: Self)
        ensures
            r@ == self@,
    {
        Secret { inner: self.inner.clone() }
    }
}

/// The unit of persisted credential state.
pub struct TokenRecord {
    /// Bearer credential used to authenticate API requests.
    pub access_token: Secret,
    /// Credential used to mint a new access token; absent if the grant
    /// never issued one.
    pub refresh_token: Option<Secret>,
    /// Application identity presented when refreshing.
    pub client_id: String,
    /// Application secret; optional at rest, supplied at refresh when present.
    pub client_secret: Option<Secret>,
    /// Username of the authorized account.
    pub login: String,
    /// User id of the authorized account.
    pub user_id: String,
    /// Wall-clock instant (seconds since the Unix epoch) after which the
    /// access token must be treated as invalid; absent when unknown.
    pub expires_at: Option<i64>,
    /// Authorized permission grants, preserved across refresh.
    pub scopes: Option<Vec<String>>,
}

/// Mathematical model of a [`TokenRecord`].
pub struct TokenRecordView {
    pub access_token: Seq<char>,
    pub refresh_token: Option<Seq<char>>,
    pub client_id: Seq<char>,
    pub client_secret: Option<Seq<char>>,
    pub login: Seq<char>,
    pub user_id: Seq<char>,
    pub expires_at: Option<int>,
    pub scopes: Option<Seq<Seq<char>>>,
}

impl TokenRecordView {
    /// A record is well formed when its access token is present and non-empty.
    pub open spec fn wf(self) -> bool {
        self.access_token.len() > 0
    }
}

impl View for TokenRecord {
    type V = TokenRecordView;

    open spec fn view(&self) -> TokenRecordView {
        TokenRecordView {
            access_token: self.access_token@,
            refresh_token: match self.refresh_token {
                Some(s) => Some(s@),
                None => None,
            },
            client_id: self.client_id@,
            client_secret: match self.client_secret {
                Some(s) => Some(s@),
                None => None,
            },
            login: self.login@,
            user_id: self.user_id@,
            expires_at: match self.expires_at {
                Some(t) => Some(t as int),
                None => None,
            },
            scopes: match self.scopes {
                Some(v) => Some(v.deep_view()),
                None => None,
            },
        }
    }
}

impl TokenRecord {
    /// A loaded record always carries a non-empty access token.
    pub open spec fn wf(&self) -> bool {
        self@.wf()
    }

    /// Runtime check matching [`TokenRecordView::wf`].
    pub fn check_wf(&self) -> (r: bool)
        ensures
            r == self.wf(),
    {
        !self.access_token.is_empty()
    }
}

fn clone_scope_list(v: &Vec<String>) -> (r: Vec<String>)
    ensures
        r.deep_view() == v.deep_view(),
{
    let mut out: Vec<String> = Vec::new();
    let mut i: usize = 0;
    while i < v.len()
        invariant
            i <= v.len(),
            out@.len() == i,
            forall|j: int| 0 <= j < i ==> out@[j]@ == v@[j]@,
        decreases v.len() - i,
    {
        out.push(v[i].clone());
        i = i + 1;
    }
    proof {
        assert(out.deep_view() =~= v.deep_view());
    }
    out
}

impl Clone for TokenRecord {
    /// Duplicates the record; the copy and the source model identically.
    fn clone(&self) -> (r: Self)
        ensures
            r@ == self@,
    {
        TokenRecord {
            access_token: self.access_token.clone(),
            refresh_token: match &self.refresh_token {
                Some(s) => Some(s.clone()),
                None => None,
            },
            client_id: self.client_id.clone(),
            client_secret: match &self.client_secret {
                Some(s) => Some(s.clone()),
                None => None,
            },
            login: self.login.clone(),
            user_id: self.user_id.clone(),
            expires_at: self.expires_at,
            scopes: match &self.scopes {
                Some(v) => Some(clone_scope_list(v)),
                None => None,
            },
        }
    }
}

} // verus!
