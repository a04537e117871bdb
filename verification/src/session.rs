//! The session table: a map from issued bearer token to the owning user and
//! an absolute expiry time. Tokens are checked lazily — an entry whose expiry
//! has passed is treated as absent by every reader and physically removed on
//! the access that finds it expired.
use vstd::prelude::*;

use vstd::hash_map::StringHashMap;

use crate::auth::new_token;
use crate::user::{User, UserView};

verus! {

/// How long an issued session token stays valid, in seconds.
pub const SESSION_DURATION_SECS: u64 = 5 * 60;

/// Authentication failures. All of them surface to a client as one
/// undifferentiated unauthorized response, so that a caller cannot probe
/// which tokens exist; the variants keep the session logic precise.
#[derive(Debug, PartialEq, Eq, Structural, Clone, Copy)]
pub enum AuthError {
    TokenMissing,
    TokenMalformed,
    TokenNotFound,
    TokenExpired,
}

/// One live session: the owning user record and the absolute expiry time.
pub struct SessionEntry {
    pub user: User,
    pub expires_at: u64,
}

/// Mathematical image of a session entry.
pub struct SessionInfo {
    pub user: UserView,
    pub expires_at: u64,
}

/// A map from issued token to live session.
pub struct SessionTable {
    entries: StringHashMap<SessionEntry>,
}

impl View for SessionTable {
    type V = Map<Seq<char>, SessionInfo>;

    closed spec fn view(&self) -> Map<Seq<char>, SessionInfo> {
        Map::new(
            |t: Seq<char>| self.entries@.contains_key(t),
            |t: Seq<char>|
                SessionInfo {
                    user: self.entries@[t].user@,
                    expires_at: self.entries@[t].expires_at,
                },
        )
    }
}

/// The error, if any, that authenticating `token` at time `now` yields
/// against table state `m`: an absent token is not found, a present but
/// expired one is expired, a live one authenticates.
pub open spec fn auth_error(
    m: Map<Seq<char>, SessionInfo>,
    token: Seq<char>,
    now: u64,
) -> Option<AuthError> {
    if !m.contains_key(token) {
        Some(AuthError::TokenNotFound)
    } else if m[token].expires_at <= now {
        Some(AuthError::TokenExpired)
    } else {
        None
    }
}

/// Table state after authenticating `token` at time `now`: an entry found
/// expired is pruned; otherwise the table is untouched.
pub open spec fn auth_next(m: Map<Seq<char>, SessionInfo>, token: Seq<char>, now: u64) -> Map<
    Seq<char>,
    SessionInfo,
> {
    if m.contains_key(token) && m[token].expires_at <= now {
        m.remove(token)
    } else {
        m
    }
}

impl SessionTable {
    /// An empty table, with no sessions issued.
    pub fn new() -> (t: Self)
        ensures
            t@ == Map::<Seq<char>, SessionInfo>::empty(),
    {
        let t = SessionTable { entries: StringHashMap::new() };
        proof {
            assert(t@ =~= Map::<Seq<char>, SessionInfo>::empty());
        }
        t
    }

    /// Mints a fresh random token for `user` and records it, valid for
    /// [`SESSION_DURATION_SECS`] from `now`. A (cryptographically
    /// improbable) collision with an existing token overwrites that entry.
    pub fn issue(&mut self, user: &User, now: u64) -> (token: String)
        requires
            now + SESSION_DURATION_SECS <= u64::MAX,
        ensures
            token@.len() == 64,
            final(self)@ == old(self)@.insert(
                token@,
                SessionInfo { user: user@, expires_at: (now + SESSION_DURATION_SECS) as u64 },
            ),
    {
        let token = new_token();
        let entry = SessionEntry { user: user.clone(), expires_at: now + SESSION_DURATION_SECS };
        self.entries.insert(token.clone(), entry);
        proof {
            assert(self@ =~= old(self)@.insert(
                token@,
                SessionInfo { user: user@, expires_at: (now + SESSION_DURATION_SECS) as u64 },
            ));
        }
        token
    }

    /// Looks `token` up at time `now`: a live entry authenticates as its
    /// user; an expired entry is removed and reported expired; an absent
    /// token is reported not found.
    pub fn authenticate(&mut self, token: &str, now: u64) -> (r: Result<User, AuthError>)
        ensures
            final(self)@ == auth_next(old(self)@, token@, now),
            match auth_error(old(self)@, token@, now) {
                Some(e) => r matches Err(got) && got == e,
                None => r matches Ok(u) && u@ == old(self)@[token@].user,
            },
    {
        match self.entries.get(token) {
            None => {
                return Err(AuthError::TokenNotFound);
            },
            Some(e) => {
                if now < e.expires_at {
                    let u = e.user.clone();
                    return Ok(u);
                }
            },
        }
        self.entries.remove(token);
        proof {
            assert(self@ =~= old(self)@.remove(token@));
        }
        Err(AuthError::TokenExpired)
    }

    /// Removes `token`. Revoking a token that is absent — already revoked,
    /// expired and pruned, or never issued — is a no-op, not an error.
    pub fn revoke(&mut self, token: &str)
        ensures
            final(self)@ == old(self)@.remove(token@),
    {
        self.entries.remove(token);
        proof {
            assert(self@ =~= old(self)@.remove(token@));
        }
    }
}

/// A freshly issued token authenticates as the issuing user at any time
/// before its expiry, and fails as expired at any time from the expiry
/// onward.
pub proof fn lemma_issue_then_authenticate(
    m: Map<Seq<char>, SessionInfo>,
    token: Seq<char>,
    user: UserView,
    issued_at: u64,
    now: u64,
)
    requires
        issued_at + SESSION_DURATION_SECS <= u64::MAX,
    ensures
        ({
            let expires_at = (issued_at + SESSION_DURATION_SECS) as u64;
            let m2 = m.insert(token, SessionInfo { user, expires_at });
            &&& now < expires_at ==> auth_error(m2, token, now) is None && m2[token].user == user
                && auth_next(m2, token, now) == m2
            &&& now >= expires_at ==> auth_error(m2, token, now) == Some(AuthError::TokenExpired)
        }),
{
}

/// Authenticating a token immediately after revoking it fails with
/// `TokenNotFound`, whatever the time.
pub proof fn lemma_revoke_then_authenticate(
    m: Map<Seq<char>, SessionInfo>,
    token: Seq<char>,
    now: u64,
)
    ensures
        auth_error(m.remove(token), token, now) == Some(AuthError::TokenNotFound),
{
}

/// Revoking is idempotent, and revoking a token that is not in the table is
/// a no-op.
pub proof fn lemma_revoke_idempotent(m: Map<Seq<char>, SessionInfo>, token: Seq<char>)
    ensures
        m.remove(token).remove(token) == m.remove(token),
        !m.contains_key(token) ==> m.remove(token) == m,
{
    assert(m.remove(token).remove(token) =~= m.remove(token));
    if !m.contains_key(token) {
        assert(m.remove(token) =~= m);
    }
}

} // verus!
