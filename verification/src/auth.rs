//! Login and logout, session-token minting, and the login rate limiter.
use vstd::prelude::*;

use crate::files::UserToken;
use crate::session::{SessionInfo, SESSION_DURATION_SECS};
use crate::state::AppState;
use crate::text::hex_encode;
use crate::user::password_accepted;

verus! {

/// Number of random bytes in a session token; hex-encoded they yield the 64
/// characters of the token string.
pub const TOKEN_BYTES: usize = 32;

/// A login request: the claimed username and the candidate password.
pub struct LoginData {
    pub user: String,
    pub pass: String,
}

/// Relies on `rand::rng()` and `rand::Rng::fill_bytes`: fills the whole
/// buffer with random bytes from the thread-local generator. The contents
/// are random, so nothing is assumed beyond the length staying the same.
#[verifier::external_body]
fn fill_random_bytes(buf: &mut Vec<u8>)
    ensures
        final(buf)@.len() == old(buf)@.len(),
{
    rand::Rng::fill_bytes(&mut rand::rng(), buf.as_mut_slice());
}

/// Mints a fresh session token: [`TOKEN_BYTES`] random bytes, hex-encoded to
/// twice as many characters.
pub fn new_token() -> (r: String)
    ensures
        r@.len() == 64,
{
    let mut buf: Vec<u8> = vec![0u8; TOKEN_BYTES];
    fill_random_bytes(&mut buf);
    hex_encode(&buf)
}

/// The undifferentiated rejection every failed login receives: whether the
/// username is unknown or the password wrong is never revealed.
#[derive(Debug, PartialEq, Eq, Structural, Clone, Copy)]
pub enum LoginError {
    Unauthorized,
}

/// Checks the presented credentials against the credential store and, on
/// success, issues a session token valid for [`SESSION_DURATION_SECS`] from
/// `now`. An unknown username and a wrong password fail alike; nothing else
/// in the state changes on failure.
pub fn login(form: &LoginData, state: &mut AppState, now: u64) -> (r: Result<String, LoginError>)
    requires
        now + SESSION_DURATION_SECS <= u64::MAX,
    ensures
        final(state).users == old(state).users,
        final(state).prefix_map == old(state).prefix_map,
        !old(state).users@.contains_key(form.user@) ==> r == Err::<String, LoginError>(
            LoginError::Unauthorized,
        ) && final(state).tokens@ == old(state).tokens@,
        old(state).users@.contains_key(form.user@) && !password_accepted(
            old(state).users@[form.user@]@,
            form.pass@,
        ) ==> r == Err::<String, LoginError>(LoginError::Unauthorized) && final(state).tokens@
            == old(state).tokens@,
        old(state).users@.contains_key(form.user@) && password_accepted(
            old(state).users@[form.user@]@,
            form.pass@,
        ) ==> (r matches Ok(token) && token@.len() == 64 && final(state).tokens@ == old(
            state,
        ).tokens@.insert(
            token@,
            SessionInfo {
                user: old(state).users@[form.user@]@,
                expires_at: (now + SESSION_DURATION_SECS) as u64,
            },
        )),
{
    let user = match state.users.get(form.user.as_str()) {
        None => {
            return Err(LoginError::Unauthorized);
        },
        Some(u) => u,
    };
    if !user.check_password(form.pass.as_str()) {
        return Err(LoginError::Unauthorized);
    }
    let user = user.clone();
    let token = state.tokens.issue(&user, now);
    Ok(token)
}

/// Removes the session of the presented token; it always succeeds, whether
/// or not the session still exists.
pub fn logout(ut: &UserToken, state: &mut AppState)
    ensures
        final(state).users == old(state).users,
        final(state).prefix_map == old(state).prefix_map,
        final(state).tokens@ == old(state).tokens@.remove(ut.token@),
{
    state.tokens.revoke(ut.token.as_str());
}

/// Most login attempts a caller may make within one rate-limit window.
pub const MAX_BURST: u32 = 5;

/// Length of the login rate-limit window, in seconds.
pub const WAIT_TIME_SECS: u64 = 2 * 60;

/// The rejection a caller receives once its login quota is spent.
#[derive(Debug, PartialEq, Eq, Structural, Clone, Copy)]
pub enum RateLimitError {
    TooManyAttempts,
}

/// Per-caller login rate-limiter state: when the caller's current window
/// started and how many attempts have been admitted in it.
#[derive(Debug, PartialEq, Eq, Structural, Clone, Copy)]
pub struct LoginRateLimitGuard {
    pub window_start: u64,
    pub count: u32,
}

/// Whether the guard's current window is over at time `now`.
pub open spec fn window_elapsed(g: LoginRateLimitGuard, now: u64) -> bool {
    now >= g.window_start + WAIT_TIME_SECS
}

/// Whether an attempt at time `now` is admitted: either a new window has
/// started, or the current window still has quota.
pub open spec fn attempt_allowed(g: LoginRateLimitGuard, now: u64) -> bool {
    window_elapsed(g, now) || g.count < MAX_BURST
}

/// Guard state after an attempt at time `now`: an elapsed window restarts at
/// `now` with this attempt counted; an admitted attempt inside the window
/// increments the count; a rejected attempt changes nothing.
pub open spec fn next_guard(g: LoginRateLimitGuard, now: u64) -> LoginRateLimitGuard {
    if window_elapsed(g, now) {
        LoginRateLimitGuard { window_start: now, count: 1u32 }
    } else if g.count < MAX_BURST {
        LoginRateLimitGuard { window_start: g.window_start, count: (g.count + 1) as u32 }
    } else {
        g
    }
}

impl LoginRateLimitGuard {
    /// A fresh guard: no window started, no attempts counted.
    pub fn new() -> (g: Self)
        ensures
            g == (LoginRateLimitGuard { window_start: 0u64, count: 0u32 }),
    {
        LoginRateLimitGuard { window_start: 0, count: 0 }
    }

    /// Registers a login attempt at time `now`, admitting or rejecting it
    /// according to the window quota.
    pub fn try_attempt(&mut self, now: u64) -> (r: Result<(), RateLimitError>)
        ensures
            r is Ok <==> attempt_allowed(*old(self), now),
            *final(self) == next_guard(*old(self), now),
    {
        let elapsed = now >= self.window_start && now - self.window_start >= WAIT_TIME_SECS;
        if elapsed {
            self.window_start = now;
            self.count = 1;
            Ok(())
        } else if self.count < MAX_BURST {
            self.count = self.count + 1;
            Ok(())
        } else {
            Err(RateLimitError::TooManyAttempts)
        }
    }
}

/// A run of attempts against a guard, in order.
pub open spec fn run_attempts(g: LoginRateLimitGuard, times: Seq<u64>) -> LoginRateLimitGuard
    decreases times.len(),
{
    if times.len() == 0 {
        g
    } else {
        next_guard(run_attempts(g, times.drop_last()), times.last())
    }
}

/// How many attempts of a run are admitted.
pub open spec fn allowed_attempts(g: LoginRateLimitGuard, times: Seq<u64>) -> int
    decreases times.len(),
{
    if times.len() == 0 {
        0
    } else {
        allowed_attempts(g, times.drop_last()) + if attempt_allowed(
            run_attempts(g, times.drop_last()),
            times.last(),
        ) {
            1int
        } else {
            0int
        }
    }
}

/// Attempts exceeding the burst within one window are rejected: of any run of
/// attempts that all fall before the guard's current window elapses, at most
/// `MAX_BURST - g.count` are admitted, and each admitted one raises the count
/// by exactly one.
pub proof fn lemma_burst_bound(g: LoginRateLimitGuard, times: Seq<u64>)
    requires
        g.count <= MAX_BURST,
        forall|i: int| 0 <= i < times.len() ==> times[i] < g.window_start + WAIT_TIME_SECS,
    ensures
        run_attempts(g, times).window_start == g.window_start,
        run_attempts(g, times).count == g.count + allowed_attempts(g, times),
        run_attempts(g, times).count <= MAX_BURST,
        allowed_attempts(g, times) <= MAX_BURST - g.count,
    decreases times.len(),
{
    if times.len() > 0 {
        lemma_burst_bound(g, times.drop_last());
    }
}

/// A guard whose burst is spent rejects every further attempt inside its
/// window.
pub proof fn lemma_burst_rejected(g: LoginRateLimitGuard, now: u64)
    requires
        g.count >= MAX_BURST,
        now < g.window_start + WAIT_TIME_SECS,
    ensures
        !attempt_allowed(g, now),
{
}

/// Once the window has elapsed, the next attempt is admitted again and opens
/// a fresh window.
pub proof fn lemma_window_elapsed_allows(g: LoginRateLimitGuard, now: u64)
    requires
        now >= g.window_start + WAIT_TIME_SECS,
    ensures
        attempt_allowed(g, now),
        next_guard(g, now) == (LoginRateLimitGuard { window_start: now, count: 1u32 }),
{
}

} // verus!
