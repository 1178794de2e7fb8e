//! Single-tenant session access control with a sliding expiration.
use vstd::prelude::*;

use crate::outside::{fresh_id, now_millis};
use crate::text::same_text;

verus! {

/// How long a session lives after it is created or last validated, in milliseconds.
pub const DEFAULT_SESSION_MILLIS: u64 = 1_800_000;

/// A stored session: its identifier, and the instant (milliseconds since the Unix epoch)
/// from which it counts as expired.
#[derive(Debug)]
pub struct Session {
    pub id: String,
    pub expires_at: u64,
}

/// Why a session could not be created.
#[derive(Debug, PartialEq, Eq, Structural)]
pub enum SessionError {
    /// A session that has not expired is already active.
    Conflict,
}

/// The session store. At most one session is stored at any time.
#[derive(Debug)]
pub struct SessionManager {
    active_session: Option<Session>,
    duration_ms: u64,
}

/// A session as the contracts see it: identifier and expiry instant.
pub open spec fn session_view(s: Session) -> (Seq<char>, u64) {
    (s.id@, s.expires_at)
}

/// `now + duration`, held at the largest instant where the sum does not fit.
pub open spec fn expiry_after(now: u64, duration: u64) -> u64 {
    if now as int + duration as int > u64::MAX as int {
        u64::MAX
    } else {
        (now + duration) as u64
    }
}

/// Whether a stored session is present and not yet expired at `now`.
pub open spec fn is_live(active: Option<(Seq<char>, u64)>, now: u64) -> bool {
    active matches Some(s) && now < s.1
}

/// What creating a session does to the stored session, and whether it succeeds.
pub open spec fn create_outcome(
    active: Option<(Seq<char>, u64)>,
    duration: u64,
    clear_existing: bool,
    now: u64,
    id: Seq<char>,
) -> (Option<(Seq<char>, u64)>, bool) {
    if !clear_existing && is_live(active, now) {
        (active, false)
    } else {
        (Some((id, expiry_after(now, duration))), true)
    }
}

/// What validating `id` at `now` does to the stored session, and the answer it gives.
pub open spec fn validate_outcome(
    active: Option<(Seq<char>, u64)>,
    duration: u64,
    id: Seq<char>,
    now: u64,
) -> (Option<(Seq<char>, u64)>, bool) {
    match active {
        None => (None, false),
        Some(s) => if now >= s.1 {
            (None, false)
        } else if s.0 != id {
            (active, false)
        } else {
            (Some((s.0, expiry_after(now, duration))), true)
        },
    }
}

/// Creating a session without clearing, while a live one is stored, is refused and keeps
/// the stored session; creating it with clearing always stores the new one.
pub proof fn lemma_create_conflict_or_replace(
    active: Option<(Seq<char>, u64)>,
    duration: u64,
    now: u64,
    id: Seq<char>,
)
    ensures
        is_live(active, now) ==> create_outcome(active, duration, false, now, id) == (active, false),
        create_outcome(active, duration, true, now, id) == (Some((id, expiry_after(now, duration))), true),
{
}

/// Validating against an expired session answers `false` and evicts it; from then on
/// the manager behaves as if no session existed: every later validation answers `false`
/// and leaves it empty, and a creation without clearing succeeds.
pub proof fn lemma_expired_validation_evicts(
    s: (Seq<char>, u64),
    duration: u64,
    id: Seq<char>,
    now: u64,
    later_id: Seq<char>,
    later: u64,
    new_id: Seq<char>,
)
    requires
        now >= s.1,
    ensures
        validate_outcome(Some(s), duration, id, now) == (None::<(Seq<char>, u64)>, false),
        validate_outcome(None, duration, later_id, later) == (None::<(Seq<char>, u64)>, false),
        create_outcome(None, duration, false, later, new_id).1,
{
}

/// The wall clock in milliseconds, with instants before the epoch read as zero.
fn clock_now() -> (r: u64) {
    let t = now_millis();
    if t < 0 {
        0
    } else {
        t as u64
    }
}

impl Session {
    /// A session with a fresh random identifier that expires at `expires_at`.
    pub fn new(expires_at: u64) -> (r: Session)
        ensures
            r.expires_at == expires_at,
    {
        Session { id: fresh_id(), expires_at }
    }
}

impl SessionManager {
    /// The stored session, as the contracts see it.
    pub closed spec fn active(&self) -> Option<(Seq<char>, u64)> {
        match self.active_session {
            None => None,
            Some(s) => Some(session_view(s)),
        }
    }

    /// How far each creation or validation pushes the expiry.
    pub closed spec fn duration(&self) -> u64 {
        self.duration_ms
    }

    /// A manager with no session, whose sessions last `DEFAULT_SESSION_MILLIS`.
    pub fn new() -> (r: SessionManager)
        ensures
            r.active() is None,
            r.duration() == DEFAULT_SESSION_MILLIS,
    {
        SessionManager { active_session: None, duration_ms: DEFAULT_SESSION_MILLIS }
    }

    /// A manager with no session, whose sessions last `duration_ms`.
    pub fn with_duration(duration_ms: u64) -> (r: SessionManager)
        ensures
            r.active() is None,
            r.duration() == duration_ms,
    {
        SessionManager { active_session: None, duration_ms }
    }

    /// Creates a session with identifier `id` at instant `now`. Refused with `Conflict`
    /// when a live session is stored and `clear_existing` is false; otherwise the new
    /// session replaces whatever was stored.
    pub fn create_session_at(&mut self, clear_existing: bool, now: u64, id: String) -> (r: Result<Session, SessionError>)
        ensures
            final(self).duration() == old(self).duration(),
            (final(self).active(), r is Ok) == create_outcome(old(self).active(), old(self).duration(), clear_existing, now, id@),
            r matches Ok(s) ==> session_view(s) == (id@, expiry_after(now, old(self).duration())),
            r matches Err(e) ==> e == SessionError::Conflict,
    {
        if !clear_existing {
            if let Some(s) = &self.active_session {
                if now < s.expires_at {
                    return Err(SessionError::Conflict);
                }
            }
        }
        let expires_at = if now > u64::MAX - self.duration_ms {
            u64::MAX
        } else {
            now + self.duration_ms
        };
        let stored = Session { id: id.clone(), expires_at };
        self.active_session = Some(stored);
        Ok(Session { id, expires_at })
    }

    /// Creates a session with a fresh identifier at the current time; see
    /// `create_session_at`.
    pub fn create_session(&mut self, clear_existing: bool) -> (r: Result<Session, SessionError>)
        ensures
            final(self).duration() == old(self).duration(),
            old(self).active() is None ==> r is Ok,
            clear_existing ==> r is Ok,
            r matches Ok(s) ==> final(self).active() == Some(session_view(s)),
            r is Err ==> r == Err::<Session, SessionError>(SessionError::Conflict) && final(self).active() == old(self).active(),
    {
        let now = clock_now();
        let id = fresh_id();
        self.create_session_at(clear_existing, now, id)
    }

    /// Checks `session_id` against the stored session at instant `now`. An expired
    /// session is evicted and the answer is `false`; a live one with the same identifier
    /// has its expiry pushed to `now` plus the duration and the answer is `true`.
    pub fn validate_session_id_at(&mut self, session_id: &str, now: u64) -> (r: bool)
        ensures
            final(self).duration() == old(self).duration(),
            (final(self).active(), r) == validate_outcome(old(self).active(), old(self).duration(), session_id@, now),
    {
        let expired = match &self.active_session {
            None => return false,
            Some(s) => now >= s.expires_at,
        };
        if expired {
            self.active_session = None;
            return false;
        }
        let d = self.duration_ms;
        match &mut self.active_session {
            None => false,
            Some(s) => {
                if !same_text(s.id.as_str(), session_id) {
                    return false;
                }
                s.expires_at = if now > u64::MAX - d {
                    u64::MAX
                } else {
                    now + d
                };
                true
            },
        }
    }

    /// Checks `session_id` against the stored session at the current time; see
    /// `validate_session_id_at`.
    pub fn validate_session_id(&mut self, session_id: &str) -> (r: bool)
        ensures
            final(self).duration() == old(self).duration(),
            exists|now: u64| (#[trigger] validate_outcome(old(self).active(), old(self).duration(), session_id@, now)) == (final(self).active(), r),
    {
        let now = clock_now();
        self.validate_session_id_at(session_id, now)
    }

    /// Evicts the stored session, if any.
    pub fn clear_session(&mut self)
        ensures
            final(self).active() is None,
            final(self).duration() == old(self).duration(),
    {
        self.active_session = None;
    }
}

} // verus!
