//! The decisions a request handler makes between its calls to the store.
//!
//! Each function takes what the store or the request gave and says whether
//! the request goes on. Weights are real numbers and are compared by the
//! caller, who hands in the outcome.

use crate::models::GraphPoint;
use crate::models::GuessUpdate;
use crate::models::LiveUpdate;
use crate::models::Timestamp;
use vstd::prelude::*;

verus! {

/// Seconds for which a game is kept after it was created: 365 days.
pub const RETENTION_SECS: i64 = 31_536_000;

/// Why a request was turned down.
#[derive(Clone, Copy, Debug, PartialEq, Eq, Structural)]
pub enum Rejection {
    /// The request is malformed or out of bounds.
    BadRequest,
    /// The caller may not do this.
    Forbidden,
    /// What the request names does not exist.
    NotFound,
    /// The address has used up its tokens.
    TooManyRequests,
    /// The update bus takes no more subscriptions.
    AtCapacity,
    /// The store failed.
    Internal,
}

/// How a transaction on the store failed.
#[derive(Clone, Copy, Debug, PartialEq, Eq, Structural)]
pub enum StoreError {
    /// No row matched.
    NotFound,
    /// Anything else.
    Other,
}

impl Rejection {
    /// The HTTP status that tells the client of this rejection.
    pub open spec fn spec_status(&self) -> u16 {
        match self {
            Rejection::BadRequest => 400,
            Rejection::Forbidden => 403,
            Rejection::NotFound => 404,
            Rejection::TooManyRequests => 429,
            Rejection::AtCapacity => 503,
            Rejection::Internal => 500,
        }
    }

    /// The HTTP status that tells the client of this rejection.
    #[verifier::when_used_as_spec(spec_status)]
    pub fn status(&self) -> (code: u16)
        ensures
            code == self.spec_status(),
    {
        match self {
            Rejection::BadRequest => 400,
            Rejection::Forbidden => 403,
            Rejection::NotFound => 404,
            Rejection::TooManyRequests => 429,
            Rejection::AtCapacity => 503,
            Rejection::Internal => 500,
        }
    }
}

/// The time at which a game stops taking guesses: its closing date, or its
/// due date where it has no closing date.
pub open spec fn closing_time(
    guess_close_date: Option<Timestamp>,
    due_date: Option<Timestamp>,
) -> Option<Timestamp> {
    match guess_close_date {
        Some(close) => Some(close),
        None => due_date,
    }
}

/// Whether a game takes guesses at time `now`: it does until its closing
/// time has passed, and always if it has none.
pub open spec fn takes_guesses(
    now: Timestamp,
    guess_close_date: Option<Timestamp>,
    due_date: Option<Timestamp>,
) -> bool {
    match closing_time(guess_close_date, due_date) {
        Some(close) => !now.later_than(close),
        None => true,
    }
}

/// The verdict on a new guess: a weight out of bounds is a bad request, and a
/// guess after the closing time is forbidden.
pub open spec fn guess_verdict(
    weight_in_bounds: bool,
    now: Timestamp,
    guess_close_date: Option<Timestamp>,
    due_date: Option<Timestamp>,
) -> Result<(), Rejection> {
    if !weight_in_bounds {
        Err(Rejection::BadRequest)
    } else if !takes_guesses(now, guess_close_date, due_date) {
        Err(Rejection::Forbidden)
    } else {
        Ok(())
    }
}

/// The verdict on a changed guess: forbidden where the game does not allow
/// edits, and otherwise that of a new guess.
pub open spec fn edit_verdict(
    allow_guess_edits: bool,
    weight_in_bounds: bool,
    now: Timestamp,
    guess_close_date: Option<Timestamp>,
    due_date: Option<Timestamp>,
) -> Result<(), Rejection> {
    if !allow_guess_edits {
        Err(Rejection::Forbidden)
    } else {
        guess_verdict(weight_in_bounds, now, guess_close_date, due_date)
    }
}

/// Admits a request that the rate limiter admitted, and turns down one that
/// it denied, before any work on the store.
pub fn check_admitted(admitted: bool) -> (verdict: Result<(), Rejection>)
    ensures
        verdict == (if admitted {
            Ok::<(), Rejection>(())
        } else {
            Err(Rejection::TooManyRequests)
        }),
{
    if admitted {
        Ok(())
    } else {
        Err(Rejection::TooManyRequests)
    }
}

/// Checks that the caller presented the secret key of the game.
pub fn check_owner(secret_key: &String, presented: &String) -> (verdict: Result<(), Rejection>)
    ensures
        verdict == (if secret_key@ == presented@ {
            Ok::<(), Rejection>(())
        } else {
            Err(Rejection::Forbidden)
        }),
{
    if secret_key.eq(presented) {
        Ok(())
    } else {
        Err(Rejection::Forbidden)
    }
}

/// Checks a new game: the challenge must have been passed, a due date
/// given, and the weight bounds must be finite with the upper above the lower.
pub fn check_new_event(challenge_passed: bool, has_due_date: bool, bounds_valid: bool) -> (verdict:
    Result<(), Rejection>)
    ensures
        verdict == (if challenge_passed && has_due_date && bounds_valid {
            Ok::<(), Rejection>(())
        } else {
            Err(Rejection::BadRequest)
        }),
{
    if challenge_passed && has_due_date && bounds_valid {
        Ok(())
    } else {
        Err(Rejection::BadRequest)
    }
}

/// Decides whether a game takes guesses at time `now`.
pub fn is_open(
    now: &Timestamp,
    guess_close_date: Option<Timestamp>,
    due_date: Option<Timestamp>,
) -> (open: bool)
    ensures
        open == takes_guesses(*now, guess_close_date, due_date),
{
    let close = match guess_close_date {
        Some(close) => Some(close),
        None => due_date,
    };
    match close {
        Some(close) => !now.is_later_than(&close),
        None => true,
    }
}

/// Checks a new guess against the rules of its game.
pub fn check_guess(
    weight_in_bounds: bool,
    now: &Timestamp,
    guess_close_date: Option<Timestamp>,
    due_date: Option<Timestamp>,
) -> (verdict: Result<(), Rejection>)
    ensures
        verdict == guess_verdict(weight_in_bounds, *now, guess_close_date, due_date),
{
    if !weight_in_bounds {
        Err(Rejection::BadRequest)
    } else if !is_open(now, guess_close_date, due_date) {
        Err(Rejection::Forbidden)
    } else {
        Ok(())
    }
}

/// Checks a changed guess against the rules of its game.
pub fn check_guess_edit(
    allow_guess_edits: bool,
    weight_in_bounds: bool,
    now: &Timestamp,
    guess_close_date: Option<Timestamp>,
    due_date: Option<Timestamp>,
) -> (verdict: Result<(), Rejection>)
    ensures
        verdict == edit_verdict(
            allow_guess_edits,
            weight_in_bounds,
            *now,
            guess_close_date,
            due_date,
        ),
{
    if !allow_guess_edits {
        Err(Rejection::Forbidden)
    } else {
        check_guess(weight_in_bounds, now, guess_close_date, due_date)
    }
}

/// Checks that an invitee belongs to the game named in the request.
pub fn check_invitee(invitee_event_id: u128, event_id: u128) -> (verdict: Result<(), Rejection>)
    ensures
        verdict == (if invitee_event_id == event_id {
            Ok::<(), Rejection>(())
        } else {
            Err(Rejection::Forbidden)
        }),
{
    if invitee_event_id == event_id {
        Ok(())
    } else {
        Err(Rejection::Forbidden)
    }
}

/// Checks that an update of a guess changed a row: an invitee without a
/// guess has nothing to change.
pub fn check_rows_updated(rows: usize) -> (outcome: Result<(), StoreError>)
    ensures
        outcome == (if rows == 0 {
            Err::<(), StoreError>(StoreError::NotFound)
        } else {
            Ok(())
        }),
{
    if rows == 0 {
        Err(StoreError::NotFound)
    } else {
        Ok(())
    }
}

/// The rejection that tells the client of a failed transaction.
pub open spec fn rejection_for(error: StoreError) -> Rejection {
    match error {
        StoreError::NotFound => Rejection::NotFound,
        StoreError::Other => Rejection::Internal,
    }
}

/// The update that is published once the store has answered: that of a
/// change that was committed, and none for a change that failed.
pub open spec fn published_after<T>(committed: Result<(T, LiveUpdate), StoreError>) -> Option<
    LiveUpdate,
> {
    match committed {
        Ok(done) => Some(done.1),
        Err(_) => None,
    }
}

/// The reply to the client once the store has answered: what the change
/// gave, or the rejection that tells of its failure.
pub open spec fn reply_after<T>(committed: Result<(T, LiveUpdate), StoreError>) -> Result<
    T,
    Rejection,
> {
    match committed {
        Ok(done) => Ok(done.0),
        Err(error) => Err(rejection_for(error)),
    }
}

/// An update is published exactly for a change that the store committed, it
/// is the update of that change, and the client is told of success exactly
/// then: a change that failed is never published.
pub proof fn publication_follows_commit<T>(committed: Result<(T, LiveUpdate), StoreError>)
    ensures
        published_after(committed) is Some <==> committed is Ok,
        reply_after(committed) is Ok <==> committed is Ok,
        committed matches Ok(done) ==> published_after(committed) == Some(done.1) && reply_after(
            committed,
        ) == Ok::<T, Rejection>(done.0),
        committed matches Err(error) ==> published_after(committed) is None && reply_after(
            committed,
        ) == Err::<T, Rejection>(rejection_for(error)),
{
}

/// Decides which rejection tells the client of a failed transaction.
pub fn rejection_of(error: StoreError) -> (rejection: Rejection)
    ensures
        rejection == rejection_for(error),
{
    match error {
        StoreError::NotFound => Rejection::NotFound,
        StoreError::Other => Rejection::Internal,
    }
}

/// Decides what a handler does once the store has answered: the update to
/// publish, if any, and the reply to the client.
pub fn after_commit<T>(committed: Result<(T, LiveUpdate), StoreError>) -> (next: (
    Option<LiveUpdate>,
    Result<T, Rejection>,
))
    ensures
        next.0 == published_after(committed),
        next.1 == reply_after(committed),
{
    match committed {
        Ok((value, update)) => (Some(update), Ok(value)),
        Err(error) => (None, Err(rejection_of(error))),
    }
}

/// The notification of a guess that was stored for `event_id`.
pub fn guess_notification(event_id: u128, guess: GraphPoint) -> (update: LiveUpdate)
    ensures
        update == LiveUpdate::Guess(GuessUpdate { event_id, guess }),
        update.event_id() == event_id,
{
    LiveUpdate::Guess(GuessUpdate { event_id, guess })
}

/// The notification of changed settings of the game `event_id`.
pub fn settings_notification(event_id: u128, allow_guess_edits: bool) -> (update: LiveUpdate)
    ensures
        update == (LiveUpdate::EventSettings { event_id, allow_guess_edits }),
        update.event_id() == event_id,
{
    LiveUpdate::EventSettings { event_id, allow_guess_edits }
}

/// The time before which games are removed by the cleanup: 365 days before
/// `now`.
pub fn retention_limit(now: &Timestamp) -> (limit: Timestamp)
    requires
        now.secs >= i64::MIN + RETENTION_SECS,
    ensures
        limit.secs == now.secs - RETENTION_SECS,
        limit.nanos == now.nanos,
{
    Timestamp { secs: now.secs - RETENTION_SECS, nanos: now.nanos }
}

} // verus!
