//! Notifications: one immutable record for each committed change to a game.

use vstd::prelude::*;

verus! {

/// A point in time without a time zone: whole seconds since the Unix epoch
/// and the nanoseconds into that second.
#[derive(Clone, Copy, Debug, PartialEq, Eq, Structural)]
pub struct Timestamp {
    /// Whole seconds since the Unix epoch.
    pub secs: i64,
    /// Nanoseconds into the second.
    pub nanos: u32,
}

impl Timestamp {
    /// Whether this time is strictly later than `other`.
    pub open spec fn later_than(&self, other: Timestamp) -> bool {
        self.secs > other.secs || (self.secs == other.secs && self.nanos > other.nanos)
    }

    /// Decides whether this time is strictly later than `other`.
    pub fn is_later_than(&self, other: &Timestamp) -> (later: bool)
        ensures
            later == self.later_than(*other),
    {
        self.secs > other.secs || (self.secs == other.secs && self.nanos > other.nanos)
    }
}

/// One guess as viewers see it. The bus carries it through without reading it.
#[derive(Clone, Debug, PartialEq, Eq)]
pub struct GraphPoint {
    /// Identifier of the invitee who made the guess.
    pub invitee_id: u128,
    /// Name shown beside the guess.
    pub display_name: String,
    /// Colour of the guess, as a hexadecimal colour code.
    pub color_hex: String,
    /// Guessed date.
    pub guessed_date: Timestamp,
    /// Guessed weight in kilograms, as the bit pattern of a binary64 number.
    pub guessed_weight_bits: u64,
}

/// A guess was added to a game, or changed.
#[derive(Clone, Debug, PartialEq, Eq)]
pub struct GuessUpdate {
    /// The game the guess belongs to.
    pub event_id: u128,
    /// The guess as it now stands.
    pub guess: GraphPoint,
}

/// A change that viewers of a game are told of.
#[derive(Clone, Debug, PartialEq, Eq)]
pub enum LiveUpdate {
    /// A guess was added or changed.
    Guess(GuessUpdate),
    /// The settings of a game were changed.
    EventSettings {
        /// The game whose settings changed.
        event_id: u128,
        /// Whether guesses may now be edited.
        allow_guess_edits: bool,
    },
}

impl LiveUpdate {
    /// The game this update belongs to.
    pub open spec fn spec_event_id(&self) -> u128 {
        match self {
            LiveUpdate::Guess(update) => update.event_id,
            LiveUpdate::EventSettings { event_id, .. } => *event_id,
        }
    }

    /// The game this update belongs to.
    #[verifier::when_used_as_spec(spec_event_id)]
    pub fn event_id(&self) -> (id: u128)
        ensures
            id == self.spec_event_id(),
    {
        match self {
            LiveUpdate::Guess(update) => update.event_id,
            LiveUpdate::EventSettings { event_id, .. } => *event_id,
        }
    }
}

} // verus!
