//! What the collaborators of the service answer, as plain values: the
//! attempt record's replies to a query and to a write, and the delivery
//! provider's reply to a call.

use vstd::prelude::*;

verus! {

/// The response status with which the provider accepts a new challenge.
pub const CHALLENGE_ACCEPTED_STATUS: u16 = 201;

/// The response status with which the provider confirms a submitted code.
pub const CODE_VERIFIED_STATUS: u16 = 200;

/// The answer to the question whether a live attempt exists.
#[derive(Clone, Copy, Debug, PartialEq, Eq)]
pub enum LookupOutcome {
    /// The query could not be run.
    QueryFailed,
    /// The query returned no row.
    NoRow,
    /// The row's value could not be read as a flag.
    Unreadable,
    /// The flag that the query returned.
    Flag(bool),
}

/// The answer to an insert or a delete of an attempt record.
#[derive(Clone, Copy, Debug, PartialEq, Eq)]
pub enum WriteOutcome {
    /// The statement could not be run.
    Failed,
    /// The statement ran and affected this many rows.
    Rows(u64),
}

/// The answer of the delivery provider to one call.
#[derive(Clone, Copy, Debug, PartialEq, Eq)]
pub enum ProviderReply {
    /// No response arrived.
    TransportFailed,
    /// A response arrived with this status.
    Status(u16),
}

impl LookupOutcome {
    /// A live attempt is reported only by a flag that is set. A query that
    /// fails, or whose answer cannot be read, blocks nobody.
    pub open spec fn reports_live(self) -> bool {
        self == LookupOutcome::Flag(true)
    }

    pub fn is_live(&self) -> (live: bool)
        ensures
            live == self.reports_live(),
    {
        match self {
            LookupOutcome::Flag(flag) => *flag,
            _ => false,
        }
    }
}

impl WriteOutcome {
    /// A write took effect when the statement ran and affected some row.
    pub open spec fn took_effect(self) -> bool {
        match self {
            WriteOutcome::Rows(n) => n != 0,
            WriteOutcome::Failed => false,
        }
    }

    pub fn succeeded(&self) -> (ok: bool)
        ensures
            ok == self.took_effect(),
    {
        match self {
            WriteOutcome::Rows(n) => *n != 0,
            WriteOutcome::Failed => false,
        }
    }
}

impl ProviderReply {
    /// The challenge counts as sent only when the provider answered with
    /// the accepting status.
    pub open spec fn accepts_challenge(self) -> bool {
        self == ProviderReply::Status(CHALLENGE_ACCEPTED_STATUS)
    }

    pub fn challenge_accepted(&self) -> (ok: bool)
        ensures
            ok == self.accepts_challenge(),
    {
        match self {
            ProviderReply::Status(status) => *status == CHALLENGE_ACCEPTED_STATUS,
            ProviderReply::TransportFailed => false,
        }
    }

    /// The code counts as valid only when the provider answered with the
    /// confirming status.
    pub open spec fn confirms_code(self) -> bool {
        self == ProviderReply::Status(CODE_VERIFIED_STATUS)
    }

    pub fn code_verified(&self) -> (ok: bool)
        ensures
            ok == self.confirms_code(),
    {
        match self {
            ProviderReply::Status(status) => *status == CODE_VERIFIED_STATUS,
            ProviderReply::TransportFailed => false,
        }
    }
}

} // verus!
