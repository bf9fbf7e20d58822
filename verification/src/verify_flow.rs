//! The verify path: the decisions taken between the submission of a code
//! and the answer to it.
//!
//! Like the send path, the flow names one action at a time and moves on the
//! answer to it. The code is checked by the provider alone: its length, its
//! age and the number of tries are not looked at here.

use vstd::prelude::*;
use crate::error::VerificationError;
use crate::reply::{ProviderReply, WriteOutcome};

verus! {

/// Where the confirmation of a code stands.
#[derive(Clone, Copy, Debug, PartialEq, Eq)]
pub enum VerifyState {
    /// Waiting for the provider to check the code.
    CheckingCode,
    /// The code was valid; waiting for the attempt to be removed.
    DeletingAttempt,
    /// Decided.
    Finished(Result<(), VerificationError>),
}

/// What the flow wants done next.
#[derive(Clone, Copy, Debug, PartialEq, Eq)]
pub enum VerifyAction {
    /// Have the provider check the submitted code for the number.
    CheckChallenge,
    /// Remove the number's attempt from the record.
    DeleteAttempt,
    /// Answer the caller.
    Respond(Result<(), VerificationError>),
}

/// The answer to an action.
#[derive(Clone, Copy, Debug, PartialEq, Eq)]
pub enum VerifyEvent {
    ChallengeChecked(ProviderReply),
    AttemptDeleted(WriteOutcome),
}

/// The answer owed to a submitted code, given what the provider replied and
/// what the delete did. Anything but the provider's confirmation fails the
/// verification; a confirmed code whose attempt could not be removed is an
/// internal failure.
pub open spec fn verify_verdict(reply: ProviderReply, delete: WriteOutcome) -> Result<
    (),
    VerificationError,
> {
    if !reply.confirms_code() {
        Err(VerificationError::VerificationFailed)
    } else if !delete.took_effect() {
        Err(VerificationError::InternalError)
    } else {
        Ok(())
    }
}

impl VerifyState {
    /// The action each state waits for.
    pub open spec fn spec_action(self) -> VerifyAction {
        match self {
            VerifyState::CheckingCode => VerifyAction::CheckChallenge,
            VerifyState::DeletingAttempt => VerifyAction::DeleteAttempt,
            VerifyState::Finished(outcome) => VerifyAction::Respond(outcome),
        }
    }

    /// The state after `event`. An event that does not answer the state's
    /// action changes nothing.
    pub open spec fn spec_advance(self, event: VerifyEvent) -> VerifyState {
        match (self, event) {
            (VerifyState::CheckingCode, VerifyEvent::ChallengeChecked(reply)) => {
                if reply.confirms_code() {
                    VerifyState::DeletingAttempt
                } else {
                    VerifyState::Finished(Err(VerificationError::VerificationFailed))
                }
            },
            (VerifyState::DeletingAttempt, VerifyEvent::AttemptDeleted(delete)) => {
                if delete.took_effect() {
                    VerifyState::Finished(Ok(()))
                } else {
                    VerifyState::Finished(Err(VerificationError::InternalError))
                }
            },
            _ => self,
        }
    }

    /// Whether `event` answers the action this state waits for.
    pub open spec fn awaits(self, event: VerifyEvent) -> bool {
        match (self, event) {
            (VerifyState::CheckingCode, VerifyEvent::ChallengeChecked(_)) => true,
            (VerifyState::DeletingAttempt, VerifyEvent::AttemptDeleted(_)) => true,
            _ => false,
        }
    }

    /// The most actions that can still be asked for before the answer.
    pub open spec fn steps_left(self) -> nat {
        match self {
            VerifyState::CheckingCode => 2,
            VerifyState::DeletingAttempt => 1,
            VerifyState::Finished(_) => 0,
        }
    }

    /// Every confirmation starts with the provider's check.
    pub fn start() -> (state: VerifyState)
        ensures
            state == VerifyState::CheckingCode,
    {
        VerifyState::CheckingCode
    }

    pub fn action(&self) -> (action: VerifyAction)
        ensures
            action == self.spec_action(),
    {
        match self {
            VerifyState::CheckingCode => VerifyAction::CheckChallenge,
            VerifyState::DeletingAttempt => VerifyAction::DeleteAttempt,
            VerifyState::Finished(outcome) => VerifyAction::Respond(*outcome),
        }
    }

    pub fn advance(self, event: VerifyEvent) -> (next: VerifyState)
        ensures
            next == self.spec_advance(event),
            self.awaits(event) ==> next.steps_left() < self.steps_left(),
            !self.awaits(event) ==> next == self,
    {
        match (self, event) {
            (VerifyState::CheckingCode, VerifyEvent::ChallengeChecked(reply)) => {
                if reply.code_verified() {
                    VerifyState::DeletingAttempt
                } else {
                    VerifyState::Finished(Err(VerificationError::VerificationFailed))
                }
            },
            (VerifyState::DeletingAttempt, VerifyEvent::AttemptDeleted(delete)) => {
                if delete.succeeded() {
                    VerifyState::Finished(Ok(()))
                } else {
                    VerifyState::Finished(Err(VerificationError::InternalError))
                }
            },
            (state, _) => state,
        }
    }

    /// The answer, once the flow has decided.
    pub fn outcome(&self) -> (decided: Option<Result<(), VerificationError>>)
        ensures
            decided == match *self {
                VerifyState::Finished(outcome) => Some(outcome),
                _ => None,
            },
    {
        match self {
            VerifyState::Finished(outcome) => Some(*outcome),
            _ => None,
        }
    }
}

/// A flow whose actions are answered in turn ends with the verdict on those
/// answers. The answer to a delete that was never asked for does not matter.
pub proof fn lemma_verify_flow_reaches_verdict(reply: ProviderReply, delete: WriteOutcome)
    ensures
        VerifyState::CheckingCode.spec_advance(VerifyEvent::ChallengeChecked(reply)).spec_advance(
            VerifyEvent::AttemptDeleted(delete),
        ) == VerifyState::Finished(verify_verdict(reply, delete)),
{
}

/// The record is written only after the provider confirmed the code.
pub proof fn lemma_verify_flow_order(state: VerifyState, event: VerifyEvent)
    requires
        state.spec_advance(event) != state,
    ensures
        state.spec_advance(event) == VerifyState::DeletingAttempt ==> state
            == VerifyState::CheckingCode && (event matches VerifyEvent::ChallengeChecked(reply)
            && reply.confirms_code()),
        state.spec_advance(event) != VerifyState::CheckingCode,
{
}

} // verus!
