//! The send path: the decisions taken between the request for a new code
//! and the answer to it.
//!
//! The flow asks for one thing at a time. In each state it names the action
//! it waits for; the answer to that action moves it to the next state. The
//! flow itself touches neither the attempt record nor the provider.

use vstd::prelude::*;
use crate::error::VerificationError;
use crate::reply::{LookupOutcome, ProviderReply, WriteOutcome};

verus! {

/// Where a request for a new code stands.
#[derive(Clone, Copy, Debug, PartialEq, Eq)]
pub enum SendState {
    /// Waiting to learn whether a live attempt exists for the number.
    CheckingAdmission,
    /// Admitted; waiting for the new attempt to be recorded.
    InsertingAttempt,
    /// Recorded; waiting for the provider to take the challenge.
    SendingChallenge,
    /// Decided.
    Finished(Result<(), VerificationError>),
}

/// What the flow wants done next.
#[derive(Clone, Copy, Debug, PartialEq, Eq)]
pub enum SendAction {
    /// Ask the record whether the number has a live attempt.
    CheckLiveAttempt,
    /// Record a new attempt for the number.
    InsertAttempt,
    /// Have the provider send a challenge to the number.
    SendChallenge,
    /// Answer the caller.
    Respond(Result<(), VerificationError>),
}

/// The answer to an action.
#[derive(Clone, Copy, Debug, PartialEq, Eq)]
pub enum SendEvent {
    AdmissionChecked(LookupOutcome),
    AttemptInserted(WriteOutcome),
    ChallengeSent(ProviderReply),
}

/// The answer owed to a request, given what the record said about a live
/// attempt, what the insert did, and what the provider replied. A live
/// attempt refuses the request; after that a failed insert, and after that
/// anything but the provider's acceptance, is an internal failure.
pub open spec fn send_verdict(
    lookup: LookupOutcome,
    insert: WriteOutcome,
    reply: ProviderReply,
) -> Result<(), VerificationError> {
    if lookup.reports_live() {
        Err(VerificationError::AlreadyPending)
    } else if !insert.took_effect() {
        Err(VerificationError::InternalError)
    } else if !reply.accepts_challenge() {
        Err(VerificationError::InternalError)
    } else {
        Ok(())
    }
}

impl SendState {
    /// The action each state waits for.
    pub open spec fn spec_action(self) -> SendAction {
        match self {
            SendState::CheckingAdmission => SendAction::CheckLiveAttempt,
            SendState::InsertingAttempt => SendAction::InsertAttempt,
            SendState::SendingChallenge => SendAction::SendChallenge,
            SendState::Finished(outcome) => SendAction::Respond(outcome),
        }
    }

    /// The state after `event`. An event that does not answer the state's
    /// action changes nothing.
    pub open spec fn spec_advance(self, event: SendEvent) -> SendState {
        match (self, event) {
            (SendState::CheckingAdmission, SendEvent::AdmissionChecked(lookup)) => {
                if lookup.reports_live() {
                    SendState::Finished(Err(VerificationError::AlreadyPending))
                } else {
                    SendState::InsertingAttempt
                }
            },
            (SendState::InsertingAttempt, SendEvent::AttemptInserted(insert)) => {
                if insert.took_effect() {
                    SendState::SendingChallenge
                } else {
                    SendState::Finished(Err(VerificationError::InternalError))
                }
            },
            (SendState::SendingChallenge, SendEvent::ChallengeSent(reply)) => {
                if reply.accepts_challenge() {
                    SendState::Finished(Ok(()))
                } else {
                    SendState::Finished(Err(VerificationError::InternalError))
                }
            },
            _ => self,
        }
    }

    /// Whether `event` answers the action this state waits for.
    pub open spec fn awaits(self, event: SendEvent) -> bool {
        match (self, event) {
            (SendState::CheckingAdmission, SendEvent::AdmissionChecked(_)) => true,
            (SendState::InsertingAttempt, SendEvent::AttemptInserted(_)) => true,
            (SendState::SendingChallenge, SendEvent::ChallengeSent(_)) => true,
            _ => false,
        }
    }

    /// The most actions that can still be asked for before the answer.
    pub open spec fn steps_left(self) -> nat {
        match self {
            SendState::CheckingAdmission => 3,
            SendState::InsertingAttempt => 2,
            SendState::SendingChallenge => 1,
            SendState::Finished(_) => 0,
        }
    }

    /// Every request starts by checking admission.
    pub fn start() -> (state: SendState)
        ensures
            state == SendState::CheckingAdmission,
    {
        SendState::CheckingAdmission
    }

    pub fn action(&self) -> (action: SendAction)
        ensures
            action == self.spec_action(),
    {
        match self {
            SendState::CheckingAdmission => SendAction::CheckLiveAttempt,
            SendState::InsertingAttempt => SendAction::InsertAttempt,
            SendState::SendingChallenge => SendAction::SendChallenge,
            SendState::Finished(outcome) => SendAction::Respond(*outcome),
        }
    }

    pub fn advance(self, event: SendEvent) -> (next: SendState)
        ensures
            next == self.spec_advance(event),
            self.awaits(event) ==> next.steps_left() < self.steps_left(),
            !self.awaits(event) ==> next == self,
    {
        match (self, event) {
            (SendState::CheckingAdmission, SendEvent::AdmissionChecked(lookup)) => {
                if lookup.is_live() {
                    SendState::Finished(Err(VerificationError::AlreadyPending))
                } else {
                    SendState::InsertingAttempt
                }
            },
            (SendState::InsertingAttempt, SendEvent::AttemptInserted(insert)) => {
                if insert.succeeded() {
                    SendState::SendingChallenge
                } else {
                    SendState::Finished(Err(VerificationError::InternalError))
                }
            },
            (SendState::SendingChallenge, SendEvent::ChallengeSent(reply)) => {
                if reply.challenge_accepted() {
                    SendState::Finished(Ok(()))
                } else {
                    SendState::Finished(Err(VerificationError::InternalError))
                }
            },
            (state, _) => state,
        }
    }

    /// The answer, once the flow has decided.
    pub fn outcome(&self) -> (decided: Option<Result<(), VerificationError>>)
        ensures
            decided == match *self {
                SendState::Finished(outcome) => Some(outcome),
                _ => None,
            },
    {
        match self {
            SendState::Finished(outcome) => Some(*outcome),
            _ => None,
        }
    }
}

/// A flow whose actions are answered in turn ends with the verdict on those
/// answers. The answers to actions that were never asked for do not matter.
pub proof fn lemma_send_flow_reaches_verdict(
    lookup: LookupOutcome,
    insert: WriteOutcome,
    reply: ProviderReply,
)
    ensures
        SendState::CheckingAdmission.spec_advance(SendEvent::AdmissionChecked(lookup)).spec_advance(
            SendEvent::AttemptInserted(insert),
        ).spec_advance(SendEvent::ChallengeSent(reply)) == SendState::Finished(
            send_verdict(lookup, insert, reply),
        ),
{
}

/// The provider is asked to send only after admission was granted and the
/// attempt was recorded, and the record is written only after admission.
pub proof fn lemma_send_flow_order(state: SendState, event: SendEvent)
    requires
        state.spec_advance(event) != state,
    ensures
        state.spec_advance(event) == SendState::SendingChallenge ==> state
            == SendState::InsertingAttempt && (event matches SendEvent::AttemptInserted(insert)
            && insert.took_effect()),
        state.spec_advance(event) == SendState::InsertingAttempt ==> state
            == SendState::CheckingAdmission && (event matches SendEvent::AdmissionChecked(lookup)
            && !lookup.reports_live()),
        state.spec_advance(event) != SendState::CheckingAdmission,
{
}

} // verus!
