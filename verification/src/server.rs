//! The verification service over an attempt record that it owns.
//!
//! The service runs the send flow and the verify flow to their end. What a
//! flow asks of the record, the service does itself; what it asks of the
//! delivery provider, the service hands to the provider it is given, with
//! the phone number and the code as they came in.

use vstd::prelude::*;
use crate::error::VerificationError;
use crate::lifecycle::{confirm_verification, request_verification};
use crate::reply::{LookupOutcome, ProviderReply, WriteOutcome};
use crate::send_flow::{SendAction, SendEvent, SendState};
use crate::store::{has_live, VerificationStore};
use crate::verify_flow::{VerifyAction, VerifyEvent, VerifyState};

verus! {

/// The service: it holds the record of attempts. Time and the provider
/// come from the caller.
#[derive(Debug)]
pub struct SmsServiceImpl {
    db: VerificationStore,
}

impl View for SmsServiceImpl {
    type V = Map<Seq<char>, u64>;

    /// The attempts on record: the creation time of each number's attempt.
    closed spec fn view(&self) -> Map<Seq<char>, u64> {
        self.db@
    }
}

/// A request for a new code has been answered as it should: a live attempt
/// refused it without a word to the provider; otherwise the provider was
/// asked about `phone_number` and its reply decided.
pub open spec fn send_answered<P: Fn(&str) -> ProviderReply>(
    provider: P,
    phone_number: &str,
    now: u64,
    before: Map<Seq<char>, u64>,
    outcome: Result<(), VerificationError>,
    after: Map<Seq<char>, u64>,
) -> bool {
    if has_live(before, phone_number@, now) {
        outcome == Err::<(), VerificationError>(VerificationError::AlreadyPending) && after
            == before
    } else {
        exists|reply: ProviderReply|
            #[trigger] call_ensures(provider, (phone_number,), reply) && (outcome, after)
                == request_verification(before, phone_number@, now, reply)
    }
}

/// A submitted code has been answered as it should: the provider was asked
/// about `phone_number` and `code`, and its reply decided.
pub open spec fn verify_answered<P: Fn(&str, &str) -> ProviderReply>(
    provider: P,
    phone_number: &str,
    code: &str,
    before: Map<Seq<char>, u64>,
    outcome: Result<(), VerificationError>,
    after: Map<Seq<char>, u64>,
) -> bool {
    exists|reply: ProviderReply|
        #[trigger] call_ensures(provider, (phone_number, code), reply) && (outcome, after)
            == confirm_verification(before, phone_number@, reply)
}

/// What holds of the record while a request for a new code is under way.
spec fn send_progress<P: Fn(&str) -> ProviderReply>(
    state: SendState,
    provider: P,
    phone_number: &str,
    now: u64,
    before: Map<Seq<char>, u64>,
    record: Map<Seq<char>, u64>,
) -> bool {
    match state {
        SendState::CheckingAdmission => record == before,
        SendState::InsertingAttempt => record == before && !has_live(before, phone_number@, now),
        SendState::SendingChallenge => record == before.insert(phone_number@, now) && !has_live(
            before,
            phone_number@,
            now,
        ),
        SendState::Finished(outcome) => send_answered(
            provider,
            phone_number,
            now,
            before,
            outcome,
            record,
        ),
    }
}

/// What holds of the record while the confirmation of a code is under way.
spec fn verify_progress<P: Fn(&str, &str) -> ProviderReply>(
    state: VerifyState,
    provider: P,
    phone_number: &str,
    code: &str,
    before: Map<Seq<char>, u64>,
    record: Map<Seq<char>, u64>,
    heard: Option<ProviderReply>,
) -> bool {
    match state {
        VerifyState::CheckingCode => record == before,
        VerifyState::DeletingAttempt => {
            &&& record == before
            &&& heard matches Some(reply)
            &&& reply.confirms_code()
            &&& call_ensures(provider, (phone_number, code), reply)
        },
        VerifyState::Finished(outcome) => verify_answered(
            provider,
            phone_number,
            code,
            before,
            outcome,
            record,
        ),
    }
}

impl SmsServiceImpl {
    /// A service over the attempts in `db`.
    pub fn new(db: VerificationStore) -> (service: Self)
        ensures
            service@ == db@,
    {
        Self { db }
    }

    /// The record of attempts.
    pub fn store(&self) -> (db: &VerificationStore)
        ensures
            db@ == self@,
    {
        &self.db
    }

    /// Handles a request for a new code for `phone_number` at time `now`.
    ///
    /// A live attempt for the number refuses the request; the provider is
    /// not asked. Otherwise the attempt is recorded, then `provider` is
    /// asked once to send the challenge to `phone_number`, and the request
    /// succeeds if and only if it accepts. The attempt stays on record
    /// either way.
    pub fn send_phone_verification_code<P: Fn(&str) -> ProviderReply>(
        &mut self,
        phone_number: &str,
        now: u64,
        provider: P,
    ) -> (outcome: Result<(), VerificationError>)
        requires
            call_requires(provider, (phone_number,)),
        ensures
            send_answered(provider, phone_number, now, old(self)@, outcome, final(self)@),
    {
        let ghost before = self.db@;
        let mut flow = SendState::start();
        loop
            invariant
                before == old(self)@,
                call_requires(provider, (phone_number,)),
                send_progress(flow, provider, phone_number, now, before, self.db@),
            decreases flow.steps_left(),
        {
            let event = match flow.action() {
                SendAction::CheckLiveAttempt => {
                    let live = self.db.has_live_attempt(phone_number, now);
                    SendEvent::AdmissionChecked(LookupOutcome::Flag(live))
                },
                SendAction::InsertAttempt => {
                    let rows = self.db.insert_attempt(phone_number, now);
                    SendEvent::AttemptInserted(WriteOutcome::Rows(rows))
                },
                SendAction::SendChallenge => {
                    let reply = provider(phone_number);
                    SendEvent::ChallengeSent(reply)
                },
                SendAction::Respond(outcome) => {
                    return outcome;
                },
            };
            flow = flow.advance(event);
        }
    }

    /// Handles the submission of `code` for `phone_number`.
    ///
    /// `provider` is asked once to check `code` for `phone_number`. Without
    /// its confirmation the verification fails and the record stays as it
    /// is. With it, the number's attempt is removed; a number that has none
    /// ends in an internal failure.
    pub fn verify_phone_verification_code<P: Fn(&str, &str) -> ProviderReply>(
        &mut self,
        phone_number: &str,
        code: &str,
        provider: P,
    ) -> (outcome: Result<(), VerificationError>)
        requires
            call_requires(provider, (phone_number, code)),
        ensures
            verify_answered(provider, phone_number, code, old(self)@, outcome, final(self)@),
    {
        let ghost before = self.db@;
        let ghost mut heard: Option<ProviderReply> = None;
        let mut flow = VerifyState::start();
        loop
            invariant
                before == old(self)@,
                call_requires(provider, (phone_number, code)),
                verify_progress(flow, provider, phone_number, code, before, self.db@, heard),
            decreases flow.steps_left(),
        {
            let event = match flow.action() {
                VerifyAction::CheckChallenge => {
                    let reply = provider(phone_number, code);
                    proof {
                        heard = Some(reply);
                    }
                    VerifyEvent::ChallengeChecked(reply)
                },
                VerifyAction::DeleteAttempt => {
                    let rows = self.db.delete_attempt(phone_number);
                    assert(self.db@ =~= confirm_verification(
                        before,
                        phone_number@,
                        heard->0,
                    ).1);
                    VerifyEvent::AttemptDeleted(WriteOutcome::Rows(rows))
                },
                VerifyAction::Respond(outcome) => {
                    return outcome;
                },
            };
            flow = flow.advance(event);
        }
    }
}

} // verus!
