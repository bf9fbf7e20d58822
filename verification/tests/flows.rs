use sms_verification::error::{RpcCode, VerificationError};
use sms_verification::locale::{
    accept_language_id, validate_language_id_from_request, LANGUAGE_ID_HEADER,
};
use sms_verification::reply::{
    LookupOutcome, ProviderReply, WriteOutcome, CHALLENGE_ACCEPTED_STATUS, CODE_VERIFIED_STATUS,
};
use sms_verification::send_flow::{SendAction, SendEvent, SendState};
use sms_verification::verify_flow::{VerifyAction, VerifyEvent, VerifyState};

#[test]
fn send_flow_runs_admission_insert_challenge() {
    let flow = SendState::start();
    assert_eq!(flow, SendState::CheckingAdmission);
    assert_eq!(flow.action(), SendAction::CheckLiveAttempt);
    assert_eq!(flow.outcome(), None);
    let flow = flow.advance(SendEvent::AdmissionChecked(LookupOutcome::Flag(false)));
    assert_eq!(flow, SendState::InsertingAttempt);
    assert_eq!(flow.action(), SendAction::InsertAttempt);
    let flow = flow.advance(SendEvent::AttemptInserted(WriteOutcome::Rows(1)));
    assert_eq!(flow, SendState::SendingChallenge);
    assert_eq!(flow.action(), SendAction::SendChallenge);
    let flow = flow.advance(SendEvent::ChallengeSent(ProviderReply::Status(201)));
    assert_eq!(flow, SendState::Finished(Ok(())));
    assert_eq!(flow.action(), SendAction::Respond(Ok(())));
    assert_eq!(flow.outcome(), Some(Ok(())));
}

#[test]
fn send_flow_refuses_a_live_attempt_without_further_actions() {
    let flow = SendState::start().advance(SendEvent::AdmissionChecked(LookupOutcome::Flag(true)));
    assert_eq!(flow, SendState::Finished(Err(VerificationError::AlreadyPending)));
    assert_eq!(flow.action(), SendAction::Respond(Err(VerificationError::AlreadyPending)));
}

#[test]
fn send_flow_admits_when_the_lookup_gives_no_flag() {
    for lookup in [LookupOutcome::QueryFailed, LookupOutcome::NoRow, LookupOutcome::Unreadable] {
        assert!(!lookup.is_live());
        let flow = SendState::start().advance(SendEvent::AdmissionChecked(lookup));
        assert_eq!(flow, SendState::InsertingAttempt);
    }
    assert!(LookupOutcome::Flag(true).is_live());
    assert!(!LookupOutcome::Flag(false).is_live());
}

#[test]
fn send_flow_fails_when_the_insert_writes_nothing() {
    for insert in [WriteOutcome::Rows(0), WriteOutcome::Failed] {
        let flow = SendState::InsertingAttempt.advance(SendEvent::AttemptInserted(insert));
        assert_eq!(flow, SendState::Finished(Err(VerificationError::InternalError)));
        assert_eq!(flow.action(), SendAction::Respond(Err(VerificationError::InternalError)));
    }
}

#[test]
fn send_flow_fails_when_the_provider_does_not_accept() {
    for reply in [
        ProviderReply::TransportFailed,
        ProviderReply::Status(200),
        ProviderReply::Status(400),
        ProviderReply::Status(503),
    ] {
        let flow = SendState::SendingChallenge.advance(SendEvent::ChallengeSent(reply));
        assert_eq!(flow, SendState::Finished(Err(VerificationError::InternalError)));
    }
}

#[test]
fn send_flow_ignores_answers_it_did_not_ask_for() {
    let stray = [
        SendEvent::AttemptInserted(WriteOutcome::Rows(1)),
        SendEvent::ChallengeSent(ProviderReply::Status(201)),
    ];
    for event in stray {
        assert_eq!(SendState::CheckingAdmission.advance(event), SendState::CheckingAdmission);
    }
    let done = SendState::Finished(Err(VerificationError::AlreadyPending));
    for event in [
        SendEvent::AdmissionChecked(LookupOutcome::Flag(false)),
        SendEvent::AttemptInserted(WriteOutcome::Rows(1)),
        SendEvent::ChallengeSent(ProviderReply::Status(201)),
    ] {
        assert_eq!(done.advance(event), done);
    }
    assert_eq!(
        SendState::SendingChallenge.advance(SendEvent::AdmissionChecked(LookupOutcome::Flag(true))),
        SendState::SendingChallenge
    );
}

#[test]
fn verify_flow_runs_check_then_delete() {
    let flow = VerifyState::start();
    assert_eq!(flow, VerifyState::CheckingCode);
    assert_eq!(flow.action(), VerifyAction::CheckChallenge);
    assert_eq!(flow.outcome(), None);
    let flow = flow.advance(VerifyEvent::ChallengeChecked(ProviderReply::Status(200)));
    assert_eq!(flow, VerifyState::DeletingAttempt);
    assert_eq!(flow.action(), VerifyAction::DeleteAttempt);
    let flow = flow.advance(VerifyEvent::AttemptDeleted(WriteOutcome::Rows(1)));
    assert_eq!(flow, VerifyState::Finished(Ok(())));
    assert_eq!(flow.action(), VerifyAction::Respond(Ok(())));
    assert_eq!(flow.outcome(), Some(Ok(())));
}

#[test]
fn verify_flow_fails_without_touching_the_record_when_the_code_is_not_confirmed() {
    for reply in [
        ProviderReply::TransportFailed,
        ProviderReply::Status(201),
        ProviderReply::Status(404),
    ] {
        let flow = VerifyState::start().advance(VerifyEvent::ChallengeChecked(reply));
        assert_eq!(flow, VerifyState::Finished(Err(VerificationError::VerificationFailed)));
        assert_eq!(
            flow.action(),
            VerifyAction::Respond(Err(VerificationError::VerificationFailed))
        );
    }
}

#[test]
fn verify_flow_fails_when_the_delete_removes_nothing() {
    for delete in [WriteOutcome::Rows(0), WriteOutcome::Failed] {
        let flow = VerifyState::DeletingAttempt.advance(VerifyEvent::AttemptDeleted(delete));
        assert_eq!(flow, VerifyState::Finished(Err(VerificationError::InternalError)));
    }
}

#[test]
fn verify_flow_ignores_answers_it_did_not_ask_for() {
    assert_eq!(
        VerifyState::CheckingCode.advance(VerifyEvent::AttemptDeleted(WriteOutcome::Rows(1))),
        VerifyState::CheckingCode
    );
    assert_eq!(
        VerifyState::DeletingAttempt
            .advance(VerifyEvent::ChallengeChecked(ProviderReply::Status(404))),
        VerifyState::DeletingAttempt
    );
    let done = VerifyState::Finished(Ok(()));
    assert_eq!(done.advance(VerifyEvent::AttemptDeleted(WriteOutcome::Failed)), done);
}

#[test]
fn write_takes_effect_when_some_row_is_affected() {
    assert!(!WriteOutcome::Failed.succeeded());
    assert!(!WriteOutcome::Rows(0).succeeded());
    assert!(WriteOutcome::Rows(1).succeeded());
    assert!(WriteOutcome::Rows(2).succeeded());
    assert!(WriteOutcome::Rows(u64::MAX).succeeded());
}

#[test]
fn provider_statuses() {
    assert_eq!(CHALLENGE_ACCEPTED_STATUS, 201);
    assert_eq!(CODE_VERIFIED_STATUS, 200);
    assert!(ProviderReply::Status(201).challenge_accepted());
    assert!(!ProviderReply::Status(200).challenge_accepted());
    assert!(!ProviderReply::TransportFailed.challenge_accepted());
    assert!(ProviderReply::Status(200).code_verified());
    assert!(!ProviderReply::Status(201).code_verified());
    assert!(!ProviderReply::TransportFailed.code_verified());
}

#[test]
fn errors_map_to_failure_classes_and_message_keys() {
    assert_eq!(VerificationError::InvalidLanguageCode.rpc_code(), RpcCode::InvalidArgument);
    assert_eq!(VerificationError::AlreadyPending.rpc_code(), RpcCode::AlreadyExists);
    assert_eq!(VerificationError::InternalError.rpc_code(), RpcCode::Internal);
    assert_eq!(VerificationError::VerificationFailed.rpc_code(), RpcCode::Internal);
    assert_eq!(VerificationError::InvalidLanguageCode.message_key(), "invalid_language_code");
    assert_eq!(VerificationError::AlreadyPending.message_key(), "verification_already_exists");
    assert_eq!(VerificationError::InternalError.message_key(), "sms_send_failed");
    assert_eq!(VerificationError::VerificationFailed.message_key(), "sms_verification_failed");
}

#[test]
fn request_without_language_id_is_refused_without_asking_the_catalog() {
    let never = |_id: &String| -> bool { panic!("asked about a language that was not given") };
    assert_eq!(
        validate_language_id_from_request(None, never),
        Err(VerificationError::InvalidLanguageCode)
    );
}

#[test]
fn unknown_language_id_is_refused() {
    let known = |id: &String| id == "en" || id == "de";
    assert_eq!(
        validate_language_id_from_request(Some("xx".to_string()), known),
        Err(VerificationError::InvalidLanguageCode)
    );
    assert_eq!(
        validate_language_id_from_request(Some(String::new()), known),
        Err(VerificationError::InvalidLanguageCode)
    );
}

#[test]
fn known_language_id_is_kept_as_given() {
    let known = |id: &String| id == "en" || id == "de";
    assert_eq!(
        validate_language_id_from_request(Some("de".to_string()), known),
        Ok("de".to_string())
    );
    assert_eq!(accept_language_id("en".to_string(), true), Ok("en".to_string()));
    assert_eq!(
        accept_language_id("en".to_string(), false),
        Err(VerificationError::InvalidLanguageCode)
    );
}

#[test]
fn language_header_name() {
    assert_eq!(LANGUAGE_ID_HEADER, "x-language-id");
}
