//! The lifecycle of an attempt, stated over the record as a map from phone
//! number to creation time: what a request for a new code and the
//! submission of a code return, and what each leaves on record.

use vstd::prelude::*;
use crate::admission::{is_live, lemma_expired_stays_expired};
use crate::error::VerificationError;
use crate::reply::{LookupOutcome, ProviderReply, WriteOutcome};
use crate::send_flow::send_verdict;
use crate::store::has_live;
use crate::verify_flow::verify_verdict;

verus! {

/// A request for a new code for `phone_number` at `now`, where `reply` is
/// what the provider answers if it is asked to send.
///
/// A live attempt refuses the request and leaves the record as it is.
/// Otherwise the attempt is recorded with `now`, in place of an expired one
/// if there is one, and stays on record whatever the provider answers.
pub open spec fn request_verification(
    record: Map<Seq<char>, u64>,
    phone_number: Seq<char>,
    now: u64,
    reply: ProviderReply,
) -> (Result<(), VerificationError>, Map<Seq<char>, u64>) {
    if has_live(record, phone_number, now) {
        (Err(VerificationError::AlreadyPending), record)
    } else if reply.accepts_challenge() {
        (Ok(()), record.insert(phone_number, now))
    } else {
        (Err(VerificationError::InternalError), record.insert(phone_number, now))
    }
}

/// The submission of a code for `phone_number`, where `reply` is what the
/// provider answers to the check of that code.
///
/// Without the provider's confirmation the verification fails and the
/// record stays as it is. With it, the number's attempt is removed; if the
/// number has none, that is an internal failure.
pub open spec fn confirm_verification(
    record: Map<Seq<char>, u64>,
    phone_number: Seq<char>,
    reply: ProviderReply,
) -> (Result<(), VerificationError>, Map<Seq<char>, u64>) {
    if !reply.confirms_code() {
        (Err(VerificationError::VerificationFailed), record)
    } else if record.contains_key(phone_number) {
        (Ok(()), record.remove(phone_number))
    } else {
        (Err(VerificationError::InternalError), record)
    }
}

/// Requests for `phone_number` made one after another, each at its own time
/// and with its own answer from the provider: the answer to each, and the
/// record after the last.
pub open spec fn request_repeatedly(
    record: Map<Seq<char>, u64>,
    phone_number: Seq<char>,
    calls: Seq<(u64, ProviderReply)>,
) -> (Seq<Result<(), VerificationError>>, Map<Seq<char>, u64>)
    decreases calls.len(),
{
    if calls.len() == 0 {
        (Seq::empty(), record)
    } else {
        let (answer, next) = request_verification(record, phone_number, calls[0].0, calls[0].1);
        let (answers, last) = request_repeatedly(next, phone_number, calls.drop_first());
        (seq![answer] + answers, last)
    }
}

/// While a number's attempt is live, every request for the number is
/// refused as already pending, whatever the provider would answer, and the
/// record stays as it is.
pub proof fn lemma_pending_while_live(
    record: Map<Seq<char>, u64>,
    phone_number: Seq<char>,
    calls: Seq<(u64, ProviderReply)>,
)
    requires
        record.contains_key(phone_number),
        forall|i: int|
            0 <= i < calls.len() ==> is_live(
                record[phone_number] as int,
                (#[trigger] calls[i]).0 as int,
            ),
    ensures
        ({
            let (answers, last) = request_repeatedly(record, phone_number, calls);
            &&& answers.len() == calls.len()
            &&& forall|i: int|
                0 <= i < calls.len() ==> #[trigger] answers[i] == Err::<(), VerificationError>(
                    VerificationError::AlreadyPending,
                )
            &&& last == record
        }),
    decreases calls.len(),
{
    if calls.len() > 0 {
        let rest = calls.drop_first();
        assert(is_live(record[phone_number] as int, calls[0].0 as int));
        assert forall|i: int| 0 <= i < rest.len() implies is_live(
            record[phone_number] as int,
            (#[trigger] rest[i]).0 as int,
        ) by {
            assert(rest[i] == calls[i + 1]);
        }
        lemma_pending_while_live(record, phone_number, rest);
    }
}

/// A number that has no attempt on record is admitted once per window.
/// The first request records the attempt and succeeds if and only if the
/// provider accepts the challenge. Every request for the number that
/// follows while that attempt is live is refused as already pending, and
/// none of them changes the record.
pub proof fn lemma_admitted_once_within_window(
    record: Map<Seq<char>, u64>,
    phone_number: Seq<char>,
    first: u64,
    first_reply: ProviderReply,
    retries: Seq<(u64, ProviderReply)>,
)
    requires
        !record.contains_key(phone_number),
        forall|i: int|
            0 <= i < retries.len() ==> is_live(first as int, (#[trigger] retries[i]).0 as int),
    ensures
        ({
            let (answer, recorded) = request_verification(
                record,
                phone_number,
                first,
                first_reply,
            );
            let (answers, last) = request_repeatedly(recorded, phone_number, retries);
            &&& answer is Ok <==> first_reply.accepts_challenge()
            &&& answer != Err::<(), VerificationError>(VerificationError::AlreadyPending)
            &&& recorded == record.insert(phone_number, first)
            &&& answers.len() == retries.len()
            &&& forall|i: int|
                0 <= i < retries.len() ==> #[trigger] answers[i] == Err::<(), VerificationError>(
                    VerificationError::AlreadyPending,
                )
            &&& last == recorded
        }),
{
    lemma_pending_while_live(record.insert(phone_number, first), phone_number, retries);
}

/// Once the admission window of a number's attempt has passed, at
/// `elapsed`, a request for the number at any time from then on is admitted
/// although the old attempt is still on record: it succeeds if and only if
/// the provider accepts the challenge, and the new attempt takes the place
/// of the old one.
pub proof fn lemma_admitted_after_window(
    record: Map<Seq<char>, u64>,
    phone_number: Seq<char>,
    elapsed: u64,
    now: u64,
    reply: ProviderReply,
)
    requires
        record.contains_key(phone_number),
        !is_live(record[phone_number] as int, elapsed as int),
        elapsed <= now,
    ensures
        ({
            let (answer, recorded) = request_verification(record, phone_number, now, reply);
            &&& answer is Ok <==> reply.accepts_challenge()
            &&& answer != Err::<(), VerificationError>(VerificationError::AlreadyPending)
            &&& recorded == record.insert(phone_number, now)
            &&& has_live(recorded, phone_number, now)
        }),
{
    lemma_expired_stays_expired(record[phone_number] as int, elapsed as int, now as int);
}

/// A confirmed code removes the number's attempt, so that a request for the
/// same number is admitted at once, at any time: it succeeds if and only if
/// the provider accepts the new challenge.
pub proof fn lemma_confirmed_number_is_admitted_again(
    record: Map<Seq<char>, u64>,
    phone_number: Seq<char>,
    check_reply: ProviderReply,
    now: u64,
    send_reply: ProviderReply,
)
    requires
        record.contains_key(phone_number),
        check_reply.confirms_code(),
    ensures
        ({
            let (confirmed, cleared) = confirm_verification(record, phone_number, check_reply);
            let (answer, recorded) = request_verification(cleared, phone_number, now, send_reply);
            &&& confirmed == Ok::<(), VerificationError>(())
            &&& cleared == record.remove(phone_number)
            &&& !cleared.contains_key(phone_number)
            &&& answer is Ok <==> send_reply.accepts_challenge()
            &&& answer != Err::<(), VerificationError>(VerificationError::AlreadyPending)
            &&& recorded == cleared.insert(phone_number, now)
        }),
{
}

/// A code that the provider does not confirm, or a provider that does not
/// answer, fails the verification and leaves every attempt where it was.
pub proof fn lemma_rejected_code_keeps_attempt(
    record: Map<Seq<char>, u64>,
    phone_number: Seq<char>,
    reply: ProviderReply,
)
    requires
        !reply.confirms_code(),
    ensures
        confirm_verification(record, phone_number, reply) == (
            Err::<(), VerificationError>(VerificationError::VerificationFailed),
            record,
        ),
{
}

/// A send that fails at the provider is not rolled back. When an admitted
/// request gets no answer from the provider, or any answer but its
/// acceptance, the request ends in an internal failure and the attempt
/// stays on record, live from `now` on.
pub proof fn lemma_failed_send_keeps_attempt(
    record: Map<Seq<char>, u64>,
    phone_number: Seq<char>,
    now: u64,
    reply: ProviderReply,
)
    requires
        !has_live(record, phone_number, now),
        reply == ProviderReply::TransportFailed || !reply.accepts_challenge(),
    ensures
        request_verification(record, phone_number, now, reply) == (
            Err::<(), VerificationError>(VerificationError::InternalError),
            record.insert(phone_number, now),
        ),
        has_live(record.insert(phone_number, now), phone_number, now),
{
}

/// Neither path touches the attempt of any number but the one it is for.
pub proof fn lemma_other_numbers_untouched(
    record: Map<Seq<char>, u64>,
    phone_number: Seq<char>,
    other: Seq<char>,
    now: u64,
    reply: ProviderReply,
)
    requires
        other != phone_number,
    ensures
        ({
            let requested = request_verification(record, phone_number, now, reply).1;
            let confirmed = confirm_verification(record, phone_number, reply).1;
            &&& requested.contains_key(other) == record.contains_key(other)
            &&& confirmed.contains_key(other) == record.contains_key(other)
            &&& record.contains_key(other) ==> requested[other] == record[other] && confirmed[other]
                == record[other]
        }),
{
}

/// What the paths return over a record is what their flows decide when the
/// record answers for itself: it reports a live attempt exactly when it
/// holds one, an insert always writes one row, and a delete removes one row
/// exactly when the number has an attempt.
pub proof fn lemma_answers_are_flow_verdicts(
    record: Map<Seq<char>, u64>,
    phone_number: Seq<char>,
    now: u64,
    reply: ProviderReply,
)
    ensures
        request_verification(record, phone_number, now, reply).0 == send_verdict(
            LookupOutcome::Flag(has_live(record, phone_number, now)),
            WriteOutcome::Rows(1),
            reply,
        ),
        confirm_verification(record, phone_number, reply).0 == verify_verdict(
            reply,
            WriteOutcome::Rows(
                if record.contains_key(phone_number) {
                    1
                } else {
                    0
                },
            ),
        ),
{
}

} // verus!
