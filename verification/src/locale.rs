//! Resolution of the language in which a request is answered.
//!
//! The language identifier travels with the request, outside its payload.
//! Which identifiers are known is for the message catalog to say; here it is
//! decided what a missing or unknown identifier means for the request. The
//! identifier selects message text and nothing else.

use vstd::prelude::*;
use crate::error::VerificationError;

verus! {

/// The name under which a request carries its language identifier.
pub const LANGUAGE_ID_HEADER: &'static str = "x-language-id";

/// A known identifier is kept as it is; an unknown one is refused.
pub open spec fn language_id_verdict(language_id: String, known: bool) -> Result<
    String,
    VerificationError,
> {
    if known {
        Ok(language_id)
    } else {
        Err(VerificationError::InvalidLanguageCode)
    }
}

/// Decides on a language identifier that the catalog has judged.
pub fn accept_language_id(language_id: String, known: bool) -> (resolved: Result<
    String,
    VerificationError,
>)
    ensures
        resolved == language_id_verdict(language_id, known),
{
    if known {
        Ok(language_id)
    } else {
        Err(VerificationError::InvalidLanguageCode)
    }
}

/// Resolves the language of a request from the identifier it carries, if
/// any. A request without one is refused without asking `is_known`; else
/// `is_known` is asked once, about that identifier, and its answer decides.
pub fn validate_language_id_from_request<F: Fn(&String) -> bool>(
    language_id: Option<String>,
    is_known: F,
) -> (resolved: Result<String, VerificationError>)
    requires
        language_id matches Some(id) ==> call_requires(is_known, (&id,)),
    ensures
        language_id is None ==> resolved == Err::<String, VerificationError>(
            VerificationError::InvalidLanguageCode,
        ),
        language_id matches Some(id) ==> exists|known: bool|
            call_ensures(is_known, (&id,), known) && resolved == language_id_verdict(id, known),
{
    match language_id {
        None => Err(VerificationError::InvalidLanguageCode),
        Some(id) => {
            let known = is_known(&id);
            accept_language_id(id, known)
        },
    }
}

} // verus!
