//! The failures a verification request can end in, and how each is shown to
//! the caller.

use vstd::prelude::*;

verus! {

/// Why a request was refused or could not be completed.
#[derive(Clone, Copy, Debug, PartialEq, Eq, Structural)]
pub enum VerificationError {
    /// The request carried no usable language identifier.
    InvalidLanguageCode,
    /// A live attempt already exists for the phone number.
    AlreadyPending,
    /// The attempt record could not be written or removed, or the provider did
    /// not accept the challenge.
    InternalError,
    /// The provider rejected the submitted code, or could not be reached.
    VerificationFailed,
}

/// The class of remote-call failure under which an error is reported.
#[derive(Clone, Copy, Debug, PartialEq, Eq, Structural)]
pub enum RpcCode {
    InvalidArgument,
    AlreadyExists,
    Internal,
}

impl VerificationError {
    /// The failure class of each error. A rejected code is reported as an
    /// internal failure, like a failed send.
    pub open spec fn spec_rpc_code(self) -> RpcCode {
        match self {
            VerificationError::InvalidLanguageCode => RpcCode::InvalidArgument,
            VerificationError::AlreadyPending => RpcCode::AlreadyExists,
            VerificationError::InternalError => RpcCode::Internal,
            VerificationError::VerificationFailed => RpcCode::Internal,
        }
    }

    pub fn rpc_code(&self) -> (code: RpcCode)
        ensures
            code == self.spec_rpc_code(),
    {
        match self {
            VerificationError::InvalidLanguageCode => RpcCode::InvalidArgument,
            VerificationError::AlreadyPending => RpcCode::AlreadyExists,
            VerificationError::InternalError => RpcCode::Internal,
            VerificationError::VerificationFailed => RpcCode::Internal,
        }
    }

    /// The catalog key of the message shown for each error.
    pub open spec fn spec_message_key(self) -> Seq<char> {
        match self {
            VerificationError::InvalidLanguageCode => "invalid_language_code"@,
            VerificationError::AlreadyPending => "verification_already_exists"@,
            VerificationError::InternalError => "sms_send_failed"@,
            VerificationError::VerificationFailed => "sms_verification_failed"@,
        }
    }

    pub fn message_key(&self) -> (key: &'static str)
        ensures
            key@ == self.spec_message_key(),
    {
        match self {
            VerificationError::InvalidLanguageCode => "invalid_language_code",
            VerificationError::AlreadyPending => "verification_already_exists",
            VerificationError::InternalError => "sms_send_failed",
            VerificationError::VerificationFailed => "sms_verification_failed",
        }
    }
}

} // verus!
