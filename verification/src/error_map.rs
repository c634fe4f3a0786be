//! Mapping of remote-service error codes onto the caller-facing taxonomy.
//!
//! The remote collaboration service answers with its own error code and a
//! message.  The host tells those codes apart at its boundary and hands
//! one [`RemoteErrorCode`] over; the mapping itself is pure and verified.

use vstd::prelude::*;

verus! {

/// The error codes the remote service answers with.  `Other` stands for
/// any code this library does not tell apart.
#[derive(Clone, Copy, Debug, PartialEq, Eq, Structural)]
pub enum RemoteErrorCode {
    Success,
    Unhandled,
    RecordNotFound,
    RecordAlreadyExists,
    InvalidEmail,
    InvalidPassword,
    OAuthError,
    MissingPayload,
    OpenError,
    InvalidUrl,
    InvalidRequest,
    InvalidOAuthProvider,
    NotLoggedIn,
    NotEnoughPermissions,
    NetworkError,
    RequestTimeout,
    PayloadTooLarge,
    UserUnAuthorized,
    WorkspaceLimitExceeded,
    WorkspaceMemberLimitExceeded,
    AIResponseLimitExceeded,
    AIImageResponseLimitExceeded,
    AIMaxRequired,
    FileStorageLimitExceeded,
    SingleUploadLimitExceeded,
    CustomNamespaceDisabled,
    CustomNamespaceDisallowed,
    PublishNamespaceAlreadyTaken,
    CustomNamespaceTooShort,
    CustomNamespaceTooLong,
    CustomNamespaceReserved,
    PublishNameAlreadyExists,
    PublishNameInvalidCharacter,
    PublishNameTooLong,
    CustomNamespaceInvalidCharacter,
    AIServiceUnavailable,
    FreePlanGuestLimitExceeded,
    InvalidGuest,
    PaidPlanGuestLimitExceeded,
    Other,
}

/// The caller-facing error codes.
#[derive(Clone, Copy, Debug, PartialEq, Eq, Structural)]
pub enum ErrorCode {
    Internal,
    RecordNotFound,
    RecordAlreadyExists,
    EmailFormatInvalid,
    PasswordFormatInvalid,
    UserUnauthorized,
    MissingPayload,
    InvalidURL,
    InvalidRequest,
    InvalidAuthConfig,
    NotEnoughPermissions,
    NetworkError,
    RequestTimeout,
    PayloadTooLarge,
    WorkspaceLimitExceeded,
    WorkspaceMemberLimitExceeded,
    AIResponseLimitExceeded,
    AIImageResponseLimitExceeded,
    AIMaxRequired,
    FileStorageLimitExceeded,
    SingleUploadLimitExceeded,
    CustomNamespaceRequirePlanUpgrade,
    CustomNamespaceNotAllowed,
    CustomNamespaceAlreadyTaken,
    CustomNamespaceTooShort,
    CustomNamespaceTooLong,
    CustomNamespaceReserved,
    PublishNameAlreadyExists,
    PublishNameInvalidCharacter,
    PublishNameTooLong,
    CustomNamespaceInvalidCharacter,
    AIServiceUnavailable,
    FreePlanGuestLimitExceeded,
    InvalidGuest,
    PaidPlanGuestLimitExceeded,
}

/// Where each remote code lands in the caller-facing taxonomy.
pub open spec fn spec_error_code_of(code: RemoteErrorCode) -> ErrorCode {
    match code {
        RemoteErrorCode::Success => ErrorCode::Internal,
        RemoteErrorCode::Unhandled => ErrorCode::Internal,
        RemoteErrorCode::RecordNotFound => ErrorCode::RecordNotFound,
        RemoteErrorCode::RecordAlreadyExists => ErrorCode::RecordAlreadyExists,
        RemoteErrorCode::InvalidEmail => ErrorCode::EmailFormatInvalid,
        RemoteErrorCode::InvalidPassword => ErrorCode::PasswordFormatInvalid,
        RemoteErrorCode::OAuthError => ErrorCode::UserUnauthorized,
        RemoteErrorCode::MissingPayload => ErrorCode::MissingPayload,
        RemoteErrorCode::OpenError => ErrorCode::Internal,
        RemoteErrorCode::InvalidUrl => ErrorCode::InvalidURL,
        RemoteErrorCode::InvalidRequest => ErrorCode::InvalidRequest,
        RemoteErrorCode::InvalidOAuthProvider => ErrorCode::InvalidAuthConfig,
        RemoteErrorCode::NotLoggedIn => ErrorCode::UserUnauthorized,
        RemoteErrorCode::NotEnoughPermissions => ErrorCode::NotEnoughPermissions,
        RemoteErrorCode::NetworkError => ErrorCode::NetworkError,
        RemoteErrorCode::RequestTimeout => ErrorCode::RequestTimeout,
        RemoteErrorCode::PayloadTooLarge => ErrorCode::PayloadTooLarge,
        RemoteErrorCode::UserUnAuthorized => ErrorCode::UserUnauthorized,
        RemoteErrorCode::WorkspaceLimitExceeded => ErrorCode::WorkspaceLimitExceeded,
        RemoteErrorCode::WorkspaceMemberLimitExceeded => ErrorCode::WorkspaceMemberLimitExceeded,
        RemoteErrorCode::AIResponseLimitExceeded => ErrorCode::AIResponseLimitExceeded,
        RemoteErrorCode::AIImageResponseLimitExceeded => ErrorCode::AIImageResponseLimitExceeded,
        RemoteErrorCode::AIMaxRequired => ErrorCode::AIMaxRequired,
        RemoteErrorCode::FileStorageLimitExceeded => ErrorCode::FileStorageLimitExceeded,
        RemoteErrorCode::SingleUploadLimitExceeded => ErrorCode::SingleUploadLimitExceeded,
        RemoteErrorCode::CustomNamespaceDisabled => ErrorCode::CustomNamespaceRequirePlanUpgrade,
        RemoteErrorCode::CustomNamespaceDisallowed => ErrorCode::CustomNamespaceNotAllowed,
        RemoteErrorCode::PublishNamespaceAlreadyTaken => ErrorCode::CustomNamespaceAlreadyTaken,
        RemoteErrorCode::CustomNamespaceTooShort => ErrorCode::CustomNamespaceTooShort,
        RemoteErrorCode::CustomNamespaceTooLong => ErrorCode::CustomNamespaceTooLong,
        RemoteErrorCode::CustomNamespaceReserved => ErrorCode::CustomNamespaceReserved,
        RemoteErrorCode::PublishNameAlreadyExists => ErrorCode::PublishNameAlreadyExists,
        RemoteErrorCode::PublishNameInvalidCharacter => ErrorCode::PublishNameInvalidCharacter,
        RemoteErrorCode::PublishNameTooLong => ErrorCode::PublishNameTooLong,
        RemoteErrorCode::CustomNamespaceInvalidCharacter => ErrorCode::CustomNamespaceInvalidCharacter,
        RemoteErrorCode::AIServiceUnavailable => ErrorCode::AIServiceUnavailable,
        RemoteErrorCode::FreePlanGuestLimitExceeded => ErrorCode::FreePlanGuestLimitExceeded,
        RemoteErrorCode::InvalidGuest => ErrorCode::InvalidGuest,
        RemoteErrorCode::PaidPlanGuestLimitExceeded => ErrorCode::PaidPlanGuestLimitExceeded,
        RemoteErrorCode::Other => ErrorCode::Internal,
    }
}

/// A caller-facing error: the mapped code, with the remote message kept.
pub struct FlowyError {
    pub code: ErrorCode,
    pub msg: String,
}

impl FlowyError {
    /// An error with the given code and message.
    pub fn new(code: ErrorCode, msg: String) -> (r: FlowyError)
        ensures
            r.code == code,
            r.msg == msg,
    {
        FlowyError { code, msg }
    }

    /// Maps a remote answer onto the caller-facing taxonomy, keeping the
    /// message.
    pub fn from_remote(code: RemoteErrorCode, msg: String) -> (r: FlowyError)
        ensures
            r.code == spec_error_code_of(code),
            r.msg == msg,
    {
        let mapped = match code {
            RemoteErrorCode::Success => ErrorCode::Internal,
            RemoteErrorCode::Unhandled => ErrorCode::Internal,
            RemoteErrorCode::RecordNotFound => ErrorCode::RecordNotFound,
            RemoteErrorCode::RecordAlreadyExists => ErrorCode::RecordAlreadyExists,
            RemoteErrorCode::InvalidEmail => ErrorCode::EmailFormatInvalid,
            RemoteErrorCode::InvalidPassword => ErrorCode::PasswordFormatInvalid,
            RemoteErrorCode::OAuthError => ErrorCode::UserUnauthorized,
            RemoteErrorCode::MissingPayload => ErrorCode::MissingPayload,
            RemoteErrorCode::OpenError => ErrorCode::Internal,
            RemoteErrorCode::InvalidUrl => ErrorCode::InvalidURL,
            RemoteErrorCode::InvalidRequest => ErrorCode::InvalidRequest,
            RemoteErrorCode::InvalidOAuthProvider => ErrorCode::InvalidAuthConfig,
            RemoteErrorCode::NotLoggedIn => ErrorCode::UserUnauthorized,
            RemoteErrorCode::NotEnoughPermissions => ErrorCode::NotEnoughPermissions,
            RemoteErrorCode::NetworkError => ErrorCode::NetworkError,
            RemoteErrorCode::RequestTimeout => ErrorCode::RequestTimeout,
            RemoteErrorCode::PayloadTooLarge => ErrorCode::PayloadTooLarge,
            RemoteErrorCode::UserUnAuthorized => ErrorCode::UserUnauthorized,
            RemoteErrorCode::WorkspaceLimitExceeded => ErrorCode::WorkspaceLimitExceeded,
            RemoteErrorCode::WorkspaceMemberLimitExceeded => ErrorCode::WorkspaceMemberLimitExceeded,
            RemoteErrorCode::AIResponseLimitExceeded => ErrorCode::AIResponseLimitExceeded,
            RemoteErrorCode::AIImageResponseLimitExceeded => ErrorCode::AIImageResponseLimitExceeded,
            RemoteErrorCode::AIMaxRequired => ErrorCode::AIMaxRequired,
            RemoteErrorCode::FileStorageLimitExceeded => ErrorCode::FileStorageLimitExceeded,
            RemoteErrorCode::SingleUploadLimitExceeded => ErrorCode::SingleUploadLimitExceeded,
            RemoteErrorCode::CustomNamespaceDisabled => ErrorCode::CustomNamespaceRequirePlanUpgrade,
            RemoteErrorCode::CustomNamespaceDisallowed => ErrorCode::CustomNamespaceNotAllowed,
            RemoteErrorCode::PublishNamespaceAlreadyTaken => ErrorCode::CustomNamespaceAlreadyTaken,
            RemoteErrorCode::CustomNamespaceTooShort => ErrorCode::CustomNamespaceTooShort,
            RemoteErrorCode::CustomNamespaceTooLong => ErrorCode::CustomNamespaceTooLong,
            RemoteErrorCode::CustomNamespaceReserved => ErrorCode::CustomNamespaceReserved,
            RemoteErrorCode::PublishNameAlreadyExists => ErrorCode::PublishNameAlreadyExists,
            RemoteErrorCode::PublishNameInvalidCharacter => ErrorCode::PublishNameInvalidCharacter,
            RemoteErrorCode::PublishNameTooLong => ErrorCode::PublishNameTooLong,
            RemoteErrorCode::CustomNamespaceInvalidCharacter => ErrorCode::CustomNamespaceInvalidCharacter,
            RemoteErrorCode::AIServiceUnavailable => ErrorCode::AIServiceUnavailable,
            RemoteErrorCode::FreePlanGuestLimitExceeded => ErrorCode::FreePlanGuestLimitExceeded,
            RemoteErrorCode::InvalidGuest => ErrorCode::InvalidGuest,
            RemoteErrorCode::PaidPlanGuestLimitExceeded => ErrorCode::PaidPlanGuestLimitExceeded,
            RemoteErrorCode::Other => ErrorCode::Internal,
        };
        FlowyError { code: mapped, msg }
    }
}

} // verus!
