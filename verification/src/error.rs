//! Error kinds that the service reports.

use vstd::prelude::*;

verus! {

/// What a failed call reports. The derivation operations themselves raise
/// `MechanismInvalid`, `ObjectHandleInvalid`, `WrongMessageLength` and
/// `InternalError`; every other kind only ever arrives from the keystore and is
/// passed on as it came.
#[derive(Clone, Copy, Debug, PartialEq, Eq, Structural)]
pub enum Error {
    HostMemory,
    GeneralError,
    FunctionFailed,
    FunctionNotSupported,
    /// The key behind a handle is of a kind that may not feed a derivation.
    MechanismInvalid,
    MechanismParamInvalid,
    /// The key behind a handle is not what the operation needs there.
    ObjectHandleInvalid,
    AeadError,
    CborError,
    ClientCountExceeded,
    EntropyMalfunction,
    FilesystemReadFailure,
    FilesystemWriteFailure,
    ImplementationError,
    /// A bounded buffer was too small, or something that the checks before it
    /// rule out happened all the same.
    InternalError,
    InvalidPath,
    InvalidSerializedKey,
    InvalidSerializedReply,
    InvalidSerializedRequest,
    InvalidSerializationFormat,
    MechanismNotAvailable,
    NonceOverflow,
    NoSuchCertificate,
    NoSuchKey,
    NotJustLetters,
    ReplySerializationFailure,
    RequestNotAvailable,
    SignDataTooLarge,
    WrongKeyKind,
    /// The requested output is longer than the service can produce.
    WrongMessageLength,
    WrongSignatureLength,
}

} // verus!
