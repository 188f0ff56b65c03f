use vstd::prelude::*;

verus! {

/// Result codes reported by the hub client operations.
#[derive(PartialEq, Eq, Debug, Clone, Copy, Structural)]
pub enum AzReturnCode {
    AzResultCoreOk,
    AzResultCoreErrorCanceled,
    AzResultCoreErrorArg,
    AzResultCoreErrorNotEnoughSpace,
    AzResultCoreErrorNotImplemented,
    AzResultCoreErrorItemNotFound,
    AzResultCoreErrorUnexpectedChar,
    AzResultCoreErrorUnexpectedEnd,
    AzResultCoreErrorNotSupported,
    AzResultCoreErrorDependencyNotProvided,
    AzResultCoreErrorOutOfMemory,
    AzResultCoreErrorJsonInvalidState,
    AzResultCoreErrorJsonNestingOverflow,
    AzResultCoreErrorJsonReaderDone,
    AzResultCoreErrorHttpInvalidState,
    AzResultCoreErrorHttpPipelineInvalidPolicy,
    AzResultCoreErrorHttpInvalidMethodVerb,
    AzResultCoreErrorHttpAuthenticationFailed,
    AzResultCoreErrorHttpResponseOverflow,
    AzResultCoreErrorHttpResponseCouldntResolveHost,
    AzResultCoreErrorHttpCorruptResponseHeader,
    AzResultCoreErrorHttpEndOfHeaders,
    AzResultCoreErrorHttpAdapter,
    AzResultIoTErrorTopicNoMatch,
    AzResultIoTErrorEndOfProperties,
}

impl AzReturnCode {
    /// The variant's name, as text.
    pub open spec fn spec_name(self) -> &'static str {
        match self {
            AzReturnCode::AzResultCoreOk => "AzResultCoreOk",
            AzReturnCode::AzResultCoreErrorCanceled => "AzResultCoreErrorCanceled",
            AzReturnCode::AzResultCoreErrorArg => "AzResultCoreErrorArg",
            AzReturnCode::AzResultCoreErrorNotEnoughSpace => "AzResultCoreErrorNotEnoughSpace",
            AzReturnCode::AzResultCoreErrorNotImplemented => "AzResultCoreErrorNotImplemented",
            AzReturnCode::AzResultCoreErrorItemNotFound => "AzResultCoreErrorItemNotFound",
            AzReturnCode::AzResultCoreErrorUnexpectedChar => "AzResultCoreErrorUnexpectedChar",
            AzReturnCode::AzResultCoreErrorUnexpectedEnd => "AzResultCoreErrorUnexpectedEnd",
            AzReturnCode::AzResultCoreErrorNotSupported => "AzResultCoreErrorNotSupported",
            AzReturnCode::AzResultCoreErrorDependencyNotProvided => "AzResultCoreErrorDependencyNotProvided",
            AzReturnCode::AzResultCoreErrorOutOfMemory => "AzResultCoreErrorOutOfMemory",
            AzReturnCode::AzResultCoreErrorJsonInvalidState => "AzResultCoreErrorJsonInvalidState",
            AzReturnCode::AzResultCoreErrorJsonNestingOverflow => "AzResultCoreErrorJsonNestingOverflow",
            AzReturnCode::AzResultCoreErrorJsonReaderDone => "AzResultCoreErrorJsonReaderDone",
            AzReturnCode::AzResultCoreErrorHttpInvalidState => "AzResultCoreErrorHttpInvalidState",
            AzReturnCode::AzResultCoreErrorHttpPipelineInvalidPolicy => "AzResultCoreErrorHttpPipelineInvalidPolicy",
            AzReturnCode::AzResultCoreErrorHttpInvalidMethodVerb => "AzResultCoreErrorHttpInvalidMethodVerb",
            AzReturnCode::AzResultCoreErrorHttpAuthenticationFailed => "AzResultCoreErrorHttpAuthenticationFailed",
            AzReturnCode::AzResultCoreErrorHttpResponseOverflow => "AzResultCoreErrorHttpResponseOverflow",
            AzReturnCode::AzResultCoreErrorHttpResponseCouldntResolveHost => "AzResultCoreErrorHttpResponseCouldntResolveHost",
            AzReturnCode::AzResultCoreErrorHttpCorruptResponseHeader => "AzResultCoreErrorHttpCorruptResponseHeader",
            AzReturnCode::AzResultCoreErrorHttpEndOfHeaders => "AzResultCoreErrorHttpEndOfHeaders",
            AzReturnCode::AzResultCoreErrorHttpAdapter => "AzResultCoreErrorHttpAdapter",
            AzReturnCode::AzResultIoTErrorTopicNoMatch => "AzResultIoTErrorTopicNoMatch",
            AzReturnCode::AzResultIoTErrorEndOfProperties => "AzResultIoTErrorEndOfProperties",
        }
    }

    /// The variant's name, as an owned string.
    pub fn to_string(&self) -> (r: String)
        ensures
            r@ == self.spec_name()@,
    {
        let name: &'static str = match *self {
            AzReturnCode::AzResultCoreOk => "AzResultCoreOk",
            AzReturnCode::AzResultCoreErrorCanceled => "AzResultCoreErrorCanceled",
            AzReturnCode::AzResultCoreErrorArg => "AzResultCoreErrorArg",
            AzReturnCode::AzResultCoreErrorNotEnoughSpace => "AzResultCoreErrorNotEnoughSpace",
            AzReturnCode::AzResultCoreErrorNotImplemented => "AzResultCoreErrorNotImplemented",
            AzReturnCode::AzResultCoreErrorItemNotFound => "AzResultCoreErrorItemNotFound",
            AzReturnCode::AzResultCoreErrorUnexpectedChar => "AzResultCoreErrorUnexpectedChar",
            AzReturnCode::AzResultCoreErrorUnexpectedEnd => "AzResultCoreErrorUnexpectedEnd",
            AzReturnCode::AzResultCoreErrorNotSupported => "AzResultCoreErrorNotSupported",
            AzReturnCode::AzResultCoreErrorDependencyNotProvided => "AzResultCoreErrorDependencyNotProvided",
            AzReturnCode::AzResultCoreErrorOutOfMemory => "AzResultCoreErrorOutOfMemory",
            AzReturnCode::AzResultCoreErrorJsonInvalidState => "AzResultCoreErrorJsonInvalidState",
            AzReturnCode::AzResultCoreErrorJsonNestingOverflow => "AzResultCoreErrorJsonNestingOverflow",
            AzReturnCode::AzResultCoreErrorJsonReaderDone => "AzResultCoreErrorJsonReaderDone",
            AzReturnCode::AzResultCoreErrorHttpInvalidState => "AzResultCoreErrorHttpInvalidState",
            AzReturnCode::AzResultCoreErrorHttpPipelineInvalidPolicy => "AzResultCoreErrorHttpPipelineInvalidPolicy",
            AzReturnCode::AzResultCoreErrorHttpInvalidMethodVerb => "AzResultCoreErrorHttpInvalidMethodVerb",
            AzReturnCode::AzResultCoreErrorHttpAuthenticationFailed => "AzResultCoreErrorHttpAuthenticationFailed",
            AzReturnCode::AzResultCoreErrorHttpResponseOverflow => "AzResultCoreErrorHttpResponseOverflow",
            AzReturnCode::AzResultCoreErrorHttpResponseCouldntResolveHost => "AzResultCoreErrorHttpResponseCouldntResolveHost",
            AzReturnCode::AzResultCoreErrorHttpCorruptResponseHeader => "AzResultCoreErrorHttpCorruptResponseHeader",
            AzReturnCode::AzResultCoreErrorHttpEndOfHeaders => "AzResultCoreErrorHttpEndOfHeaders",
            AzReturnCode::AzResultCoreErrorHttpAdapter => "AzResultCoreErrorHttpAdapter",
            AzReturnCode::AzResultIoTErrorTopicNoMatch => "AzResultIoTErrorTopicNoMatch",
            AzReturnCode::AzResultIoTErrorEndOfProperties => "AzResultIoTErrorEndOfProperties",
        };
        name.to_string()
    }
}

} // verus!
