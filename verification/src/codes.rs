//! The structured error-code value: a namespaced category tag, an optional
//! human-readable message, and an optional nested cause.

use vstd::prelude::*;

verus! {

/// Categories in the general-purpose namespace.
#[derive(Clone, Copy, Debug, PartialEq, Eq, Structural)]
pub enum CommonCode {
    UTF8EncodingError,
    JsonMarshalingError,
    Utf8StrEncodingError,
}

/// Categories in the host/domain-specific namespace.
#[derive(Clone, Copy, Debug, PartialEq, Eq, Structural)]
pub enum WasccCode {
    KeyValueError,
    MessagingError,
    EnvVarError,
    GeneralHostError,
    BadDispatch,
    WapcGeneralError,
    WasmMisc,
}

/// Categories for failures of the host/guest call protocol itself, one per
/// protocol failure kind.
#[derive(Clone, Copy, Debug, PartialEq, Eq, Structural)]
pub enum WapcCode {
    NoSuchFunction,
    IO,
    WasmMisc,
    HostCallFailure,
    InitFailed,
    GuestCallFailure,
    ReplacementFailed,
    ProviderFailure,
    General,
}

/// A category tag together with the namespace it was selected from.
#[derive(Clone, Copy, Debug, PartialEq, Eq, Structural)]
pub enum CodeTag {
    Common(CommonCode),
    Wascc(WasccCode),
    Wapc(WapcCode),
}

/// The structured error-code value produced by translation. Consumers
/// serialize it across the host/guest boundary; this crate only builds it.
#[derive(Debug, PartialEq, Eq)]
pub struct ErrorCode {
    pub tag: CodeTag,
    pub message: Option<String>,
    pub cause: Option<Box<ErrorCode>>,
}

/// The text carried by an optional message, as a sequence of characters.
pub open spec fn message_view(m: Option<String>) -> Option<Seq<char>> {
    match m {
        Option::Some(s) => Option::Some(s@),
        Option::None => Option::None,
    }
}

} // verus!
