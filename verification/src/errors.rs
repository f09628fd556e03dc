//! The closed set of failure kinds, the opaque error handle that owns one of
//! them, and the translation into a structured error-code value.

use vstd::prelude::*;
use crate::codes::{CodeTag, CommonCode, ErrorCode, WapcCode, WasccCode};
use crate::codes::message_view;

verus! {

/// A failure of the host/guest call protocol, reduced to its kind and the
/// diagnostic text of its payload. Unlike every other failure source, a
/// protocol failure keeps this much structure so that its own translation can
/// be attached as a nested cause.
#[derive(Debug, PartialEq, Eq)]
pub enum WapcFailure {
    NoSuchFunction(String),
    IO(String),
    WasmMisc(String),
    HostCallFailure(String),
    InitFailed(String),
    GuestCallFailure(String),
    ReplacementFailed(String),
    ProviderFailure(String),
    General(String),
}

/// The closed set of failure categories. Message variants carry a caller
/// supplied description; foreign-error variants carry the diagnostic text of
/// the underlying failure; the protocol variant carries a [`WapcFailure`].
#[derive(Debug, PartialEq, Eq)]
pub enum ErrorKind {
    KeyValueError(String),
    MessagingError(String),
    MiscError(String),
    EnvVar(String),
    UTF8(String),
    UTF8Str(String),
    JsonMarshaling(String),
    HostError(String),
    BadDispatch(String),
    WapcError(WapcFailure),
}

/// The opaque error handle: exclusive owner of one boxed [`ErrorKind`].
#[derive(Debug)]
pub struct Error(Box<ErrorKind>);

impl View for Error {
    type V = ErrorKind;

    closed spec fn view(&self) -> ErrorKind {
        *self.0
    }
}

/// Wraps a kind into the opaque handle; always succeeds.
pub fn new(kind: ErrorKind) -> (r: Error)
    ensures
        r@ == kind,
{
    Error(Box::new(kind))
}

impl Error {
    /// Read-only access to the held kind, without consuming the handle.
    pub fn kind(&self) -> (r: &ErrorKind)
        ensures
            *r == self@,
    {
        &self.0
    }

    /// Consumes the handle and returns the owned kind.
    pub fn into_kind(self) -> (r: ErrorKind)
        ensures
            r == self@,
    {
        *self.0
    }

    /// Consumes the handle and projects the held kind into the structured
    /// error-code value: the category tag is selected by the variant alone,
    /// the held text becomes the message, and a protocol failure is translated
    /// in turn and attached as the nested cause instead of a message.
    pub fn translate(self) -> (c: ErrorCode)
        ensures
            code_matches(c, self@),
    {
        match *self.0 {
            ErrorKind::KeyValueError(s) => flat_code(CodeTag::Wascc(WasccCode::KeyValueError), s),
            ErrorKind::UTF8(s) => flat_code(CodeTag::Common(CommonCode::UTF8EncodingError), s),
            ErrorKind::MessagingError(s) => flat_code(CodeTag::Wascc(WasccCode::MessagingError), s),
            ErrorKind::EnvVar(s) => flat_code(CodeTag::Wascc(WasccCode::EnvVarError), s),
            ErrorKind::JsonMarshaling(s) => flat_code(
                CodeTag::Common(CommonCode::JsonMarshalingError),
                s,
            ),
            ErrorKind::UTF8Str(s) => flat_code(CodeTag::Common(CommonCode::Utf8StrEncodingError), s),
            ErrorKind::HostError(s) => flat_code(CodeTag::Wascc(WasccCode::GeneralHostError), s),
            ErrorKind::BadDispatch(s) => flat_code(CodeTag::Wascc(WasccCode::BadDispatch), s),
            ErrorKind::WapcError(f) => {
                let inner = translate_wapc(f);
                ErrorCode {
                    tag: CodeTag::Wascc(WasccCode::WapcGeneralError),
                    message: None,
                    cause: Some(Box::new(inner)),
                }
            },
            ErrorKind::MiscError(s) => flat_code(CodeTag::Wascc(WasccCode::WasmMisc), s),
        }
    }
}

/// A structured code with the given tag and message and no nested cause.
fn flat_code(tag: CodeTag, message: String) -> (c: ErrorCode)
    ensures
        c.tag == tag,
        c.message == Some(message),
        c.cause is None,
{
    ErrorCode { tag, message: Some(message), cause: None }
}

/// Translates a protocol failure into its own structured code: the category
/// tag is selected by the protocol failure kind, the held diagnostic text
/// becomes the message, and there is no deeper cause.
pub fn translate_wapc(f: WapcFailure) -> (c: ErrorCode)
    ensures
        wapc_code_matches(c, f),
{
    match f {
        WapcFailure::NoSuchFunction(s) => flat_code(CodeTag::Wapc(WapcCode::NoSuchFunction), s),
        WapcFailure::IO(s) => flat_code(CodeTag::Wapc(WapcCode::IO), s),
        WapcFailure::WasmMisc(s) => flat_code(CodeTag::Wapc(WapcCode::WasmMisc), s),
        WapcFailure::HostCallFailure(s) => flat_code(CodeTag::Wapc(WapcCode::HostCallFailure), s),
        WapcFailure::InitFailed(s) => flat_code(CodeTag::Wapc(WapcCode::InitFailed), s),
        WapcFailure::GuestCallFailure(s) => flat_code(CodeTag::Wapc(WapcCode::GuestCallFailure), s),
        WapcFailure::ReplacementFailed(s) => flat_code(
            CodeTag::Wapc(WapcCode::ReplacementFailed),
            s,
        ),
        WapcFailure::ProviderFailure(s) => flat_code(CodeTag::Wapc(WapcCode::ProviderFailure), s),
        WapcFailure::General(s) => flat_code(CodeTag::Wapc(WapcCode::General), s),
    }
}

/// The category tag that translation selects for each failure kind.
pub open spec fn tag_of(k: ErrorKind) -> CodeTag {
    match k {
        ErrorKind::KeyValueError(_) => CodeTag::Wascc(WasccCode::KeyValueError),
        ErrorKind::MessagingError(_) => CodeTag::Wascc(WasccCode::MessagingError),
        ErrorKind::MiscError(_) => CodeTag::Wascc(WasccCode::WasmMisc),
        ErrorKind::EnvVar(_) => CodeTag::Wascc(WasccCode::EnvVarError),
        ErrorKind::UTF8(_) => CodeTag::Common(CommonCode::UTF8EncodingError),
        ErrorKind::UTF8Str(_) => CodeTag::Common(CommonCode::Utf8StrEncodingError),
        ErrorKind::JsonMarshaling(_) => CodeTag::Common(CommonCode::JsonMarshalingError),
        ErrorKind::HostError(_) => CodeTag::Wascc(WasccCode::GeneralHostError),
        ErrorKind::BadDispatch(_) => CodeTag::Wascc(WasccCode::BadDispatch),
        ErrorKind::WapcError(_) => CodeTag::Wascc(WasccCode::WapcGeneralError),
    }
}

/// The message text that translation attaches for each failure kind: the held
/// text, except for the protocol variant, which attaches none.
pub open spec fn message_of(k: ErrorKind) -> Option<Seq<char>> {
    match k {
        ErrorKind::KeyValueError(s) => Some(s@),
        ErrorKind::MessagingError(s) => Some(s@),
        ErrorKind::MiscError(s) => Some(s@),
        ErrorKind::EnvVar(s) => Some(s@),
        ErrorKind::UTF8(s) => Some(s@),
        ErrorKind::UTF8Str(s) => Some(s@),
        ErrorKind::JsonMarshaling(s) => Some(s@),
        ErrorKind::HostError(s) => Some(s@),
        ErrorKind::BadDispatch(s) => Some(s@),
        ErrorKind::WapcError(_) => None,
    }
}

/// The category tag that translation selects for each protocol failure kind.
pub open spec fn wapc_tag_of(f: WapcFailure) -> WapcCode {
    match f {
        WapcFailure::NoSuchFunction(_) => WapcCode::NoSuchFunction,
        WapcFailure::IO(_) => WapcCode::IO,
        WapcFailure::WasmMisc(_) => WapcCode::WasmMisc,
        WapcFailure::HostCallFailure(_) => WapcCode::HostCallFailure,
        WapcFailure::InitFailed(_) => WapcCode::InitFailed,
        WapcFailure::GuestCallFailure(_) => WapcCode::GuestCallFailure,
        WapcFailure::ReplacementFailed(_) => WapcCode::ReplacementFailed,
        WapcFailure::ProviderFailure(_) => WapcCode::ProviderFailure,
        WapcFailure::General(_) => WapcCode::General,
    }
}

/// The diagnostic text held by a protocol failure.
pub open spec fn wapc_message_of(f: WapcFailure) -> Seq<char> {
    match f {
        WapcFailure::NoSuchFunction(s) => s@,
        WapcFailure::IO(s) => s@,
        WapcFailure::WasmMisc(s) => s@,
        WapcFailure::HostCallFailure(s) => s@,
        WapcFailure::InitFailed(s) => s@,
        WapcFailure::GuestCallFailure(s) => s@,
        WapcFailure::ReplacementFailed(s) => s@,
        WapcFailure::ProviderFailure(s) => s@,
        WapcFailure::General(s) => s@,
    }
}

/// What the structured code of a protocol failure must hold: the tag selected
/// by the failure kind in the protocol namespace, the failure's diagnostic
/// text as the message, and no deeper cause.
pub open spec fn wapc_code_matches(c: ErrorCode, f: WapcFailure) -> bool {
    &&& c.tag == CodeTag::Wapc(wapc_tag_of(f))
    &&& message_view(c.message) == Some(wapc_message_of(f))
    &&& c.cause is None
}

/// What the structured code of a failure kind must hold: the tag selected by
/// the variant, the message selected by the variant, and a nested cause
/// exactly for the protocol variant, where the cause is the protocol
/// failure's own structured code.
pub open spec fn code_matches(c: ErrorCode, k: ErrorKind) -> bool {
    &&& c.tag == tag_of(k)
    &&& message_view(c.message) == message_of(k)
    &&& match k {
        ErrorKind::WapcError(f) => c.cause matches Some(b) && wapc_code_matches(*b, f),
        _ => c.cause is None,
    }
}

/// Two failure kinds hold the same variant tag.
pub open spec fn same_variant(k1: ErrorKind, k2: ErrorKind) -> bool {
    &&& (k1 is KeyValueError <==> k2 is KeyValueError)
    &&& (k1 is MessagingError <==> k2 is MessagingError)
    &&& (k1 is MiscError <==> k2 is MiscError)
    &&& (k1 is EnvVar <==> k2 is EnvVar)
    &&& (k1 is UTF8 <==> k2 is UTF8)
    &&& (k1 is UTF8Str <==> k2 is UTF8Str)
    &&& (k1 is JsonMarshaling <==> k2 is JsonMarshaling)
    &&& (k1 is HostError <==> k2 is HostError)
    &&& (k1 is BadDispatch <==> k2 is BadDispatch)
    &&& (k1 is WapcError <==> k2 is WapcError)
}

/// The category tag identifies the source variant: two kinds that translation
/// maps to the same tag are of the same variant.
pub proof fn lemma_tag_identifies_variant(k1: ErrorKind, k2: ErrorKind)
    requires
        tag_of(k1) == tag_of(k2),
    ensures
        same_variant(k1, k2),
{
}

/// Structured codes that agree in everything observable: the tag, the message
/// text, and the nested cause, to the one level of nesting that translation
/// produces.
pub open spec fn code_obs_eq(c1: ErrorCode, c2: ErrorCode) -> bool {
    &&& c1.tag == c2.tag
    &&& message_view(c1.message) == message_view(c2.message)
    &&& match (c1.cause, c2.cause) {
        (Some(b1), Some(b2)) => {
            &&& (*b1).tag == (*b2).tag
            &&& message_view((*b1).message) == message_view((*b2).message)
            &&& (*b1).cause is None
            &&& (*b2).cause is None
        },
        (None, None) => true,
        _ => false,
    }
}

/// Translation is a pure function of the held kind: any two structured codes
/// that translation may produce from equal kinds are observationally equal.
pub proof fn lemma_translate_deterministic(k: ErrorKind, c1: ErrorCode, c2: ErrorCode)
    requires
        code_matches(c1, k),
        code_matches(c2, k),
    ensures
        code_obs_eq(c1, c2),
{
}

/// Translation is compositional for the protocol variant: the nested cause of
/// the structured code of an error wrapping a protocol failure is
/// observationally equal to the structured code of that protocol failure
/// translated directly.
pub proof fn lemma_wapc_translation_compositional(f: WapcFailure, c: ErrorCode, direct: ErrorCode)
    requires
        code_matches(c, ErrorKind::WapcError(f)),
        wapc_code_matches(direct, f),
    ensures
        c.cause matches Some(b) && code_obs_eq(*b, direct),
{
}

} // verus!
