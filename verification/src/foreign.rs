//! Conversions from foreign error values into the opaque handle.
//!
//! Each conversion is total, maps exactly one foreign type to exactly one
//! failure kind, and reduces the foreign value to its diagnostic text at the
//! point of conversion (a protocol failure keeps its kind as well, so that it
//! can be translated in turn). Each foreign value is opaque here, so what is
//! a function of the value alone — its diagnostic text, or for a protocol
//! failure its variant and plain payload — is given a name, and the
//! conversion contracts pin the held payload to those names. Where a foreign
//! payload is itself an arbitrary boxed error, its text is not fixed by the
//! value, and the contracts claim only the variant.

use vstd::prelude::*;
use serde_json::Error as JsonError;
use wapc::errors::Error as WapcProtocolError;
use crate::codes::WapcCode;
use crate::errors::{new, wapc_message_of, wapc_tag_of, Error, ErrorKind, WapcFailure};

verus! {

#[verifier::external_type_specification]
#[verifier::external_body]
pub struct ExJsonError(JsonError);

#[verifier::external_type_specification]
#[verifier::external_body]
pub struct ExWapcError(WapcProtocolError);

#[verifier::external_type_specification]
#[verifier::external_body]
pub struct ExUtf8Error(std::str::Utf8Error);

#[verifier::external_type_specification]
#[verifier::external_body]
pub struct ExFromUtf8Error(std::string::FromUtf8Error);

/// The diagnostic text of a serialization failure. Meaningful only outside
/// the input/output category: there the text is written from the value's own
/// stored position and code, so it is a function of the value alone.
pub uninterp spec fn json_text_of(e: JsonError) -> Seq<char>;

/// Whether a serialization failure is of the input/output category, whose
/// payload is an arbitrary error whose text is not fixed by the value.
pub uninterp spec fn json_is_io(e: JsonError) -> bool;

/// The diagnostic text of a borrowed-slice decoding failure.
pub uninterp spec fn utf8_str_text_of(e: std::str::Utf8Error) -> Seq<char>;

/// The diagnostic text of an owned-buffer decoding failure.
pub uninterp spec fn utf8_text_of(e: std::string::FromUtf8Error) -> Seq<char>;

/// The variant of a foreign call-protocol error, which is a function of the
/// value alone.
pub uninterp spec fn wapc_variant_of(e: WapcProtocolError) -> WapcCode;

/// The payload of a foreign call-protocol error, as text. Meaningful only
/// for the plain-string variants, where the payload is moved in unchanged.
pub uninterp spec fn wapc_text_of(e: WapcProtocolError) -> Seq<char>;

/// The protocol failure variants whose payload is a plain string. The three
/// others carry an input/output error or a boxed error, whose text is not
/// fixed by the value.
pub open spec fn wapc_plain_variant(v: WapcCode) -> bool {
    match v {
        WapcCode::NoSuchFunction => true,
        WapcCode::IO => false,
        WapcCode::WasmMisc => true,
        WapcCode::HostCallFailure => false,
        WapcCode::InitFailed => true,
        WapcCode::GuestCallFailure => true,
        WapcCode::ReplacementFailed => true,
        WapcCode::ProviderFailure => false,
        WapcCode::General => true,
    }
}

/// What the captured protocol failure holds of its source: the matching
/// variant, and, where the source's payload is a plain string, that string
/// as the captured text.
pub open spec fn wapc_captures(f: WapcFailure, e: WapcProtocolError) -> bool {
    &&& wapc_tag_of(f) == wapc_variant_of(e)
    &&& wapc_plain_variant(wapc_variant_of(e)) ==> wapc_message_of(f) == wapc_text_of(e)
}

/// Relies on the `Debug` implementation of `serde_json::Error` (imported as
/// `JsonError`): outside the input/output category it writes fixed strings
/// and the value's own position and code, so the text depends on the error
/// value alone. For the input/output category the payload's text comes from
/// arbitrary third-party code, and nothing is claimed of it.
#[verifier::external_body]
fn json_debug_text(e: JsonError) -> (r: String)
    ensures
        !json_is_io(e) ==> r@ == json_text_of(e),
{
    format!("{:?}", e)
}

/// Relies on the `Debug` implementation of `std::str::Utf8Error`: the
/// diagnostic text it writes depends on the error value alone.
#[verifier::external_body]
fn utf8_str_debug_text(e: std::str::Utf8Error) -> (r: String)
    ensures
        r@ == utf8_str_text_of(e),
{
    format!("{:?}", e)
}

/// Relies on the `Debug` implementation of `std::string::FromUtf8Error`: the
/// diagnostic text it writes depends on the error value alone.
#[verifier::external_body]
fn utf8_debug_text(e: std::string::FromUtf8Error) -> (r: String)
    ensures
        r@ == utf8_text_of(e),
{
    format!("{:?}", e)
}

/// Relies on `wapc::errors::Error` (imported as `WapcProtocolError`): one arm
/// per protocol failure variant, so the captured variant matches the source's,
/// and the plain-string payloads are moved in unchanged. The three boxed
/// payloads are reduced to a text captured at call time, of which only the
/// variant is claimed.
#[verifier::external_body]
fn wapc_failure_of(e: WapcProtocolError) -> (r: WapcFailure)
    ensures
        wapc_tag_of(r) == wapc_variant_of(e),
        wapc_plain_variant(wapc_variant_of(e)) ==> wapc_message_of(r) == wapc_text_of(e),
{
    match e {
        WapcProtocolError::NoSuchFunction(s) => WapcFailure::NoSuchFunction(s),
        WapcProtocolError::IO(x) => WapcFailure::IO(format!("{:?}", x)),
        WapcProtocolError::WasmMisc(s) => WapcFailure::WasmMisc(s),
        WapcProtocolError::HostCallFailure(x) => WapcFailure::HostCallFailure(format!("{:?}", x)),
        WapcProtocolError::InitFailed(s) => WapcFailure::InitFailed(s),
        WapcProtocolError::GuestCallFailure(s) => WapcFailure::GuestCallFailure(s),
        WapcProtocolError::ReplacementFailed(s) => WapcFailure::ReplacementFailed(s),
        WapcProtocolError::ProviderFailure(x) => WapcFailure::ProviderFailure(format!("{:?}", x)),
        WapcProtocolError::General(s) => WapcFailure::General(s),
    }
}

/// Wraps a call-protocol failure under the protocol variant: the held
/// protocol failure captures the source, so that translation can attach its
/// own structured code as a nested cause.
pub fn from_wapc_error(source: WapcProtocolError) -> (r: Error)
    ensures
        r@ matches ErrorKind::WapcError(f) && wapc_captures(f, source),
{
    new(ErrorKind::WapcError(wapc_failure_of(source)))
}

/// Wraps a serialization failure under the marshaling variant, holding the
/// source's diagnostic text (pinned to the source for every category but
/// input/output, whose text is not fixed by the value).
pub fn from_json_error(source: JsonError) -> (r: Error)
    ensures
        r@ is JsonMarshaling,
        !json_is_io(source) ==> (r@ matches ErrorKind::JsonMarshaling(s) && s@ == json_text_of(
            source,
        )),
{
    new(ErrorKind::JsonMarshaling(json_debug_text(source)))
}

/// Wraps a borrowed-slice decoding failure under the borrowed-slice variant,
/// holding the source's diagnostic text.
pub fn from_utf8_str_error(source: std::str::Utf8Error) -> (r: Error)
    ensures
        r@ matches ErrorKind::UTF8Str(s) && s@ == utf8_str_text_of(source),
{
    new(ErrorKind::UTF8Str(utf8_str_debug_text(source)))
}

/// Wraps an owned-buffer decoding failure under the owned-buffer variant,
/// holding the source's diagnostic text.
pub fn from_utf8_error(source: std::string::FromUtf8Error) -> (r: Error)
    ensures
        r@ matches ErrorKind::UTF8(s) && s@ == utf8_text_of(source),
{
    new(ErrorKind::UTF8(utf8_debug_text(source)))
}

} // verus!
