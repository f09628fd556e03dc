use wascc_errors::codes::{CodeTag, CommonCode, ErrorCode, WapcCode, WasccCode};
use wascc_errors::errors::{new, translate_wapc, ErrorKind, WapcFailure};
use wascc_errors::foreign::{
    from_json_error, from_utf8_error, from_utf8_str_error, from_wapc_error,
};

fn all_kinds() -> Vec<ErrorKind> {
    vec![
        ErrorKind::KeyValueError("kv".to_string()),
        ErrorKind::MessagingError("msg".to_string()),
        ErrorKind::MiscError("misc".to_string()),
        ErrorKind::EnvVar("var".to_string()),
        ErrorKind::UTF8("utf8".to_string()),
        ErrorKind::UTF8Str("utf8str".to_string()),
        ErrorKind::JsonMarshaling("json".to_string()),
        ErrorKind::HostError("host".to_string()),
        ErrorKind::BadDispatch("dispatch".to_string()),
        ErrorKind::WapcError(WapcFailure::General("wapc".to_string())),
    ]
}

#[test]
fn translate_terminates_on_every_kind_with_distinct_tags() {
    let mut tags: Vec<CodeTag> = Vec::new();
    for kind in all_kinds() {
        let code = new(kind).translate();
        tags.push(code.tag);
    }
    for i in 0..tags.len() {
        for j in 0..tags.len() {
            if i != j {
                assert_ne!(tags[i], tags[j]);
            }
        }
    }
}

#[test]
fn translate_selects_the_expected_tag_per_kind() {
    let expected = vec![
        CodeTag::Wascc(WasccCode::KeyValueError),
        CodeTag::Wascc(WasccCode::MessagingError),
        CodeTag::Wascc(WasccCode::WasmMisc),
        CodeTag::Wascc(WasccCode::EnvVarError),
        CodeTag::Common(CommonCode::UTF8EncodingError),
        CodeTag::Common(CommonCode::Utf8StrEncodingError),
        CodeTag::Common(CommonCode::JsonMarshalingError),
        CodeTag::Wascc(WasccCode::GeneralHostError),
        CodeTag::Wascc(WasccCode::BadDispatch),
        CodeTag::Wascc(WasccCode::WapcGeneralError),
    ];
    for (kind, want) in all_kinds().into_iter().zip(expected.into_iter()) {
        assert_eq!(new(kind).translate().tag, want);
    }
}

#[test]
fn json_conversion_keeps_the_diagnostic_text() {
    let source = serde_json::from_str::<serde_json::Value>("not json").unwrap_err();
    let text = format!("{:?}", source);
    let err = from_json_error(source);
    assert_eq!(err.kind(), &ErrorKind::JsonMarshaling(text));
}

#[test]
fn utf8_conversion_keeps_the_diagnostic_text() {
    let source = String::from_utf8(vec![0xC0u8]).unwrap_err();
    let text = format!("{:?}", source);
    let err = from_utf8_error(source);
    assert_eq!(err.kind(), &ErrorKind::UTF8(text));
}

#[test]
fn utf8_str_conversion_keeps_the_diagnostic_text() {
    let source = std::str::from_utf8(&[0xFFu8]).unwrap_err();
    let text = format!("{:?}", source);
    let err = from_utf8_str_error(source);
    assert_eq!(err.kind(), &ErrorKind::UTF8Str(text));
}

#[test]
fn wapc_conversion_keeps_kind_and_text() {
    let err = from_wapc_error(wapc::errors::Error::General("boom".to_string()));
    assert_eq!(
        err.kind(),
        &ErrorKind::WapcError(WapcFailure::General("boom".to_string()))
    );

    let err = from_wapc_error(wapc::errors::Error::NoSuchFunction("f".to_string()));
    assert_eq!(
        err.kind(),
        &ErrorKind::WapcError(WapcFailure::NoSuchFunction("f".to_string()))
    );

    let io_probe = std::io::Error::new(std::io::ErrorKind::Other, "io boom");
    let io_text = format!("{:?}", io_probe);
    let err = from_wapc_error(wapc::errors::Error::IO(io_probe));
    assert_eq!(err.kind(), &ErrorKind::WapcError(WapcFailure::IO(io_text)));
}

#[test]
fn into_kind_returns_the_constructed_kind() {
    for (kind, same) in all_kinds().into_iter().zip(all_kinds().into_iter()) {
        assert_eq!(new(kind).into_kind(), same);
    }
    assert_eq!(
        new(ErrorKind::HostError("h".to_string())).into_kind(),
        ErrorKind::HostError("h".to_string())
    );
    assert_eq!(
        new(ErrorKind::WapcError(WapcFailure::IO("io".to_string()))).into_kind(),
        ErrorKind::WapcError(WapcFailure::IO("io".to_string()))
    );
}

#[test]
fn wapc_translation_is_compositional() {
    let err = from_wapc_error(wapc::errors::Error::General("boom".to_string()));
    let code = err.translate();
    let direct = translate_wapc(WapcFailure::General("boom".to_string()));
    assert_eq!(code.tag, CodeTag::Wascc(WasccCode::WapcGeneralError));
    assert_eq!(code.message, None);
    assert_eq!(code.cause, Some(Box::new(direct)));
}

#[test]
fn translated_wapc_failure_carries_its_own_tag_and_text() {
    let direct = translate_wapc(WapcFailure::GuestCallFailure("guest".to_string()));
    assert_eq!(direct.tag, CodeTag::Wapc(WapcCode::GuestCallFailure));
    assert_eq!(direct.message, Some("guest".to_string()));
    assert_eq!(direct.cause, None);
}

#[test]
fn message_kinds_translate_to_their_fixed_categories() {
    let cases = vec![
        (
            ErrorKind::KeyValueError("x".to_string()),
            CodeTag::Wascc(WasccCode::KeyValueError),
        ),
        (
            ErrorKind::MessagingError("x".to_string()),
            CodeTag::Wascc(WasccCode::MessagingError),
        ),
        (
            ErrorKind::HostError("x".to_string()),
            CodeTag::Wascc(WasccCode::GeneralHostError),
        ),
        (
            ErrorKind::BadDispatch("x".to_string()),
            CodeTag::Wascc(WasccCode::BadDispatch),
        ),
    ];
    for (kind, want_tag) in cases {
        let code = new(kind).translate();
        assert_eq!(code.tag, want_tag);
        assert_eq!(code.message, Some("x".to_string()));
        assert_eq!(code.cause, None);
    }
}

#[test]
fn translate_is_a_pure_function_of_the_kind() {
    let one = new(ErrorKind::EnvVar("missing".to_string())).translate();
    let two = new(ErrorKind::EnvVar("missing".to_string())).translate();
    assert_eq!(one, two);

    let one = new(ErrorKind::WapcError(WapcFailure::InitFailed("i".to_string()))).translate();
    let two = new(ErrorKind::WapcError(WapcFailure::InitFailed("i".to_string()))).translate();
    assert_eq!(one, two);
}

#[test]
fn invalid_byte_sequence_translates_to_the_utf8_str_category() {
    let source = std::str::from_utf8(&[0xFFu8]).unwrap_err();
    let text = format!("{:?}", source);
    let err = from_utf8_str_error(source);
    assert!(matches!(err.kind(), ErrorKind::UTF8Str(_)));
    let code = err.translate();
    assert_eq!(code.tag, CodeTag::Common(CommonCode::Utf8StrEncodingError));
    assert_eq!(code.message, Some(text));
    assert_eq!(code.cause, None);
}

#[test]
fn misc_and_env_texts_translate_with_their_text_as_message() {
    let code = new(ErrorKind::MiscError("odd".to_string())).translate();
    assert_eq!(code.tag, CodeTag::Wascc(WasccCode::WasmMisc));
    assert_eq!(code.message, Some("odd".to_string()));
    assert_eq!(code.cause, None);

    let code = new(ErrorKind::EnvVar("absent".to_string())).translate();
    assert_eq!(code.tag, CodeTag::Wascc(WasccCode::EnvVarError));
    assert_eq!(code.message, Some("absent".to_string()));
    assert_eq!(code.cause, None);
}

#[test]
fn structured_code_fields_are_open_to_consumers() {
    let code = ErrorCode {
        tag: CodeTag::Wapc(WapcCode::ReplacementFailed),
        message: Some("m".to_string()),
        cause: None,
    };
    assert_eq!(code.tag, CodeTag::Wapc(WapcCode::ReplacementFailed));
    assert_eq!(code.message.as_deref(), Some("m"));
    assert!(code.cause.is_none());
}
