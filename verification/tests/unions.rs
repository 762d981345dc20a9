//! Tests for the tagged and untagged union codecs.

use a2a_wire::DecodeErrorKind;
use a2a_wire::JsonRpcError;
use a2a_wire::FileBase;
use a2a_wire::FileWith;
use a2a_wire::FileWithBytes;
use a2a_wire::FileWithUri;
use a2a_wire::JsonValue;
use a2a_wire::Part;
use a2a_wire::PartBase;
use a2a_wire::SecurityScheme;
use a2a_wire::StrMap;
use a2a_wire::TextPart;

fn obj(entries: Vec<(&str, JsonValue)>) -> JsonValue {
    JsonValue::Obj(entries.into_iter().map(|(k, v)| (k.to_string(), v)).collect())
}

fn s(v: &str) -> JsonValue {
    JsonValue::Str(v.to_string())
}

#[test]
fn api_key_scheme_decodes() {
    let j = obj(vec![("type", s("apiKey")), ("name", s("X-Key")), ("in", s("header"))]);
    let got = SecurityScheme::from_json(&j).unwrap();
    match got {
        SecurityScheme::ApiKey { name, location, description, extensions } => {
            assert_eq!(name, "X-Key");
            assert_eq!(location, "header");
            assert_eq!(description, None);
            assert_eq!(extensions.len(), 0);
        },
        other => panic!("wrong variant: {:?}", other),
    }
}

#[test]
fn bogus_discriminator_is_a_hard_failure() {
    let j = obj(vec![("type", s("bogus"))]);
    let err = SecurityScheme::from_json(&j).unwrap_err();
    assert_eq!(err.kind(), DecodeErrorKind::UnknownDiscriminator);
    assert_eq!(err.field(), "type");
}

#[test]
fn missing_discriminator_is_a_missing_field() {
    let j = obj(vec![("name", s("X-Key"))]);
    let err = SecurityScheme::from_json(&j).unwrap_err();
    assert_eq!(err.kind(), DecodeErrorKind::MissingField);
    assert_eq!(err.field(), "type");
}

#[test]
fn scheme_extensions_are_spliced_and_recaptured() {
    let mut ext = StrMap::new();
    ext.push("x-audience", "internal");
    ext.push("x-tier", "gold");
    let scheme = SecurityScheme::MutualTLS { description: None, extensions: ext.clone() };
    let j = scheme.to_json();
    // The extension keys sit in the same object as the static fields.
    assert_eq!(j.get_field("x-audience"), Some(&s("internal")));
    assert_eq!(j.get_field("type"), Some(&s("mutualTLS")));
    let back = SecurityScheme::from_json(&j).unwrap();
    assert_eq!(back, scheme);
}

#[test]
fn scheme_round_trips() {
    let scheme = SecurityScheme::Http {
        scheme: "bearer".to_string(),
        bearer_format: Some("JWT".to_string()),
        description: None,
        extensions: StrMap::new(),
    };
    let back = SecurityScheme::from_json(&scheme.to_json()).unwrap();
    assert_eq!(back, scheme);
}

#[test]
fn file_with_bytes_wins_the_trial_order() {
    // Both keys present: the first alternative in the declared order wins.
    let j = obj(vec![("bytes", s("QQ==")), ("uri", s("http://x"))]);
    let got = FileWith::from_json(&j).unwrap();
    match got {
        FileWith::Bytes(b) => assert_eq!(b.bytes, "QQ=="),
        FileWith::Uri(_) => panic!("bytes must be tried before uri"),
    }
}

#[test]
fn file_with_uri_alone_selects_uri() {
    let j = obj(vec![("uri", s("http://x"))]);
    let got = FileWith::from_json(&j).unwrap();
    match got {
        FileWith::Uri(u) => assert_eq!(u.uri, "http://x"),
        FileWith::Bytes(_) => panic!("expected the uri alternative"),
    }
}

#[test]
fn file_with_neither_key_fails() {
    let j = obj(vec![("name", s("report.pdf"))]);
    let err = FileWith::from_json(&j).unwrap_err();
    assert_eq!(err.kind(), DecodeErrorKind::NoVariantMatched);
    assert_eq!(err.field(), "file");
}

#[test]
fn file_with_round_trips() {
    let v = FileWith::Bytes(FileWithBytes {
        base: FileBase { name: Some("a.txt".to_string()), mime_type: None },
        bytes: "QQ==".to_string(),
    });
    assert_eq!(FileWith::from_json(&v.to_json()).unwrap(), v);
    let u = FileWith::Uri(FileWithUri {
        base: FileBase { name: None, mime_type: Some("text/plain".to_string()) },
        uri: "http://x".to_string(),
    });
    assert_eq!(FileWith::from_json(&u.to_json()).unwrap(), u);
}

#[test]
fn part_is_selected_by_kind() {
    let j = obj(vec![("kind", s("text")), ("text", s("hello"))]);
    let got = Part::from_json(&j).unwrap();
    match got {
        Part::Text(t) => assert_eq!(t.text, "hello"),
        other => panic!("wrong variant: {:?}", other),
    }
}

#[test]
fn part_unknown_kind_fails() {
    let j = obj(vec![("kind", s("video")), ("text", s("hello"))]);
    let err = Part::from_json(&j).unwrap_err();
    assert_eq!(err.kind(), DecodeErrorKind::UnknownDiscriminator);
    assert_eq!(err.field(), "kind");
}

#[test]
fn part_variants_do_not_leak_fields() {
    let text = Part::Text(TextPart {
        base: PartBase { metadata: None },
        text: "hi".to_string(),
    });
    let j = text.to_json();
    assert_eq!(j.get_field("kind"), Some(&s("text")));
    assert!(j.get_field("file").is_none());
    assert!(j.get_field("data").is_none());
}

#[test]
fn part_round_trips() {
    let mut meta = StrMap::new();
    meta.push("origin", "\"test\"");
    let parts = vec![
        Part::Text(TextPart { base: PartBase { metadata: Some(meta) }, text: "hi".to_string() }),
        Part::File(a2a_wire::FilePart {
            base: PartBase { metadata: None },
            file: FileWith::Uri(FileWithUri {
                base: FileBase { name: None, mime_type: None },
                uri: "http://x".to_string(),
            }),
        }),
        Part::Data(a2a_wire::DataPart {
            base: PartBase { metadata: None },
            data: StrMap::new(),
        }),
    ];
    for p in parts {
        assert_eq!(Part::from_json(&p.to_json()).unwrap(), p);
    }
}

#[test]
fn file_with_default_is_the_uri_alternative() {
    let d = FileWith::default();
    match d {
        FileWith::Uri(u) => {
            assert_eq!(u.uri, "");
            assert_eq!(u.base, FileBase { name: None, mime_type: None });
        },
        FileWith::Bytes(_) => panic!("the default must be the uri alternative"),
    }
}

#[test]
fn part_default_is_the_text_variant() {
    let d = Part::default();
    match d {
        Part::Text(t) => {
            assert_eq!(t.text, "");
            assert_eq!(t.base, PartBase { metadata: None });
        },
        other => panic!("the default must be the text variant: {:?}", other),
    }
}

#[test]
fn error_descriptions_cover_every_kind() {
    let all = [
        JsonRpcError::ParseError,
        JsonRpcError::InvalidRequest,
        JsonRpcError::MethodNotFound,
        JsonRpcError::InvalidParams,
        JsonRpcError::InternalError,
        JsonRpcError::TaskNotFoundError,
        JsonRpcError::TaskNotCancelableError,
        JsonRpcError::PushNotificationNotSupportedError,
        JsonRpcError::UnsupportedOperationError,
        JsonRpcError::ContentTypeNotSupportedError,
        JsonRpcError::InvalidAgentResponseError,
        JsonRpcError::AuthenticatedExtendedCardNotConfiguredError,
        JsonRpcError::UnknownErrorEncountered,
    ];
    for k in all {
        assert!(!k.description().is_empty());
    }
    assert_eq!(
        JsonRpcError::TaskNotFoundError.description(),
        "The specified task id does not correspond to an existing or active task. It might be invalid, expired, or already completed and purged."
    );
}
