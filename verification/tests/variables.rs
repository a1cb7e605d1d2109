use aes_gcm::aead::Aead;
use aes_gcm::KeyInit;
use base64::engine::general_purpose::STANDARD;
use base64::Engine;
use std::hash::{Hash, Hasher};
use workflow::cipher::SecretBox;
use workflow::json::{Json, JsonNumber};
use workflow::time::Timestamp;
use workflow::variable::{
    merge_json_into_map, parse_variable_value, VariableEntity, VariableScope, VariableService,
    VariableType,
};

fn json(text: &str) -> Json {
    Json::parse(text).unwrap()
}

#[test]
fn parse_string_value() {
    let result = parse_variable_value(&VariableType::String, "hello").unwrap();
    assert_eq!(result, json(r#""hello""#));
}

#[test]
fn parse_secret_value() {
    let result = parse_variable_value(&VariableType::Secret, "s3cret").unwrap();
    assert_eq!(result, json(r#""s3cret""#));
}

#[test]
fn parse_number_valid() {
    let result = parse_variable_value(&VariableType::Number, "42.5").unwrap();
    assert_eq!(result, json("42.5"));
}

#[test]
fn parse_number_invalid() {
    let result = parse_variable_value(&VariableType::Number, "abc");
    assert!(result.is_err());
}

#[test]
fn parse_bool_valid() {
    let result = parse_variable_value(&VariableType::Bool, "true").unwrap();
    assert_eq!(result, json("true"));
}

#[test]
fn parse_bool_invalid() {
    let result = parse_variable_value(&VariableType::Bool, "yes");
    assert!(result.is_err());
}

#[test]
fn parse_json_valid() {
    let result = parse_variable_value(&VariableType::Json, r#"{"a":1}"#).unwrap();
    assert_eq!(result, json(r#"{"a": 1}"#));
}

#[test]
fn parse_json_invalid() {
    let result = parse_variable_value(&VariableType::Json, "not json");
    assert!(result.is_err());
}

#[test]
fn merge_json_into_map_inserts_keys() {
    let mut map = Vec::new();
    merge_json_into_map(&mut map, &json(r#"{"a": 1, "b": "x"}"#));
    assert_eq!(map.len(), 2);
    let merged = Json::Object(map);
    assert_eq!(merged.get("a"), Some(&json("1")));
    assert_eq!(merged.get("b"), Some(&json(r#""x""#)));
}

#[test]
fn merge_json_into_map_non_object_noop() {
    let mut map = Vec::new();
    merge_json_into_map(&mut map, &json(r#""not_an_object""#));
    assert!(map.is_empty());
}

#[test]
fn values_that_do_not_fit_their_type_say_so() {
    let error = |t: VariableType, raw: &str| parse_variable_value(&t, raw).unwrap_err();
    assert_eq!(error(VariableType::Number, "abc"), "value is not a valid number");
    assert_eq!(error(VariableType::Bool, "True"), "value is not a valid bool");
    assert!(error(VariableType::Json, "{").starts_with("value is not valid JSON: "));
    assert_eq!(parse_variable_value(&VariableType::Bool, "false").unwrap(), Json::Bool(false));
}

#[test]
fn numbers_are_written_as_doubles() {
    let number = |raw: &str| parse_variable_value(&VariableType::Number, raw).unwrap();
    assert_eq!(number("42"), Json::Number(JsonNumber::Decimal("42.0".into())));
    assert_eq!(number("1e3").to_text(), "1000.0");
    assert_eq!(number("inf"), Json::Null);
}

fn variable(scope: VariableScope, key: &str, value: &str, kind: VariableType) -> VariableEntity {
    VariableEntity {
        id: "old".into(),
        tenant_id: "t1".into(),
        scope,
        scope_id: "s1".into(),
        key: key.into(),
        value: value.into(),
        variable_type: kind,
        created_at: Timestamp { secs: 1, nanos: 0 },
        updated_at: Timestamp { secs: 1, nanos: 0 },
    }
}

#[test]
fn a_secret_opens_to_what_was_sealed() {
    for key in ["short", "a key that has at least thirty-two bytes in it", ""] {
        let b = SecretBox::new(key);
        for plain in ["", "s3cret", "\u{1f511} key"] {
            let sealed = b.encrypt(plain).unwrap();
            assert_ne!(sealed, plain);
            assert_eq!(b.decrypt(&sealed).unwrap(), plain);
        }
        assert_ne!(b.encrypt("x").unwrap(), b.encrypt("x").unwrap());
    }
}

/// What the standard hasher makes of a text that is hashed over and over.
fn stretched(text: &str) -> Vec<u8> {
    let mut hasher = std::collections::hash_map::DefaultHasher::new();
    let mut key: Vec<u8> = Vec::new();
    for _ in 0..4 {
        text.as_bytes().hash(&mut hasher);
        key.extend(hasher.finish().to_le_bytes());
    }
    key
}

#[test]
fn short_keys_are_stretched() {
    for text in ["", "short", "thirty-one bytes are too few..."] {
        let sealed = SecretBox::new(text).encrypt("s3cret").unwrap();
        let bytes = STANDARD.decode(&sealed).unwrap();
        let key = stretched(text);
        assert_eq!(SecretBox::derive_key(text), key);
        let cipher = aes_gcm::Aes256Gcm::new(aes_gcm::Key::<aes_gcm::Aes256Gcm>::from_slice(&key));
        let nonce = aes_gcm::Nonce::from_slice(&bytes[..12]);
        assert_eq!(cipher.decrypt(nonce, &bytes[12..]).unwrap(), b"s3cret");
    }
}

#[test]
fn a_second_service_reads_the_secrets_of_the_first() {
    for key in ["", "short", "a key that has at least thirty-two bytes in it"] {
        let first = VariableService::new(key.into());
        let second = VariableService::new(key.into());
        assert_eq!(first.derive_key(), second.derive_key());
        assert_eq!(first.derive_key().len(), 32);
        if key.len() >= 32 {
            assert_eq!(first.derive_key(), key.as_bytes()[..32]);
        }
        for plain in ["", "s3cret"] {
            let asked = variable(VariableScope::Tenant, "a", plain, VariableType::Secret);
            let kept = first.create(asked, None).unwrap();
            assert_eq!(kept.id.len(), 36);
            assert_ne!(kept.value, plain);
            let none = json("{}");
            let seen = second.resolve_variables(&vec![kept], &vec![], &none, &none).unwrap();
            assert_eq!(seen.get_str("a"), Some(plain));
        }
    }
}

#[test]
fn only_the_first_bytes_of_a_long_key_count() {
    let a = SecretBox::new("0123456789abcdef0123456789abcdef-one");
    let b = SecretBox::new("0123456789abcdef0123456789abcdef-two");
    assert_eq!(b.decrypt(&a.encrypt("x").unwrap()).unwrap(), "x");
    let c = SecretBox::new("1123456789abcdef0123456789abcdef-one");
    assert_eq!(
        c.decrypt(&a.encrypt("x").unwrap()).unwrap_err(),
        "decryption failed: aead::Error"
    );
}

#[test]
fn what_is_no_sealed_text_does_not_open() {
    let b = SecretBox::new("k");
    assert!(b.decrypt("?").unwrap_err().starts_with("base64 decode failed: "));
    assert_eq!(b.decrypt("AAAA").unwrap_err(), "invalid encrypted data");
    assert_eq!(b.decrypt("AAAAAAAAAAAAAAAAAAAAAAAA").unwrap_err(), "decryption failed: aead::Error");
    assert!(SecretBox::bytes_opened(Ok(vec![0xff]))
        .unwrap_err()
        .starts_with("decrypted data is not valid UTF-8: "));
}

#[test]
fn secrets_are_sealed_masked_and_resolved() {
    let svc = VariableService::new("enc_key_32_bytes_long_enough!!".into());
    let asked = variable(VariableScope::Tenant, "token", "s3cret", VariableType::Secret);
    let kept = svc.create(asked, None).unwrap();
    assert_ne!(kept.value, "s3cret");
    assert_ne!(kept.id, "old");
    assert_eq!(kept.id.len(), 36);
    let context = svc.resolve_standalone_context(&vec![kept], &Json::empty_object()).unwrap();
    assert_eq!(context.get_str("token"), Some("s3cret"));

    let found = variable(VariableScope::Tenant, "token", "sealed", VariableType::Secret);
    assert_eq!(svc.get_by_id(found).value, "******");
    let shown = svc.list_by_scope(vec![
        variable(VariableScope::Tenant, "a", "plain", VariableType::String),
        variable(VariableScope::Tenant, "b", "sealed", VariableType::Secret),
    ]);
    assert_eq!((shown[0].value.as_str(), shown[1].value.as_str()), ("plain", "******"));
}

#[test]
fn a_key_is_given_once() {
    let svc = VariableService::new("k".into());
    let taken = variable(VariableScope::WorkflowMeta, "a", "1", VariableType::String);
    let asked = variable(VariableScope::WorkflowMeta, "a", "2", VariableType::String);
    assert_eq!(
        svc.create(asked, Some(&taken)).unwrap_err().text(),
        "database error: variable key 'a' already exists in scope WorkflowMeta/s1 (id=old)"
    );
}

#[test]
fn updating_sets_the_time_alone() {
    let svc = VariableService::new("k".into());
    let at = Timestamp { secs: 9, nanos: 0 };
    let v = svc
        .update_at(variable(VariableScope::Tenant, "a", "1", VariableType::String), at)
        .unwrap();
    assert_eq!((v.updated_at, v.created_at.secs, v.value.as_str()), (at, 1, "1"));
}

#[test]
fn inner_contexts_count_first() {
    let svc = VariableService::new("k".into());
    let tenant = vec![
        variable(VariableScope::Tenant, "a", "tenant", VariableType::String),
        variable(VariableScope::Tenant, "b", "tenant", VariableType::String),
        variable(VariableScope::Tenant, "c", "tenant", VariableType::String),
        variable(VariableScope::Tenant, "d", "tenant", VariableType::String),
    ];
    let meta = vec![
        variable(VariableScope::WorkflowMeta, "b", "meta", VariableType::String),
        variable(VariableScope::WorkflowMeta, "c", "meta", VariableType::String),
        variable(VariableScope::WorkflowMeta, "d", "meta", VariableType::String),
    ];
    let r = svc
        .resolve_variables(
            &tenant,
            &meta,
            &json(r#"{"c": "instance", "d": "instance"}"#),
            &json(r#"{"d": "node"}"#),
        )
        .unwrap();
    assert_eq!(r.to_text(), r#"{"a":"tenant","b":"meta","c":"instance","d":"node"}"#);
}

#[test]
fn a_variable_without_a_value_is_an_error() {
    let svc = VariableService::new("k".into());
    let bad = vec![
        variable(VariableScope::Tenant, "a", "x", VariableType::String),
        variable(VariableScope::Tenant, "n", "x", VariableType::Number),
        variable(VariableScope::Tenant, "b", "x", VariableType::Bool),
    ];
    let e = svc.resolve_standalone_context(&bad, &Json::empty_object()).unwrap_err();
    assert_eq!(e.text(), "database error: value is not a valid number");
}
