use up2b::descriptor::{
    DeleteResponseController, ListResponseController, UploadResponseErrorController,
    UploadResponseStatus, UploadResponseSuccuessController,
};
use up2b::error::{Up2bError, UploadError};
use up2b::json::{resolve_path, value_eq, JsonValue};

fn s(text: &str) -> JsonValue {
    JsonValue::Str(text.to_string())
}

fn obj(pairs: Vec<(&str, JsonValue)>) -> JsonValue {
    JsonValue::Obj(pairs.into_iter().map(|(k, v)| (k.to_string(), v)).collect())
}

#[test]
fn resolve_nested_path() {
    let v = obj(vec![("data", obj(vec![("url", s("https://x/a.png"))]))]);
    match resolve_path(&v, "data.url") {
        Some(JsonValue::Str(found)) => assert_eq!(found, "https://x/a.png"),
        other => panic!("unexpected: {:?}", other),
    }
}

#[test]
fn resolve_missing_key_is_null() {
    let v = obj(vec![("data", obj(vec![("url", s("https://x/a.png"))]))]);
    match resolve_path(&v, "data.nope") {
        None => {}
        Some(JsonValue::Null) => {}
        other => panic!("unexpected: {:?}", other),
    }
}

#[test]
fn resolve_through_non_object_is_null() {
    let v = obj(vec![("data", JsonValue::Int(5))]);
    match resolve_path(&v, "data.url.deep") {
        None => {}
        Some(JsonValue::Null) => {}
        other => panic!("unexpected: {:?}", other),
    }
}

#[test]
fn resolve_twice_is_identical() {
    let v = obj(vec![(
        "a",
        obj(vec![(
            "b",
            JsonValue::Arr(vec![
                JsonValue::Int(1),
                JsonValue::Int(2),
                obj(vec![("c", s("x"))]),
            ]),
        )]),
    )]);
    let r1 = resolve_path(&v, "a.b");
    let r2 = resolve_path(&v, "a.b");
    match (r1, r2) {
        (Some(x), Some(y)) => assert!(value_eq(x, y)),
        (None, None) => {}
        _ => panic!("the two resolutions disagree"),
    }
}

#[test]
fn value_eq_deep() {
    let make = |flag: bool| {
        obj(vec![
            ("x", JsonValue::Arr(vec![JsonValue::Int(1), obj(vec![("y", JsonValue::Bool(flag))])])),
            ("z", JsonValue::Null),
        ])
    };
    let a = make(true);
    let b = make(true);
    let c = make(false);
    assert!(value_eq(&a, &b));
    assert!(!value_eq(&a, &c));
}

#[test]
fn clone_is_deep_equal() {
    let v = obj(vec![("a", JsonValue::Arr(vec![s("x"), JsonValue::Num("1.5".to_string())]))]);
    let w = v.clone();
    assert!(value_eq(&v, &w));
}

#[test]
fn list_controller_rejects_missing_items_path() {
    let ctrl = ListResponseController::new("data", "url", "hash", None);
    let v = obj(vec![("success", JsonValue::Bool(true))]);
    match ctrl.parse(&v) {
        Err(Up2bError::Other(m)) => assert_eq!(m, "通过 items_key 无法获取列表"),
        other => panic!("unexpected: {:?}", other),
    }
}

#[test]
fn list_controller_rejects_non_array_items() {
    let ctrl = ListResponseController::new("data", "url", "hash", None);
    let v = obj(vec![("data", obj(vec![("url", s("x"))]))]);
    match ctrl.parse(&v) {
        Err(Up2bError::Other(m)) => assert_eq!(m, "通过 items_key 无法获取列表"),
        other => panic!("unexpected: {:?}", other),
    }
}

#[test]
fn list_controller_reads_records() {
    let ctrl = ListResponseController::new("data", "url", "hash", Some("thumb".to_string()));
    let v = obj(vec![(
        "data",
        JsonValue::Arr(vec![
            obj(vec![
                ("url", s("https://x/a.png")),
                ("hash", s("h1")),
                ("thumb", s("https://x/t.png")),
            ]),
            obj(vec![("url", s("https://x/b.png")), ("hash", s("h2"))]),
        ]),
    )]);
    let items = ctrl.parse(&v).expect("both records parse");
    assert_eq!(items.len(), 2);
    assert_eq!(items[0].url, "https://x/a.png");
    assert_eq!(items[0].deleted_id, "h1");
    assert_eq!(items[0].thumb.as_deref(), Some("https://x/t.png"));
    assert_eq!(items[1].url, "https://x/b.png");
    assert_eq!(items[1].deleted_id, "h2");
    assert_eq!(items[1].thumb, None);
}

#[test]
fn list_controller_fails_on_record_without_url() {
    let ctrl = ListResponseController::new("data", "url", "hash", None);
    let v = obj(vec![("data", JsonValue::Arr(vec![obj(vec![("hash", s("h1"))])]))]);
    match ctrl.parse(&v) {
        Err(Up2bError::Other(m)) => assert_eq!(m, "没有图片链接"),
        other => panic!("unexpected: {:?}", other),
    }
}

#[test]
fn list_controller_fails_on_record_without_delete_id() {
    let ctrl = ListResponseController::new("data", "url", "hash", None);
    let v = obj(vec![(
        "data",
        JsonValue::Arr(vec![obj(vec![("url", s("https://x/a.png"))])]),
    )]);
    match ctrl.parse(&v) {
        Err(Up2bError::Other(m)) => assert_eq!(m, "没有删除 id"),
        other => panic!("unexpected: {:?}", other),
    }
}

#[test]
fn duplicate_upload_is_detected() {
    let ctrl = UploadResponseErrorController::new("message", Some("exists at: (.+?)$".to_string()));
    let v = obj(vec![(
        "message",
        s("Image upload repeated limit, this image exists at: https://x/y.png"),
    )]);
    match ctrl.parse(&v) {
        Up2bError::Upload(UploadError::Repeat(u)) => assert_eq!(u, "https://x/y.png"),
        other => panic!("unexpected: {:?}", other),
    }
}

#[test]
fn upload_error_without_pattern_keeps_message() {
    let ctrl = UploadResponseErrorController::new("message", None);
    let v = obj(vec![("message", s("quota exceeded"))]);
    match ctrl.parse(&v) {
        Up2bError::Upload(UploadError::Error(m)) => assert_eq!(m, "quota exceeded"),
        other => panic!("unexpected: {:?}", other),
    }
}

#[test]
fn upload_error_missing_message_key() {
    let ctrl = UploadResponseErrorController::new("message", None);
    let v = obj(vec![("code", JsonValue::Int(3))]);
    match ctrl.parse(&v) {
        Up2bError::KeyNotFound(k) => assert_eq!(k, "message"),
        other => panic!("unexpected: {:?}", other),
    }
}

#[test]
fn upload_success_controller_reads_record() {
    let ctrl = UploadResponseSuccuessController::new("data.url", None, "data.hash");
    let v = obj(vec![(
        "data",
        obj(vec![("url", s("https://x/a.png")), ("hash", s("h1"))]),
    )]);
    let item = ctrl.parse(&v).expect("record parses");
    assert_eq!(item.url, "https://x/a.png");
    assert_eq!(item.deleted_id, "h1");
    assert_eq!(item.thumb, None);
}

#[test]
fn upload_success_controller_rejects_null_url() {
    let ctrl = UploadResponseSuccuessController::new("data.url", None, "data.hash");
    let v = obj(vec![("data", obj(vec![("hash", s("h1"))]))]);
    match ctrl.parse(&v) {
        Err(Up2bError::Other(m)) => assert_eq!(m, "没有图片链接"),
        other => panic!("unexpected: {:?}", other),
    }
}

#[test]
fn upload_success_controller_rejects_wrong_type() {
    let ctrl = UploadResponseSuccuessController::new("data.url", None, "data.hash");
    let v = obj(vec![(
        "data",
        obj(vec![("url", JsonValue::Int(5)), ("hash", s("h1"))]),
    )]);
    match ctrl.parse(&v) {
        Err(Up2bError::Other(m)) => assert_eq!(m, "类型错误"),
        other => panic!("unexpected: {:?}", other),
    }
}

#[test]
fn upload_status_mismatch_yields_response_error() {
    let status = UploadResponseStatus::new("success", JsonValue::Bool(true));
    let error = UploadResponseErrorController::new("message", None);
    let success = UploadResponseSuccuessController::new("data.url", None, "data.hash");
    let ctrl = up2b::descriptor::UploadResponseController::new(status, error, success);
    let v = obj(vec![
        ("success", JsonValue::Bool(false)),
        ("message", s("bad file")),
    ]);
    match ctrl.parse(&v) {
        Err(Up2bError::Upload(UploadError::Error(m))) => assert_eq!(m, "bad file"),
        other => panic!("unexpected: {:?}", other),
    }
}

#[test]
fn delete_json_controller_surfaces_message() {
    let ctrl = DeleteResponseController::Json {
        key: "success".to_string(),
        should_be: JsonValue::Bool(true),
        message_key: Some("message".to_string()),
    };
    match ctrl.parse(200, r#"{"success": false, "message": "gone"}"#) {
        Err(Up2bError::Other(m)) => assert_eq!(m, "gone"),
        other => panic!("unexpected: {:?}", other),
    }
}

#[test]
fn delete_json_controller_accepts_expected_value() {
    let ctrl = DeleteResponseController::Json {
        key: "success".to_string(),
        should_be: JsonValue::Bool(true),
        message_key: Some("message".to_string()),
    };
    assert!(ctrl.parse(404, r#"{"success": true}"#).is_ok());
}

#[test]
fn delete_json_controller_needs_status_value() {
    let ctrl = DeleteResponseController::Json {
        key: "success".to_string(),
        should_be: JsonValue::Bool(true),
        message_key: None,
    };
    match ctrl.parse(200, r#"{"other": 1}"#) {
        Err(Up2bError::Other(m)) => assert_eq!(m, "无法获取删除状态值"),
        other => panic!("unexpected: {:?}", other),
    }
}

#[test]
fn delete_json_controller_rejects_unparseable_body() {
    let ctrl = DeleteResponseController::Json {
        key: "success".to_string(),
        should_be: JsonValue::Bool(true),
        message_key: None,
    };
    match ctrl.parse(200, "{not json") {
        Err(Up2bError::Serde(m)) => assert_eq!(m, "invalid JSON body"),
        other => panic!("unexpected: {:?}", other),
    }
}

#[test]
fn delete_status_controller_requires_200() {
    let ctrl = DeleteResponseController::Status;
    assert!(ctrl.parse(200, "").is_ok());
    match ctrl.parse(404, "") {
        Err(Up2bError::Other(m)) => assert_eq!(m, "unkown"),
        other => panic!("unexpected: {:?}", other),
    }
}

#[test]
fn obj_insert_replaces_and_appends() {
    let mut fields = vec![
        ("a".to_string(), JsonValue::Int(1)),
        ("b".to_string(), JsonValue::Int(2)),
    ];
    up2b::json::obj_insert(&mut fields, "b".to_string(), JsonValue::Int(9));
    assert_eq!(fields.len(), 2);
    assert!(matches!(fields[1].1, JsonValue::Int(9)));
    up2b::json::obj_insert(&mut fields, "c".to_string(), JsonValue::Int(3));
    assert_eq!(fields.len(), 3);
    assert_eq!(fields[2].0, "c");
}
