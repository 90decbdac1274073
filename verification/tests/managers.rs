use up2b::api::BaseApiManager;
use up2b::config::{Config, ManagerAuthConfigKind};
use up2b::descriptor::FileKind;
use up2b::error::Up2bError;
use up2b::http::{BytesStream, HttpMethod, RequestBody};
use up2b::json::JsonValue;
use up2b::manager::{is_exceeded, use_manager, Manager, ManagerCode, ManagerKind};
use up2b::smms::SmMs;

#[test]
fn smms_style_upload_response() {
    let smms = SmMs::new("token".to_string());
    let body = r#"{"success": true, "data": {"url": "https://x/a.png", "hash": "h1"}}"#;
    match smms.inner.upload(body) {
        Ok(up2b::manager::UploadResult::Response(item)) => {
            assert_eq!(item.url, "https://x/a.png");
            assert_eq!(item.deleted_id, "h1");
            assert_eq!(item.thumb, None);
        }
        other => panic!("unexpected: {:?}", other),
    }
}

#[test]
fn list_rejects_unparseable_body() {
    let smms = SmMs::new("token".to_string());
    match smms.inner.list("{not json") {
        Err(Up2bError::Serde(m)) => assert_eq!(m, "invalid JSON body"),
        other => panic!("unexpected: {:?}", other),
    }
}

#[test]
fn smms_style_list_rejects_non_array() {
    let smms = SmMs::new("token".to_string());
    match smms.inner.list(r#"{"data": "nope"}"#) {
        Err(Up2bError::Other(m)) => assert_eq!(m, "通过 items_key 无法获取列表"),
        other => panic!("unexpected: {:?}", other),
    }
}

#[test]
fn smms_style_list_reads_history() {
    let smms = SmMs::new("token".to_string());
    let body = r#"{"success": true, "data": [{"url": "https://x/a.png", "hash": "h1"}]}"#;
    let items = smms.inner.list(body).expect("listing parses");
    assert_eq!(items.len(), 1);
    assert_eq!(items[0].deleted_id, "h1");
}

#[test]
fn oversize_upload_is_rejected() {
    match is_exceeded("backend", "a.png", 10 * 1024 * 1024, 12 * 1024 * 1024) {
        Err(Up2bError::OverSize(name, path, max_mb, actual_mb)) => {
            assert_eq!(name, "backend");
            assert_eq!(path, "a.png");
            assert_eq!(max_mb, 10);
            assert_eq!(actual_mb, 12);
        }
        other => panic!("unexpected: {:?}", other),
    }
}

#[test]
fn exact_size_passes_the_gate() {
    assert!(is_exceeded("backend", "a.png", 10 * 1024 * 1024, 10 * 1024 * 1024).is_ok());
}

#[test]
fn multipart_upload_request_checks_size() {
    let smms = SmMs::new("token".to_string());
    let bytes: Vec<u8> = Vec::new();
    match smms
        .inner
        .upload_request("a.png", &bytes, 6 * 1024 * 1024, false, None)
    {
        Err(Up2bError::OverSize(name, _, max_mb, actual_mb)) => {
            assert_eq!(name, "sm.ms");
            assert_eq!(max_mb, 5);
            assert_eq!(actual_mb, 6);
        }
        other => panic!("unexpected: {:?}", other),
    }
}

#[test]
fn multipart_upload_request_shape() {
    let smms = SmMs::new("token".to_string());
    let bytes: Vec<u8> = Vec::new();
    let req = smms
        .inner
        .upload_request("a.JPG", &bytes, 1024, false, None)
        .expect("small file passes");
    assert_eq!(req.method, HttpMethod::Post);
    assert_eq!(req.url, "https://smms.app/api/v2/upload");
    match req.body {
        RequestBody::Multipart {
            file_part_name,
            file_kind,
            mime_type,
            extra,
        } => {
            assert_eq!(file_part_name, "smfile");
            assert_eq!(file_kind, FileKind::Stream);
            assert_eq!(mime_type, "image/jpeg");
            assert!(extra.is_empty());
        }
        other => panic!("unexpected body: {:?}", other),
    }
}

fn json_style_manager() -> BaseApiManager {
    let mut api = up2b::smms::smms_api();
    api.upload.content_type = up2b::descriptor::UploadContentType::Json {
        key: "image".to_string(),
    };
    api.upload.other_body = Some(vec![(
        "album".to_string(),
        JsonValue::Str("mine".to_string()),
    )]);
    let inner = up2b::manager::BaseManager::new(
        "host".to_string(),
        "https://h".to_string(),
        5,
        Vec::new(),
        None,
    );
    BaseApiManager::new(inner, "tok", api)
}

#[test]
fn json_upload_request_merges_extra_body() {
    let m = json_style_manager();
    let bytes = vec![b'a', b'b', b'c'];
    let req = m
        .upload_request("a.png", &bytes, 3, false, None)
        .expect("request built");
    match req.body {
        RequestBody::Json(JsonValue::Obj(fields)) => {
            assert_eq!(fields.len(), 2);
            assert_eq!(fields[0].0, "album");
            assert_eq!(fields[1].0, "image");
            match &fields[1].1 {
                JsonValue::Str(s) => assert_eq!(s, "YWJj"),
                other => panic!("unexpected: {:?}", other),
            }
        }
        other => panic!("unexpected body: {:?}", other),
    }
}

#[test]
fn json_upload_request_checks_size_too() {
    let m = json_style_manager();
    let bytes = vec![1u8];
    match m.upload_request("a.png", &bytes, 6 * 1024 * 1024, false, None) {
        Err(Up2bError::OverSize(_, _, max_mb, actual_mb)) => {
            assert_eq!(max_mb, 5);
            assert_eq!(actual_mb, 6);
        }
        other => panic!("unexpected: {:?}", other),
    }
}

#[test]
fn json_upload_body_carries_base64() {
    let bytes = vec![b'a', b'b', b'c'];
    let body = up2b::api::build_json_upload_body(None, "content", &bytes).expect("object built");
    match body {
        JsonValue::Obj(fields) => {
            assert_eq!(fields.len(), 1);
            assert_eq!(fields[0].0, "content");
            match &fields[0].1 {
                JsonValue::Str(s) => assert_eq!(s, "YWJj"),
                other => panic!("unexpected: {:?}", other),
            }
        }
        other => panic!("unexpected: {:?}", other),
    }
}

#[test]
fn json_upload_body_rejects_non_object_form() {
    let bytes = vec![1u8];
    let form = JsonValue::Arr(Vec::new());
    match up2b::api::build_json_upload_body(Some(&form), "content", &bytes) {
        Err(Up2bError::Other(m)) => assert_eq!(m, "错误的类型"),
        other => panic!("unexpected: {:?}", other),
    }
}

#[test]
fn headers_place_token_with_prefix() {
    let mut api = up2b::smms::smms_api();
    api.auth_method = up2b::descriptor::AuthMethod::Header {
        key: Some("X-Auth".to_string()),
        prefix: Some("Bearer ".to_string()),
    };
    let inner = up2b::manager::BaseManager::new(
        "t".to_string(),
        "https://h".to_string(),
        5,
        Vec::new(),
        None,
    );
    let m = BaseApiManager::new(inner, "tok", api);
    let headers = m.headers();
    assert_eq!(headers.len(), 2);
    assert_eq!(headers[0], ("Accept".to_string(), "application/json".to_string()));
    assert_eq!(headers[1], ("X-Auth".to_string(), "Bearer tok".to_string()));
}

fn body_auth_manager() -> BaseApiManager {
    let mut api = up2b::smms::smms_api();
    api.auth_method = up2b::descriptor::AuthMethod::Body {
        key: "token".to_string(),
    };
    api.list.method = up2b::descriptor::ListRequestMethod::Post {
        body: vec![("page".to_string(), JsonValue::Int(1))],
    };
    api.delete.method = up2b::descriptor::DeleteMethod::Post {
        body: Vec::new(),
        key: "hash".to_string(),
    };
    let inner = up2b::manager::BaseManager::new(
        "host".to_string(),
        "https://h".to_string(),
        5,
        Vec::new(),
        None,
    );
    BaseApiManager::new(inner, "sekret", api)
}

#[test]
fn list_post_request_injects_body_token() {
    let m = body_auth_manager();
    let req = m.list_request();
    assert_eq!(req.method, HttpMethod::Post);
    match req.body {
        RequestBody::Json(JsonValue::Obj(fields)) => {
            assert_eq!(fields.len(), 2);
            assert_eq!(fields[0].0, "page");
            assert_eq!(fields[1].0, "token");
            match &fields[1].1 {
                JsonValue::Str(s) => assert_eq!(s, "sekret"),
                other => panic!("unexpected: {:?}", other),
            }
        }
        other => panic!("unexpected body: {:?}", other),
    }
}

#[test]
fn delete_post_request_carries_id_and_token() {
    let m = body_auth_manager();
    let req = m.delete_request("h9");
    assert_eq!(req.method, HttpMethod::Post);
    assert_eq!(req.url, "https://smms.app/api/v2/delete/");
    match req.body {
        RequestBody::Json(JsonValue::Obj(fields)) => {
            assert_eq!(fields.len(), 2);
            assert_eq!(fields[0].0, "hash");
            assert_eq!(fields[1].0, "token");
        }
        other => panic!("unexpected body: {:?}", other),
    }
}

#[test]
fn delete_query_request_places_id_in_query() {
    let mut api = up2b::smms::smms_api();
    api.delete.method = up2b::descriptor::DeleteMethod::Delete {
        kind: up2b::descriptor::DeleteKeyKind::Query {
            key: "id".to_string(),
        },
    };
    let inner = up2b::manager::BaseManager::new(
        "host".to_string(),
        "https://h".to_string(),
        5,
        Vec::new(),
        None,
    );
    let m = BaseApiManager::new(inner, "tok", api);
    let req = m.delete_request("h9");
    assert_eq!(req.method, HttpMethod::Delete);
    assert_eq!(req.url, "https://smms.app/api/v2/delete/?id=h9");
}

#[test]
fn delete_request_places_id_on_path() {
    let smms = SmMs::new("token".to_string());
    let req = smms.inner.delete_request("h1");
    assert_eq!(req.method, HttpMethod::Get);
    assert_eq!(req.url, "https://smms.app/api/v2/delete/h1");
    assert!(matches!(req.body, RequestBody::Empty));
}

#[test]
fn git_upload_request_names_file_with_timestamp() {
    let git = up2b::git::GitManager::new(
        "github",
        "https://api.github.com",
        None,
        "tok",
        "me",
        "repo",
        None,
        Some(180),
        20,
    );
    let bytes = vec![b'x'];
    let req = git
        .upload_request("pic.png", "1700000000000", &bytes)
        .expect("request built");
    assert_eq!(req.method, HttpMethod::Put);
    assert_eq!(
        req.url,
        "https://api.github.com/repos/me/repo/contents/up2b/pic_1700000000000.png"
    );
    match req.body {
        RequestBody::Json(JsonValue::Obj(fields)) => {
            assert_eq!(fields.len(), 2);
            assert_eq!(fields[0].0, "message");
            assert_eq!(fields[1].0, "content");
            match &fields[1].1 {
                JsonValue::Str(s) => assert_eq!(s, "eA=="),
                other => panic!("unexpected: {:?}", other),
            }
        }
        other => panic!("unexpected body: {:?}", other),
    }
}

#[test]
fn git_upload_request_needs_extension() {
    let git = up2b::git::GitManager::new(
        "github",
        "https://api.github.com",
        None,
        "tok",
        "me",
        "repo",
        None,
        None,
        20,
    );
    let bytes = vec![1u8];
    match git.upload_request("noext", "1", &bytes) {
        Err(Up2bError::Path(up2b::error::PathError::NotFile)) => {}
        other => panic!("unexpected: {:?}", other),
    }
}

#[test]
fn git_delete_request_splits_the_token() {
    let git = up2b::git::GitManager::new(
        "github",
        "https://api.github.com",
        None,
        "tok",
        "me",
        "repo",
        None,
        None,
        20,
    );
    let req = git
        .delete_request("https://api.github.com/repos/me/repo/contents/a.png---abc123")
        .expect("token splits");
    assert_eq!(req.method, HttpMethod::Delete);
    assert_eq!(req.url, "https://api.github.com/repos/me/repo/contents/a.png");
    match req.body {
        RequestBody::Json(JsonValue::Obj(fields)) => {
            assert_eq!(fields[0].0, "sha");
            match &fields[0].1 {
                JsonValue::Str(s) => assert_eq!(s, "abc123"),
                other => panic!("unexpected: {:?}", other),
            }
        }
        other => panic!("unexpected body: {:?}", other),
    }
}

#[test]
fn git_list_reads_directory() {
    let git = up2b::git::GitManager::new(
        "github",
        "https://api.github.com",
        None,
        "tok",
        "me",
        "repo",
        None,
        None,
        20,
    );
    let body = r#"[{"download_url": "https://raw/a.png", "sha": "s1", "url": "https://api/a.png"}]"#;
    let items = git.list(200, body).expect("listing parses");
    assert_eq!(items.len(), 1);
    assert_eq!(items[0].url, "https://raw/a.png");
    assert_eq!(items[0].deleted_id, "https://api/a.png---s1");
}

#[test]
fn git_list_classifies_not_found() {
    let git = up2b::git::GitManager::new(
        "github",
        "https://api.github.com",
        None,
        "tok",
        "me",
        "repo",
        None,
        None,
        20,
    );
    match git.list(404, r#"{"message": "Not Found"}"#) {
        Err(Up2bError::Git(up2b::error::GitError::NotFound)) => {}
        other => panic!("unexpected: {:?}", other),
    }
}

#[test]
fn use_manager_dispatches_smms() {
    let cfg = ManagerAuthConfigKind::API {
        token: "tok".to_string(),
        api: up2b::smms::smms_api(),
    };
    match use_manager(&ManagerCode::Smms, cfg) {
        Ok(Manager::Api(m)) => assert_eq!(m.inner.name, "sm.ms"),
        other => panic!("unexpected: {:?}", other),
    }
}

#[test]
fn use_manager_rejects_wrong_smms_credential() {
    let cfg = ManagerAuthConfigKind::Git {
        token: "tok".to_string(),
        username: "me".to_string(),
        repository: "r".to_string(),
        path: None,
    };
    match use_manager(&ManagerCode::Smms, cfg) {
        Err(Up2bError::Config(up2b::error::ConfigError::Type(n))) => assert_eq!(n, "sm.ms"),
        other => panic!("unexpected: {:?}", other),
    }
}

#[test]
fn use_manager_dispatches_github() {
    let cfg = ManagerAuthConfigKind::Git {
        token: "tok".to_string(),
        username: "me".to_string(),
        repository: "repo".to_string(),
        path: Some("imgs".to_string()),
    };
    match use_manager(&ManagerCode::Github, cfg) {
        Ok(Manager::Git(g)) => {
            assert_eq!(g.inner.base_url, "https://api.github.com/repos/me/repo/contents/imgs");
        }
        other => panic!("unexpected: {:?}", other),
    }
}

#[test]
fn use_manager_dispatches_chevereto() {
    let cfg = ManagerAuthConfigKind::Chevereto {
        username: "u".to_string(),
        password: "p".to_string(),
        timeout: None,
        extra: None,
    };
    match use_manager(&ManagerCode::Imgse, cfg) {
        Ok(Manager::Chevereto(c)) => {
            assert_eq!(c.inner.name, "imgse.com");
            assert_eq!(c.username, "u");
        }
        other => panic!("unexpected: {:?}", other),
    }
}

#[test]
fn manager_code_names() {
    assert_eq!(ManagerCode::Smms.name(), "sm.ms");
    assert_eq!(ManagerCode::Imgtg.name(), "imgtg.com");
    assert_eq!(ManagerCode::Custom("mine".to_string()).name(), "CUSTOM-mine");
}

#[test]
fn manager_code_round_trips_through_text() {
    assert_eq!(ManagerCode::Custom("abc".to_string()).code_str(), "CUSTOM-ABC");
    assert_eq!(ManagerCode::Github.code_str(), "GITHUB");
    assert_eq!(ManagerCode::from_code_str("smms"), Some(ManagerCode::Smms));
    assert_eq!(
        ManagerCode::from_code_str("CUSTOM-mine"),
        Some(ManagerCode::Custom("mine".to_string()))
    );
    assert_eq!(ManagerCode::from_code_str("nope"), None);
}

#[test]
fn manager_catalogue_kinds() {
    let item = ManagerCode::Imgse.to_manager_item();
    assert_eq!(item.name, "imgse.com");
    assert_eq!(item.kind, ManagerKind::Chevereto);
    let items = up2b::manager::builtin_managers();
    assert_eq!(items.len(), 4);
    assert_eq!(items[3].kind, ManagerKind::Git);
}

#[test]
fn config_stores_one_credential_per_backend() {
    let mut config = Config::default();
    assert!(config.get_auth_config(&ManagerCode::Smms).is_none());
    config.insert_auth_config(
        ManagerCode::Smms,
        ManagerAuthConfigKind::API {
            token: "t1".to_string(),
            api: up2b::smms::smms_api(),
        },
    );
    config.insert_auth_config(
        ManagerCode::Smms,
        ManagerAuthConfigKind::API {
            token: "t2".to_string(),
            api: up2b::smms::smms_api(),
        },
    );
    match config.get_auth_config(&ManagerCode::Smms) {
        Some(ManagerAuthConfigKind::API { token, .. }) => assert_eq!(token, "t2"),
        other => panic!("unexpected: {:?}", other),
    }
}

#[test]
fn new_custom_manager_rejects_existing_key() {
    let mut config = Config::default();
    let key = ManagerCode::Custom("mine".to_string());
    let cfg = ManagerAuthConfigKind::API {
        token: "t".to_string(),
        api: up2b::smms::smms_api(),
    };
    assert!(config.new_custom_manager(key.duplicate(), cfg).is_ok());
    assert_eq!(config.using(), &key);
    let cfg2 = ManagerAuthConfigKind::API {
        token: "t".to_string(),
        api: up2b::smms::smms_api(),
    };
    match config.new_custom_manager(key, cfg2) {
        Err(Up2bError::CustomUnique(n)) => assert_eq!(n, "CUSTOM-mine"),
        other => panic!("unexpected: {:?}", other),
    }
}

#[test]
fn manager_items_include_customs() {
    let mut config = Config::default();
    config.insert_auth_config(
        ManagerCode::Custom("mine".to_string()),
        ManagerAuthConfigKind::API {
            token: "t".to_string(),
            api: up2b::smms::smms_api(),
        },
    );
    let items = config.manager_items();
    assert_eq!(items.len(), 5);
    assert_eq!(items[4].name, "mine");
    assert_eq!(items[4].kind, ManagerKind::API);
}

#[test]
fn bytes_stream_hands_out_chunks() {
    let mut stream = BytesStream::new(vec![1, 2, 3, 4, 5], 2);
    assert_eq!(stream.next_chunk(), Some(vec![1, 2]));
    assert_eq!(stream.next_chunk(), Some(vec![3, 4]));
    assert_eq!(stream.next_chunk(), Some(vec![5]));
    assert_eq!(stream.next_chunk(), None);
}

#[test]
fn mime_type_guesses() {
    assert_eq!(up2b::util::guess_mime_type_by_ext("jpg"), "image/jpeg");
    assert_eq!(up2b::util::guess_mime_type_by_ext("JPEG"), "image/jpeg");
    assert_eq!(up2b::util::guess_mime_type_by_ext("png"), "image/png");
    assert_eq!(up2b::util::guess_mime_type_by_ext("archive.png"), "image/archive");
}

#[test]
fn error_codes() {
    let over = Up2bError::OverSize("n".to_string(), "p".to_string(), 1, 2);
    assert_eq!(over.as_string(), "OVER_SIZE");
    let repeat = Up2bError::Upload(up2b::error::UploadError::Repeat("u".to_string()));
    assert_eq!(repeat.as_string(), "REPEATED");
    let path = Up2bError::Path(up2b::error::PathError::NotExists);
    assert_eq!(path.as_string(), "NOT_EXISTS");
    assert_eq!(Up2bError::Auth.as_string(), "UNKOWN");
}
