use up2b::chevereto::{
    extract_page_items, page_continuation, parse_auth_token, parse_session_cookie, retry_decision,
    unquote, Chevereto, DeleteDecision, Imgse, Imgtg, RetryDecision, UploadDecision,
};
use up2b::error::{CheveretoError, Up2bError};
use up2b::http::{HttpMethod, RequestBody};
use up2b::manager::DeleteError;

fn imgse() -> Chevereto {
    let extra = vec![
        ("token".to_string(), "tok40".to_string()),
        ("cookie".to_string(), "PHPSESSID=x".to_string()),
    ];
    Imgse::new("user", "pass", None, Some(&extra)).inner
}

#[test]
fn unquote_decodes_embedded_json() {
    assert_eq!(
        unquote("%7B%22a%22%3A%5C%22b%2Fc%22%2C%7D"),
        "{\"a\":\\\"b/c\",}"
    );
    assert_eq!(unquote("plain"), "plain");
    assert_eq!(unquote(""), "");
    assert_eq!(unquote("%7"), "%7");
}

#[test]
fn auth_token_is_scraped_from_login_page() {
    let html = r#"<script>PF.obj.config.auth_token = "0123456789abcdef0123456789abcdef01234567";</script>"#;
    match parse_auth_token(html) {
        Ok(Some(t)) => assert_eq!(t, "0123456789abcdef0123456789abcdef01234567"),
        other => panic!("unexpected: {:?}", other),
    }
    assert!(matches!(parse_auth_token("<html></html>"), Ok(None)));
}

#[test]
fn session_cookie_is_first_attribute() {
    assert_eq!(parse_session_cookie("PHPSESSID=abc; path=/; HttpOnly"), "PHPSESSID=abc");
    assert_eq!(parse_session_cookie("PHPSESSID=abc"), "PHPSESSID=abc");
}

#[test]
fn login_failure_classifies_bad_credentials() {
    let html = r#"PF.fn.growl.expirable("错误的用户名或密码")"#;
    assert!(matches!(
        up2b::chevereto::login_failure(200, html),
        Up2bError::Auth
    ));
    let other = r#"PF.fn.growl.expirable("rate limited")"#;
    match up2b::chevereto::login_failure(200, other) {
        Up2bError::Other(m) => assert_eq!(m, "rate limited"),
        r => panic!("unexpected: {:?}", r),
    }
    assert!(matches!(
        up2b::chevereto::login_failure(500, "<html></html>"),
        Up2bError::Status(500)
    ));
}

#[test]
fn session_refresh_is_bounded_to_three() {
    let mut refreshes = 0u32;
    let mut counter = 0u8;
    let terminal = loop {
        match retry_decision(&CheveretoError::AuthToken, counter) {
            RetryDecision::Refresh => {
                refreshes += 1;
                counter += 1;
            }
            RetryDecision::GiveUp(e) => break e,
        }
    };
    assert_eq!(refreshes, 3);
    assert_eq!(terminal, CheveretoError::AuthToken);
}

#[test]
fn other_errors_are_never_retried() {
    match retry_decision(&CheveretoError::Other("x".to_string()), 0) {
        RetryDecision::GiveUp(CheveretoError::Other(m)) => assert_eq!(m, "x"),
        other => panic!("unexpected: {:?}", other),
    }
}

#[test]
fn upload_decision_retries_expired_session() {
    let c = imgse();
    let body = r#"{"status_code": 403, "status_txt": "Forbidden", "error": {"message": "请求被拒绝 (auth_token)", "code": 1}}"#;
    assert!(matches!(
        c.upload_response_decision(403, body, 0),
        Ok(UploadDecision::RetryAfterRefresh)
    ));
    match c.upload_response_decision(403, body, 3) {
        Err(Up2bError::Chevereto(CheveretoError::AuthToken)) => {}
        other => panic!("unexpected: {:?}", other),
    }
}

#[test]
fn upload_decision_reads_new_image() {
    let c = imgse();
    let body = r#"{"image": {"name": "a", "url": "https://x/a.png", "thumb": {"url": "https://x/t.png"}}}"#;
    match c.upload_response_decision(200, body, 0) {
        Ok(UploadDecision::Done(item)) => {
            assert_eq!(item.url, "https://x/a.png");
            assert_eq!(item.deleted_id, "a");
            assert_eq!(item.thumb.as_deref(), Some("https://x/t.png"));
        }
        other => panic!("unexpected: {:?}", other),
    }
}

#[test]
fn delete_decision_maps_missing_owner_to_not_found() {
    let c = imgse();
    let body = r#"{"status_code": 403, "status_txt": "Forbidden", "error": {"message": "Invalid content owner request", "code": 1}}"#;
    match c.delete_response_decision(403, body, 0) {
        Ok(DeleteDecision::Done(resp)) => {
            assert!(!resp.success);
            assert_eq!(resp.error, Some(DeleteError::NotFound));
        }
        other => panic!("unexpected: {:?}", other),
    }
}

#[test]
fn delete_decision_gives_up_after_three_refreshes() {
    let c = imgse();
    let body = r#"{"status_code": 403, "status_txt": "Forbidden", "error": {"message": "请求被拒绝 (auth_token)", "code": 1}}"#;
    assert!(matches!(
        c.delete_response_decision(403, body, 2),
        Ok(DeleteDecision::RetryAfterRefresh)
    ));
    match c.delete_response_decision(403, body, 3) {
        Ok(DeleteDecision::Done(resp)) => {
            assert_eq!(resp.error, Some(DeleteError::Other("auth_token 失效".to_string())));
        }
        other => panic!("unexpected: {:?}", other),
    }
}

#[test]
fn delete_decision_accepts_200() {
    let c = imgse();
    match c.delete_response_decision(200, "", 0) {
        Ok(DeleteDecision::Done(resp)) => assert!(resp.success),
        other => panic!("unexpected: {:?}", other),
    }
}

#[test]
fn album_page_items_are_scraped() {
    let html = "<div data-object='%7B%22name%22%3A%22a%22%2C%22url%22%3A%22https%3A%2F%2Fx%2Fa.png%22%2C%22thumb%22%3A%7B%22url%22%3A%22https%3A%2F%2Fx%2Ft.png%22%7D%7D'></div>";
    let items = extract_page_items(html).expect("page parses");
    assert_eq!(items.len(), 1);
    assert_eq!(items[0].deleted_id, "a");
    assert_eq!(items[0].url, "https://x/a.png");
    assert_eq!(items[0].thumb.as_deref(), Some("https://x/t.png"));
}

#[test]
fn album_without_records_yields_nothing() {
    let items = extract_page_items("<html></html>").expect("empty page parses");
    assert!(items.is_empty());
}

#[test]
fn pagination_stops_at_one_page() {
    let html = r#"<b data-text="image-count">80</b>"#;
    assert!(matches!(page_continuation(html), Ok(None)));
    assert!(matches!(page_continuation("<html></html>"), Ok(None)));
}

#[test]
fn pagination_reads_count_and_seek() {
    let html = r#"<b data-text="image-count">200</b> <a href="/?page=2&seek=abc""#;
    match page_continuation(html) {
        Ok(Some((pages, seek))) => {
            assert_eq!(pages, 3);
            assert_eq!(seek, "abc");
        }
        other => panic!("unexpected: {:?}", other),
    }
}

#[test]
fn album_page_urls() {
    let c = imgse();
    assert_eq!(c.album_page_url(1, None), "https://imgse.com//user/?page=1");
    assert_eq!(
        c.album_page_url(12, Some("abc")),
        "https://imgse.com//user/?page=12&seek=abc"
    );
}

#[test]
fn chevereto_upload_request_form() {
    let c = imgse();
    let req = c
        .upload_request("a.png", 1024, false, "1700000000000")
        .expect("small file passes");
    assert_eq!(req.method, HttpMethod::Post);
    assert_eq!(req.url, "https://imgse.com//json");
    match req.body {
        RequestBody::Multipart {
            file_part_name,
            extra,
            ..
        } => {
            assert_eq!(file_part_name, "source");
            assert_eq!(extra[0], ("type".to_string(), "file".to_string()));
            assert_eq!(extra[1], ("action".to_string(), "upload".to_string()));
            assert_eq!(extra[2], ("timestamp".to_string(), "1700000000000".to_string()));
            assert_eq!(extra[3], ("auth_token".to_string(), "tok40".to_string()));
            assert_eq!(extra[4], ("nsfw".to_string(), "0".to_string()));
        }
        other => panic!("unexpected body: {:?}", other),
    }
}

#[test]
fn chevereto_oversize_upload_is_rejected() {
    let c = imgse();
    match c.upload_request("a.png", 11 * 1024 * 1024, false, "1") {
        Err(Up2bError::OverSize(name, _, max_mb, actual_mb)) => {
            assert_eq!(name, "imgse.com");
            assert_eq!(max_mb, 10);
            assert_eq!(actual_mb, 11);
        }
        other => panic!("unexpected: {:?}", other),
    }
}

#[test]
fn chevereto_delete_request_form() {
    let c = imgse();
    let req = c.delete_request("imgname");
    assert_eq!(req.method, HttpMethod::Post);
    match req.body {
        RequestBody::Form(fields) => {
            assert_eq!(fields[0], ("auth_token".to_string(), "tok40".to_string()));
            assert_eq!(fields[5], ("deleting[ids][]".to_string(), "imgname".to_string()));
        }
        other => panic!("unexpected body: {:?}", other),
    }
}

#[test]
fn login_flow_applies_session() {
    let mut c = Imgtg::new("user", "pass", None, None).inner;
    assert!(c.needs_login());
    let extra = c.apply_login(
        "0123456789abcdef0123456789abcdef01234567".to_string(),
        "PHPSESSID=a",
        "KEEP_LOGIN=b",
    );
    assert!(!c.needs_login());
    assert_eq!(extra[0].0, "token");
    assert_eq!(extra[1].1, "PHPSESSID=a; KEEP_LOGIN=b");
    let stored = c.session_extra().expect("session present");
    assert_eq!(stored[0].0, "cookie");
    assert_eq!(stored[1].1, "0123456789abcdef0123456789abcdef01234567");
}

#[test]
fn login_request_carries_credentials() {
    let c = imgse();
    let req = c.login_request("tok", "PHPSESSID=a");
    assert_eq!(req.method, HttpMethod::Post);
    match req.body {
        RequestBody::Form(fields) => {
            assert_eq!(fields[0], ("login-subject".to_string(), "user".to_string()));
            assert_eq!(fields[1], ("password".to_string(), "pass".to_string()));
            assert_eq!(fields[2], ("auth_token".to_string(), "tok".to_string()));
        }
        other => panic!("unexpected body: {:?}", other),
    }
}

#[test]
fn auth_page_request_can_withhold_cookie() {
    let c = imgse();
    let req = c.auth_page_request(true);
    assert!(req.headers.iter().all(|(k, _)| k != "Cookie"));
    assert_eq!(req.headers.last().unwrap().1, "text/html");
    let with_cookie = c.auth_page_request(false);
    assert!(with_cookie.headers.iter().any(|(k, _)| k == "Cookie"));
}

#[test]
fn git_error_message_classification() {
    assert_eq!(
        up2b::error::git_error_of_message("Not Found".to_string()),
        up2b::error::GitError::NotFound
    );
    match up2b::error::git_error_of_message("boom".to_string()) {
        up2b::error::GitError::Other(m) => assert_eq!(m, "boom"),
        other => panic!("unexpected: {:?}", other),
    }
}

#[test]
fn chevereto_error_kinds() {
    let detail = up2b::error::CheveretoErrorDetail {
        message: "请求被拒绝 (auth_token)".to_string(),
        code: 403,
    };
    assert_eq!(detail.kind(), CheveretoError::AuthToken);
    let detail2 = up2b::error::CheveretoErrorDetail {
        message: "Invalid content owner request".to_string(),
        code: 403,
    };
    assert_eq!(detail2.kind(), CheveretoError::InvalidContentOwnerRequest);
    assert_eq!(CheveretoError::AuthToken.message(), "auth_token 失效");
}

#[test]
fn parse_u32_reads_digits() {
    assert_eq!(up2b::util::parse_u32("200"), Some(200));
    assert_eq!(up2b::util::parse_u32("0"), Some(0));
    assert_eq!(up2b::util::parse_u32(""), None);
    assert_eq!(up2b::util::parse_u32("12a"), None);
    assert_eq!(up2b::util::parse_u32("99999999999"), None);
}

#[test]
fn u64_to_string_formats() {
    assert_eq!(up2b::util::u64_to_string(0), "0");
    assert_eq!(up2b::util::u64_to_string(105), "105");
}
