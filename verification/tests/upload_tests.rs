use outbound::upload::{
    file_extension, file_name_or_default, interpret_answer, mime_type_for, next_action,
    plan_upload, prepare_upload, read_answer, replay, resolve_proxy, response_format, FileProbe,
    NextAction, ResponseFormat, SendOutcome, UploadError, UploadOptions, UploadResponse,
    MAX_ATTEMPTS, RETRY_DELAY_SECS,
};

fn text(s: &str) -> Option<String> {
    Some(s.to_string())
}

fn options(format: Option<&str>, proxy: Option<&str>) -> UploadOptions {
    UploadOptions {
        file_path: "/tmp/clip.mp4".to_string(),
        upload_url: "https://host.example/upload".to_string(),
        field_name: "fileToUpload".to_string(),
        response_format: format.map(|f| f.to_string()),
        proxy_url: proxy.map(|p| p.to_string()),
    }
}

fn assert_success(response: &UploadResponse, url: &str) {
    assert!(response.success);
    assert_eq!(response.url.as_deref(), Some(url));
    assert_eq!(response.error, None);
}

fn assert_failure(response: &UploadResponse, error: &str) {
    assert!(!response.success);
    assert_eq!(response.url, None);
    assert_eq!(response.error.as_deref(), Some(error));
}

#[test]
fn retry_budget_is_three_attempts_three_seconds_apart() {
    assert_eq!(MAX_ATTEMPTS, 3);
    assert_eq!(RETRY_DELAY_SECS, 3);
}

#[test]
fn two_transport_failures_then_success() {
    let script = vec![
        SendOutcome::NoResponse("connect refused".to_string()),
        SendOutcome::NoResponse("timed out".to_string()),
        SendOutcome::Response(200, "https://x/y.png".to_string()),
    ];
    let run = replay(&script, ResponseFormat::UrlText);
    assert_eq!(run.sends, 3);
    assert_eq!(run.waits, 2);
    assert_success(&run.response.unwrap(), "https://x/y.png");
}

#[test]
fn json_answer_with_data_field() {
    let response = interpret_answer(ResponseFormat::Json, "{\"data\":\"https://x/z.png\"}");
    assert_success(&response, "https://x/z.png");
}

#[test]
fn json_answer_prefers_url_field() {
    let response = interpret_answer(ResponseFormat::Json, "{\"data\":\"https://x/d\",\"url\":\"https://x/u\"}");
    assert_success(&response, "https://x/u");
}

#[test]
fn json_answer_with_url_that_is_no_string_fails() {
    let body = "{\"url\":5,\"data\":\"https://x/d\"}";
    let response = interpret_answer(ResponseFormat::Json, body);
    assert_failure(&response, "JSON 响应中未找到 URL: {\"url\":5,\"data\":\"https://x/d\"}");
}

#[test]
fn json_answer_without_url_echoes_the_body() {
    let response = interpret_answer(ResponseFormat::Json, "{\"ok\":true}");
    assert_failure(&response, "JSON 响应中未找到 URL: {\"ok\":true}");
}

#[test]
fn json_answer_that_is_no_json_fails() {
    let response = interpret_answer(ResponseFormat::Json, "https://x/y.png");
    assert_failure(&response, "JSON 响应中未找到 URL: https://x/y.png");
}

#[test]
fn status_500_three_times_gives_up() {
    let script = vec![
        SendOutcome::Response(500, "first".to_string()),
        SendOutcome::Response(500, "second".to_string()),
        SendOutcome::Response(500, "third".to_string()),
        SendOutcome::Response(200, "https://never/sent".to_string()),
    ];
    let run = replay(&script, ResponseFormat::UrlText);
    assert_eq!(run.sends, 3);
    assert_eq!(run.waits, 0);
    assert_failure(&run.response.unwrap(), "上传失败 (500 Internal Server Error): third");
}

#[test]
fn client_errors_are_retried_like_server_errors() {
    let script = vec![
        SendOutcome::Response(401, "no".to_string()),
        SendOutcome::Response(200, "http://x/ok".to_string()),
    ];
    let run = replay(&script, ResponseFormat::UrlText);
    assert_eq!(run.sends, 2);
    assert_eq!(run.waits, 0);
    assert_success(&run.response.unwrap(), "http://x/ok");
}

#[test]
fn three_transport_failures_give_up_after_two_waits() {
    let script = vec![
        SendOutcome::NoResponse("a".to_string()),
        SendOutcome::NoResponse("b".to_string()),
        SendOutcome::NoResponse("c".to_string()),
    ];
    let run = replay(&script, ResponseFormat::Json);
    assert_eq!(run.sends, 3);
    assert_eq!(run.waits, 2);
    assert_failure(&run.response.unwrap(), "上传请求失败 (尝试 3/3): c");
}

#[test]
fn unrecognized_body_is_final() {
    let script = vec![
        SendOutcome::Response(200, "quota exceeded".to_string()),
        SendOutcome::Response(200, "https://x/late".to_string()),
    ];
    let run = replay(&script, ResponseFormat::UrlText);
    assert_eq!(run.sends, 1);
    assert_eq!(run.waits, 0);
    assert_failure(&run.response.unwrap(), "quota exceeded");
}

#[test]
fn short_script_leaves_the_upload_open() {
    let script = vec![SendOutcome::NoResponse("a".to_string())];
    let run = replay(&script, ResponseFormat::UrlText);
    assert_eq!(run.sends, 1);
    assert_eq!(run.waits, 1);
    assert!(run.response.is_none());
    let none = replay(&vec![], ResponseFormat::UrlText);
    assert_eq!(none.sends, 0);
    assert_eq!(none.waits, 0);
    assert!(none.response.is_none());
}

#[test]
fn next_action_by_attempt() {
    let lost = SendOutcome::NoResponse("reset".to_string());
    assert!(matches!(next_action(1, &lost, ResponseFormat::UrlText), NextAction::WaitThenSend(3)));
    assert!(matches!(next_action(2, &lost, ResponseFormat::UrlText), NextAction::WaitThenSend(3)));
    match next_action(3, &lost, ResponseFormat::UrlText) {
        NextAction::Finish(response) => assert_failure(&response, "上传请求失败 (尝试 3/3): reset"),
        other => panic!("expected the end, got {:?}", other),
    }
    let busy = SendOutcome::Response(503, "busy".to_string());
    assert!(matches!(next_action(1, &busy, ResponseFormat::Json), NextAction::Send));
    assert!(matches!(next_action(2, &busy, ResponseFormat::Json), NextAction::Send));
    match next_action(3, &busy, ResponseFormat::Json) {
        NextAction::Finish(response) => assert_failure(&response, "上传失败 (503 Service Unavailable): busy"),
        other => panic!("expected the end, got {:?}", other),
    }
}

#[test]
fn success_class_is_200_to_299() {
    let body = "https://x/y".to_string();
    for status in [199u16, 300, 304, 404, 100] {
        let outcome = SendOutcome::Response(status, body.clone());
        assert!(matches!(next_action(1, &outcome, ResponseFormat::UrlText), NextAction::Send));
    }
    for status in [200u16, 201, 204, 299] {
        let outcome = SendOutcome::Response(status, body.clone());
        match next_action(1, &outcome, ResponseFormat::UrlText) {
            NextAction::Finish(response) => assert_success(&response, "https://x/y"),
            other => panic!("expected the end, got {:?}", other),
        }
    }
}

#[test]
fn url_text_must_start_with_a_scheme() {
    assert_success(&interpret_answer(ResponseFormat::UrlText, "http://a/b"), "http://a/b");
    assert_success(&interpret_answer(ResponseFormat::UrlText, "https://a/b"), "https://a/b");
    assert_failure(&interpret_answer(ResponseFormat::UrlText, " https://a/b"), " https://a/b");
    assert_failure(&interpret_answer(ResponseFormat::UrlText, "ftp://a/b"), "ftp://a/b");
    assert_failure(&interpret_answer(ResponseFormat::UrlText, "HTTPS://a/b"), "HTTPS://a/b");
    assert_failure(&interpret_answer(ResponseFormat::UrlText, ""), "");
    assert_failure(&interpret_answer(ResponseFormat::UrlText, "http:/"), "http:/");
}

#[test]
fn url_text_loses_trailing_white_space() {
    assert_success(&interpret_answer(ResponseFormat::UrlText, "https://a/b.png\r\n"), "https://a/b.png");
    assert_success(&interpret_answer(ResponseFormat::UrlText, "https://a/b c \t\u{3000}"), "https://a/b c");
}

#[test]
fn read_answer_takes_the_fields_as_given() {
    assert_success(&read_answer(ResponseFormat::Json, "{}", Some(text("u")), Some(text("d"))), "u");
    assert_success(&read_answer(ResponseFormat::Json, "{}", None, Some(text("d"))), "d");
    assert_failure(&read_answer(ResponseFormat::Json, "{}", Some(None), Some(text("d"))), "JSON 响应中未找到 URL: {}");
    assert_failure(&read_answer(ResponseFormat::Json, "b", None, Some(None)), "JSON 响应中未找到 URL: b");
    assert_failure(&read_answer(ResponseFormat::Json, "b", None, None), "JSON 响应中未找到 URL: b");
    assert_success(&read_answer(ResponseFormat::UrlText, "http://x", Some(text("u")), None), "http://x");
}

#[test]
fn media_types_by_extension() {
    assert_eq!(mime_type_for("a.mp4"), "video/mp4");
    assert_eq!(mime_type_for("a.webm"), "video/webm");
    assert_eq!(mime_type_for("a.mov"), "video/quicktime");
    assert_eq!(mime_type_for("a.avi"), "video/x-msvideo");
    assert_eq!(mime_type_for("a.png"), "image/png");
    assert_eq!(mime_type_for("a.jpg"), "image/jpeg");
    assert_eq!(mime_type_for("a.jpeg"), "image/jpeg");
    assert_eq!(mime_type_for("a.gif"), "image/gif");
    assert_eq!(mime_type_for("a.webp"), "image/webp");
}

#[test]
fn unknown_extensions_are_octet_streams() {
    assert_eq!(mime_type_for("a.txt"), "application/octet-stream");
    assert_eq!(mime_type_for("a.PNG"), "application/octet-stream");
    assert_eq!(mime_type_for("mp4"), "application/octet-stream");
    assert_eq!(mime_type_for(".png"), "application/octet-stream");
    assert_eq!(mime_type_for("a.png."), "application/octet-stream");
    assert_eq!(mime_type_for(""), "application/octet-stream");
    assert_eq!(mime_type_for("archive.tar.gz"), "application/octet-stream");
}

#[test]
fn extension_follows_the_last_dot() {
    assert_eq!(file_extension("a.b.c"), text("c"));
    assert_eq!(file_extension("movie.final.mp4"), text("mp4"));
    assert_eq!(file_extension(".hidden.png"), text("png"));
    assert_eq!(file_extension("a."), text(""));
    assert_eq!(file_extension(".hidden"), None);
    assert_eq!(file_extension("plain"), None);
    assert_eq!(file_extension(""), None);
    assert_eq!(file_extension("视频.mp4"), text("mp4"));
}

#[test]
fn file_name_defaults_to_file_mp4() {
    assert_eq!(file_name_or_default(text("clip.webm")), "clip.webm");
    assert_eq!(file_name_or_default(None), "file.mp4");
}

#[test]
fn format_option_is_read() {
    assert_eq!(response_format(&text("json")), ResponseFormat::Json);
    assert_eq!(response_format(&text("url")), ResponseFormat::UrlText);
    assert_eq!(response_format(&text("JSON")), ResponseFormat::UrlText);
    assert_eq!(response_format(&text("")), ResponseFormat::UrlText);
    assert_eq!(response_format(&None), ResponseFormat::UrlText);
}

#[test]
fn explicit_proxy_comes_first() {
    assert_eq!(resolve_proxy(&text("http://p:1"), &text("http://e:2"), &text("http://s:3")), text("http://p:1"));
    assert_eq!(resolve_proxy(&text(""), &text("http://e:2"), &text("http://s:3")), None);
}

#[test]
fn environment_proxy_first_non_empty_wins() {
    assert_eq!(resolve_proxy(&None, &text("http://e:2"), &text("http://s:3")), text("http://e:2"));
    assert_eq!(resolve_proxy(&None, &text(""), &text("http://s:3")), text("http://s:3"));
    assert_eq!(resolve_proxy(&None, &None, &text("http://s:3")), text("http://s:3"));
    assert_eq!(resolve_proxy(&None, &text(""), &text("")), None);
    assert_eq!(resolve_proxy(&None, &None, &None), None);
}

#[test]
fn unreadable_file_is_a_hard_error() {
    let result = prepare_upload(&options(None, Some("http://[bad")), FileProbe::Unreadable("No such file".to_string()), None, &None, &None);
    match result {
        Err(error) => {
            assert!(matches!(error, UploadError::Unreadable(_)));
            assert_eq!(error.message(), "无法读取文件: No such file");
        },
        Ok(plan) => panic!("expected an error, got {:?}", plan),
    }
}

#[test]
fn directory_is_a_hard_error() {
    let result = prepare_upload(&options(None, None), FileProbe::NotRegular, text("dir"), &None, &None);
    match result {
        Err(error) => {
            assert!(matches!(error, UploadError::NotRegular));
            assert_eq!(error.message(), "指定的路径不是文件");
        },
        Ok(plan) => panic!("expected an error, got {:?}", plan),
    }
}

#[test]
fn malformed_proxy_is_a_hard_error() {
    let result = prepare_upload(&options(None, Some("http://[bad")), FileProbe::Regular, text("clip.mp4"), &None, &None);
    match result {
        Err(UploadError::BadProxy(why)) => {
            assert!(!why.is_empty());
            assert_eq!(UploadError::BadProxy(why.clone()).message(), format!("代理配置失败: {}", why));
        },
        other => panic!("expected a refused proxy, got {:?}", other),
    }
}

#[test]
fn plan_holds_what_each_attempt_sends() {
    let plan = prepare_upload(&options(Some("json"), None), FileProbe::Regular, text("shot.jpeg"), &text(""), &text("http://127.0.0.1:7890")).unwrap();
    assert_eq!(plan.upload_url, "https://host.example/upload");
    assert_eq!(plan.field_name, "fileToUpload");
    assert_eq!(plan.file_name, "shot.jpeg");
    assert_eq!(plan.mime_type, "image/jpeg");
    assert_eq!(plan.companion_name, "reqtype");
    assert_eq!(plan.companion_value, "fileupload");
    assert_eq!(plan.proxy, text("http://127.0.0.1:7890"));
    assert_eq!(plan.format, ResponseFormat::Json);
}

#[test]
fn plan_without_a_file_name() {
    let plan = prepare_upload(&options(None, Some("")), FileProbe::Regular, None, &text("http://e:1"), &None).unwrap();
    assert_eq!(plan.file_name, "file.mp4");
    assert_eq!(plan.mime_type, "video/mp4");
    assert_eq!(plan.proxy, None);
    assert_eq!(plan.format, ResponseFormat::UrlText);
}

#[test]
fn rejection_counts_only_with_a_proxy() {
    let plan = plan_upload(&options(None, None), FileProbe::Regular, text("a.gif"), None, text("ignored"));
    assert_eq!(plan.unwrap().mime_type, "image/gif");
    let refused = plan_upload(&options(None, None), FileProbe::Regular, text("a.gif"), text("p"), text("bad"));
    assert!(matches!(refused, Err(UploadError::BadProxy(_))));
}

#[test]
fn answers_hold_one_of_url_and_error() {
    let ok = UploadResponse::with_url("https://x".to_string());
    assert_success(&ok, "https://x");
    let bad = UploadResponse::with_error("why".to_string());
    assert_failure(&bad, "why");
}

#[test]
fn refused_media_type_is_described_by_its_reason() {
    assert_eq!(UploadError::BadMime("invalid".to_string()).message(), "invalid");
}
