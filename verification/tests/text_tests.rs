use outbound::encoding::{decode_content, decoded, encode_content, DecodeFailure};
use outbound::records::{
    character_path, copied_file_name, download_refused, image_extension, preview_file_name,
    with_forward_slashes, CacheImageResponse, SaveCharacterImageResponse, UpdateCheckResponse,
};
use outbound::text::{decimal_string, equals_folded, has_prefix, same_text, trimmed_end};

#[test]
fn decimal_numerals() {
    assert_eq!(decimal_string(0), "0");
    assert_eq!(decimal_string(7), "7");
    assert_eq!(decimal_string(10), "10");
    assert_eq!(decimal_string(1024), "1024");
    assert_eq!(decimal_string(65535), "65535");
    assert_eq!(decimal_string(u64::MAX), "18446744073709551615");
}

#[test]
fn folding_is_ascii_only() {
    assert!(equals_folded("X-Use-Multipart", "x-use-multipart"));
    assert!(equals_folded("abc", "abc"));
    assert!(!equals_folded("abc", "ABC"));
    assert!(!equals_folded("abcd", "abc"));
    assert!(!equals_folded("É", "é"));
    assert!(equals_folded("", ""));
}

#[test]
fn prefixes() {
    assert!(has_prefix("https://x", "https://"));
    assert!(has_prefix("abc", ""));
    assert!(has_prefix("abc", "abc"));
    assert!(!has_prefix("ab", "abc"));
    assert!(!has_prefix("xbc", "abc"));
    assert!(has_prefix("日本語", "日本"));
}

#[test]
fn same_text_compares_characters() {
    assert!(same_text("json", "json"));
    assert!(!same_text("json", "jso"));
    assert!(!same_text("json", "jsoN"));
    assert!(same_text("", ""));
}

#[test]
fn trailing_white_space_is_cut() {
    assert_eq!(trimmed_end("a b \n\t"), "a b");
    assert_eq!(trimmed_end("  a"), "  a");
    assert_eq!(trimmed_end(" \u{85}\u{a0}\u{2003}"), "");
    assert_eq!(trimmed_end(""), "");
    assert_eq!(trimmed_end("x\u{200b}"), "x\u{200b}");
    assert_eq!(trimmed_end("x\u{1680}\u{2028}\u{2029}\u{202f}\u{205f}\u{3000}\u{b}\u{c}"), "x");
}

#[test]
fn base64_encoding_is_standard_and_padded() {
    assert_eq!(encode_content(b"hello"), "aGVsbG8=");
    assert_eq!(encode_content(b""), "");
    assert_eq!(encode_content(&[0xfb, 0xff]), "+/8=");
}

#[test]
fn base64_decoding() {
    assert_eq!(decode_content("aGVsbG8=").unwrap(), b"hello".to_vec());
    assert_eq!(decode_content("").unwrap(), Vec::<u8>::new());
    match decode_content("a*b=") {
        Err(failure) => {
            assert_eq!(failure.reason, "Invalid symbol 42, offset 1.");
            assert_eq!(failure.message(), "base64 解码失败: Invalid symbol 42, offset 1.");
        },
        Ok(bytes) => panic!("expected a failure, got {:?}", bytes),
    }
    assert!(decode_content("aGVsbG8").is_err());
}

#[test]
fn decoder_outcome_is_handed_on() {
    assert_eq!(decoded(Ok(vec![1, 2])).unwrap(), vec![1, 2]);
    match decoded(Err("bad".to_string())) {
        Err(DecodeFailure { reason }) => assert_eq!(reason, "bad"),
        Ok(bytes) => panic!("expected a failure, got {:?}", bytes),
    }
}

#[test]
fn image_extensions() {
    assert_eq!(image_extension("image/png"), "png");
    assert_eq!(image_extension("image/jpeg"), "jpg");
    assert_eq!(image_extension("image/jpg"), "jpg");
    assert_eq!(image_extension("image/webp"), "webp");
    assert_eq!(image_extension("image/gif"), "png");
    assert_eq!(image_extension(""), "png");
}

#[test]
fn character_file_names() {
    assert_eq!(preview_file_name("c42", "image/jpeg"), "character_preview_c42.jpg");
    assert_eq!(preview_file_name("c42", "x"), "character_preview_c42.png");
    assert_eq!(copied_file_name(Some("face.png".to_string()), "c42"), "face.png");
    assert_eq!(copied_file_name(None, "c42"), "c42.jpg");
    assert_eq!(character_path("data/characters", "c42", "face.png"), "data/characters/c42/face.png");
    assert_eq!(character_path("characters", "c42", "p.jpg"), "characters/c42/p.jpg");
}

#[test]
fn character_answers() {
    let ok = SaveCharacterImageResponse::saved("characters/a/b.png".to_string());
    assert!(ok.success);
    assert_eq!(ok.path.as_deref(), Some("characters/a/b.png"));
    assert_eq!(ok.error, None);
    let bad = SaveCharacterImageResponse::not_saved("写入文件失败", "disk full");
    assert!(!bad.success);
    assert_eq!(bad.path, None);
    assert_eq!(bad.error.as_deref(), Some("写入文件失败: disk full"));
}

#[test]
fn cache_answers() {
    let ok = CacheImageResponse::cached("/tmp/i.png".to_string());
    assert!(ok.success);
    assert_eq!(ok.local_path.as_deref(), Some("/tmp/i.png"));
    assert_eq!(ok.error, None);
    let bad = CacheImageResponse::refused(404);
    assert!(!bad.success);
    assert_eq!(bad.local_path, None);
    assert_eq!(bad.error.as_deref(), Some("Download failed with status: 404 Not Found"));
    assert_eq!(download_refused(503), "Download failed with status: 503 Service Unavailable");
}

#[test]
fn update_answers() {
    let none = UpdateCheckResponse::up_to_date();
    assert!(!none.should_update);
    assert!(none.manifest.is_none());
    let some = UpdateCheckResponse::available("1.2.3".to_string(), None, None);
    assert!(some.should_update);
    let manifest = some.manifest.unwrap();
    assert_eq!(manifest.version, "1.2.3");
    assert_eq!(manifest.body, "");
    assert_eq!(manifest.date, "unknown");
    let full = UpdateCheckResponse::available("2".to_string(), Some("notes".to_string()), Some("2024-01-01".to_string()));
    let manifest = full.manifest.unwrap();
    assert_eq!(manifest.body, "notes");
    assert_eq!(manifest.date, "2024-01-01");
}

#[test]
fn separators_become_forward_slashes() {
    assert_eq!(with_forward_slashes("C:\\Users\\me\\out"), "C:/Users/me/out");
    assert_eq!(with_forward_slashes("/already/fine"), "/already/fine");
    assert_eq!(with_forward_slashes(""), "");
    assert_eq!(with_forward_slashes("\\\\"), "//");
    assert_eq!(with_forward_slashes("目录\\文件"), "目录/文件");
}

#[test]
fn plugin_files_end_in_js() {
    assert!(outbound::records::is_plugin_file("default-provider.js"));
    assert!(outbound::records::is_plugin_file("a.min.js"));
    assert!(!outbound::records::is_plugin_file("a.JS"));
    assert!(!outbound::records::is_plugin_file("a.json"));
    assert!(!outbound::records::is_plugin_file(".js"));
    assert!(!outbound::records::is_plugin_file("js"));
}

#[test]
fn renaming_keeps_the_extension_once() {
    assert_eq!(outbound::records::renamed_file_name("holiday", "mp4"), "holiday.mp4");
    assert_eq!(outbound::records::renamed_file_name("holiday.mp4", "mp4"), "holiday.mp4");
    assert_eq!(outbound::records::renamed_file_name("holiday.MP4", "mp4"), "holiday.mp4");
    assert_eq!(outbound::records::renamed_file_name("holiday.mp4", "MP4"), "holiday.MP4");
    assert_eq!(outbound::records::renamed_file_name("holiday.mov", "mp4"), "holiday.mov.mp4");
    assert_eq!(outbound::records::renamed_file_name("mp4", "mp4"), "mp4.mp4");
    assert_eq!(outbound::records::renamed_file_name(".mp4", "mp4"), ".mp4");
    assert_eq!(outbound::records::renamed_file_name("", "mp4"), ".mp4");
    assert_eq!(outbound::records::renamed_file_name("假期.mp4", "mp4"), "假期.mp4");
}

#[test]
fn fields_are_found_by_key() {
    let entries = vec![
        ("data".to_string(), Some("d".to_string()), "\"d\"".to_string()),
        ("n".to_string(), None, "1".to_string()),
    ];
    assert_eq!(outbound::json::find_field(&entries, "data"), Some(Some("d".to_string())));
    assert_eq!(outbound::json::find_field(&entries, "n"), Some(None));
    assert_eq!(outbound::json::find_field(&entries, "url"), None);
    assert_eq!(outbound::json::find_field(&entries, "DATA"), None);
    assert_eq!(outbound::json::find_field(&vec![], "data"), None);
    assert_eq!(outbound::json::find_top_field(&Some(entries), "n"), Some(None));
    assert_eq!(outbound::json::find_top_field(&None, "n"), None);
}

#[test]
fn status_codes_are_written_with_their_reason() {
    assert_eq!(outbound::transport::describe_status(200), "200 OK");
    assert_eq!(outbound::transport::describe_status(404), "404 Not Found");
    assert_eq!(outbound::transport::describe_status(599), "599 <unknown status code>");
    assert_eq!(outbound::transport::describe_status(42), "42");
    assert_eq!(outbound::transport::describe_status(1000), "1000");
    assert_eq!(outbound::transport::label_status(7, None), "7");
    assert_eq!(outbound::transport::label_status(7, Some("seven".to_string())), "seven");
}

#[test]
fn success_class_bounds() {
    assert!(outbound::transport::in_success_class(200));
    assert!(outbound::transport::in_success_class(299));
    assert!(!outbound::transport::in_success_class(199));
    assert!(!outbound::transport::in_success_class(300));
    assert!(!outbound::transport::in_success_class(0));
}
