use grok_build::locale::{parse_catalog, Catalog, Catalogs, LocaleContext, UiLocale};
use grok_build::text::contains_text;
use grok_build::version_mismatch::{is_version_mismatch_banner, version_mismatch_banner};

const VERSION_MISMATCH_MARKER_ZH: &str = "版本不一致：";

fn catalog(source: &str) -> Catalog {
    parse_catalog("sample", source).unwrap()
}

fn catalogs() -> Catalogs {
    Catalogs {
        en_us: catalog("{}"),
        zh_cn: catalog("{}"),
        zh_cn_metadata: catalog(
            r#"{"acp.version_mismatch":
                "⚠ 版本不一致：客户端 {client_version}，主进程 {leader_version}。请重启 grok"}"#,
        ),
        en_to_zh: catalog("{}"),
    }
}

fn banner(params: &str) -> Option<String> {
    let catalogs = catalogs();
    version_mismatch_banner(LocaleContext::new(UiLocale::EnUs, &catalogs), params)
}

fn expected_banner(client: &str, leader: &str) -> String {
    format!("⚠ Version mismatch: client {client}, leader {leader}. Restart grok to match")
}

#[test]
fn formats_both_versions_and_ignores_wire_message() {
    assert_eq!(
        banner(r#"{"clientVersion":"0.1.157","leaderVersion":"0.1.150","message":"ignore me"}"#),
        Some(expected_banner("0.1.157", "0.1.150"))
    );
}

#[test]
fn formats_without_message_field() {
    assert_eq!(
        banner(r#"{"clientVersion":"0.2.1","leaderVersion":"0.2.0"}"#),
        Some(expected_banner("0.2.1", "0.2.0"))
    );
}

#[test]
fn rejects_unusable_payloads() {
    for params in [
        "{}",
        r#"{"message":"only a message\nwith\nnewlines"}"#,
        r#"{"clientVersion":"0.1.157"}"#,
        r#"{"leaderVersion":"0.1.150"}"#,
        r#"{"clientVersion":"","leaderVersion":"0.1.150"}"#,
        r#"{"clientVersion":"0.1.157","leaderVersion":""}"#,
        r#"{"clientVersion":"\n\t","leaderVersion":"0.1.150"}"#,
        r#"{"clientVersion":"   ","leaderVersion":"0.1.150"}"#,
        r#"{"clientVersion":"0.1.157","leaderVersion":"\n\t"}"#,
        r#"{"clientVersion":1,"leaderVersion":"0.1.150"}"#,
        r#""not-an-object""#,
        "null",
        "",
        "[]",
    ] {
        assert_eq!(banner(params), None, "{params}");
    }
}

#[test]
fn scrubs_control_chars_in_versions() {
    let text = banner(r#"{"clientVersion":"0.1.157\n\u0007x","leaderVersion":"0.1.150\r\n"}"#)
        .expect("toastable after scrub");
    assert_eq!(text, expected_banner("0.1.157  x", "0.1.150  "));
    assert!(
        !text.chars().any(char::is_control),
        "control chars must not reach toast: {text:?}"
    );
}

#[test]
fn full_banner_matches_sanitize_toast_message() {
    let text =
        banner(r#"{"clientVersion":"0.1.157","leaderVersion":"0.1.150"}"#).expect("banner");
    assert_eq!(text, expected_banner("0.1.157", "0.1.150"));
    assert!(
        is_version_mismatch_banner(&text, VERSION_MISMATCH_MARKER_ZH),
        "marker must survive glyph fallback: {text:?}"
    );
    assert!(is_version_mismatch_banner(
        "! Version mismatch: client x, leader y",
        VERSION_MISMATCH_MARKER_ZH
    ));
}

#[test]
fn chinese_catalog_keeps_the_detection_marker() {
    let catalogs = catalogs();
    let ctx = LocaleContext::new(UiLocale::ZhCn, &catalogs);
    let banner = ctx.named_text(
        "acp.version_mismatch",
        "⚠ Version mismatch: client {client_version}, leader {leader_version}. Restart grok to match",
    );
    assert!(
        banner.contains(VERSION_MISMATCH_MARKER_ZH),
        "zh-CN banner must keep {VERSION_MISMATCH_MARKER_ZH:?} or it stops being detectable: {banner:?}"
    );
}

#[test]
fn detects_the_localized_banner() {
    let localized = format!("⚠ {VERSION_MISMATCH_MARKER_ZH} client 0.1.157, leader 0.1.150");
    assert!(
        is_version_mismatch_banner(&localized, VERSION_MISMATCH_MARKER_ZH),
        "localized banner must still be detected after glyph sanitization: {localized:?}"
    );
}

#[test]
fn the_translated_banner_is_detected() {
    let catalogs = catalogs();
    let ctx = LocaleContext::new(UiLocale::ZhCn, &catalogs);
    let text =
        version_mismatch_banner(ctx, r#"{"clientVersion":"1","leaderVersion":"2"}"#).unwrap();
    assert_eq!(text, "⚠ 版本不一致：客户端 1，主进程 2。请重启 grok");
    assert!(is_version_mismatch_banner(&text, VERSION_MISMATCH_MARKER_ZH));
    assert!(!is_version_mismatch_banner("all good", VERSION_MISMATCH_MARKER_ZH));
}

#[test]
fn parts_are_found_anywhere() {
    assert!(contains_text("abc", "abc"));
    assert!(contains_text("abc", "bc"));
    assert!(contains_text("abc", ""));
    assert!(!contains_text("abc", "abcd"));
    assert!(!contains_text("abc", "ac"));
}
