use grok_build::locale::{english, parse_catalog, Catalog, Catalogs};
use grok_build::mode_support::{ModeSupport, Remedy, ScreenMode};
use grok_build::models::{list_available_models, print_auth_status, AuthStatus};
use grok_build::number::integral_value;
use grok_build::release::{declare_release, release_declaration};
use grok_build::share::{run, ShareArgs};
use grok_build::tally::{comes_before, tally_of};
use grok_build::text::{
    ascii_lower_text, byte_length, decimal_text, join_text, left_align, right_align, scrub_text,
    signed_decimal_text, trim_text,
};

fn empty_catalog() -> Catalog {
    parse_catalog("sample", "{}").unwrap()
}

fn catalogs() -> Catalogs {
    Catalogs {
        en_us: empty_catalog(),
        zh_cn: empty_catalog(),
        zh_cn_metadata: empty_catalog(),
        en_to_zh: empty_catalog(),
    }
}

#[test]
fn authentication_is_named() {
    let catalogs = catalogs();
    let ctx = english(&catalogs);
    assert_eq!(print_auth_status(ctx, &AuthStatus::ApiKey), "You are using XAI_API_KEY.\n\n");
    assert_eq!(
        print_auth_status(ctx, &AuthStatus::LoggedIn("grok.com".to_string())),
        "You are logged in with grok.com.\n\n"
    );
    assert_eq!(
        print_auth_status(ctx, &AuthStatus::ModelCredentials("m".to_string())),
        "Model 'm' is using its own API key.\n\n"
    );
    assert_eq!(
        print_auth_status(ctx, &AuthStatus::DeploymentKey),
        "You are authenticated via deployment key.\n\n"
    );
    assert_eq!(
        print_auth_status(ctx, &AuthStatus::NotAuthenticated),
        "You are not authenticated.\n\n"
    );
}

#[test]
fn the_default_model_is_marked() {
    let catalogs = catalogs();
    let models = vec!["grok-4".to_string(), "grok-code".to_string()];
    assert_eq!(
        list_available_models(english(&catalogs), "grok-code", &models),
        "Default model: grok-code\n\nAvailable models:\n  - grok-4\n  * grok-code (default)\n"
    );
}

#[test]
fn sharing_is_refused() {
    let catalogs = catalogs();
    let args = ShareArgs { session_id: "s".to_string() };
    assert_eq!(
        run(english(&catalogs), &args),
        Err("Session sharing is temporarily disabled".to_string())
    );
}

#[test]
fn commands_are_refused_where_they_do_not_work() {
    let catalogs = catalogs();
    let ctx = english(&catalogs);
    let switch = ModeSupport::FullscreenOnly(Remedy::SwitchMode { why: "minimal is single-session" });
    assert!(switch.supports(ScreenMode::Fullscreen));
    assert_eq!(switch.refusal(ctx, "tasks", ScreenMode::Fullscreen), None);
    assert_eq!(
        switch.refusal(ctx, "tasks", ScreenMode::Minimal).as_deref(),
        Some("/tasks isn't available in minimal mode (minimal is single-session). Run /fullscreen to switch this session.")
    );
    let instead = ModeSupport::MinimalOnly(Remedy::UseInstead("press Tab"));
    assert_eq!(
        instead.refusal(ctx, "x", ScreenMode::Fullscreen).as_deref(),
        Some("/x isn't available in fullscreen mode: press Tab.")
    );
    assert!(instead.supports(ScreenMode::Minimal));
    let already = ModeSupport::FullscreenOnly(Remedy::AlreadyInMode);
    assert_eq!(
        already.refusal(ctx, "minimal", ScreenMode::Minimal).as_deref(),
        Some("You're already in minimal mode.")
    );
    assert_eq!(ModeSupport::Both.refusal(ctx, "x", ScreenMode::Minimal), None);
}

#[test]
fn a_release_is_declared() {
    assert_eq!(
        release_declaration(Some("v1.2-\"x\"")),
        "pub const RELEASE: Option<&str> = Some(\"v1.2-\\\"x\\\"\");"
    );
    assert_eq!(release_declaration(Some("")), "pub const RELEASE: Option<&str> = None;");
    assert_eq!(release_declaration(None), "pub const RELEASE: Option<&str> = None;");
    assert_eq!(declare_release(Some("\"a\"")), "pub const RELEASE: Option<&str> = Some(\"a\");");
}

#[test]
fn labels_are_tallied_in_order() {
    let labels: Vec<String> =
        ["pool", "ab", "会话", "pool", "a", "ab", "pool"].iter().map(|s| s.to_string()).collect();
    let tally = tally_of(&labels);
    let shown: Vec<(&str, usize)> = tally.iter().map(|e| (e.0.as_str(), e.1)).collect();
    assert_eq!(shown, vec![("a", 1), ("ab", 2), ("pool", 3), ("会话", 1)]);
    for (left, right) in [("a", "b"), ("", "a"), ("a", "ab"), ("z", "é"), ("a", "a")] {
        assert_eq!(comes_before(left, right), left < right);
        assert_eq!(comes_before(right, left), right < left);
    }
}

#[test]
fn whole_floats_are_integers() {
    for (float, whole) in [
        (0.0f64, Some(0)),
        (-0.0, Some(0)),
        (1.0, Some(1)),
        (-3.0, Some(-3)),
        (0.5, None),
        (1e15, Some(1_000_000_000_000_000)),
        (9_007_199_254_740_992.0, Some(9_007_199_254_740_992)),
        (-9_007_199_254_740_992.0, Some(-9_007_199_254_740_992)),
        (9_007_199_254_740_994.0, None),
        (1e-300, None),
        (f64::INFINITY, None),
        (f64::NAN, None),
    ] {
        assert_eq!(integral_value(float.to_bits()), whole, "{float}");
    }
}

#[test]
fn text_building_blocks() {
    assert_eq!(decimal_text(0), "0");
    assert_eq!(decimal_text(u128::MAX), u128::MAX.to_string());
    assert_eq!(signed_decimal_text(i64::MIN), i64::MIN.to_string());
    assert_eq!(signed_decimal_text(-7), "-7");
    assert_eq!(left_align("é", 3), format!("{:<3}", "é"));
    assert_eq!(right_align("é", 3), format!("{:>3}", "é"));
    assert_eq!(right_align("abcd", 3), "abcd");
    assert_eq!(join_text(&vec![], ", "), "");
    assert_eq!(join_text(&vec!["a".to_string(), "b".to_string()], ", "), "a, b");
    assert_eq!(trim_text("\u{a0} x y\u{3000}\n"), "x y");
    assert_eq!(ascii_lower_text("ÀZé"), "Àzé");
    assert_eq!(byte_length("aé日🙂"), 10);
    assert_eq!(scrub_text("a\tb\u{7f}\u{9f}é"), "a b  é");
}
