use std::collections::BTreeSet;

use grok_build::locale::{
    catalogs_are_sound, ctx, english, expand, init, init_locale_from_config, parse_catalog,
    placeholders, same_placeholders, Catalog, Catalogs, ContextSlot, LocaleContext, UiLocale,
};

const EN_US: &str = r#"{
    "context.tokens": "tokens",
    "welcome.login_with": "Sign in with {provider}",
    "greeting": "Hello {name}, {count} new"
}"#;

const ZH_CN: &str = r#"{
    "context.tokens": "Token",
    "welcome.login_with": "使用 {provider} 登录",
    "greeting": "{count} 条新消息，{name}"
}"#;

const ZH_CN_METADATA: &str = r#"{
    "settings.setting.compact_mode.label": "紧凑模式",
    "settings.setting.compact_mode.description": "减少留白",
    "settings.setting.permission_mode.choice.always-approve.label": "始终批准",
    "settings.setting.permission_mode.choice.always-approve.description": "不再询问",
    "turn.watcher.plural": "",
    "shortcut.clear_search": "清除搜索",
    "shortcut.switch_tab": "切换标签页"
}"#;

const EN_TO_ZH: &str = r#"{
    "(no matches)": "（无匹配项）",
    "({count} matches)": "（{count} 个匹配项）",
    "Build anything": "告诉我你想做些什么…"
}"#;

const INTENTIONALLY_BLANK_METADATA_IDS: &[&str] = &["turn.watcher.plural"];

fn catalog(name: &str, source: &str) -> Catalog {
    parse_catalog(name, source).unwrap()
}

fn catalogs() -> Catalogs {
    Catalogs {
        en_us: catalog("en-US", EN_US),
        zh_cn: catalog("zh-CN", ZH_CN),
        zh_cn_metadata: catalog("zh-CN-metadata", ZH_CN_METADATA),
        en_to_zh: catalog("en-to-zh", EN_TO_ZH),
    }
}

fn keys(catalog: &Catalog) -> BTreeSet<String> {
    catalog.entries().iter().map(|entry| entry.0.clone()).collect()
}

#[test]
fn canonicalizes_supported_bcp47_and_posix_forms() {
    assert_eq!(UiLocale::parse("en_US.UTF-8"), Some(UiLocale::EnUs));
    assert_eq!(UiLocale::parse("zh-Hans-CN"), Some(UiLocale::ZhCn));
    assert_eq!(UiLocale::parse("ZH_cn"), Some(UiLocale::ZhCn));
    assert_eq!(UiLocale::parse("fr-FR"), None);
}

#[test]
fn a_configured_value_resolves_or_falls_back_to_english() {
    let catalogs = catalogs();
    let resolve =
        |raw: &str| LocaleContext::new(UiLocale::parse(raw).unwrap_or_default(), &catalogs);
    assert_eq!(resolve("zh-CN").locale(), UiLocale::ZhCn);
    assert_eq!(resolve("zh_CN.UTF-8").locale(), UiLocale::ZhCn);
    for rejected in ["", " ", "fr-FR", "unsupported"] {
        assert_eq!(
            resolve(rejected).locale(),
            UiLocale::EnUs,
            "{rejected:?} must not select a locale"
        );
        assert_eq!(UiLocale::from_configured(Some(rejected)), UiLocale::EnUs);
    }
    assert_eq!(UiLocale::from_configured(Some("  zh-CN ")), UiLocale::ZhCn);
    assert_eq!(UiLocale::from_configured(None), UiLocale::EnUs);
}

#[test]
fn global_context_falls_back_to_english_catalog_until_initialized() {
    let catalogs = catalogs();
    let slot = ContextSlot::new(&catalogs);
    assert_eq!(ctx(&slot).locale(), UiLocale::EnUs);
    assert_eq!(ctx(&slot).named_text("ctx.fallback.probe", "fallback"), "fallback");
}

#[test]
fn english_context_ignores_the_ui_locale() {
    let catalogs = catalogs();
    assert_eq!(english(&catalogs).locale(), UiLocale::EnUs);
    assert_eq!(english(&catalogs).tr("(no matches)"), "(no matches)");
    assert_eq!(english(&catalogs).named_text("context.tokens", "tokens"), "tokens");
    assert_eq!(
        english(&catalogs).tr_format("({count} matches)", &[("count", "3")]),
        "(3 matches)"
    );
}

#[test]
fn catalogs_have_matching_keys_and_placeholders() {
    let catalogs = catalogs();
    let english = keys(&catalogs.en_us);
    let chinese = keys(&catalogs.zh_cn);
    assert_eq!(english, chinese, "locale catalog key drift");
    for id in english {
        let of_english: BTreeSet<String> =
            placeholders(catalogs.en_us.get(&id).unwrap()).into_iter().collect();
        let of_chinese: BTreeSet<String> =
            placeholders(catalogs.zh_cn.get(&id).unwrap()).into_iter().collect();
        assert_eq!(of_english, of_chinese, "placeholder drift for {}", id);
    }
}

#[test]
fn zh_cn_and_metadata_key_sets_are_disjoint() {
    let catalogs = catalogs();
    let shared: Vec<String> = keys(&catalogs.zh_cn)
        .into_iter()
        .filter(|id| catalogs.zh_cn_metadata.get(id).is_some())
        .collect();
    assert!(shared.is_empty(), "ids present in both catalogs: {shared:?}");
}

#[test]
fn structured_setting_lookup_localizes_display_text_without_touching_identity() {
    let catalogs = catalogs();
    let context = LocaleContext::new(UiLocale::ZhCn, &catalogs);
    assert_eq!(context.setting_label("compact_mode", "Compact mode"), "紧凑模式");
    assert_eq!(
        context.setting_choice_label("permission_mode", "always-approve", "Always approve"),
        "始终批准"
    );
    assert_eq!(
        context.setting_choice_label("default_model", "grok-4.5", "grok-4.5"),
        "grok-4.5"
    );
    assert_eq!(context.named_text("context.tokens", "tokens"), "Token");
    assert_eq!(
        context.named_text("mode.always_approve.label", "always-approve"),
        "always-approve"
    );
}

#[test]
fn structured_metadata_ids_are_non_empty_and_blank_only_by_design() {
    let catalogs = catalogs();
    assert!(!catalogs.zh_cn_metadata.entries().is_empty());
    for (id, value) in catalogs.zh_cn_metadata.entries().iter() {
        assert!(!id.trim().is_empty(), "blank metadata id");
        if INTENTIONALLY_BLANK_METADATA_IDS.contains(&id.as_str()) {
            assert!(
                value.is_empty(),
                "{id} suppresses an English plural suffix and must stay blank"
            );
            continue;
        }
        assert!(!value.trim().is_empty(), "blank metadata value for {id}");
    }
}

#[test]
fn expansion_does_not_rescan_substituted_values() {
    let catalogs = catalogs();
    let context = english(&catalogs);
    assert_eq!(
        context.tr_format("{label}: {value}", &[("label", "x {value} y"), ("value", "on")]),
        "x {value} y: on"
    );
}

#[test]
fn formatting_preserves_opaque_dynamic_values() {
    let catalogs = catalogs();
    let context = LocaleContext::new(UiLocale::ZhCn, &catalogs);
    assert_eq!(
        context.format_named(
            "welcome.login_with",
            "Sign in with {provider}",
            &[("provider", "grok.com")],
        ),
        "使用 grok.com 登录"
    );
}

#[test]
fn english_keyed_lookup_falls_back_without_an_id() {
    let catalogs = catalogs();
    let zh = LocaleContext::new(UiLocale::ZhCn, &catalogs);
    assert_eq!(zh.tr("(no matches)"), "（无匹配项）");
    assert_eq!(zh.tr_format("({count} matches)", &[("count", "3")]), "（3 个匹配项）");
    assert_eq!(zh.tr("untranslated sentence"), "untranslated sentence");
    assert_eq!(english(&catalogs).tr("(no matches)"), "(no matches)");
}

#[test]
fn english_fallback_survives_an_unknown_id_verbatim() {
    let catalogs = catalogs();
    let context = english(&catalogs);
    assert_eq!(context.named_static_text("no.such.id", "Fallback copy"), "Fallback copy");
    assert_eq!(
        context.format_named("no.such.id", "No agents in state `{}`", &[("state", "paused")]),
        "No agents in state `{}`"
    );
}

#[test]
fn chinese_composer_and_shortcut_labels_are_catalog_backed() {
    let catalogs = catalogs();
    let context = LocaleContext::new(UiLocale::ZhCn, &catalogs);
    assert_eq!(context.tr("Build anything"), "告诉我你想做些什么…");
    assert_eq!(context.named_text("shortcut.clear_search", "clear search"), "清除搜索");
    assert_eq!(context.named_text("shortcut.switch_tab", "switch tab"), "切换标签页");
}

#[test]
fn a_catalog_that_is_no_string_map_is_refused() {
    assert!(parse_catalog("broken", "{").unwrap_err().contains("broken"));
    assert!(parse_catalog("nested", r#"{"a": {"b": "c"}}"#).is_err());
    assert!(parse_catalog("list", "[]").is_err());
}

#[test]
fn a_repeated_key_keeps_one_value() {
    let catalog = catalog("repeated", r#"{"a": "first", "a": "second"}"#);
    assert_eq!(catalog.entries().len(), 1);
    assert_eq!(catalog.get("a"), Some("second"));
    assert_eq!(catalog.get("b"), None);
}

#[test]
fn the_first_publication_wins() {
    let catalogs = catalogs();
    let mut slot = ContextSlot::new(&catalogs);
    assert!(init(&mut slot, LocaleContext::new(UiLocale::ZhCn, &catalogs)));
    assert!(!init(&mut slot, LocaleContext::new(UiLocale::EnUs, &catalogs)));
    assert!(!init_locale_from_config(&mut slot, Some("en")));
    assert_eq!(ctx(&slot).locale(), UiLocale::ZhCn);
}

#[test]
fn the_configured_locale_is_published() {
    let catalogs = catalogs();
    let mut chinese = ContextSlot::new(&catalogs);
    assert!(init_locale_from_config(&mut chinese, Some(" zh_CN ")));
    assert!(ctx(&chinese).is_zh_cn());
    let mut fallback = ContextSlot::new(&catalogs);
    assert!(init_locale_from_config(&mut fallback, Some("fr")));
    assert!(!ctx(&fallback).is_zh_cn());
}

#[test]
fn descriptions_and_choice_descriptions_are_looked_up() {
    let catalogs = catalogs();
    let context = LocaleContext::new(UiLocale::ZhCn, &catalogs);
    assert_eq!(context.setting_description("compact_mode", "Less space"), "减少留白");
    assert_eq!(
        context.setting_choice_description("permission_mode", "always-approve", "Never ask"),
        "不再询问"
    );
    assert_eq!(english(&catalogs).setting_description("compact_mode", "Less space"), "Less space");
}

#[test]
fn a_blank_entry_is_an_entry() {
    let catalogs = catalogs();
    let context = LocaleContext::new(UiLocale::ZhCn, &catalogs);
    assert_eq!(context.named_text("turn.watcher.plural", "s"), "");
}

#[test]
fn missing_and_unknown_arguments() {
    let catalogs = catalogs();
    let context = english(&catalogs);
    assert_eq!(
        context.format_named("greeting", "", &[("name", "Ada"), ("unused", "x")]),
        "Hello Ada, {count} new"
    );
    assert_eq!(context.tr_format("open {brace", &[("brace", "x")]), "open {brace");
    assert_eq!(context.tr_format("a} {x} b", &[("x", "1")]), "a} 1 b");
}

#[test]
fn placeholders_are_names_in_braces() {
    let names: BTreeSet<String> =
        placeholders("{a} {b_1} {} {not a name} {a} {open").into_iter().collect();
    let expected: BTreeSet<String> = ["a", "b_1"].into_iter().map(String::from).collect();
    assert_eq!(names, expected);
}

#[test]
fn expansion_goes_name_by_name() {
    let arguments = [("a", "{b}"), ("b", "2"), ("a", "later")];
    assert_eq!(expand("x{a}y{c}z{b}", &arguments), "x{b}y{c}z2");
    assert_eq!(expand("no brace } here", &arguments), "no brace } here");
    assert_eq!(expand("} {a", &arguments), "} {a");
    assert_eq!(expand("{a{b}", &arguments), "{a{b}");
}

#[test]
fn sound_catalogs_fit_together() {
    assert!(catalogs_are_sound(&catalogs()));

    let mut drifted = catalogs();
    drifted.zh_cn = catalog("zh-CN", r#"{"context.tokens": "Token"}"#);
    assert!(!catalogs_are_sound(&drifted));

    let mut extra = catalogs();
    extra.en_us = catalog("en-US", r#"{"greeting": "Hello {name}, {count} new"}"#);
    assert!(!catalogs_are_sound(&extra));

    let mut renamed = catalogs();
    renamed.zh_cn = catalog(
        "zh-CN",
        r#"{"context.tokens": "Token", "welcome.login_with": "使用 {host} 登录",
            "greeting": "{count} {name}"}"#,
    );
    assert!(!catalogs_are_sound(&renamed));

    for metadata in [
        "{}",
        r#"{"context.tokens": "x"}"#,
        r#"{" ": "x"}"#,
        r#"{"a": " \t"}"#,
        r#"{"turn.watcher.plural": "s"}"#,
    ] {
        let mut unusable = catalogs();
        unusable.zh_cn_metadata = catalog("zh-CN-metadata", metadata);
        assert!(!catalogs_are_sound(&unusable), "{metadata}");
    }
}

#[test]
fn placeholders_are_compared_as_sets() {
    assert!(same_placeholders("{a} {b} {a}", "{b}{a}"));
    assert!(same_placeholders("none", "{} {not a name}"));
    assert!(!same_placeholders("{a}", "{a} {b}"));
    assert!(!same_placeholders("{a} {b}", "{a}"));
}
