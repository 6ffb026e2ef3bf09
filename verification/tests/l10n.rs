use taled_editor::locale::{
    AppLanguagePreference, SupportedLanguage, detect_device_locale_tag, language_from_locale_parts,
    locale_tag_or_default, negotiate_device_language, normalize_locale_tag, resolve_language,
};

#[test]
fn auto_language_prefers_simplified_chinese_for_zh_locales() {
    assert_eq!(
        resolve_language(AppLanguagePreference::Auto, "zh_CN"),
        SupportedLanguage::SimplifiedChinese
    );
    assert_eq!(
        resolve_language(AppLanguagePreference::Auto, "zh-Hans"),
        SupportedLanguage::SimplifiedChinese
    );
}

#[test]
fn auto_language_falls_back_to_english() {
    assert_eq!(
        resolve_language(AppLanguagePreference::Auto, "fr-FR"),
        SupportedLanguage::English
    );
}

#[test]
fn manual_language_overrides_device_locale() {
    assert_eq!(
        resolve_language(AppLanguagePreference::English, "zh-CN"),
        SupportedLanguage::English
    );
    assert_eq!(
        resolve_language(AppLanguagePreference::SimplifiedChinese, "en-US"),
        SupportedLanguage::SimplifiedChinese
    );
}

#[test]
fn underscores_become_hyphens() {
    assert_eq!(normalize_locale_tag("zh_Hant_TW"), "zh-Hant-TW");
    assert_eq!(normalize_locale_tag("en-US"), "en-US");
    assert_eq!(normalize_locale_tag(""), "");
}

#[test]
fn parsed_zh_subtag_picks_chinese() {
    assert_eq!(
        language_from_locale_parts(Some("zh".to_string()), "zh-CN"),
        SupportedLanguage::SimplifiedChinese
    );
    assert_eq!(
        language_from_locale_parts(Some("en".to_string()), "en-US"),
        SupportedLanguage::English
    );
    // An unparsable tag still counts when it starts with "zh" in any case.
    assert_eq!(
        language_from_locale_parts(None, "ZH-??"),
        SupportedLanguage::SimplifiedChinese
    );
    assert_eq!(language_from_locale_parts(None, "z"), SupportedLanguage::English);
}

#[test]
fn negotiation_reads_the_language_subtag() {
    assert_eq!(negotiate_device_language("ZH_cn"), SupportedLanguage::SimplifiedChinese);
    assert_eq!(negotiate_device_language("de-DE"), SupportedLanguage::English);
    assert_eq!(negotiate_device_language(""), SupportedLanguage::English);
    assert_eq!(negotiate_device_language("zh"), SupportedLanguage::SimplifiedChinese);
}

#[test]
fn missing_or_blank_locale_falls_back_to_en_us() {
    assert_eq!(locale_tag_or_default(None), "en-US");
    assert_eq!(locale_tag_or_default(Some("  \t".to_string())), "en-US");
    assert_eq!(locale_tag_or_default(Some("".to_string())), "en-US");
    assert_eq!(locale_tag_or_default(Some("fr-FR".to_string())), "fr-FR");
}

#[test]
fn detected_locale_is_never_blank() {
    let tag = detect_device_locale_tag();
    assert!(!tag.trim().is_empty());
}

#[test]
fn underscore_and_hyphen_tags_negotiate_alike() {
    for (a, b) in [("zh_CN", "zh-CN"), ("en_US", "en-US"), ("pt_BR", "pt-BR"), ("Zh_tw", "Zh-tw")] {
        assert_eq!(negotiate_device_language(a), negotiate_device_language(b));
    }
}
