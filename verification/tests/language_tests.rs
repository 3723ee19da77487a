use rsendmail::language::{language_names, Language};
use rsendmail::translate::t;

#[test]
fn test_language_detection() {
    let lang = Language::from_locale_string("zh_CN.UTF-8");
    assert_eq!(lang, Language::SimplifiedChinese);

    let lang = Language::from_locale_string("zh-TW");
    assert_eq!(lang, Language::TraditionalChinese);

    let lang = Language::from_locale_string("ja_JP");
    assert_eq!(lang, Language::Japanese);

    let lang = Language::from_locale_string("en_US");
    assert_eq!(lang, Language::English);
}

#[test]
fn test_translation() {
    assert_eq!(t(Language::English, "app-title"), "RSendMail");
    assert_eq!(t(Language::SimplifiedChinese, "smtp-server"), "SMTP 服务器");
}

#[test]
fn test_language_from_str() {
    assert_eq!(Language::from_str("en"), Some(Language::English));
    assert_eq!(Language::from_str("zh-CN"), Some(Language::SimplifiedChinese));
    assert_eq!(Language::from_str("zh-TW"), Some(Language::TraditionalChinese));
    assert_eq!(Language::from_str("ja"), Some(Language::Japanese));
    assert_eq!(Language::from_str("unknown"), None);
}

#[test]
fn test_language_locale_code() {
    assert_eq!(Language::English.locale_code(), "en-US");
    assert_eq!(Language::SimplifiedChinese.locale_code(), "zh-CN");
    assert_eq!(Language::TraditionalChinese.locale_code(), "zh-TW");
    assert_eq!(Language::Japanese.locale_code(), "ja-JP");
}

#[test]
fn test_language_index() {
    assert_eq!(Language::English.index(), 0);
    assert_eq!(Language::SimplifiedChinese.index(), 1);
    assert_eq!(Language::from_index(2), Language::TraditionalChinese);
    assert_eq!(Language::from_index(3), Language::Japanese);
}

#[test]
fn test_language_names_and_all() {
    assert_eq!(
        language_names(),
        vec!["English", "简体中文", "繁體中文", "日本語"]
    );
    let all = Language::all();
    assert_eq!(all.len(), 4);
    for (i, l) in all.iter().enumerate() {
        assert_eq!(l.index(), i);
        assert_eq!(Language::from_index(i), *l);
    }
    assert_eq!(Language::default(), Language::English);
    assert_eq!(Language::English.name(), "English");
    assert_eq!(Language::Japanese.short_code(), "ja");
}

#[test]
fn test_translation_fallback() {
    // A key missing from the chosen language falls back to English; a key
    // missing everywhere is returned as its own text.
    assert_eq!(t(Language::Japanese, "app-title"), "RSendMail");
    assert_eq!(t(Language::English, "no-such-key"), "no-such-key");
    assert_eq!(t(Language::Japanese, "port"), "ポート");
}
