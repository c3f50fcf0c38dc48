use cavestory::i18n::{language_pack_marker, uses_language_pack};
use cavestory::i18n::Locale;

#[test]
fn legacy_chinese_rumble_labels_are_normalized_without_changing_custom_text() {
    let mut locale = Locale::default();
    locale.code = "zh-Hans".into();
    locale.strings.insert("menus.controls_menu.rumble".into(), "手柄震动：".into());
    assert_eq!(locale.t("menus.controls_menu.rumble"), "手柄振动：");
    locale.strings.insert("menus.controls_menu.rumble".into(), "我的触觉设置".into());
    assert_eq!(locale.t("menus.controls_menu.rumble"), "我的触觉设置");
    locale.strings.insert("story".into(), "手柄震动：".into());
    assert_eq!(locale.t("story"), "手柄震动：");
}

#[test]
fn legacy_language_packs_get_touch_options_without_overwriting_custom_labels() {
    for code in ["zh-Hans", "en", "jp"] {
        let mut locale = Locale::default();
        locale.code = code.into();
        for key in ["menus.options_menu.controls_menu.auto_hide_touch_controls",
            "menus.options_menu.controls_menu.touch_controls_required"] {
            assert_ne!(locale.t(key), key, "missing fallback for {code}");
            locale.strings.insert(key.into(), "Custom touch option".into());
            assert_eq!(locale.t(key), "Custom touch option");
        }
    }
}

#[test]
fn missing_key_falls_back_to_the_key_itself() {
    let locale = Locale::default();
    assert_eq!(locale.t("no.such.key"), "no.such.key");
    assert_eq!(locale.t_optional("no.such.key"), None);
}

#[test]
fn placeholders_are_substituted() {
    let mut locale = Locale::default();
    locale.strings.insert("greet".into(), "Hi {name}, {name}!".into());
    assert_eq!(locale.tt("greet", &[("name", "Quote")]), "Hi Quote, Quote!");
    assert_eq!(locale.tt("greet", &[]), "Hi {name}, {name}!");
}

#[test]
fn later_insert_replaces_earlier_text() {
    let mut locale = Locale::default();
    locale.strings.insert("a".into(), "1".into());
    locale.strings.insert("a".into(), "2".into());
    assert_eq!(locale.t_optional("a"), Some("2"));
}

#[test]
fn complete_packs_supply_the_locale_only_below_overlays() {
    assert_eq!(language_pack_marker("en"), Some("english-install.json"));
    assert_eq!(language_pack_marker("jp"), Some("japanese-install.json"));
    assert_eq!(language_pack_marker("zh-Hans"), None);
    let root = vec!["/".to_string()];
    assert!(uses_language_pack("jp", true, true, true, &root));
    assert!(!uses_language_pack("jp", true, false, true, &root));
    assert!(!uses_language_pack("zh-Hans", true, true, true, &root));
    let overlay = vec!["/zh-Hans/".to_string(), "/".to_string()];
    assert!(uses_language_pack("en", true, true, true, &overlay));
    let modded = vec!["/mod/".to_string(), "/".to_string()];
    assert!(!uses_language_pack("en", true, true, true, &modded));
    assert!(!uses_language_pack("en", true, true, true, &vec!["/en/".to_string()]));
}
