use cavestory::locale_tree::{flatten, join_key, last_text_of, StringTree};
use cavestory::i18n::Locale;

fn text(t: &str) -> StringTree {
    StringTree::Text(t.to_string())
}

fn table(entries: Vec<(&str, StringTree)>) -> StringTree {
    StringTree::Table(entries.into_iter().map(|(k, v)| (k.to_string(), v)).collect())
}

fn pairs(list: &[(&str, &str)]) -> Vec<(String, String)> {
    list.iter().map(|(k, v)| (k.to_string(), v.to_string())).collect()
}

#[test]
fn nested_tables_flatten_to_dotted_keys_in_file_order() {
    let file = table(vec![
        ("name", text("English")),
        ("menus", table(vec![("controls_menu", table(vec![("layout", text("Layout:")), ("count", StringTree::Other)]))])),
        ("font", text("csfont.fnt")),
    ]);
    let mut out = Vec::new();
    flatten(&file, &mut out, "");
    assert_eq!(
        out,
        pairs(&[("name", "English"), ("menus.controls_menu.layout", "Layout:"), ("font", "csfont.fnt")])
    );
    let mut under = vec![("kept".to_string(), "first".to_string())];
    flatten(&table(vec![("a", text("1"))]), &mut under, "root");
    assert_eq!(under, pairs(&[("kept", "first"), ("root.a", "1")]));
    let mut none = Vec::new();
    flatten(&text("loose"), &mut none, "");
    assert!(none.is_empty());
}

#[test]
fn keys_join_with_a_dot_below_the_top() {
    assert_eq!(join_key("", "name"), "name");
    assert_eq!(join_key("menus.main", "start"), "menus.main.start");
}

#[test]
fn a_locale_takes_its_metadata_and_the_last_text_of_each_key() {
    let strings = pairs(&[
        ("name", "日本語"),
        ("font", "jp.fnt"),
        ("encoding", "ShiftJIS"),
        ("menus.main.start", "はじめる"),
        ("menus.main.start", "スタート"),
    ]);
    let locale = Locale::from_strings("jp", &strings);
    assert_eq!(locale.code, "jp");
    assert_eq!(locale.name, "日本語");
    assert_eq!(locale.font.path, "jp.fnt");
    assert_eq!(locale.encoding.as_deref(), Some("ShiftJIS"));
    assert_eq!(locale.stage_encoding, None);
    assert_eq!(locale.t("menus.main.start"), "スタート");
    assert_eq!(last_text_of(&strings, "menus.main.start").as_deref(), Some("スタート"));
    assert_eq!(last_text_of(&strings, "font_scale"), None);
    let bare = Locale::from_strings("xx", &Vec::new());
    assert_eq!(bare.name, "English");
    assert_eq!(bare.font.path, "");
}
