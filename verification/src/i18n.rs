//! Menu translations: lookup with built-in fallbacks and label normalisation.
use vstd::prelude::*;
use crate::text::{push_char, push_str, replace, replace_all, str_eq, string_of};

verus! {

/// A font: its file, and its scale and space offset (`f32` values held by
/// their IEEE-754 bits).
#[derive(Clone, Debug)]
pub struct FontData {
    pub path: String,
    pub scale_bits: u32,
    pub space_offset_bits: u32,
}

/// A language: metadata and the flattened translation strings.
#[derive(Clone, Debug)]
pub struct Locale {
    pub code: String,
    pub name: String,
    pub font: FontData,
    /// Name of the text script encoding, as written in the locale file.
    pub encoding: Option<String>,
    /// Name of the stage data encoding, as written in the locale file.
    pub stage_encoding: Option<String>,
    pub strings: Translations,
    // Properties of the translation data "root"
    pub is_present: bool,
    /// A complete translation is also present.
    pub is_complete: bool,
}

/// Translation strings by key (insertion-ordered pairs).
#[derive(Clone, Debug)]
pub struct Translations {
    entries: Vec<(String, String)>,
}

/// Translation entries as key/text pairs.
pub type Entries = Seq<(Seq<char>, Seq<char>)>;

/// The text of the first entry with key `key`.
pub open spec fn lookup(entries: Entries, key: Seq<char>) -> Option<Seq<char>>
    decreases entries.len(),
{
    if entries.len() == 0 {
        None
    } else if entries[0].0 == key {
        Some(entries[0].1)
    } else {
        lookup(entries.drop_first(), key)
    }
}

/// `entries` with `key` mapped to `text`: the first entry for `key` is
/// overwritten, or a new entry is appended.
pub open spec fn put(entries: Entries, key: Seq<char>, text: Seq<char>) -> Entries
    decreases entries.len(),
{
    if entries.len() == 0 {
        seq![(key, text)]
    } else if entries[0].0 == key {
        entries.update(0, (key, text))
    } else {
        seq![entries[0]] + put(entries.drop_first(), key, text)
    }
}

pub open spec fn key_auto_hide() -> Seq<char> {
    "menus.options_menu.controls_menu.auto_hide_touch_controls"@
}

pub open spec fn key_touch_required() -> Seq<char> {
    "menus.options_menu.controls_menu.touch_controls_required"@
}

/// Labels added after older language packs were published, supplied in the
/// pack's language when the pack lacks them.
pub open spec fn fallback(code: Seq<char>, key: Seq<char>) -> Option<Seq<char>> {
    if key == key_auto_hide() {
        Some(
            if code == "zh-Hans"@ {
                "自动隐藏触屏按键（10秒）："@
            } else if code == "jp"@ {
                "タッチボタン自動非表示（10秒）: "@
            } else {
                "Auto-hide touch buttons (10s):"@
            },
        )
    } else if key == key_touch_required() {
        Some(
            if code == "zh-Hans"@ {
                "触屏按键：无外设时自动开启"@
            } else if code == "jp"@ {
                "タッチボタン：外部機器なしで表示"@
            } else {
                "Touch buttons: on (no devices)"@
            },
        )
    } else {
        None
    }
}

/// Known outdated Simplified Chinese menu labels, replaced by their current
/// wording; any other text is kept as written.
pub open spec fn normalized(code: Seq<char>, key: Seq<char>, text: Seq<char>) -> Seq<char> {
    if code == "zh-Hans"@ && key == "menus.controls_menu.rumble"@ && text == "手柄震动："@ {
        "手柄振动："@
    } else if code == "zh-Hans"@ && key == "menus.controls_menu.rumble_mode"@ && text == "震动模式："@ {
        "振动模式："@
    } else if code == "zh-Hans"@ && key == "menus.options_menu.graphics_menu.screen_shake.entry"@ && text
        == "画面震动强度："@ {
        "画面振动强度："@
    } else {
        text
    }
}

/// The translation of `key`: the stored text, else the built-in fallback,
/// then normalised.
pub open spec fn translation(code: Seq<char>, entries: Entries, key: Seq<char>) -> Option<Seq<char>> {
    let found = match lookup(entries, key) {
        Some(t) => Some(t),
        None => fallback(code, key),
    };
    match found {
        Some(t) => Some(normalized(code, key, t)),
        None => None,
    }
}

/// The placeholder `{name}`.
pub open spec fn placeholder(name: Seq<char>) -> Seq<char> {
    seq!['{'] + name + seq!['}']
}

/// `text` with each `{name}` of `args`, in order, replaced by its value.
pub open spec fn substitute(text: Seq<char>, args: Entries) -> Seq<char>
    decreases args.len(),
{
    if args.len() == 0 {
        text
    } else {
        substitute(replace_all(text, placeholder(args[0].0), args[0].1), args.drop_first())
    }
}

pub open spec fn view_pair(p: (String, String)) -> (Seq<char>, Seq<char>) {
    (p.0@, p.1@)
}

pub open spec fn view_str_pair(p: (&str, &str)) -> (Seq<char>, Seq<char>) {
    (p.0@, p.1@)
}

proof fn lemma_lookup_skip(e: Entries, key: Seq<char>, i: int)
    requires
        0 <= i <= e.len(),
        forall|j: int| 0 <= j < i ==> e[j].0 != key,
    ensures
        lookup(e, key) == lookup(e.subrange(i, e.len() as int), key),
    decreases i,
{
    if i == 0 {
        assert(e.subrange(0, e.len() as int) =~= e);
    } else {
        lemma_lookup_skip(e, key, i - 1);
        let t = e.subrange(i - 1, e.len() as int);
        assert(t[0] == e[i - 1]);
        assert(t.drop_first() =~= e.subrange(i, e.len() as int));
    }
}

proof fn lemma_put_skip(e: Entries, key: Seq<char>, text: Seq<char>, i: int)
    requires
        0 <= i <= e.len(),
        forall|j: int| 0 <= j < i ==> e[j].0 != key,
    ensures
        put(e, key, text) == e.subrange(0, i) + put(e.subrange(i, e.len() as int), key, text),
    decreases i,
{
    if i == 0 {
        assert(e.subrange(0, e.len() as int) =~= e);
        assert(e.subrange(0, 0) + put(e, key, text) =~= put(e, key, text));
    } else {
        lemma_put_skip(e, key, text, i - 1);
        let t = e.subrange(i - 1, e.len() as int);
        assert(t[0] == e[i - 1]);
        assert(t.drop_first() =~= e.subrange(i, e.len() as int));
        assert(e.subrange(0, i - 1) + (seq![t[0]] + put(t.drop_first(), key, text)) =~= e.subrange(0, i)
            + put(e.subrange(i, e.len() as int), key, text));
    }
}

impl Default for Locale {
    fn default() -> (l: Locale)
        ensures
            l.code@ == "en"@,
            l.name@ == "English"@,
            l.font.path@ == Seq::<char>::empty(),
            l.font.scale_bits == 0x3f80_0000,
            l.font.space_offset_bits == 0,
            l.encoding is None,
            l.stage_encoding is None,
            l.strings@ == Seq::<(Seq<char>, Seq<char>)>::empty(),
            !l.is_present,
            !l.is_complete,
    {
        let l = Locale {
            code: string_of("en"),
            name: string_of("English"),
            font: FontData { path: String::new(), scale_bits: 0x3f80_0000, space_offset_bits: 0 },
            encoding: None,
            stage_encoding: None,
            strings: Translations { entries: Vec::new() },
            is_present: false,
            is_complete: false,
        };
        assert(l.strings@ =~= Seq::<(Seq<char>, Seq<char>)>::empty());
        l
    }
}

impl View for Translations {
    type V = Entries;

    closed spec fn view(&self) -> Entries {
        self.entries@.map_values(|p: (String, String)| view_pair(p))
    }

}

impl Translations {
    /// Sets the text of `key` (adding the key when it is new).
    pub fn insert(&mut self, key: String, text: String)
        ensures
            final(self)@ == put(old(self)@, key@, text@),
    {
        let ghost e = self@;
        let n = self.entries.len();
        let mut i: usize = 0;
        while i < n
            invariant
                n == self.entries.len(),
                e == self@,
                e == old(self)@,
                i <= n,
                forall|j: int| 0 <= j < i ==> e[j].0 != key@,
            decreases n - i,
        {
            if self.entries[i].0 == key {
                proof {
                    lemma_put_skip(e, key@, text@, i as int);
                }
                let ghost k = key@;
                let ghost v = text@;
                let ghost tail = e.subrange(i as int, n as int);
                assert(tail[0].0 == k);
                self.entries.set(i, (key, text));
                assert(put(tail, k, v) == tail.update(0, (k, v)));
                assert(self@ =~= e.subrange(0, i as int) + tail.update(0, (k, v)));
                assert(put(e, k, v) == e.subrange(0, i as int) + put(tail, k, v));
                assert(self@ == put(e, k, v));
                return;
            }
            i = i + 1;
        }
        proof {
            lemma_put_skip(e, key@, text@, n as int);
        }
        self.entries.push((key, text));
        assert(self@ =~= put(e, key@, text@));
    }

    /// The text of the first entry for `key`.
    pub fn get(&self, key: &str) -> (r: Option<&str>)
        ensures
            r matches Some(t) ==> lookup(self@, key@) == Some(t@),
            r is None ==> lookup(self@, key@) is None,
    {
        let ghost e = self@;
        let n = self.entries.len();
        let mut i: usize = 0;
        while i < n
            invariant
                n == self.entries.len(),
                e == self@,
                i <= n,
                forall|j: int| 0 <= j < i ==> e[j].0 != key@,
            decreases n - i,
        {
            if str_eq(self.entries[i].0.as_str(), key) {
                proof {
                    lemma_lookup_skip(e, key@, i as int);
                }
                return Some(self.entries[i].1.as_str());
            }
            i = i + 1;
        }
        proof {
            lemma_lookup_skip(e, key@, n as int);
        }
        None
    }
}

impl Locale {
    /// The translation of `key`, or `None` when neither the pack nor the
    /// built-in fallbacks have it.
    pub fn t_optional(&self, key: &str) -> (r: Option<&str>)
        ensures
            r matches Some(t) ==> translation(self.code@, self.strings@, key@) == Some(t@),
            r is None ==> translation(self.code@, self.strings@, key@) is None,
    {
        let found = self.strings.get(key);
        let code = self.code.as_str();
        let text: &str = match found {
            Some(t) => t,
            None => {
                if str_eq(key, "menus.options_menu.controls_menu.auto_hide_touch_controls") {
                    if str_eq(code, "zh-Hans") {
                        "自动隐藏触屏按键（10秒）："
                    } else if str_eq(code, "jp") {
                        "タッチボタン自動非表示（10秒）: "
                    } else {
                        "Auto-hide touch buttons (10s):"
                    }
                } else if str_eq(key, "menus.options_menu.controls_menu.touch_controls_required") {
                    if str_eq(code, "zh-Hans") {
                        "触屏按键：无外设时自动开启"
                    } else if str_eq(code, "jp") {
                        "タッチボタン：外部機器なしで表示"
                    } else {
                        "Touch buttons: on (no devices)"
                    }
                } else {
                    return None;
                }
            },
        };
        let zh = str_eq(code, "zh-Hans");
        if zh && str_eq(key, "menus.controls_menu.rumble") && str_eq(text, "手柄震动：") {
            Some("手柄振动：")
        } else if zh && str_eq(key, "menus.controls_menu.rumble_mode") && str_eq(text, "震动模式：") {
            Some("振动模式：")
        } else if zh && str_eq(key, "menus.options_menu.graphics_menu.screen_shake.entry") && str_eq(
            text,
            "画面震动强度：",
        ) {
            Some("画面振动强度：")
        } else {
            Some(text)
        }
    }

    /// The translation of `key`, or `key` itself when there is none.
    pub fn t<'a: 'b, 'b>(&'a self, key: &'b str) -> (r: &'b str)
        ensures
            r@ == (match translation(self.code@, self.strings@, key@) {
                Some(t) => t,
                None => key@,
            }),
    {
        match self.t_optional(key) {
            Some(t) => t,
            None => key,
        }
    }

    /// The translation of `key` with each `{name}` of `args` replaced by its value.
    pub fn tt(&self, key: &str, args: &[(&str, &str)]) -> (r: String)
        ensures
            r@ == substitute(
                match translation(self.code@, self.strings@, key@) {
                    Some(t) => t,
                    None => key@,
                },
                args@.map_values(|a: (&str, &str)| view_str_pair(a)),
            ),
    {
        let ghost all = args@.map_values(|a: (&str, &str)| view_str_pair(a));
        let ghost text = match translation(self.code@, self.strings@, key@) {
            Some(t) => t,
            None => key@,
        };
        let mut string = string_of(self.t(key));
        let n = args.len();
        let mut i: usize = 0;
        assert(all.subrange(0, all.len() as int) =~= all);
        while i < n
            invariant
                n == args@.len() == all.len(),
                all == args@.map_values(|a: (&str, &str)| view_str_pair(a)),
                i <= n,
                substitute(string@, all.subrange(i as int, n as int)) == substitute(text, all),
            decreases n - i,
        {
            let (name, value) = args[i];
            let mut pattern = String::new();
            push_char(&mut pattern, '{');
            push_str(&mut pattern, name);
            push_char(&mut pattern, '}');
            assert(pattern@ =~= placeholder(name@));
            let ghost rest = all.subrange(i as int, n as int);
            assert(rest[0] == view_str_pair(args@[i as int]));
            assert(rest.drop_first() =~= all.subrange(i + 1, n as int));
            string = replace(string.as_str(), pattern.as_str(), value);
            i = i + 1;
        }
        assert(all.subrange(n as int, n as int) =~= Seq::<(Seq<char>, Seq<char>)>::empty());
        string
    }

    /// Replaces the font.
    pub fn set_font(&mut self, font: FontData)
        ensures
            final(self).font == font,
            final(self).code == old(self).code,
            final(self).name == old(self).name,
            final(self).strings@ == old(self).strings@,
    {
        self.font = font;
    }
}

/// The marker file of the language pack managed for `code`, if any: the
/// English and Japanese packs.
pub open spec fn pack_marker(code: Seq<char>) -> Option<Seq<char>> {
    if code == seq!['e', 'n'] {
        Some("english-install.json"@)
    } else if code == seq!['j', 'p'] {
        Some("japanese-install.json"@)
    } else {
        None
    }
}

/// The marker file of the language pack managed for `code`.
pub fn language_pack_marker(code: &str) -> (r: Option<&'static str>)
    ensures
        match pack_marker(code@) {
            Some(m) => r matches Some(s) && s@ == m,
            None => r is None,
        },
{
    proof {
        reveal_strlit("en");
        reveal_strlit("jp");
        assert("en"@ =~= seq!['e', 'n']);
        assert("jp"@ =~= seq!['j', 'p']);
    }
    if str_eq(code, "en") {
        Some("english-install.json")
    } else if str_eq(code, "jp") {
        Some("japanese-install.json")
    } else {
        None
    }
}

/// A base path of a language overlay.
pub open spec fn overlay_path(p: Seq<char>) -> bool {
    p == "/en/"@ || p == "/zh-Hans/"@ || p == "/jp/"@
}

/// The base paths let a complete language pack supply the locale: the root
/// is among them, and only language overlays come before it.
pub open spec fn pack_paths_allowed(paths: Seq<Seq<char>>) -> bool {
    exists|r: int|
        0 <= r < paths.len() && paths[r] == "/"@ && forall|j: int| 0 <= j < r ==> overlay_path(#[trigger] paths[j])
}

/// Whether the locale of `code` comes from its complete language pack (whose
/// marker, stage data and locale file exist, as the caller found) rather
/// than from the base paths.
pub fn uses_language_pack(
    code: &str,
    marker_exists: bool,
    stage_exists: bool,
    locale_exists: bool,
    base_paths: &Vec<String>,
) -> (r: bool)
    ensures
        r == (pack_marker(code@) is Some && marker_exists && stage_exists && locale_exists && pack_paths_allowed(
            base_paths@.map_values(|p: String| p@),
        )),
{
    if language_pack_marker(code).is_none() || !marker_exists || !stage_exists || !locale_exists {
        return false;
    }
    let ghost views = base_paths@.map_values(|p: String| p@);
    proof {
        reveal_strlit("/");
        reveal_strlit("/en/");
        reveal_strlit("/zh-Hans/");
        reveal_strlit("/jp/");
    }
    let mut i: usize = 0;
    while i < base_paths.len()
        invariant
            i <= base_paths@.len(),
            views == base_paths@.map_values(|p: String| p@),
            marker_exists && stage_exists && locale_exists && pack_marker(code@) is Some,
            forall|j: int| 0 <= j < i ==> views[j] != "/"@ && overlay_path(#[trigger] views[j]),
        decreases base_paths@.len() - i,
    {
        let p = base_paths[i].as_str();
        assert(views[i as int] == p@);
        if str_eq(p, "/") {
            assert(pack_paths_allowed(views));
            return true;
        }
        if !(str_eq(p, "/en/") || str_eq(p, "/zh-Hans/") || str_eq(p, "/jp/")) {
            proof {
                if pack_paths_allowed(views) {
                    let r = choose|r: int|
                        0 <= r < views.len() && views[r] == "/"@ && forall|j: int|
                            0 <= j < r ==> overlay_path(#[trigger] views[j]);
                    if r < i {
                        assert(views[r] != "/"@);
                    } else if r > i {
                        assert(overlay_path(views[i as int]));
                    } else {
                        assert(views[i as int] == "/"@);
                    }
                }
            }
            return false;
        }
        i = i + 1;
    }
    proof {
        if pack_paths_allowed(views) {
            let r = choose|r: int|
                0 <= r < views.len() && views[r] == "/"@ && forall|j: int| 0 <= j < r ==> overlay_path(#[trigger] views[j]);
            assert(views[r] != "/"@);
        }
    }
    false
}

/// A string set for a key is what the key then reads, and setting one key
/// leaves what every other key reads.
pub proof fn law_insert_then_lookup(entries: Entries, key: Seq<char>, text: Seq<char>, other: Seq<char>)
    requires
        other != key,
    ensures
        lookup(put(entries, key, text), key) == Some(text),
        lookup(put(entries, key, text), other) == lookup(entries, other),
    decreases entries.len(),
{
    if entries.len() > 0 && entries[0].0 != key {
        law_insert_then_lookup(entries.drop_first(), key, text, other);
        let p = put(entries, key, text);
        assert(p.drop_first() =~= put(entries.drop_first(), key, text));
    } else if entries.len() > 0 {
        let p = put(entries, key, text);
        assert(p.drop_first() =~= entries.drop_first());
    } else {
        let p = put(entries, key, text);
        assert(p.drop_first() =~= entries);
    }
}

} // verus!
