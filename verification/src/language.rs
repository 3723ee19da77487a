//! Front-end display languages.
//!
//! The engine itself is language-neutral; these values only select which
//! translation table the front-ends read. Detection from environment
//! variables happens outside the library; the parsing of language and locale
//! names lives here.

use vstd::prelude::*;

use crate::strutil;

verus! {

/// A supported display language.
#[derive(Debug, Clone, Copy, PartialEq, Eq, Hash, Structural)]
pub enum Language {
    English,
    SimplifiedChinese,
    TraditionalChinese,
    Japanese,
}

/// The language that a language name or code denotes, after ASCII
/// lowercasing.
pub open spec fn spec_from_str(s: Seq<char>) -> Option<Language> {
    let l = strutil::lower_seq(s);
    if l == "en"@ || l == "en-us"@ || l == "en_us"@ || l == "english"@ {
        Some(Language::English)
    } else if l == "zh-cn"@ || l == "zh_cn"@ || l == "zh-hans"@ || l == "zh"@ || l == "chinese"@ {
        Some(Language::SimplifiedChinese)
    } else if l == "zh-tw"@ || l == "zh_tw"@ || l == "zh-hant"@ || l == "zh-hk"@ || l == "zh_hk"@ {
        Some(Language::TraditionalChinese)
    } else if l == "ja"@ || l == "ja-jp"@ || l == "ja_jp"@ || l == "japanese"@ {
        Some(Language::Japanese)
    } else {
        None
    }
}

/// Whether `p` is a prefix of `s`.
pub open spec fn is_prefix(s: Seq<char>, p: Seq<char>) -> bool {
    p.len() <= s.len() && s.take(p.len() as int) == p
}

/// The language that a locale string such as `zh_CN.UTF-8` denotes, judged by
/// its prefix after ASCII lowercasing; English when nothing matches.
pub open spec fn spec_from_locale(s: Seq<char>) -> Language {
    let l = strutil::lower_seq(s);
    if is_prefix(l, "zh_cn"@) || is_prefix(l, "zh-cn"@) || is_prefix(l, "zh-hans"@) {
        Language::SimplifiedChinese
    } else if is_prefix(l, "zh_tw"@) || is_prefix(l, "zh-tw"@) || is_prefix(l, "zh_hk"@)
        || is_prefix(l, "zh-hk"@) || is_prefix(l, "zh-hant"@) {
        Language::TraditionalChinese
    } else if is_prefix(l, "ja"@) {
        Language::Japanese
    } else {
        Language::English
    }
}

/// Whether the string `p` is a prefix of the string `s`.
fn str_starts_with(s: &str, p: &str) -> (r: bool)
    ensures
        r == is_prefix(s@, p@),
{
    let sc = strutil::str_chars(s);
    let pc = strutil::str_chars(p);
    if pc.len() > sc.len() {
        return false;
    }
    let mut i: usize = 0;
    while i < pc.len()
        invariant
            pc@.len() <= sc@.len(),
            sc@ == s@,
            pc@ == p@,
            i <= pc.len(),
            forall|j: int| 0 <= j < i ==> sc@[j] == pc@[j],
        decreases pc.len() - i,
    {
        if sc[i] != pc[i] {
            proof {
                assert(s@.take(p@.len() as int)[i as int] != p@[i as int]);
            }
            return false;
        }
        i = i + 1;
    }
    proof {
        assert(s@.take(p@.len() as int) =~= p@);
    }
    true
}

impl Language {
    /// The language's locale code.
    pub fn locale_code(&self) -> (r: &'static str)
        ensures
            r@ == match *self {
                Language::English => "en-US"@,
                Language::SimplifiedChinese => "zh-CN"@,
                Language::TraditionalChinese => "zh-TW"@,
                Language::Japanese => "ja-JP"@,
            },
    {
        match self {
            Language::English => "en-US",
            Language::SimplifiedChinese => "zh-CN",
            Language::TraditionalChinese => "zh-TW",
            Language::Japanese => "ja-JP",
        }
    }

    /// The language's display name, in its own script.
    pub fn name(&self) -> (r: &'static str)
        ensures
            r@ == match *self {
                Language::English => "English"@,
                Language::SimplifiedChinese => "简体中文"@,
                Language::TraditionalChinese => "繁體中文"@,
                Language::Japanese => "日本語"@,
            },
    {
        match self {
            Language::English => "English",
            Language::SimplifiedChinese => "简体中文",
            Language::TraditionalChinese => "繁體中文",
            Language::Japanese => "日本語",
        }
    }

    /// The short code used on the command line.
    pub fn short_code(&self) -> (r: &'static str)
        ensures
            r@ == match *self {
                Language::English => "en"@,
                Language::SimplifiedChinese => "zh-CN"@,
                Language::TraditionalChinese => "zh-TW"@,
                Language::Japanese => "ja"@,
            },
    {
        match self {
            Language::English => "en",
            Language::SimplifiedChinese => "zh-CN",
            Language::TraditionalChinese => "zh-TW",
            Language::Japanese => "ja",
        }
    }

    /// Parses a language name or code in any of its accepted spellings.
    pub fn from_str(s: &str) -> (r: Option<Language>)
        ensures
            r == spec_from_str(s@),
    {
        let l = strutil::ascii_lowercase(s);
        let ls = l.as_str();
        if strutil::str_eq(ls, "en") || strutil::str_eq(ls, "en-us") || strutil::str_eq(
            ls,
            "en_us",
        ) || strutil::str_eq(ls, "english") {
            Some(Language::English)
        } else if strutil::str_eq(ls, "zh-cn") || strutil::str_eq(ls, "zh_cn") || strutil::str_eq(
            ls,
            "zh-hans",
        ) || strutil::str_eq(ls, "zh") || strutil::str_eq(ls, "chinese") {
            Some(Language::SimplifiedChinese)
        } else if strutil::str_eq(ls, "zh-tw") || strutil::str_eq(ls, "zh_tw") || strutil::str_eq(
            ls,
            "zh-hant",
        ) || strutil::str_eq(ls, "zh-hk") || strutil::str_eq(ls, "zh_hk") {
            Some(Language::TraditionalChinese)
        } else if strutil::str_eq(ls, "ja") || strutil::str_eq(ls, "ja-jp") || strutil::str_eq(
            ls,
            "ja_jp",
        ) || strutil::str_eq(ls, "japanese") {
            Some(Language::Japanese)
        } else {
            None
        }
    }

    /// Judges a locale string such as `zh_CN.UTF-8` by its prefix; English
    /// when nothing matches.
    pub fn from_locale_string(s: &str) -> (r: Language)
        ensures
            r == spec_from_locale(s@),
    {
        let l = strutil::ascii_lowercase(s);
        let ls = l.as_str();
        if str_starts_with(ls, "zh_cn") || str_starts_with(ls, "zh-cn") || str_starts_with(
            ls,
            "zh-hans",
        ) {
            Language::SimplifiedChinese
        } else if str_starts_with(ls, "zh_tw") || str_starts_with(ls, "zh-tw") || str_starts_with(
            ls,
            "zh_hk",
        ) || str_starts_with(ls, "zh-hk") || str_starts_with(ls, "zh-hant") {
            Language::TraditionalChinese
        } else if str_starts_with(ls, "ja") {
            Language::Japanese
        } else {
            Language::English
        }
    }

    /// The language at a front-end list index; English for anything out of
    /// range.
    pub fn from_index(index: usize) -> (r: Language)
        ensures
            r == match index {
                0 => Language::English,
                1 => Language::SimplifiedChinese,
                2 => Language::TraditionalChinese,
                3 => Language::Japanese,
                _ => Language::English,
            },
    {
        match index {
            0 => Language::English,
            1 => Language::SimplifiedChinese,
            2 => Language::TraditionalChinese,
            3 => Language::Japanese,
            _ => Language::English,
        }
    }

    /// The language's position in the front-end list.
    pub fn index(&self) -> (r: usize)
        ensures
            r == match *self {
                Language::English => 0usize,
                Language::SimplifiedChinese => 1usize,
                Language::TraditionalChinese => 2usize,
                Language::Japanese => 3usize,
            },
    {
        match self {
            Language::English => 0,
            Language::SimplifiedChinese => 1,
            Language::TraditionalChinese => 2,
            Language::Japanese => 3,
        }
    }

    /// Every supported language, in front-end list order.
    pub fn all() -> (r: Vec<Language>)
        ensures
            r@ == seq![
                Language::English,
                Language::SimplifiedChinese,
                Language::TraditionalChinese,
                Language::Japanese,
            ],
    {
        let mut v: Vec<Language> = Vec::new();
        v.push(Language::English);
        v.push(Language::SimplifiedChinese);
        v.push(Language::TraditionalChinese);
        v.push(Language::Japanese);
        proof {
            assert(v@ =~= seq![
                Language::English,
                Language::SimplifiedChinese,
                Language::TraditionalChinese,
                Language::Japanese,
            ]);
        }
        v
    }

    /// The display names of every supported language, in list order.
    pub fn all_names() -> (r: Vec<String>)
        ensures
            r@.map_values(|s: String| s@) == seq![
                "English"@,
                "简体中文"@,
                "繁體中文"@,
                "日本語"@,
            ],
    {
        let mut v: Vec<String> = Vec::new();
        v.push(Language::English.name().to_owned());
        v.push(Language::SimplifiedChinese.name().to_owned());
        v.push(Language::TraditionalChinese.name().to_owned());
        v.push(Language::Japanese.name().to_owned());
        proof {
            assert(v@.map_values(|s: String| s@) =~= seq![
                "English"@,
                "简体中文"@,
                "繁體中文"@,
                "日本語"@,
            ]);
        }
        v
    }
}

impl Default for Language {
    /// English is the fallback language.
    fn default() -> (r: Language)
        ensures
            r == Language::English,
    {
        Language::English
    }
}

/// The display names of the supported languages, in list order.
pub fn language_names() -> (r: Vec<String>)
    ensures
        r@.map_values(|s: String| s@) == seq!["English"@, "简体中文"@, "繁體中文"@, "日本語"@],
{
    Language::all_names()
}

} // verus!
