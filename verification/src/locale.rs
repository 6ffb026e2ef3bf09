//! The interface language: the user's preference, and the language
//! negotiated from the device locale when the preference is automatic.

use vstd::prelude::*;
use vstd::string::*;
use crate::text::{is_blank, is_blank_seq, text_view};

verus! {

/// The language the user chose in the settings.
#[derive(Clone, Copy, Debug, PartialEq, Eq, Structural)]
pub enum AppLanguagePreference {
    Auto,
    English,
    SimplifiedChinese,
}

/// The languages the interface is translated into.
#[derive(Clone, Copy, Debug, PartialEq, Eq, Structural)]
pub enum SupportedLanguage {
    English,
    SimplifiedChinese,
}

/// The language subtag that `unic_langid` reads from a locale tag, or
/// `None` when the tag does not parse.
pub uninterp spec fn parsed_language(tag: Seq<char>) -> Option<Seq<char>>;

/// Parses `tag` as a language identifier with `unic_langid`
/// (`LanguageIdentifier::from_str`) and gives its language subtag
/// (`language.as_str()`, which is "und" when the tag names none).
/// Claimed: the result is `parsed_language` of the tag; and, since the
/// parser reads the language from the text before the first `-` or `_`
/// and lower-cases it, the subtag is "zh" only when the tag starts with
/// "zh" in some letter case, followed by its end or a separator.
#[verifier::external_body]
fn parse_language_subtag(tag: &str) -> (r: Option<String>)
    ensures
        text_view(r) == parsed_language(tag@),
        text_view(r) == Some(seq!['z', 'h']) ==> starts_with_zh(tag@) && (tag@.len() == 2 || tag@[2] == '-'
            || tag@[2] == '_'),
{
    match tag.parse::<unic_langid::LanguageIdentifier>() {
        Ok(id) => Some(id.language.as_str().to_string()),
        Err(_) => None,
    }
}

/// Reads the system's preferred locale with `sys_locale::get_locale`.
/// Nothing is claimed of the result: it depends on the machine.
#[verifier::external_body]
fn system_locale() -> (r: Option<String>) {
    sys_locale::get_locale()
}

/// The tag with every underscore turned into a hyphen.
pub open spec fn dashed(tag: Seq<char>) -> Seq<char> {
    tag.map_values(|c: char| if c == '_' { '-' } else { c })
}

/// The tag starts with "zh", in any letter case.
pub open spec fn starts_with_zh(tag: Seq<char>) -> bool {
    tag.len() >= 2 && (tag[0] == 'z' || tag[0] == 'Z') && (tag[1] == 'h' || tag[1] == 'H')
}

/// The language picked for a normalized device tag `tag` whose parsed
/// language subtag is `parsed`: Simplified Chinese when the subtag is
/// "zh" or the tag starts with "zh", English otherwise.
pub open spec fn language_for(parsed: Option<Seq<char>>, tag: Seq<char>) -> SupportedLanguage {
    if parsed == Some(seq!['z', 'h']) || starts_with_zh(tag) {
        SupportedLanguage::SimplifiedChinese
    } else {
        SupportedLanguage::English
    }
}

/// The language negotiated from a device locale tag.
pub open spec fn negotiated(tag: Seq<char>) -> SupportedLanguage {
    language_for(parsed_language(dashed(tag)), dashed(tag))
}

/// The language shown for a preference and a device locale tag.
pub open spec fn resolved(preference: AppLanguagePreference, tag: Seq<char>) -> SupportedLanguage {
    match preference {
        AppLanguagePreference::Auto => negotiated(tag),
        AppLanguagePreference::English => SupportedLanguage::English,
        AppLanguagePreference::SimplifiedChinese => SupportedLanguage::SimplifiedChinese,
    }
}

/// The tag with every underscore turned into a hyphen.
pub fn normalize_locale_tag(tag: &str) -> (r: String)
    ensures
        r@ == dashed(tag@),
{
    let n = tag.unicode_len();
    let mut r = String::new();
    let mut i: usize = 0;
    while i < n
        invariant
            n == tag@.len(),
            i <= n,
            r@ == dashed(tag@.subrange(0, i as int)),
        decreases n - i,
    {
        let c = tag.get_char(i);
        if c == '_' {
            r.append("-");
        } else {
            r.append(tag.substring_char(i, i + 1));
        }
        proof {
            reveal_strlit("-");
            assert(dashed(tag@.subrange(0, i + 1)) =~= dashed(tag@.subrange(0, i as int)).push(
                if c == '_' {
                    '-'
                } else {
                    c
                },
            ));
        }
        i = i + 1;
    }
    assert(tag@.subrange(0, n as int) =~= tag@);
    r
}

/// The language for a normalized tag and the language subtag parsed from
/// it.
pub fn language_from_locale_parts(parsed: Option<String>, tag: &str) -> (l: SupportedLanguage)
    ensures
        l == language_for(text_view(parsed), tag@),
{
    let is_zh = match &parsed {
        Some(s) => {
            let t = s.as_str();
            t.unicode_len() == 2 && t.get_char(0) == 'z' && t.get_char(1) == 'h'
        },
        None => false,
    };
    if is_zh {
        proof {
            assert(text_view(parsed)->Some_0 =~= seq!['z', 'h']);
        }
        return SupportedLanguage::SimplifiedChinese;
    }
    proof {
        if text_view(parsed) == Some(seq!['z', 'h']) {
            assert(text_view(parsed)->Some_0.len() == 2);
        }
    }
    if tag.unicode_len() >= 2 {
        let c0 = tag.get_char(0);
        let c1 = tag.get_char(1);
        if (c0 == 'z' || c0 == 'Z') && (c1 == 'h' || c1 == 'H') {
            return SupportedLanguage::SimplifiedChinese;
        }
    }
    SupportedLanguage::English
}

/// The language negotiated from a device locale tag.
pub fn negotiate_device_language(device_locale_tag: &str) -> (l: SupportedLanguage)
    ensures
        l == negotiated(device_locale_tag@),
        l == SupportedLanguage::SimplifiedChinese <==> starts_with_zh(device_locale_tag@),
{
    let normalized = normalize_locale_tag(device_locale_tag);
    let parsed = parse_language_subtag(normalized.as_str());
    let l = language_from_locale_parts(parsed, normalized.as_str());
    proof {
        let t = device_locale_tag@;
        if t.len() >= 2 {
            assert(dashed(t)[0] == (if t[0] == '_' { '-' } else { t[0] }));
            assert(dashed(t)[1] == (if t[1] == '_' { '-' } else { t[1] }));
        }
    }
    l
}

/// The language shown: the preference, or the language negotiated from
/// the device locale when the preference is automatic.
pub fn resolve_language(preference: AppLanguagePreference, device_locale_tag: &str) -> (l: SupportedLanguage)
    ensures
        l == resolved(preference, device_locale_tag@),
        preference == AppLanguagePreference::Auto ==> (l == SupportedLanguage::SimplifiedChinese
            <==> starts_with_zh(device_locale_tag@)),
{
    match preference {
        AppLanguagePreference::Auto => negotiate_device_language(device_locale_tag),
        AppLanguagePreference::English => SupportedLanguage::English,
        AppLanguagePreference::SimplifiedChinese => SupportedLanguage::SimplifiedChinese,
    }
}

/// The device locale tag to use: the one found, unless it is missing or
/// blank, when it is "en-US".
pub fn locale_tag_or_default(found: Option<String>) -> (tag: String)
    ensures
        tag@ == match found {
            Some(l) => if is_blank_seq(l@) {
                "en-US"@
            } else {
                l@
            },
            None => "en-US"@,
        },
{
    match found {
        Some(l) => {
            if is_blank(l.as_str()) {
                String::from_str("en-US")
            } else {
                l
            }
        },
        None => String::from_str("en-US"),
    }
}

/// The device locale tag: the system's preferred locale, or "en-US" when
/// there is none.
pub fn detect_device_locale_tag() -> (tag: String)
    ensures
        !is_blank_seq(tag@),
{
    let found = system_locale();
    let tag = locale_tag_or_default(found);
    proof {
        reveal_strlit("en-US");
        assert(!crate::text::is_white_space("en-US"@[0]));
    }
    tag
}

/// A manual preference decides the language whatever the device locale.
pub proof fn lemma_manual_preference_wins(tag: Seq<char>)
    ensures
        resolved(AppLanguagePreference::English, tag) == SupportedLanguage::English,
        resolved(AppLanguagePreference::SimplifiedChinese, tag) == SupportedLanguage::SimplifiedChinese,
{
}

/// Any device tag that starts with "zh" (in any case, with `_` or `-`
/// separators) negotiates Simplified Chinese.
pub proof fn lemma_zh_tags_negotiate_chinese(tag: Seq<char>)
    requires
        starts_with_zh(tag),
    ensures
        negotiated(tag) == SupportedLanguage::SimplifiedChinese,
{
    assert(dashed(tag)[0] == tag[0]);
    assert(dashed(tag)[1] == tag[1]);
}

/// Underscores and hyphens are interchangeable in a device tag.
pub proof fn lemma_separator_insensitive(tag: Seq<char>)
    ensures
        negotiated(dashed(tag)) == negotiated(tag),
{
    assert(dashed(dashed(tag)) =~= dashed(tag));
}

} // verus!
