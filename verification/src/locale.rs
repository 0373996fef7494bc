//! The language of the client's own messages.
use vstd::prelude::*;

use crate::text::{ascii_lower_seq, ascii_lowercase, has_prefix, starts_with, trim, trim_str};

verus! {

/// The locale that backend messages are written in.
#[derive(Clone, Copy, Debug, PartialEq, Eq, Structural)]
pub enum BackendLocale {
    ZhCn,
    EnUs,
}

/// A stored locale preference names English when, trimmed and in ASCII
/// lower case, it starts with `en`.
pub open spec fn prefers_english(value: Seq<char>) -> bool {
    has_prefix(ascii_lower_seq(trim(value)), seq!['e', 'n'])
}

impl BackendLocale {
    /// The locale for a stored preference such as `"en-US"` or `"zh-CN"`;
    /// anything that does not name English gives Simplified Chinese.
    pub fn from_preference(value: &str) -> (r: Self)
        ensures
            r == (if prefers_english(value@) {
                BackendLocale::EnUs
            } else {
                BackendLocale::ZhCn
            }),
    {
        let trimmed = trim_str(value);
        let normalized = ascii_lowercase(trimmed.as_str());
        proof {
            reveal_strlit("en");
            assert("en"@ =~= seq!['e', 'n']);
        }
        if starts_with(normalized.as_str(), "en") {
            BackendLocale::EnUs
        } else {
            BackendLocale::ZhCn
        }
    }

    /// Whether this is English.
    pub fn is_en(self) -> (b: bool)
        ensures
            b == (self == BackendLocale::EnUs),
    {
        match self {
            BackendLocale::EnUs => true,
            BackendLocale::ZhCn => false,
        }
    }
}

/// The message written in `locale`: `en` for English, `zh` otherwise.
pub open spec fn pick(locale: BackendLocale, zh: Seq<char>, en: Seq<char>) -> Seq<char> {
    if locale == BackendLocale::EnUs {
        en
    } else {
        zh
    }
}

/// The message written in `locale`, as an owned string.
pub fn localized(locale: BackendLocale, zh: &str, en: &str) -> (r: String)
    ensures
        r@ == pick(locale, zh@, en@),
{
    if locale.is_en() {
        en.to_owned()
    } else {
        zh.to_owned()
    }
}

/// `"{prefix}: {error}"` in English, `"{prefix}：{error}"` in Chinese.
pub open spec fn prefixed_error(
    locale: BackendLocale,
    zh_prefix: Seq<char>,
    en_prefix: Seq<char>,
    error: Seq<char>,
) -> Seq<char> {
    pick(locale, zh_prefix + "："@ + error, en_prefix + ": "@ + error)
}

/// An error message with a prefix that says what failed.
pub fn format_error(locale: BackendLocale, zh_prefix: &str, en_prefix: &str, error: &str) -> (r:
    String)
    ensures
        r@ == prefixed_error(locale, zh_prefix@, en_prefix@, error@),
{
    let mut r;
    if locale.is_en() {
        r = en_prefix.to_owned();
        r.append(": ");
    } else {
        r = zh_prefix.to_owned();
        r.append("：");
    }
    r.append(error);
    r
}

/// A message that ends in a status code, and in `": {body}"` when `body` is
/// not empty: `"{en} {status}"` in English, `"{zh} {status}"` in Chinese.
pub open spec fn status_message(
    locale: BackendLocale,
    zh: Seq<char>,
    en: Seq<char>,
    status: u16,
    body: Seq<char>,
) -> Seq<char> {
    let head = pick(locale, zh, en) + " "@ + crate::text::decimal(status as nat);
    if body.len() == 0 {
        head
    } else {
        head + pick(locale, "："@, ": "@) + body
    }
}

/// A message that reports an HTTP status and the body that came with it.
pub fn format_status(locale: BackendLocale, zh: &str, en: &str, status: u16, body: &str) -> (r:
    String)
    ensures
        r@ == status_message(locale, zh@, en@, status, body@),
{
    let mut r = localized(locale, zh, en);
    r.append(" ");
    let code = crate::text::u64_to_decimal(status as u64);
    r.append(code.as_str());
    if !body.is_empty() {
        if locale.is_en() {
            r.append(": ");
        } else {
            r.append("：");
        }
        r.append(body);
    }
    r
}

} // verus!
