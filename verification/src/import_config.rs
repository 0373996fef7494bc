//! Reading a quick-connect payload: JSON text, or Base64 of JSON text.
//!
//! The input is tried as JSON first, then as Base64 in the standard,
//! unpadded, URL-safe and unpadded URL-safe alphabets, in that order; the
//! first text that is a JSON object is the payload.  The Base64 and UTF-8
//! decoding happen here; parsing a text as JSON is left to the caller,
//! which hands back, for each candidate text, the object it holds if any.
use vstd::prelude::*;

use crate::codec::{
    base64_standard_decoded, base64_standard_no_pad_decoded, base64_url_safe_decoded,
    base64_url_safe_no_pad_decoded, decode_standard, decode_standard_no_pad, decode_url_safe,
    decode_url_safe_no_pad, opt_bytes, string_from_utf8, utf8_text,
};
use crate::json::{obj_get, text_of, JsonData, JsonMap, JsonValue};
use crate::models::ImportedIntegrationConfig;
use crate::text::{is_blank, is_blank_str, opt_seq, trim, trim_str};

verus! {

/// The text a Base64 decoding gives, when it decoded to UTF-8.
pub open spec fn decoded_text(decoded: Option<Seq<u8>>) -> Seq<Seq<char>> {
    match decoded {
        Some(b) => match utf8_text(b) {
            Some(t) => seq![t],
            None => Seq::empty(),
        },
        None => Seq::empty(),
    }
}

/// The texts tried as JSON for the trimmed input `t`, in order: `t`, then
/// what it decodes to in each Base64 alphabet.
pub open spec fn import_candidate_texts(t: Seq<char>) -> Seq<Seq<char>> {
    seq![t] + decoded_text(base64_standard_decoded(t)) + decoded_text(
        base64_standard_no_pad_decoded(t),
    ) + decoded_text(base64_url_safe_decoded(t)) + decoded_text(
        base64_url_safe_no_pad_decoded(t),
    )
}

/// The view of a list of texts.
pub open spec fn texts_view(v: Seq<String>) -> Seq<Seq<char>> {
    v.map_values(|s: String| s@)
}

fn push_decoded(out: &mut Vec<String>, decoded: Option<Vec<u8>>)
    ensures
        texts_view(final(out)@) == texts_view(old(out)@) + decoded_text(opt_bytes(decoded)),
{
    let ghost before = texts_view(out@);
    if let Some(bytes) = decoded {
        if let Some(text) = string_from_utf8(bytes) {
            out.push(text);
        }
    }
    assert(texts_view(out@) =~= before + decoded_text(opt_bytes(decoded)));
}

/// The texts to try as JSON for `input`, in order: the trimmed input, then
/// its Base64 decodings that are UTF-8.
pub fn import_candidates(input: &str) -> (r: Vec<String>)
    ensures
        texts_view(r@) == import_candidate_texts(trim(input@)),
{
    let t = trim_str(input);
    let mut out: Vec<String> = Vec::new();
    push_decoded(&mut out, decode_standard(t.as_str()));
    push_decoded(&mut out, decode_standard_no_pad(t.as_str()));
    push_decoded(&mut out, decode_url_safe(t.as_str()));
    push_decoded(&mut out, decode_url_safe_no_pad(t.as_str()));
    let ghost decoded = texts_view(out@);
    let mut r: Vec<String> = Vec::new();
    r.push(t);
    r.append(&mut out);
    assert(texts_view(r@) =~= seq![trim(input@)] + decoded);
    r
}

/// The entries of an object, when `d` is one.
pub open spec fn object_entries(d: Option<JsonData>) -> Option<Seq<(Seq<char>, JsonData)>> {
    match d {
        Some(JsonData::Object(es)) => Some(es),
        _ => None,
    }
}

/// The string under `k` of an optional object.
pub open spec fn entry_text(es: Option<Seq<(Seq<char>, JsonData)>>, k: Seq<char>) -> Option<Seq<char>> {
    match es {
        Some(e) => match obj_get(e, k) {
            Some(v) => text_of(v),
            None => None,
        },
        None => None,
    }
}

/// An item of the token list that names a token: an object with a string
/// `token`.
pub open spec fn is_token_item(d: JsonData) -> bool {
    d is Object && entry_text(Some(d->Object_0), "token"@) is Some
}

/// The first item of `items` that names a token.
pub open spec fn first_token_item(items: Seq<JsonData>) -> Option<Seq<(Seq<char>, JsonData)>>
    decreases items.len(),
{
    if items.len() == 0 {
        None
    } else if is_token_item(items[0]) {
        Some(items[0]->Object_0)
    } else {
        first_token_item(items.drop_first())
    }
}

/// The token list of a payload: `token.items`, when it is a list.
pub open spec fn token_items(raw: Seq<(Seq<char>, JsonData)>) -> Seq<JsonData> {
    match object_entries(obj_get(raw, "token"@)) {
        Some(block) => match obj_get(block, "items"@) {
            Some(JsonData::Array(items)) => items,
            _ => Seq::empty(),
        },
        None => Seq::empty(),
    }
}

/// The settings a payload `raw` holds.  The current form keeps them under
/// `token` (`reportEndpoint`, and `items` whose first entry with a token
/// gives `token` and `name`); the legacy form has `endpoint`, `apiKey` and
/// `tokenName` at the top.  The current form wins where both are present.
pub open spec fn imported_from_raw(raw: Seq<(Seq<char>, JsonData)>) -> (
    Option<Seq<char>>,
    Option<Seq<char>>,
    Option<Seq<char>>,
) {
    let block = object_entries(obj_get(raw, "token"@));
    let item = first_token_item(token_items(raw));
    let endpoint = match entry_text(block, "reportEndpoint"@) {
        Some(e) => Some(e),
        None => entry_text(Some(raw), "endpoint"@),
    };
    let token = match entry_text(item, "token"@) {
        Some(t) => Some(t),
        None => entry_text(Some(raw), "apiKey"@),
    };
    let name = match entry_text(item, "name"@) {
        Some(n) => Some(n),
        None => entry_text(Some(raw), "tokenName"@),
    };
    (endpoint, token, name)
}

fn entry_text_of(es: Option<&JsonMap>, k: &str) -> (r: Option<String>)
    ensures
        opt_seq(r) == entry_text(
            match es {
                Some(m) => Some(m@),
                None => None,
            },
            k@,
        ),
{
    match es {
        Some(m) => match m.get(k) {
            Some(v) => match v.as_str() {
                Some(s) => Some(s.to_owned()),
                None => None,
            },
            None => None,
        },
        None => None,
    }
}

fn as_object(v: Option<&JsonValue>) -> (r: Option<&JsonMap>)
    ensures
        match r {
            Some(m) => object_entries(
                match v {
                    Some(x) => Some(x@),
                    None => None,
                },
            ) == Some(m@),
            None => object_entries(
                match v {
                    Some(x) => Some(x@),
                    None => None,
                },
            ) is None,
        },
{
    match v {
        Some(JsonValue::Object(m)) => Some(m),
        _ => None,
    }
}

fn find_token_item(items: &Vec<JsonValue>) -> (r: Option<&JsonMap>)
    ensures
        match r {
            Some(m) => first_token_item(crate::json::items_data(items@)) == Some(m@),
            None => first_token_item(crate::json::items_data(items@)) is None,
        },
{
    proof {
        crate::json::lemma_items_data(items@);
        reveal_strlit("token");
    }
    let ghost all = crate::json::items_data(items@);
    let mut i: usize = 0;
    assert(all.subrange(0, all.len() as int) =~= all);
    while i < items.len()
        invariant
            i <= items.len(),
            all == crate::json::items_data(items@),
            all.len() == items.len(),
            forall|j: int| 0 <= j < items.len() ==> #[trigger] all[j] == items@[j]@,
            first_token_item(all) == first_token_item(all.subrange(i as int, all.len() as int)),
        decreases items.len() - i,
    {
        let ghost rest = all.subrange(i as int, all.len() as int);
        assert(rest.drop_first() =~= all.subrange(i + 1, all.len() as int));
        assert(rest[0] == all[i as int]);
        if let JsonValue::Object(m) = &items[i] {
            if entry_text_of(Some(m), "token").is_some() {
                return Some(m);
            }
        }
        i = i + 1;
    }
    None
}

impl ImportedIntegrationConfig {
    /// Takes `legacy_token` as the token when there is none.
    pub fn with_legacy_token(self, legacy_token: Option<String>) -> (r: Self)
        ensures
            r == (if self.token is None {
                ImportedIntegrationConfig { token: legacy_token, ..self }
            } else {
                self
            }),
    {
        let mut s = self;
        if s.token.is_none() {
            s.token = legacy_token;
        }
        s
    }
}

/// The first object among the parsed candidates, if any.
pub open spec fn first_object(parsed: Seq<Option<JsonMap>>) -> Option<Seq<(Seq<char>, JsonData)>>
    decreases parsed.len(),
{
    if parsed.len() == 0 {
        None
    } else if parsed[0] is Some {
        Some(parsed[0]->Some_0@)
    } else {
        first_object(parsed.drop_first())
    }
}

/// Past candidates that hold no object, the first object is the one in
/// what remains.
pub proof fn lemma_first_object_skip(parsed: Seq<Option<JsonMap>>, i: int)
    requires
        0 <= i <= parsed.len(),
        forall|j: int| 0 <= j < i ==> parsed[j] is None,
    ensures
        first_object(parsed) == first_object(parsed.subrange(i, parsed.len() as int)),
    decreases i,
{
    if i == 0 {
        assert(parsed.subrange(0, parsed.len() as int) =~= parsed);
    } else {
        let rest = parsed.drop_first();
        lemma_first_object_skip(rest, i - 1);
        assert(rest.subrange(i - 1, rest.len() as int) =~= parsed.subrange(i, parsed.len() as int));
    }
}

/// What reading a quick-connect input gives: blank input is refused; else
/// the first object among the candidates' parses is the payload, with the
/// settings it holds; with none, the input is refused as unreadable.
pub open spec fn import_outcome_ok(
    r: Result<ImportedIntegrationConfig, String>,
    input: Seq<char>,
    parsed: Seq<Option<JsonMap>>,
) -> bool {
    if is_blank(input) {
        r is Err && r->Err_0@ == "请先粘贴 Base64 或 JSON 配置。"@
    } else {
        match first_object(parsed) {
            None => r is Err && r->Err_0@ == "无法将输入解析为 Base64 配置或 JSON。"@,
            Some(raw) => {
                &&& r is Ok
                &&& r->Ok_0.raw@ == raw
                &&& (
                    opt_seq(r->Ok_0.report_endpoint),
                    opt_seq(r->Ok_0.token),
                    opt_seq(r->Ok_0.token_name),
                ) == imported_from_raw(raw)
                &&& r->Ok_0.device_name is None
            },
        }
    }
}

/// What a quick-connect input holds: `parsed` gives, for each text of
/// `import_candidates(input)` in order, the object it holds as JSON, if
/// any.  The first object found is the payload.
pub fn parse_import_payload(input: &str, parsed: Vec<Option<JsonMap>>) -> (r: Result<
    ImportedIntegrationConfig,
    String,
>)
    ensures
        import_outcome_ok(r, input@, parsed@),
{
    if is_blank_str(input) {
        return Err("请先粘贴 Base64 或 JSON 配置。".to_owned());
    }
    let mut i: usize = 0;
    while i < parsed.len() && parsed[i].is_none()
        invariant
            i <= parsed.len(),
            forall|j: int| 0 <= j < i ==> parsed@[j] is None,
        decreases parsed.len() - i,
    {
        i = i + 1;
    }
    proof {
        lemma_first_object_skip(parsed@, i as int);
    }
    if i == parsed.len() {
        proof {
            assert(parsed@.subrange(i as int, parsed@.len() as int).len() == 0);
        }
        return Err("无法将输入解析为 Base64 配置或 JSON。".to_owned());
    }
    proof {
        assert(parsed@.subrange(i as int, parsed@.len() as int)[0] == parsed@[i as int]);
    }
    let raw = match &parsed[i] {
        Some(m) => m.duplicate(),
        None => JsonMap::new(),
    };
    proof {
        reveal_strlit("token");
        reveal_strlit("items");
    }
    let block = as_object(raw.get("token"));
    let items: Option<&Vec<JsonValue>> = match block {
        Some(b) => match b.get("items") {
            Some(JsonValue::Array(items)) => Some(items),
            _ => None,
        },
        None => None,
    };
    let item = match items {
        Some(list) => find_token_item(list),
        None => None,
    };
    let legacy_endpoint = entry_text_of(Some(&raw), "endpoint");
    let legacy_api_key = entry_text_of(Some(&raw), "apiKey");
    let legacy_token_name = entry_text_of(Some(&raw), "tokenName");
    let report_endpoint = match entry_text_of(block, "reportEndpoint") {
        Some(e) => Some(e),
        None => legacy_endpoint,
    };
    let token = entry_text_of(item, "token");
    let token_name = match entry_text_of(item, "name") {
        Some(n) => Some(n),
        None => legacy_token_name,
    };
    let config = ImportedIntegrationConfig {
        report_endpoint,
        token,
        token_name,
        device_name: None,
        raw: raw.duplicate(),
    };
    Ok(config.with_legacy_token(legacy_api_key))
}

} // verus!
