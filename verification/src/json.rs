//! A JSON value model.
//!
//! Requests and responses of the Waken-Wa server, reporter metadata and log
//! payloads are JSON documents.  The library works on this model; turning
//! text into it and back is left to the caller.  Each value has a view,
//! `JsonData`, made of sequences only, over which contracts are stated.
use vstd::prelude::*;

use crate::text::str_eq;

verus! {

/// A JSON number: non-negative and negative integers exactly, any other
/// number by its textual form.
#[derive(Debug, PartialEq)]
pub enum JsonNumber {
    PosInt(u64),
    NegInt(i64),
    Float(String),
}

/// A JSON value.
#[derive(Debug, PartialEq)]
pub enum JsonValue {
    Null,
    Bool(bool),
    Number(JsonNumber),
    Text(String),
    Array(Vec<JsonValue>),
    Object(JsonMap),
}

/// A JSON object: its entries in insertion order.  A lookup finds the last
/// entry of a key.
#[derive(Debug, PartialEq)]
pub struct JsonMap {
    pub entries: Vec<(String, JsonValue)>,
}

/// The mathematical content of a JSON value.
pub enum JsonData {
    Null,
    Bool(bool),
    PosInt(u64),
    NegInt(i64),
    Float(Seq<char>),
    Text(Seq<char>),
    Array(Seq<JsonData>),
    Object(Seq<(Seq<char>, JsonData)>),
}

/// The content of a JSON value.
pub open spec fn json_data(j: JsonValue) -> JsonData
    decreases j,
{
    match j {
        JsonValue::Null => JsonData::Null,
        JsonValue::Bool(b) => JsonData::Bool(b),
        JsonValue::Number(JsonNumber::PosInt(n)) => JsonData::PosInt(n),
        JsonValue::Number(JsonNumber::NegInt(n)) => JsonData::NegInt(n),
        JsonValue::Number(JsonNumber::Float(s)) => JsonData::Float(s@),
        JsonValue::Text(s) => JsonData::Text(s@),
        JsonValue::Array(items) => JsonData::Array(items_data(items@)),
        JsonValue::Object(m) => JsonData::Object(entries_data(m.entries@)),
    }
}

/// The contents of a sequence of values.
pub open spec fn items_data(s: Seq<JsonValue>) -> Seq<JsonData>
    decreases s,
{
    if s.len() == 0 {
        Seq::empty()
    } else {
        items_data(s.drop_last()).push(json_data(s.last()))
    }
}

/// The contents of a sequence of object entries.
pub open spec fn entries_data(s: Seq<(String, JsonValue)>) -> Seq<(Seq<char>, JsonData)>
    decreases s,
{
    if s.len() == 0 {
        Seq::empty()
    } else {
        entries_data(s.drop_last()).push((s.last().0@, json_data(s.last().1)))
    }
}

/// `items_data` maps each value to its content.
pub proof fn lemma_items_data(s: Seq<JsonValue>)
    ensures
        items_data(s).len() == s.len(),
        forall|i: int| 0 <= i < s.len() ==> #[trigger] items_data(s)[i] == json_data(s[i]),
    decreases s.len(),
{
    if s.len() > 0 {
        lemma_items_data(s.drop_last());
    }
}

/// `entries_data` maps each entry to its key's view and its value's content.
pub proof fn lemma_entries_data(s: Seq<(String, JsonValue)>)
    ensures
        entries_data(s).len() == s.len(),
        forall|i: int|
            0 <= i < s.len() ==> #[trigger] entries_data(s)[i] == (s[i].0@, json_data(s[i].1)),
    decreases s.len(),
{
    if s.len() > 0 {
        lemma_entries_data(s.drop_last());
    }
}

impl View for JsonValue {
    type V = JsonData;

    open spec fn view(&self) -> JsonData {
        json_data(*self)
    }
}

impl View for JsonMap {
    type V = Seq<(Seq<char>, JsonData)>;

    open spec fn view(&self) -> Seq<(Seq<char>, JsonData)> {
        entries_data(self.entries@)
    }
}

/// The value of the last entry of `es` whose key is `k`.
pub open spec fn obj_get(es: Seq<(Seq<char>, JsonData)>, k: Seq<char>) -> Option<JsonData>
    decreases es.len(),
{
    if es.len() == 0 {
        None
    } else if es.last().0 == k {
        Some(es.last().1)
    } else {
        obj_get(es.drop_last(), k)
    }
}

/// `a` and `b` hold the same value for every key but `k`.
pub open spec fn same_except(a: Seq<(Seq<char>, JsonData)>, b: Seq<(Seq<char>, JsonData)>, k: Seq<char>) -> bool {
    forall|k2: Seq<char>| k2 != k ==> #[trigger] obj_get(a, k2) == obj_get(b, k2)
}

/// The value under key `k` when `d` is an object (`Value::get`).
pub open spec fn field(d: JsonData, k: Seq<char>) -> Option<JsonData> {
    match d {
        JsonData::Object(es) => obj_get(es, k),
        _ => None,
    }
}

/// The string held by `d`, if any (`Value::as_str`).
pub open spec fn text_of(d: JsonData) -> Option<Seq<char>> {
    match d {
        JsonData::Text(s) => Some(s),
        _ => None,
    }
}

/// The boolean held by `d`, if any (`Value::as_bool`).
pub open spec fn bool_of(d: JsonData) -> Option<bool> {
    match d {
        JsonData::Bool(b) => Some(b),
        _ => None,
    }
}

/// `d` as a `u64`, if it is a non-negative integer (`Value::as_u64`).
pub open spec fn u64_of(d: JsonData) -> Option<u64> {
    match d {
        JsonData::PosInt(n) => Some(n),
        _ => None,
    }
}

/// The field `k` of `d`, as a string.
pub open spec fn text_field(d: JsonData, k: Seq<char>) -> Option<Seq<char>> {
    match field(d, k) {
        Some(v) => text_of(v),
        None => None,
    }
}

/// The field `k` of an optional value.
pub open spec fn opt_field(d: Option<JsonData>, k: Seq<char>) -> Option<JsonData> {
    match d {
        Some(v) => field(v, k),
        None => None,
    }
}

/// The string held by an optional value.
pub open spec fn opt_text_of(d: Option<JsonData>) -> Option<Seq<char>> {
    match d {
        Some(v) => text_of(v),
        None => None,
    }
}

/// The `error` field of a response as a string, else its `message` field.
pub open spec fn error_message_of(d: JsonData) -> Option<Seq<char>> {
    match text_field(d, "error"@) {
        Some(e) => Some(e),
        None => text_field(d, "message"@),
    }
}

/// A response body as JSON: the parsed document, or `{"raw": text}` when
/// the text is not JSON.
pub open spec fn response_document(text: Seq<char>, parsed: Option<JsonData>) -> JsonData {
    match parsed {
        Some(d) => d,
        None => JsonData::Object(seq![("raw"@, JsonData::Text(text))]),
    }
}

/// The number for an integer, as `serde_json` stores it.
pub open spec fn int_data(n: i64) -> JsonData {
    if n < 0 {
        JsonData::NegInt(n)
    } else {
        JsonData::PosInt(n as u64)
    }
}

/// An optional string as JSON: the string, or `null`.
pub open spec fn opt_text_data(s: Option<Seq<char>>) -> JsonData {
    match s {
        Some(t) => JsonData::Text(t),
        None => JsonData::Null,
    }
}

/// An optional boolean as JSON: the boolean, or `null`.
pub open spec fn opt_bool_data(b: Option<bool>) -> JsonData {
    match b {
        Some(x) => JsonData::Bool(x),
        None => JsonData::Null,
    }
}

/// An optional integer as JSON: the number, or `null`.
pub open spec fn opt_int_data(n: Option<i64>) -> JsonData {
    match n {
        Some(x) => int_data(x),
        None => JsonData::Null,
    }
}

proof fn lemma_obj_get_prefix(es: Seq<(Seq<char>, JsonData)>, i: int, k: Seq<char>)
    requires
        0 <= i < es.len(),
    ensures
        obj_get(es.take(i + 1), k) == if es[i].0 == k {
            Some(es[i].1)
        } else {
            obj_get(es.take(i), k)
        },
{
    assert(es.take(i + 1).drop_last() =~= es.take(i));
    assert(es.take(i + 1).last() == es[i]);
}

impl JsonMap {
    /// An empty object.
    pub fn new() -> (m: JsonMap)
        ensures
            m@ == Seq::<(Seq<char>, JsonData)>::empty(),
    {
        let m = JsonMap { entries: Vec::new() };
        assert(m@ =~= Seq::<(Seq<char>, JsonData)>::empty());
        m
    }

    /// Whether the object has no entries.
    pub fn is_empty(&self) -> (b: bool)
        ensures
            b == (self@.len() == 0),
    {
        proof {
            lemma_entries_data(self.entries@);
        }
        self.entries.len() == 0
    }

    /// The value stored under `k` (`Map::get`).
    pub fn get(&self, k: &str) -> (r: Option<&JsonValue>)
        ensures
            r is Some == obj_get(self@, k@) is Some,
            r is Some ==> r.unwrap()@ == obj_get(self@, k@).unwrap(),
    {
        let ghost es = self@;
        proof {
            lemma_entries_data(self.entries@);
        }
        let mut i = self.entries.len();
        assert(es.take(i as int) =~= es);
        while i > 0
            invariant
                i <= self.entries.len() == es.len(),
                es == self@,
                forall|j: int|
                    0 <= j < es.len() ==> #[trigger] es[j] == (
                        self.entries@[j].0@,
                        json_data(self.entries@[j].1),
                    ),
                obj_get(es, k@) == obj_get(es.take(i as int), k@),
            decreases i,
        {
            proof {
                lemma_obj_get_prefix(es, i - 1, k@);
            }
            if str_eq(self.entries[i - 1].0.as_str(), k) {
                return Some(&self.entries[i - 1].1);
            }
            i = i - 1;
        }
        assert(es.take(0) =~= Seq::<(Seq<char>, JsonData)>::empty());
        None
    }

    /// Whether `k` has a value (`Map::contains_key`).
    pub fn contains_key(&self, k: &str) -> (b: bool)
        ensures
            b == obj_get(self@, k@) is Some,
    {
        self.get(k).is_some()
    }

    /// Adds an entry at the end, without looking for an earlier entry of
    /// the same key.
    pub fn push_new(&mut self, k: String, v: JsonValue)
        ensures
            final(self)@ == old(self)@.push((k@, v@)),
    {
        let ghost before = self.entries@;
        self.entries.push((k, v));
        assert(self.entries@.drop_last() =~= before);
    }

    /// Stores `v` under `k`, replacing any earlier value (`Map::insert`).
    pub fn insert(&mut self, k: String, v: JsonValue)
        ensures
            obj_get(final(self)@, k@) == Some(v@),
            same_except(final(self)@, old(self)@, k@),
            final(self)@.len() > 0,
    {
        let ghost es = self@;
        let ghost raw = self.entries@;
        proof {
            lemma_entries_data(self.entries@);
        }
        let mut i = self.entries.len();
        assert(es.take(i as int) =~= es);
        while i > 0
            invariant
                i <= self.entries.len() == es.len(),
                es == self@,
                es == old(self)@,
                raw == self.entries@,
                forall|j: int|
                    0 <= j < es.len() ==> #[trigger] es[j] == (
                        self.entries@[j].0@,
                        json_data(self.entries@[j].1),
                    ),
                obj_get(es, k@) == obj_get(es.take(i as int), k@),
                forall|j: int| i <= j < es.len() ==> es[j].0 != k@,
            decreases i,
        {
            proof {
                lemma_obj_get_prefix(es, i - 1, k@);
            }
            if str_eq(self.entries[i - 1].0.as_str(), k.as_str()) {
                let ghost kv = k@;
                let ghost vv = v@;
                self.entries.set(i - 1, (k, v));
                proof {
                    lemma_entries_data(self.entries@);
                    let ns = self@;
                    assert(ns =~= es.update(i - 1, (kv, vv)));
                    assert forall|k2: Seq<char>| k2 != kv implies obj_get(self@, k2) == obj_get(
                        es,
                        k2,
                    ) by {
                        lemma_obj_get_update(es, i - 1, kv, vv, k2);
                    }
                    lemma_obj_get_update(es, i - 1, kv, vv, kv);
                    assert(same_except(self@, es, kv));
                }
                return;
            }
            i = i - 1;
        }
        let ghost kv = k@;
        let ghost vv = v@;
        self.entries.push((k, v));
        proof {
            assert(self.entries@.drop_last() =~= raw);
            assert(self@ == es.push((kv, vv)));
            assert(self@.drop_last() =~= es);
        }
    }

    /// Removes every value stored under `k` (`Map::remove`).
    pub fn remove(&mut self, k: &str)
        ensures
            obj_get(final(self)@, k@) is None,
            same_except(final(self)@, old(self)@, k@),
    {
        let ghost es = self@;
        proof {
            lemma_entries_data(self.entries@);
        }
        let mut i = self.entries.len();
        assert(es.take(i as int) =~= es);
        while i > 0
            invariant
                i <= self.entries.len() <= es.len(),
                self@.take(i as int) == es.take(i as int),
                forall|j: int| i <= j < self@.len() ==> self@[j].0 != k@,
                forall|k2: Seq<char>| k2 != k@ ==> obj_get(self@, k2) == obj_get(es, k2),
                obj_get(self@, k@) == obj_get(es.take(i as int), k@),
                self@.len() == self.entries@.len(),
                forall|j: int|
                    0 <= j < self@.len() ==> #[trigger] self@[j] == (
                        self.entries@[j].0@,
                        json_data(self.entries@[j].1),
                    ),
            decreases i,
        {
            let ghost before = self@;
            proof {
                assert(before[i - 1] == before.take(i as int)[i - 1]);
                assert(es[i - 1] == es.take(i as int)[i - 1]);
                lemma_obj_get_prefix(es, i - 1, k@);
                assert(before.take(i - 1) =~= before.take(i as int).take(i - 1));
                assert(es.take(i - 1) =~= es.take(i as int).take(i - 1));
            }
            if str_eq(self.entries[i - 1].0.as_str(), k) {
                let _ = self.entries.remove(i - 1);
                proof {
                    lemma_entries_data(self.entries@);
                    assert(self@ =~= before.remove(i - 1));
                    assert(self@.take(i - 1) =~= before.take(i - 1));
                    assert forall|k2: Seq<char>| k2 != k@ implies obj_get(self@, k2) == obj_get(
                        before,
                        k2,
                    ) by {
                        lemma_obj_get_remove(before, i - 1, k@, k2);
                    }
                    lemma_obj_get_remove(before, i - 1, k@, k@);
                    lemma_obj_get_prefix(before, i - 1, k@);
                }
            } else {
                proof {
                    lemma_obj_get_prefix(before, i - 1, k@);
                }
            }
            i = i - 1;
        }
        proof {
            assert(es.take(0) =~= Seq::<(Seq<char>, JsonData)>::empty());
        }
    }

    /// A copy of this object.
    pub fn duplicate(&self) -> (r: JsonMap)
        ensures
            r@ == self@,
        decreases self, 1nat,
    {
        let mut out: Vec<(String, JsonValue)> = Vec::new();
        let mut i: usize = 0;
        proof {
            lemma_entries_data(self.entries@);
        }
        while i < self.entries.len()
            invariant
                i <= self.entries.len(),
                out@.len() == i,
                forall|j: int|
                    0 <= j < i ==> (#[trigger] out@[j]).0@ == self.entries@[j].0@ && json_data(
                        out@[j].1,
                    ) == json_data(self.entries@[j].1),
            decreases self.entries.len() - i,
        {
            proof {
                assert(decreases_to!(self.entries => self.entries@));
                assert(decreases_to!(self.entries@ => self.entries@[i as int]));
                assert(decreases_to!(self.entries@[i as int] => self.entries@[i as int].1));
            }
            let key = self.entries[i].0.clone();
            let value = self.entries[i].1.duplicate();
            out.push((key, value));
            i = i + 1;
        }
        let r = JsonMap { entries: out };
        proof {
            lemma_entries_data(r.entries@);
            assert(r@ =~= self@);
        }
        r
    }
}

proof fn lemma_obj_get_update(
    es: Seq<(Seq<char>, JsonData)>,
    i: int,
    k: Seq<char>,
    v: JsonData,
    k2: Seq<char>,
)
    requires
        0 <= i < es.len(),
        es[i].0 == k,
        forall|j: int| i < j < es.len() ==> es[j].0 != k,
    ensures
        obj_get(es.update(i, (k, v)), k2) == if k2 == k {
            Some(v)
        } else {
            obj_get(es, k2)
        },
    decreases es.len(),
{
    let ns = es.update(i, (k, v));
    if i == es.len() - 1 {
        assert(ns.last() == (k, v));
        assert(ns.drop_last() =~= es.drop_last());
    } else {
        assert(ns.last() == es.last());
        assert(ns.drop_last() =~= es.drop_last().update(i, (k, v)));
        lemma_obj_get_update(es.drop_last(), i, k, v, k2);
    }
}

proof fn lemma_obj_get_remove(
    es: Seq<(Seq<char>, JsonData)>,
    i: int,
    k: Seq<char>,
    k2: Seq<char>,
)
    requires
        0 <= i < es.len(),
        es[i].0 == k,
        forall|j: int| i < j < es.len() ==> es[j].0 != k,
    ensures
        obj_get(es.remove(i), k2) == if k2 == k {
            obj_get(es.take(i), k2)
        } else {
            obj_get(es, k2)
        },
    decreases es.len(),
{
    let ns = es.remove(i);
    if i == es.len() - 1 {
        assert(ns =~= es.drop_last());
        assert(es.take(i) =~= es.drop_last());
    } else {
        assert(ns.last() == es.last());
        assert(ns.drop_last() =~= es.drop_last().remove(i));
        assert(es.drop_last().take(i) =~= es.take(i));
        lemma_obj_get_remove(es.drop_last(), i, k, k2);
        if k2 == k {
            lemma_obj_get_no_key_suffix(es, i, k);
        }
    }
}

proof fn lemma_obj_get_no_key_suffix(es: Seq<(Seq<char>, JsonData)>, i: int, k: Seq<char>)
    requires
        0 <= i < es.len(),
        forall|j: int| i < j < es.len() ==> es[j].0 != k,
    ensures
        obj_get(es.remove(i), k) == obj_get(es.take(i), k),
    decreases es.len() - i,
{
    let ns = es.remove(i);
    if i == es.len() - 1 {
        assert(ns =~= es.take(i));
    } else {
        assert(ns.last() == es.last());
        assert(ns.drop_last() =~= es.drop_last().remove(i));
        assert(es.drop_last().take(i) =~= es.take(i));
        lemma_obj_get_no_key_suffix(es.drop_last(), i, k);
    }
}

impl JsonNumber {
    /// The number for an integer (`Number::from(i64)`).
    pub fn from_i64(n: i64) -> (r: JsonNumber)
        ensures
            JsonValue::Number(r)@ == int_data(n),
    {
        if n < 0 {
            JsonNumber::NegInt(n)
        } else {
            JsonNumber::PosInt(n as u64)
        }
    }
}

impl Clone for JsonNumber {
    fn clone(&self) -> (r: Self)
        ensures
            r == *self,
    {
        match self {
            JsonNumber::PosInt(n) => JsonNumber::PosInt(*n),
            JsonNumber::NegInt(n) => JsonNumber::NegInt(*n),
            JsonNumber::Float(s) => JsonNumber::Float(s.clone()),
        }
    }
}

impl Clone for JsonValue {
    fn clone(&self) -> (r: Self)
        ensures
            r@ == self@,
    {
        self.duplicate()
    }
}

impl Clone for JsonMap {
    fn clone(&self) -> (r: Self)
        ensures
            r@ == self@,
    {
        self.duplicate()
    }
}

impl JsonValue {
    /// A copy of this value.
    pub fn duplicate(&self) -> (r: JsonValue)
        ensures
            r@ == self@,
        decreases self, 0nat,
    {
        match self {
            JsonValue::Null => JsonValue::Null,
            JsonValue::Bool(b) => JsonValue::Bool(*b),
            JsonValue::Number(n) => JsonValue::Number(n.clone()),
            JsonValue::Text(s) => JsonValue::Text(s.clone()),
            JsonValue::Array(items) => {
                proof {
                    assert(*self == JsonValue::Array(*items));
                    assert(decreases_to!(*self => *items));
                }
                let mut out: Vec<JsonValue> = Vec::new();
                let mut i: usize = 0;
                proof {
                    lemma_items_data(items@);
                }
                while i < items.len()
                    invariant
                        *self == JsonValue::Array(*items),
                        decreases_to!(*self => *items),
                        i <= items.len(),
                        out@.len() == i,
                        forall|j: int| 0 <= j < i ==> json_data(#[trigger] out@[j]) == json_data(items@[j]),
                    decreases items.len() - i,
                {
                    proof {
                        assert(decreases_to!(*self => *items));
                        assert(decreases_to!(*items => items@));
                        assert(decreases_to!(items@ => items@[i as int]));
                        assert(decreases_to!(*self => items@[i as int]));
                    }
                    let item = items[i].duplicate();
                    out.push(item);
                    i = i + 1;
                }
                proof {
                    lemma_items_data(out@);
                    assert(items_data(out@) =~= items_data(items@));
                }
                JsonValue::Array(out)
            },
            JsonValue::Object(m) => JsonValue::Object(m.duplicate()),
        }
    }

    /// The value under key `k` when this is an object (`Value::get`).
    pub fn get(&self, k: &str) -> (r: Option<&JsonValue>)
        ensures
            r is Some == field(self@, k@) is Some,
            r is Some ==> r.unwrap()@ == field(self@, k@).unwrap(),
    {
        match self {
            JsonValue::Object(m) => m.get(k),
            _ => None,
        }
    }

    /// The string held, if this is a string (`Value::as_str`).
    pub fn as_str(&self) -> (r: Option<&str>)
        ensures
            r is Some == text_of(self@) is Some,
            r is Some ==> r.unwrap()@ == text_of(self@).unwrap(),
    {
        match self {
            JsonValue::Text(s) => Some(s.as_str()),
            _ => None,
        }
    }

    /// The boolean held, if this is a boolean (`Value::as_bool`).
    pub fn as_bool(&self) -> (r: Option<bool>)
        ensures
            r == bool_of(self@),
    {
        match self {
            JsonValue::Bool(b) => Some(*b),
            _ => None,
        }
    }

    /// The number as a `u64`, if it is a non-negative integer (`Value::as_u64`).
    pub fn as_u64(&self) -> (r: Option<u64>)
        ensures
            r == u64_of(self@),
    {
        match self {
            JsonValue::Number(JsonNumber::PosInt(n)) => Some(*n),
            _ => None,
        }
    }

    /// A string value holding `s`.
    pub fn text(s: &str) -> (r: JsonValue)
        ensures
            r@ == JsonData::Text(s@),
    {
        JsonValue::Text(s.to_owned())
    }

    /// `s` as a string value, or `null`.
    pub fn opt_text(s: Option<String>) -> (r: JsonValue)
        ensures
            r@ == opt_text_data(
                match s {
                    Some(t) => Some(t@),
                    None => None,
                },
            ),
    {
        match s {
            Some(t) => JsonValue::Text(t),
            None => JsonValue::Null,
        }
    }

    /// `b` as a boolean value, or `null`.
    pub fn opt_bool(b: Option<bool>) -> (r: JsonValue)
        ensures
            r@ == opt_bool_data(b),
    {
        match b {
            Some(x) => JsonValue::Bool(x),
            None => JsonValue::Null,
        }
    }

    /// `n` as a number, or `null`.
    pub fn opt_int(n: Option<i64>) -> (r: JsonValue)
        ensures
            r@ == opt_int_data(n),
    {
        match n {
            Some(x) => JsonValue::Number(JsonNumber::from_i64(x)),
            None => JsonValue::Null,
        }
    }
}

/// The `error` field of a response as a string, else its `message` field.
pub fn error_message(payload: &JsonValue) -> (r: Option<String>)
    ensures
        crate::text::opt_seq(r) == error_message_of(payload@),
{
    proof {
        reveal_strlit("error");
        reveal_strlit("message");
    }
    if let Some(e) = payload.get("error") {
        if let Some(s) = e.as_str() {
            return Some(s.to_owned());
        }
    }
    if let Some(m) = payload.get("message") {
        if let Some(s) = m.as_str() {
            return Some(s.to_owned());
        }
    }
    None
}

/// The document for a response body: `parsed` when the text parsed as JSON,
/// else an object holding the text under `raw`.
pub fn response_value(text: &str, parsed: Option<JsonValue>) -> (r: JsonValue)
    ensures
        r@ == response_document(text@, crate::json::opt_data(parsed)),
{
    match parsed {
        Some(v) => v,
        None => {
            let mut m = JsonMap::new();
            m.push_new("raw".to_owned(), JsonValue::Text(text.to_owned()));
            JsonValue::Object(m)
        },
    }
}

/// The content of an optional value.
pub open spec fn opt_data(v: Option<JsonValue>) -> Option<JsonData> {
    match v {
        Some(x) => Some(x@),
        None => None,
    }
}

/// A key that only entry `i` has is found with that entry's value.
pub proof fn lemma_obj_get_only(es: Seq<(Seq<char>, JsonData)>, i: int, k: Seq<char>)
    requires
        0 <= i < es.len(),
        es[i].0 == k,
        forall|j: int| 0 <= j < es.len() && j != i ==> #[trigger] es[j].0 != k,
    ensures
        obj_get(es, k) == Some(es[i].1),
    decreases es.len(),
{
    if i != es.len() - 1 {
        let d = es.drop_last();
        assert(es.last() == es[es.len() - 1]);
        assert forall|j: int| 0 <= j < d.len() && j != i implies #[trigger] d[j].0 != k by {
            assert(d[j] == es[j]);
        }
        assert(d[i] == es[i]);
        lemma_obj_get_only(d, i, k);
    }
}

/// Looking a key up after an entry was appended: the appended entry when
/// it has that key, else what was there before.
pub proof fn lemma_obj_get_push(es: Seq<(Seq<char>, JsonData)>, e: (Seq<char>, JsonData), k: Seq<char>)
    ensures
        obj_get(es.push(e), k) == if e.0 == k {
            Some(e.1)
        } else {
            obj_get(es, k)
        },
{
    assert(es.push(e).drop_last() =~= es);
}

} // verus!
