//! JSON values, as the library holds them.

use vstd::prelude::*;

use crate::text::same;

use serde_json::Value;

verus! {

/// A JSON value.
#[derive(Debug, PartialEq, Eq)]
pub enum Json {
    /// `null`.
    Null,
    /// `true` or `false`.
    Bool(bool),
    /// A number, held as the text it is written as.
    Number(String),
    /// A string.
    String(String),
    /// An array.
    Array(Vec<Json>),
    /// An object, as its entries.
    Object(Vec<(String, Json)>),
}

/// What a JSON value means, with its strings as characters.
pub enum JsonValue {
    /// `null`.
    Null,
    /// A boolean.
    Bool(bool),
    /// A number, by its text.
    Number(Seq<char>),
    /// A string.
    String(Seq<char>),
    /// An array.
    Array(Seq<JsonValue>),
    /// An object's entries, in order.
    Object(Seq<(Seq<char>, JsonValue)>),
}

/// The meaning of one value.
pub open spec fn json_view(j: Json) -> JsonValue
    decreases j,
{
    match j {
        Json::Null => JsonValue::Null,
        Json::Bool(b) => JsonValue::Bool(b),
        Json::Number(t) => JsonValue::Number(t@),
        Json::String(t) => JsonValue::String(t@),
        Json::Array(items) => {
            proof { broadcast use vstd::std_specs::vec::axiom_vec_decreases_to_view; }
            JsonValue::Array(items_view(items@))
        },
        Json::Object(entries) => {
            proof { broadcast use vstd::std_specs::vec::axiom_vec_decreases_to_view; }
            JsonValue::Object(entries_view(entries@))
        },
    }
}

/// The meaning of a sequence of values.
pub open spec fn items_view(s: Seq<Json>) -> Seq<JsonValue>
    decreases s,
{
    if s.len() == 0 {
        Seq::empty()
    } else {
        items_view(s.drop_last()).push(json_view(s.last()))
    }
}

/// The meaning of a sequence of entries.
pub open spec fn entries_view(s: Seq<(String, Json)>) -> Seq<(Seq<char>, JsonValue)>
    decreases s,
{
    if s.len() == 0 {
        Seq::empty()
    } else {
        entries_view(s.drop_last()).push((s.last().0@, json_view(s.last().1)))
    }
}

impl View for Json {
    type V = JsonValue;

    open spec fn view(&self) -> JsonValue {
        json_view(*self)
    }
}


/// Extending a sequence of values extends its meaning by the one more value.
pub proof fn lemma_items_view_push(s: Seq<Json>, j: Json)
    ensures
        items_view(s.push(j)) == items_view(s).push(j@),
{
    assert(s.push(j).drop_last() =~= s);
}

/// Extending a sequence of entries extends its meaning by the one more entry.
pub proof fn lemma_entries_view_push(s: Seq<(String, Json)>, e: (String, Json))
    ensures
        entries_view(s.push(e)) == entries_view(s).push((e.0@, e.1@)),
{
    assert(s.push(e).drop_last() =~= s);
}

/// A sequence's meaning has one value per element, each the element's meaning.
pub proof fn lemma_items_view_index(s: Seq<Json>)
    ensures
        items_view(s).len() == s.len(),
        forall|i: int| 0 <= i < s.len() ==> #[trigger] items_view(s)[i] == s[i]@,
    decreases s.len(),
{
    if s.len() > 0 {
        lemma_items_view_index(s.drop_last());
    }
}

/// An entry sequence's meaning has one entry per entry, each with its key and meaning.
pub proof fn lemma_entries_view_index(s: Seq<(String, Json)>)
    ensures
        entries_view(s).len() == s.len(),
        forall|i: int|
            0 <= i < s.len() ==> #[trigger] entries_view(s)[i] == (s[i].0@, s[i].1@),
    decreases s.len(),
{
    if s.len() > 0 {
        lemma_entries_view_index(s.drop_last());
    }
}

/// A copy of a sequence of values, with the same meaning.
pub fn copy_items(items: &Vec<Json>) -> (r: Vec<Json>)
    ensures
        items_view(r@) == items_view(items@),
    decreases items,
{
    broadcast use vstd::std_specs::vec::axiom_vec_index_decreases;

    let mut out: Vec<Json> = Vec::new();
    let mut i: usize = 0;
    while i < items.len()
        invariant
            i <= items@.len(),
            items_view(out@) == items_view(items@.subrange(0, i as int)),
        decreases items@.len() - i,
    {
        proof {
            assert(decreases_to!(items => items[i as int]));
        }
        let x = items[i].duplicate();
        proof {
            lemma_items_view_push(out@, x);
            lemma_items_view_push(items@.subrange(0, i as int), items@[i as int]);
            assert(items@.subrange(0, i as int).push(items@[i as int]) =~= items@.subrange(
                0,
                i + 1,
            ));
        }
        out.push(x);
        i = i + 1;
    }
    assert(items@.subrange(0, items@.len() as int) =~= items@);
    out
}

/// A copy of an object's entries, with the same keys and meanings.
pub fn copy_entries(entries: &Vec<(String, Json)>) -> (r: Vec<(String, Json)>)
    ensures
        entries_view(r@) == entries_view(entries@),
    decreases entries,
{
    broadcast use vstd::std_specs::vec::axiom_vec_index_decreases;

    let mut out: Vec<(String, Json)> = Vec::new();
    let mut i: usize = 0;
    while i < entries.len()
        invariant
            i <= entries@.len(),
            entries_view(out@) == entries_view(entries@.subrange(0, i as int)),
        decreases entries@.len() - i,
    {
        proof {
            assert(decreases_to!(entries => entries[i as int]));
        }
        let key = entries[i].0.clone();
        let x = entries[i].1.duplicate();
        proof {
            lemma_entries_view_push(out@, (key, x));
            lemma_entries_view_push(entries@.subrange(0, i as int), entries@[i as int]);
            assert(entries@.subrange(0, i as int).push(entries@[i as int]) =~= entries@.subrange(
                0,
                i + 1,
            ));
        }
        out.push((key, x));
        i = i + 1;
    }
    assert(entries@.subrange(0, entries@.len() as int) =~= entries@);
    out
}

impl Json {
    /// A copy of this value, with the same meaning.
    pub fn duplicate(&self) -> (r: Json)
        ensures
            r@ == self@,
        decreases self,
    {
        match self {
            Json::Null => Json::Null,
            Json::Bool(b) => Json::Bool(*b),
            Json::Number(t) => Json::Number(t.clone()),
            Json::String(t) => Json::String(t.clone()),
            Json::Array(items) => Json::Array(copy_items(items)),
            Json::Object(entries) => Json::Object(copy_entries(entries)),
        }
    }
}

/// The value stored under `key` in an object's entries: the first entry that has the key.
pub open spec fn lookup(entries: Seq<(Seq<char>, JsonValue)>, key: Seq<char>) -> Option<JsonValue>
    decreases entries.len(),
{
    if entries.len() == 0 {
        None
    } else if entries[0].0 == key {
        Some(entries[0].1)
    } else {
        lookup(entries.drop_first(), key)
    }
}

/// The value under `key`, when `value` is an object that has the key.
pub open spec fn value_get(value: JsonValue, key: Seq<char>) -> Option<JsonValue> {
    match value {
        JsonValue::Object(entries) => lookup(entries, key),
        _ => None,
    }
}

/// The words for a JSON value's kind, for a message that has to name it.
pub open spec fn kind_words(value: JsonValue) -> Seq<char> {
    match value {
        JsonValue::Null => "null"@,
        JsonValue::Bool(_) => "a boolean"@,
        JsonValue::Number(_) => "a number"@,
        JsonValue::String(_) => "a string"@,
        JsonValue::Array(_) => "an array"@,
        JsonValue::Object(_) => "an object"@,
    }
}

/// The words for a JSON value's kind, for a message that has to name it.
pub fn json_kind(value: &Json) -> (r: &'static str)
    ensures
        r@ == kind_words(value@),
{
    match value {
        Json::Null => "null",
        Json::Bool(_) => "a boolean",
        Json::Number(_) => "a number",
        Json::String(_) => "a string",
        Json::Array(_) => "an array",
        Json::Object(_) => "an object",
    }
}

/// A number's text read as an unsigned integer: ASCII digits only, and small enough.
pub open spec fn digits_value(s: Seq<char>) -> int
    decreases s.len(),
{
    if s.len() == 0 {
        0
    } else {
        digits_value(s.drop_last()) * 10 + (s.last() as int - '0' as int)
    }
}

/// Whether every character of `s` is an ASCII digit.
pub open spec fn all_digits(s: Seq<char>) -> bool {
    forall|i: int| 0 <= i < s.len() ==> '0' <= #[trigger] s[i] <= '9'
}

/// The unsigned integer a number's text holds, as `as_u64` reads one: the text is
/// digits alone (a negative or a fractional number is not one) and fits in 64 bits.
pub open spec fn number_u64(text: Seq<char>) -> Option<u64> {
    if text.len() > 0 && all_digits(text) && digits_value(text) <= u64::MAX {
        Some(digits_value(text) as u64)
    } else {
        None
    }
}

/// The unsigned integer a value holds, when it is a number that is one.
pub open spec fn value_u64(value: JsonValue) -> Option<u64> {
    match value {
        JsonValue::Number(text) => number_u64(text),
        _ => None,
    }
}

/// Each digit added keeps the value non-negative.
proof fn lemma_digits_value_nonneg(s: Seq<char>)
    requires
        all_digits(s),
    ensures
        digits_value(s) >= 0,
    decreases s.len(),
{
    if s.len() > 0 {
        assert(all_digits(s.drop_last()));
        lemma_digits_value_nonneg(s.drop_last());
        assert('0' <= s[s.len() - 1] <= '9');
    }
}

/// The value of text that starts with `s` is at least the value of `s`, scaled.
proof fn lemma_digits_value_grows(s: Seq<char>, c: char)
    requires
        all_digits(s),
        '0' <= c <= '9',
    ensures
        digits_value(s.push(c)) == digits_value(s) * 10 + (c as int - '0' as int),
        digits_value(s.push(c)) >= digits_value(s),
{
    assert(s.push(c).drop_last() =~= s);
    lemma_digits_value_nonneg(s);
}

/// The unsigned integer `text` holds, read as [`number_u64`] reads it.
pub fn parse_u64(text: &str) -> (r: Option<u64>)
    ensures
        r == number_u64(text@),
{
    broadcast use vstd::string::group_string_axioms;

    let length = text.unicode_len();
    if length == 0 {
        return None;
    }
    let mut value: u64 = 0;
    let mut fits = true;
    for c in it: text.chars()
        invariant
            it.seq() == text@,
            length == text@.len(),
            all_digits(text@.subrange(0, it.index())),
            fits ==> value == digits_value(text@.subrange(0, it.index())),
            !fits ==> digits_value(text@.subrange(0, it.index())) > u64::MAX,
    {
        if !('0' <= c && c <= '9') {
            assert(!all_digits(text@));
            return None;
        }
        proof {
            let prefix = text@.subrange(0, it.index());
            assert(text@.subrange(0, it.index() + 1) =~= prefix.push(c));
            lemma_digits_value_grows(prefix, c);
            assert(all_digits(prefix.push(c)));
        }
        let d = (c as u32 - '0' as u32) as u64;
        if fits {
            if value > (u64::MAX - d) / 10 {
                fits = false;
            } else {
                value = value * 10 + d;
            }
        }
    }
    assert(text@.subrange(0, length as int) =~= text@);
    if fits {
        Some(value)
    } else {
        None
    }
}

impl Json {
    /// The value under `key`, when this is an object that has the key.
    pub fn get(&self, key: &str) -> (r: Option<&Json>)
        ensures
            match r {
                Some(v) => value_get(self@, key@) == Some(v@),
                None => value_get(self@, key@) is None,
            },
    {
        match self {
            Json::Object(entries) => {
                proof {
                    lemma_entries_view_index(entries@);
                }
                let ghost view = entries_view(entries@);
                let mut i: usize = 0;
                assert(view.skip(0) =~= view);
                while i < entries.len()
                    invariant
                        i <= entries@.len(),
                        view == entries_view(entries@),
                        self@ == JsonValue::Object(view),
                        view.len() == entries@.len(),
                        forall|k: int|
                            0 <= k < entries@.len() ==> #[trigger] view[k] == (
                                entries@[k].0@,
                                entries@[k].1@,
                            ),
                        lookup(view, key@) == lookup(view.skip(i as int), key@),
                    decreases entries@.len() - i,
                {
                    assert(view.skip(i as int).drop_first() =~= view.skip(i + 1));
                    if same(entries[i].0.as_str(), key) {
                        assert(view.skip(i as int)[0] == view[i as int]);
                        return Some(&entries[i].1);
                    }
                    i = i + 1;
                }
                None
            },
            _ => None,
        }
    }

    /// The text of this value, when it is a string.
    pub fn as_str(&self) -> (r: Option<&str>)
        ensures
            match r {
                Some(t) => self@ == JsonValue::String(t@),
                None => !(self@ is String),
            },
    {
        match self {
            Json::String(t) => Some(t.as_str()),
            _ => None,
        }
    }

    /// The unsigned integer this value holds, when it is a number that is one.
    pub fn as_u64(&self) -> (r: Option<u64>)
        ensures
            r == value_u64(self@),
    {
        match self {
            Json::Number(t) => parse_u64(t.as_str()),
            _ => None,
        }
    }
}


/// `serde_json::Value`, the tree `serde_json` reads JSON text into and writes it from.
#[verifier::external_type_specification]
#[verifier::external_body]
pub struct ExJsonValue(Value);

/// A `serde_json` tree as the library holds it: each number by the text `serde_json`
/// writes for it, each object's entries in the order its map walks them.
#[verifier::external_body]
fn from_serde(value: &Value) -> Json {
    match value {
        Value::Null => Json::Null,
        Value::Bool(b) => Json::Bool(*b),
        Value::Number(n) => Json::Number(n.to_string()),
        Value::String(s) => Json::String(s.clone()),
        Value::Array(items) => Json::Array(items.iter().map(from_serde).collect()),
        Value::Object(map) => Json::Object(map.iter().map(|(k, v)| (k.clone(), from_serde(v))).collect()),
    }
}

/// A library value as a `serde_json` tree: a number's text read back by `serde_json`
/// (`null` where it does not read as a number), an object's entries inserted in order,
/// so that a later duplicate key replaces an earlier one.
#[verifier::external_body]
fn to_serde(json: &Json) -> Value {
    match json {
        Json::Null => Value::Null,
        Json::Bool(b) => Value::Bool(*b),
        Json::Number(t) => serde_json::from_str(t).unwrap_or(Value::Null),
        Json::String(s) => Value::String(s.clone()),
        Json::Array(items) => Value::Array(items.iter().map(to_serde).collect()),
        Json::Object(entries) => Value::Object(entries.iter().map(|(k, v)| (k.clone(), to_serde(v))).collect()),
    }
}

/// What `serde_json::from_str::<Value>` makes of a text, as the library holds it; `None`
/// where it refuses the text.
pub uninterp spec fn parsed_json(text: Seq<char>) -> Option<JsonValue>;

/// Read JSON text with `serde_json::from_str::<Value>`. Its contract claims only that the
/// outcome is a function of the text: the value it gives, or that it refuses it, is
/// [`parsed_json`] of the text. The reason given with a refusal is `serde_json`'s message,
/// and nothing is said of it.
#[verifier::external_body]
pub(crate) fn parse_json_text(text: &str) -> (r: Result<Json, String>)
    ensures
        match r {
            Ok(v) => parsed_json(text@) == Some(v@),
            Err(_) => parsed_json(text@) is None,
        },
{
    match serde_json::from_str::<Value>(text) {
        Ok(value) => Ok(from_serde(&value)),
        Err(error) => Err(error.to_string()),
    }
}

/// The text `serde_json::to_string` writes for a value: compact, with an object's keys
/// sorted, since its default map keeps them sorted.
pub uninterp spec fn compact_json(value: JsonValue) -> Seq<char>;

/// The text `serde_json::to_string_pretty` writes for a value: indented by two spaces, with
/// an object's keys sorted.
pub uninterp spec fn pretty_json(value: JsonValue) -> Seq<char>;

/// The text the library prints for a value: indented when `pretty`, compact otherwise.
pub open spec fn json_text(value: JsonValue, pretty: bool) -> Seq<char> {
    if pretty {
        pretty_json(value)
    } else {
        compact_json(value)
    }
}

/// Write a value with `serde_json::to_string`. Its contract claims only that the text is a
/// function of the value, [`compact_json`]. Writing a `serde_json` tree cannot fail; the
/// empty text stands in for a failure that does not happen.
#[verifier::external_body]
pub(crate) fn write_compact(value: &Json) -> (r: String)
    ensures
        r@ == compact_json(value@),
{
    serde_json::to_string(&to_serde(value)).unwrap_or_default()
}

/// Write a value with `serde_json::to_string_pretty`. Its contract claims only that the text
/// is a function of the value, [`pretty_json`].
#[verifier::external_body]
pub(crate) fn write_pretty(value: &Json) -> (r: String)
    ensures
        r@ == pretty_json(value@),
{
    serde_json::to_string_pretty(&to_serde(value)).unwrap_or_default()
}

} // verus!
