use vstd::prelude::*;

verus! {

/// A JSON document as a tree of plain values.
///
/// A number that fits `i64` is an `Int`; any other number is kept as the
/// text that stands for it. The entries of an object are kept in a list, and
/// where a key occurs more than once the last entry is the one that counts.
#[derive(Debug)]
pub enum Json {
    Null,
    Bool(bool),
    Int(i64),
    Number(String),
    Str(String),
    Array(Vec<Json>),
    Object(Vec<(String, Json)>),
}

/// The mathematical value of a [`Json`] tree.
pub enum JsonValue {
    Null,
    Bool(bool),
    Int(int),
    Number(Seq<char>),
    Str(Seq<char>),
    Array(Seq<JsonValue>),
    Object(Seq<(Seq<char>, JsonValue)>),
}

/// The value of a tree: each text by its characters, each list by its items.
pub open spec fn json_value(tree: Json) -> JsonValue
    decreases tree,
{
    match tree {
        Json::Null => JsonValue::Null,
        Json::Bool(b) => JsonValue::Bool(b),
        Json::Int(n) => JsonValue::Int(n as int),
        Json::Number(t) => JsonValue::Number(t@),
        Json::Str(s) => JsonValue::Str(s@),
        Json::Array(items) => JsonValue::Array(
            Seq::new(
                items@.len(),
                |i: int|
                    if 0 <= i < items@.len() {
                        json_value(items@[i])
                    } else {
                        JsonValue::Null
                    },
            ),
        ),
        Json::Object(entries) => JsonValue::Object(
            Seq::new(
                entries@.len(),
                |i: int|
                    if 0 <= i < entries@.len() {
                        (entries@[i].0@, json_value(entries@[i].1))
                    } else {
                        (Seq::empty(), JsonValue::Null)
                    },
            ),
        ),
    }
}

impl View for Json {
    type V = JsonValue;

    open spec fn view(&self) -> JsonValue {
        json_value(*self)
    }
}

/// The value that the last entry of `entries` with the key `key` holds.
pub open spec fn lookup(entries: Seq<(Seq<char>, JsonValue)>, key: Seq<char>) -> Option<JsonValue>
    decreases entries.len(),
{
    if entries.len() == 0 {
        None
    } else if entries.last().0 == key {
        Some(entries.last().1)
    } else {
        lookup(entries.drop_last(), key)
    }
}

impl JsonValue {
    /// The member `key` of an object; `None` for a missing key and for
    /// anything that is not an object.
    pub open spec fn field(self, key: Seq<char>) -> Option<JsonValue> {
        match self {
            JsonValue::Object(entries) => lookup(entries, key),
            _ => None,
        }
    }

    /// The text of a string value.
    pub open spec fn text(self) -> Option<Seq<char>> {
        match self {
            JsonValue::Str(s) => Some(s),
            _ => None,
        }
    }

    /// The elements of an array value.
    pub open spec fn elements(self) -> Option<Seq<JsonValue>> {
        match self {
            JsonValue::Array(items) => Some(items),
            _ => None,
        }
    }

    /// The number that an integer value holds.
    pub open spec fn integer(self) -> Option<int> {
        match self {
            JsonValue::Int(n) => Some(n),
            _ => None,
        }
    }
}

/// No entry of `entries` from index `from` on has the key `key`: the lookup
/// then only depends on the entries before `from`.
pub proof fn lemma_lookup_skips(entries: Seq<(Seq<char>, JsonValue)>, key: Seq<char>, from: int)
    requires
        0 <= from <= entries.len(),
        forall|k: int| from <= k < entries.len() ==> entries[k].0 != key,
    ensures
        lookup(entries, key) == lookup(entries.take(from), key),
    decreases entries.len() - from,
{
    if from == entries.len() {
        assert(entries.take(from) =~= entries);
    } else {
        lemma_lookup_skips(entries.drop_last(), key, from);
        assert(entries.drop_last().take(from) =~= entries.take(from));
    }
}

impl Json {
    /// A string value with the characters of `text`.
    pub fn string(text: &str) -> (res: Json)
        ensures
            res@ == JsonValue::Str(text@),
    {
        Json::Str(text.to_owned())
    }

    /// An object with the given entries, in their order.
    pub fn object(entries: Vec<(String, Json)>) -> (res: Json)
        ensures
            res@ == JsonValue::Object(entry_views(entries@)),
    {
        let res = Json::Object(entries);
        assert(res@->Object_0 =~= entry_views(entries@));
        res
    }

    /// An array with the given items, in their order.
    pub fn array(items: Vec<Json>) -> (res: Json)
        ensures
            res@ == JsonValue::Array(views(items@)),
    {
        let res = Json::Array(items);
        assert(res@->Array_0 =~= views(items@));
        res
    }

    /// The member `key` of an object.
    pub fn get(&self, key: &str) -> (res: Option<&Json>)
        ensures
            match res {
                Some(found) => self@.field(key@) == Some(found@),
                None => self@.field(key@) is None,
            },
    {
        match self {
            Json::Object(entries) => {
                let ghost all = entry_views(entries@);
                assert(self@->Object_0 =~= all);
                let mut i: usize = entries.len();
                while i > 0
                    invariant
                        i <= entries.len(),
                        all == entry_views(entries@),
                        self@ == JsonValue::Object(all),
                        forall|k: int| i <= k < all.len() ==> all[k].0 != key@,
                    decreases i,
                {
                    i -= 1;
                    if crate::text::str_eq(entries[i].0.as_str(), key) {
                        proof {
                            lemma_lookup_skips(all, key@, i as int + 1);
                            assert(all.take(i as int + 1).last() == all[i as int]);
                        }
                        return Some(&entries[i].1);
                    }
                }
                proof {
                    lemma_lookup_skips(all, key@, 0);
                }
                None
            },
            _ => None,
        }
    }

    /// The text of a string value.
    pub fn as_str(&self) -> (res: Option<&str>)
        ensures
            match res {
                Some(s) => self@.text() == Some(s@),
                None => self@.text() is None,
            },
    {
        match self {
            Json::Str(s) => Some(s.as_str()),
            _ => None,
        }
    }

    /// The elements of an array value.
    pub fn as_array(&self) -> (res: Option<&Vec<Json>>)
        ensures
            match res {
                Some(items) => self@ == JsonValue::Array(views(items@)),
                None => self@.elements() is None,
            },
    {
        match self {
            Json::Array(items) => {
                assert(self@->Array_0 =~= views(items@));
                Some(items)
            },
            _ => None,
        }
    }

    /// The number that an integer value holds.
    pub fn as_i64(&self) -> (res: Option<i64>)
        ensures
            match res {
                Some(n) => self@.integer() == Some(n as int),
                None => self@.integer() is None,
            },
    {
        match self {
            Json::Int(n) => Some(*n),
            _ => None,
        }
    }
}

/// The keys and values of a list of object entries, one by one.
pub open spec fn entry_views(entries: Seq<(String, Json)>) -> Seq<(Seq<char>, JsonValue)> {
    Seq::new(entries.len(), |i: int| (entries[i].0@, entries[i].1@))
}

/// The values of a list of trees, one by one.
pub open spec fn views(items: Seq<Json>) -> Seq<JsonValue> {
    Seq::new(items.len(), |i: int| items[i]@)
}

/// `serde_json::Value`, the tree that the JSON reader and writer work on.
#[verifier::external_type_specification]
#[verifier::external_body]
pub struct ExSerdeValue(serde_json::Value);

/// `serde_json::Error`, what the JSON reader says of a text it refuses.
#[verifier::external_type_specification]
#[verifier::external_body]
pub struct ExSerdeError(serde_json::Error);

/// What `serde_json::from_str` reads from a text: the value of the tree, or
/// `None` where it refuses the text.
pub uninterp spec fn json_parse(text: Seq<char>) -> Option<JsonValue>;

/// The message with which `serde_json::from_str` refuses a text.
pub uninterp spec fn json_parse_error(text: Seq<char>) -> Seq<char>;

/// What `to_string` writes for a `serde_json::Error`: its message.
pub uninterp spec fn serde_error_text(error: serde_json::Error) -> Seq<char>;

/// What a `serde_json::Value` holds.
pub uninterp spec fn serde_model(value: serde_json::Value) -> JsonValue;

/// What `serde_json::Value::to_string` writes for a value.
pub uninterp spec fn serde_text(value: serde_json::Value) -> Seq<char>;

/// The compact JSON text that `serde_json` writes for a tree of this value.
pub uninterp spec fn json_text(value: JsonValue) -> Seq<char>;

/// Calls `serde_json::from_str` for a `serde_json::Value`. Trusted: whether
/// the text is accepted, what is read from it, and the message with which it
/// is refused, depend on the text alone.
#[verifier::external_body]
fn serde_parse(text: &str) -> (res: Result<serde_json::Value, serde_json::Error>)
    ensures
        match res {
            Ok(value) => json_parse(text@) == Some(serde_model(value)),
            Err(error) => json_parse(text@) is None && serde_error_text(error) == json_parse_error(
                text@,
            ),
        },
{
    serde_json::from_str::<serde_json::Value>(text)
}

/// Copies a `serde_json::Value` into a [`Json`], variant by variant. Trusted:
/// the copy holds what the value holds, a number that `as_i64` gives as an
/// `Int` and any other number as the text `to_string` writes for it.
#[verifier::external_body]
fn json_from_serde(value: &serde_json::Value) -> (res: Json)
    ensures
        res@ == serde_model(*value),
{
    match value {
        serde_json::Value::Null => Json::Null,
        serde_json::Value::Bool(b) => Json::Bool(*b),
        serde_json::Value::Number(n) => n.as_i64().map_or_else(|| Json::Number(n.to_string()), Json::Int),
        serde_json::Value::String(s) => Json::Str(s.clone()),
        serde_json::Value::Array(items) => Json::Array(items.iter().map(json_from_serde).collect()),
        serde_json::Value::Object(map) => Json::Object(
            map.iter().map(|(k, v)| (k.clone(), json_from_serde(v))).collect(),
        ),
    }
}

/// Copies a [`Json`] into a `serde_json::Value`, variant by variant; a number
/// text that `serde_json` does not read as a number becomes `null`. Trusted:
/// what `serde_json` writes for the copy depends on the value of the tree alone.
#[verifier::external_body]
fn json_to_serde(tree: &Json) -> (res: serde_json::Value)
    ensures
        serde_text(res) == json_text(tree@),
{
    match tree {
        Json::Null => serde_json::Value::Null,
        Json::Bool(b) => serde_json::Value::Bool(*b),
        Json::Int(n) => serde_json::Value::from(*n),
        Json::Number(t) => t.parse().map_or(serde_json::Value::Null, serde_json::Value::Number),
        Json::Str(s) => serde_json::Value::String(s.clone()),
        Json::Array(items) => serde_json::Value::Array(items.iter().map(json_to_serde).collect()),
        Json::Object(entries) => serde_json::Value::Object(
            entries.iter().map(|(k, v)| (k.clone(), json_to_serde(v))).collect(),
        ),
    }
}

/// Calls `to_string` on a `serde_json::Value`, which writes it as compact
/// JSON. Trusted: the text depends on the value alone.
#[verifier::external_body]
fn serde_to_string(value: &serde_json::Value) -> (res: String)
    ensures
        res@ == serde_text(*value),
{
    value.to_string()
}

/// Calls `to_string` on a `serde_json::Error` for its message. Trusted: the
/// message depends on the error alone.
#[verifier::external_body]
fn serde_error_message(error: &serde_json::Error) -> (res: String)
    ensures
        res@ == serde_error_text(*error),
{
    error.to_string()
}

/// A text that is no JSON document, with the reader's message that says why.
#[derive(Debug)]
pub struct SyntaxError {
    pub message: String,
    pub text: String,
}

/// Whether `error` is the refusal of `text`: it holds the reader's message
/// and the text itself, unchanged.
pub open spec fn is_refusal_of(error: SyntaxError, text: Seq<char>) -> bool {
    error.message@ == json_parse_error(text) && error.text@ == text
}

impl Json {
    /// Reads a JSON document; a text that is none is refused with the
    /// reader's message, and handed back.
    pub fn parse(text: &str) -> (res: Result<Json, SyntaxError>)
        ensures
            match res {
                Ok(tree) => json_parse(text@) == Some(tree@),
                Err(error) => json_parse(text@) is None && is_refusal_of(error, text@),
            },
    {
        match serde_parse(text) {
            Ok(value) => Ok(json_from_serde(&value)),
            Err(error) => Err(
                SyntaxError { message: serde_error_message(&error), text: text.to_owned() },
            ),
        }
    }

    /// Writes the tree as compact JSON.
    pub fn to_text(&self) -> (res: String)
        ensures
            res@ == json_text(self@),
    {
        let value = json_to_serde(self);
        serde_to_string(&value)
    }
}

} // verus!
