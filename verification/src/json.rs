//! JSON documents: the untyped values that travel on the wire.

use vstd::prelude::*;

verus! {

/// A JSON document as the library holds it.
///
/// A number that fits in `i64` is an `Int`; any other number (a fraction, an
/// exponent, an integer beyond `i64`) is a `Number` that keeps its JSON text.
#[derive(Debug)]
pub enum JsonValue {
    Null,
    Bool(bool),
    Int(i64),
    Number(String),
    String(String),
    Array(Vec<JsonValue>),
    Object(Vec<Member>),
}

/// One entry of a JSON object.
#[derive(Debug)]
pub struct Member {
    pub key: String,
    pub value: JsonValue,
}

/// The mathematical content of a [`JsonValue`].
pub enum Json {
    Null,
    Bool(bool),
    Int(int),
    Number(Seq<char>),
    String(Seq<char>),
    Array(Seq<Json>),
    Object(Seq<JsonMember>),
}

/// The mathematical content of a [`Member`].
pub struct JsonMember {
    pub key: Seq<char>,
    pub value: Json,
}

/// The value stored under `key` in a list of object entries: that of the last
/// entry with this key, as a later entry replaces an earlier one.
pub open spec fn lookup(entries: Seq<JsonMember>, key: Seq<char>) -> Option<Json>
    decreases entries.len(),
{
    if entries.len() == 0 {
        None
    } else if entries.last().key == key {
        Some(entries.last().value)
    } else {
        lookup(entries.drop_last(), key)
    }
}

impl Json {
    /// The member `key` of an object; `None` for a missing member and for
    /// anything that is not an object.
    pub open spec fn member(self, key: Seq<char>) -> Option<Json> {
        match self {
            Json::Object(entries) => lookup(entries, key),
            _ => None,
        }
    }

    /// The number as a signed 64-bit integer, where it is one.
    pub open spec fn as_i64(self) -> Option<i64> {
        match self {
            Json::Int(i) if i64::MIN <= i <= i64::MAX => Some(i as i64),
            _ => None,
        }
    }

    /// The number as a signed 32-bit integer, where it is one.
    pub open spec fn as_i32(self) -> Option<i32> {
        match self {
            Json::Int(i) if i32::MIN <= i <= i32::MAX => Some(i as i32),
            _ => None,
        }
    }

    /// The text of a JSON string.
    pub open spec fn as_str(self) -> Option<Seq<char>> {
        match self {
            Json::String(s) => Some(s),
            _ => None,
        }
    }

    /// The truth value of a JSON boolean.
    pub open spec fn as_bool(self) -> Option<bool> {
        match self {
            Json::Bool(b) => Some(b),
            _ => None,
        }
    }

    /// The items of a JSON array.
    pub open spec fn as_array(self) -> Option<Seq<Json>> {
        match self {
            Json::Array(items) => Some(items),
            _ => None,
        }
    }
}

/// The documents of a list, each by its content.
pub open spec fn contents(docs: Seq<JsonValue>) -> Seq<Json> {
    Seq::new(docs.len(), |i: int| docs[i]@)
}

/// The entries of an object, each key with the content of its value.
pub open spec fn entry_contents(entries: Seq<Member>) -> Seq<JsonMember> {
    Seq::new(entries.len(), |i: int| JsonMember { key: entries[i].key@, value: entries[i].value@ })
}

impl View for JsonValue {
    type V = Json;

    open spec fn view(&self) -> Json
        decreases self,
    {
        match self {
            JsonValue::Null => Json::Null,
            JsonValue::Bool(b) => Json::Bool(*b),
            JsonValue::Int(i) => Json::Int(*i as int),
            JsonValue::Number(text) => Json::Number(text@),
            JsonValue::String(s) => Json::String(s@),
            JsonValue::Array(items) => Json::Array(
                Seq::new(
                    items@.len(),
                    |i: int| if 0 <= i < items@.len() { items@[i].view() } else { Json::Null },
                ),
            ),
            JsonValue::Object(entries) => Json::Object(
                Seq::new(
                    entries@.len(),
                    |i: int| if 0 <= i < entries@.len() {
                        JsonMember { key: entries@[i].key@, value: entries@[i].value.view() }
                    } else {
                        JsonMember { key: Seq::empty(), value: Json::Null }
                    },
                ),
            ),
        }
    }
}

/// `serde_json::Value`, the parser's own tree; it only passes through the two
/// conversions below.
#[verifier::external_type_specification]
#[verifier::external_body]
pub struct ExValue(serde_json::Value);

/// What `serde_json::from_str` makes of a text: the document it parses to, or
/// `None` where it rejects the text.
pub uninterp spec fn json_parse(text: Seq<char>) -> Option<Json>;

/// What `serde_json::to_string` writes for a document, or `None` where the
/// document cannot be written.
pub uninterp spec fn json_print(doc: Json) -> Option<Seq<char>>;

/// Moves a `serde_json::Value` into a [`JsonValue`], variant by variant. A
/// number is an `Int` where `Number::as_i64` gives one, else it is kept as the
/// text that `Number`'s `Display` writes. Nothing is claimed of the result.
#[verifier::external_body]
fn lift(value: serde_json::Value) -> JsonValue {
    match value {
        serde_json::Value::Null => JsonValue::Null,
        serde_json::Value::Bool(b) => JsonValue::Bool(b),
        serde_json::Value::Number(n) => match n.as_i64() {
            Some(i) => JsonValue::Int(i),
            None => JsonValue::Number(n.to_string()),
        },
        serde_json::Value::String(s) => JsonValue::String(s),
        serde_json::Value::Array(a) => JsonValue::Array(a.into_iter().map(lift).collect()),
        serde_json::Value::Object(m) => JsonValue::Object(
            m.into_iter().map(|(key, v)| Member { key, value: lift(v) }).collect(),
        ),
    }
}

/// Moves a [`JsonValue`] into a `serde_json::Value`, variant by variant. A
/// `Number` goes through `Number::from_str`; where that rejects the text there
/// is no value. Nothing is claimed of the result.
#[verifier::external_body]
fn lower(doc: &JsonValue) -> Option<serde_json::Value> {
    Some(match doc {
        JsonValue::Null => serde_json::Value::Null,
        JsonValue::Bool(b) => serde_json::Value::Bool(*b),
        JsonValue::Int(i) => serde_json::Value::from(*i),
        JsonValue::Number(text) => serde_json::Value::Number(text.parse().ok()?),
        JsonValue::String(s) => serde_json::Value::String(s.clone()),
        JsonValue::Array(a) => serde_json::Value::Array(
            a.iter().map(lower).collect::<Option<_>>()?,
        ),
        JsonValue::Object(m) => serde_json::Value::Object(
            m.iter().map(|e| Some((e.key.clone(), lower(&e.value)?))).collect::<Option<_>>()?,
        ),
    })
}

/// `serde_json::from_str` at type `Value`: the parsed document is
/// `json_parse` of the text, and there is none where the parser fails.
#[verifier::external_body]
fn read_document(text: &str) -> (doc: Option<JsonValue>)
    ensures
        match doc {
            Some(d) => json_parse(text@) == Some(d@),
            None => json_parse(text@) is None,
        },
{
    serde_json::from_str::<serde_json::Value>(text).ok().map(lift)
}

/// `serde_json::to_string` on the document's `Value`: the text written is
/// `json_print` of the document, and there is none where writing fails.
#[verifier::external_body]
fn write_document(doc: &JsonValue) -> (text: Option<String>)
    ensures
        match text {
            Some(t) => json_print(doc@) == Some(t@),
            None => json_print(doc@) is None,
        },
{
    lower(doc).and_then(|value| serde_json::to_string(&value).ok())
}

/// The content of an array is the content of its items, in order.
pub proof fn lemma_array_view(doc: JsonValue)
    requires
        doc is Array,
    ensures
        doc@ is Array,
        doc@->Array_0 == contents(doc->Array_0@),
{
    assert(doc@->Array_0 =~= contents(doc->Array_0@));
}

/// The content of an object is its entries, in order, each with the content
/// of its value.
pub proof fn lemma_object_view(doc: JsonValue)
    requires
        doc is Object,
    ensures
        doc@ is Object,
        doc@->Object_0 == entry_contents(doc->Object_0@),
{
    let entries = doc->Object_0;
    assert(doc@->Object_0 =~= entry_contents(entries@));
}

impl Clone for JsonValue {
    fn clone(&self) -> (copy: JsonValue)
        ensures
            copy@ == self@,
    {
        self.duplicate()
    }
}

impl Clone for Member {
    fn clone(&self) -> (copy: Member)
        ensures
            copy.key@ == self.key@,
            copy.value@ == self.value@,
    {
        Member { key: self.key.clone(), value: self.value.duplicate() }
    }
}

impl JsonValue {
    /// Parses JSON text. The result is exactly what the parser makes of the
    /// text, see [`json_parse`].
    pub fn parse(text: &str) -> (doc: Option<JsonValue>)
        ensures
            match doc {
                Some(d) => json_parse(text@) == Some(d@),
                None => json_parse(text@) is None,
            },
    {
        read_document(text)
    }

    /// Writes this document as compact JSON text, see [`json_print`].
    pub fn to_text(&self) -> (text: Option<String>)
        ensures
            match text {
                Some(t) => json_print(self@) == Some(t@),
                None => json_print(self@) is None,
            },
    {
        write_document(self)
    }

    /// Whether this is JSON `null`.
    pub fn is_null(&self) -> (b: bool)
        ensures
            b == (self@ is Null),
    {
        match self {
            JsonValue::Null => true,
            _ => false,
        }
    }

    /// Whether this is a JSON object.
    pub fn is_object(&self) -> (b: bool)
        ensures
            b == (self@ is Object),
    {
        match self {
            JsonValue::Object(_) => true,
            _ => false,
        }
    }

    /// The number as a signed 64-bit integer, where it is one.
    pub fn as_i64(&self) -> (n: Option<i64>)
        ensures
            n == self@.as_i64(),
    {
        match self {
            JsonValue::Int(i) => Some(*i),
            _ => None,
        }
    }

    /// The truth value of a JSON boolean.
    pub fn as_bool(&self) -> (b: Option<bool>)
        ensures
            b == self@.as_bool(),
    {
        match self {
            JsonValue::Bool(b) => Some(*b),
            _ => None,
        }
    }

    /// The text of a JSON string.
    pub fn as_str(&self) -> (text: Option<&str>)
        ensures
            match text {
                Some(t) => self@.as_str() == Some(t@),
                None => self@.as_str() is None,
            },
    {
        match self {
            JsonValue::String(s) => Some(s.as_str()),
            _ => None,
        }
    }

    /// The items of a JSON array.
    pub fn as_array(&self) -> (items: Option<&Vec<JsonValue>>)
        ensures
            match items {
                Some(v) => self@.as_array() == Some(contents(v@)),
                None => self@.as_array() is None,
            },
    {
        match self {
            JsonValue::Array(items) => {
                assert(contents(items@) =~= self@->Array_0);
                Some(items)
            },
            _ => None,
        }
    }

    /// The member `key` of an object, see [`Json::member`].
    pub fn get(&self, key: &str) -> (found: Option<&JsonValue>)
        ensures
            match found {
                Some(v) => self@.member(key@) == Some(v@),
                None => self@.member(key@) is None,
            },
    {
        match self {
            JsonValue::Object(entries) => {
                let wanted = String::from_str(key);
                let ghost model = self@->Object_0;
                proof {
                    lemma_object_view(*self);
                    assert(model.take(model.len() as int) =~= model);
                }
                let mut i: usize = entries.len();
                while i > 0
                    invariant
                        self@.member(key@) == lookup(model, key@),
                        wanted@ == key@,
                        i <= entries.len(),
                        model == entry_contents(entries@),
                        lookup(model, key@) == lookup(model.take(i as int), key@),
                    decreases i,
                {
                    let ghost prefix = model.take(i as int);
                    i -= 1;
                    assert(prefix.last() == model[i as int]);
                    assert(model[i as int].key == entries@[i as int].key@);
                    assert(model[i as int].value == entries@[i as int].value@);
                    assert(prefix.drop_last() =~= model.take(i as int));
                    if entries[i].key == wanted {
                        return Some(&entries[i].value);
                    }
                }
                None
            },
            _ => None,
        }
    }

    /// A copy of this document.
    pub fn duplicate(&self) -> (copy: JsonValue)
        ensures
            copy@ == self@,
        decreases self,
    {
        match self {
            JsonValue::Null => JsonValue::Null,
            JsonValue::Bool(b) => JsonValue::Bool(*b),
            JsonValue::Int(i) => JsonValue::Int(*i),
            JsonValue::Number(text) => JsonValue::Number(text.clone()),
            JsonValue::String(s) => JsonValue::String(s.clone()),
            JsonValue::Array(items) => {
                let mut copies: Vec<JsonValue> = Vec::new();
                let mut i: usize = 0;
                while i < items.len()
                    invariant
                        *self == JsonValue::Array(*items),
                        i <= items.len(),
                        copies.len() == i,
                        forall|k: int| 0 <= k < i ==> copies@[k]@ == items@[k]@,
                    decreases items.len() - i,
                {
                    assert(decreases_to!(self => self->Array_0));
                    copies.push(items[i].duplicate());
                    i += 1;
                }
                let copy = JsonValue::Array(copies);
                assert(copy@->Array_0 =~= self@->Array_0);
                copy
            },
            JsonValue::Object(entries) => {
                let mut copies: Vec<Member> = Vec::new();
                let mut i: usize = 0;
                while i < entries.len()
                    invariant
                        *self == JsonValue::Object(*entries),
                        i <= entries.len(),
                        copies.len() == i,
                        forall|k: int|
                            0 <= k < i ==> copies@[k].key@ == entries@[k].key@
                                && copies@[k].value@ == entries@[k].value@,
                    decreases entries.len() - i,
                {
                    let key = entries[i].key.clone();
                    assert(decreases_to!(self => self->Object_0));
                    let value = entries[i].value.duplicate();
                    copies.push(Member { key, value });
                    i += 1;
                }
                let copy = JsonValue::Object(copies);
                assert(copy@->Object_0 =~= self@->Object_0);
                copy
            },
        }
    }
}

} // verus!
