//! A JSON document model of the library's own, the navigation the decoders
//! need, and the two calls into serde_json: reading text and quoting a string.
use vstd::prelude::*;

verus! {

broadcast use vstd::std_specs::vec::axiom_vec_index_decreases;

/// The mathematical model of a JSON document.
///
/// A number is kept only as far as the decoders read it: its value when it is
/// a non-negative integer that fits in `u64`, and `None` otherwise.
pub enum Json {
    Null,
    Bool(bool),
    Number(Option<u64>),
    Str(Seq<char>),
    Array(Seq<Json>),
    Object(Seq<(Seq<char>, Json)>),
}

/// An executable JSON document; its view is a [`Json`].
pub enum JsonValue {
    Null,
    Bool(bool),
    Number(Option<u64>),
    Str(String),
    Array(Vec<JsonValue>),
    Object(Vec<(String, JsonValue)>),
}

impl View for JsonValue {
    type V = Json;

    open spec fn view(&self) -> Json
        decreases self,
    {
        match self {
            JsonValue::Null => Json::Null,
            JsonValue::Bool(b) => Json::Bool(*b),
            JsonValue::Number(n) => Json::Number(*n),
            JsonValue::Str(s) => Json::Str(s@),
            JsonValue::Array(items) => Json::Array(
                Seq::new(
                    items.len() as nat,
                    |i: int|
                        if 0 <= i < items.len() {
                            items[i].view()
                        } else {
                            Json::Null
                        },
                ),
            ),
            JsonValue::Object(fields) => Json::Object(
                Seq::new(
                    fields.len() as nat,
                    |i: int|
                        if 0 <= i < fields.len() {
                            (fields[i].0@, fields[i].1.view())
                        } else {
                            (Seq::empty(), Json::Null)
                        },
                ),
            ),
        }
    }
}

/// The value of the first member named `key` among `members`.
pub open spec fn lookup(members: Seq<(Seq<char>, Json)>, key: Seq<char>) -> Option<Json>
    decreases members.len(),
{
    if members.len() == 0 {
        None
    } else if members[0].0 == key {
        Some(members[0].1)
    } else {
        lookup(members.drop_first(), key)
    }
}

/// The strings among `items`, in order; every other item is left out.
pub open spec fn strings_in(items: Seq<Json>) -> Seq<Seq<char>>
    decreases items.len(),
{
    if items.len() == 0 {
        Seq::empty()
    } else {
        let rest = strings_in(items.drop_last());
        match items.last() {
            Json::Str(s) => rest.push(s),
            _ => rest,
        }
    }
}

impl Json {
    /// The member `key` of an object; nothing for any other kind of value.
    pub open spec fn field(self, key: Seq<char>) -> Option<Json> {
        match self {
            Json::Object(members) => lookup(members, key),
            _ => None,
        }
    }
}

/// What `field` yields, read as a string.
pub open spec fn opt_str(v: Option<Json>) -> Option<Seq<char>> {
    match v {
        Some(Json::Str(s)) => Some(s),
        _ => None,
    }
}

/// What `field` yields, read as a boolean.
pub open spec fn opt_bool(v: Option<Json>) -> Option<bool> {
    match v {
        Some(Json::Bool(b)) => Some(b),
        _ => None,
    }
}

/// What `field` yields, read as a non-negative integer.
pub open spec fn opt_u64(v: Option<Json>) -> Option<u64> {
    match v {
        Some(Json::Number(Some(n))) => Some(n),
        _ => None,
    }
}

/// What `field` yields, read as an array.
pub open spec fn opt_array(v: Option<Json>) -> Option<Seq<Json>> {
    match v {
        Some(Json::Array(items)) => Some(items),
        _ => None,
    }
}

/// The document that serde_json reads from `text`, or `None` where `text`
/// is not JSON.
pub uninterp spec fn parsed_json(text: Seq<char>) -> Option<Json>;

/// The JSON string literal that serde_json writes for `s`.
pub uninterp spec fn json_quoted(s: Seq<char>) -> Seq<char>;

/// A character that serde_json writes as it is inside a string literal.
pub open spec fn is_plain_json_char(c: char) -> bool {
    c != '"' && c != '\\' && (c as u32) >= 0x20
}

/// Text that serde_json writes between quotes as it is.
pub open spec fn is_plain_json_text(s: Seq<char>) -> bool {
    forall|i: int| 0 <= i < s.len() ==> is_plain_json_char(#[trigger] s[i])
}

/// serde_json's document type, carried opaquely into `from_serde`.
#[verifier::external_type_specification]
#[verifier::external_body]
pub struct ExValue(serde_json::Value);

/// Relies on serde_json's `Value` enum: converts its variants one for one,
/// keeping of a number only `Number::as_u64`.
#[verifier::external_body]
fn from_serde(v: serde_json::Value) -> JsonValue {
    match v {
        serde_json::Value::Null => JsonValue::Null,
        serde_json::Value::Bool(b) => JsonValue::Bool(b),
        serde_json::Value::Number(n) => JsonValue::Number(n.as_u64()),
        serde_json::Value::String(s) => JsonValue::Str(s),
        serde_json::Value::Array(a) => JsonValue::Array(a.into_iter().map(from_serde).collect()),
        serde_json::Value::Object(m) => JsonValue::Object(
            m.into_iter().map(|(k, x)| (k, from_serde(x))).collect(),
        ),
    }
}

/// Relies on serde_json::from_str into a `Value`: the document depends on the
/// text alone, and text that is not JSON gives an error.
#[verifier::external_body]
pub(crate) fn parse_json(text: &str) -> (r: Option<JsonValue>)
    ensures
        match r {
            Some(v) => parsed_json(text@) == Some(v@),
            None => parsed_json(text@) is None,
        },
{
    serde_json::from_str::<serde_json::Value>(text).ok().map(from_serde)
}

/// Relies on serde_json::to_string on a `str`: a string literal that depends on
/// the characters alone, which quotes a character other than a quote, a
/// backslash or a control character below U+0020 as it is.
#[verifier::external_body]
pub(crate) fn quote_json(s: &str) -> (r: String)
    ensures
        r@ == json_quoted(s@),
        is_plain_json_text(s@) ==> r@ == seq!['"'] + s@ + seq!['"'],
{
    serde_json::to_string(s).unwrap_or_default()
}

impl JsonValue {
    /// The member `key` of an object; `None` for any other kind of value.
    pub fn get(&self, key: &str) -> (r: Option<&JsonValue>)
        ensures
            match r {
                Some(x) => self@.field(key@) == Some(x@),
                None => self@.field(key@) is None,
            },
    {
        match self {
            JsonValue::Object(fields) => {
                let k = key.to_owned();
                proof {
                    reveal_with_fuel(<JsonValue as View>::view, 2);
                }
                let ghost members = self@->Object_0;
                assert(members.subrange(0, members.len() as int) =~= members);
                let mut i: usize = 0;
                while i < fields.len()
                    invariant
                        0 <= i <= fields.len(),
                        members.len() == fields.len(),
                        self@ == Json::Object(members),
                        k@ == key@,
                        forall|j: int|
                            0 <= j < fields.len() ==> #[trigger] members[j] == (
                            fields[j].0@,
                            fields[j].1@,
                        ),
                        lookup(members, key@) == lookup(
                            members.subrange(i as int, members.len() as int),
                            key@,
                        ),
                    decreases fields.len() - i,
                {
                    let ghost rest = members.subrange(i as int, members.len() as int);
                    assert(rest[0] == members[i as int]);
                    if fields[i].0 == k {
                        return Some(&fields[i].1);
                    }
                    assert(rest.drop_first() =~= members.subrange(
                        i + 1,
                        members.len() as int,
                    ));
                    i = i + 1;
                }
                None
            },
            _ => None,
        }
    }

    /// This value as a string, if it is one.
    pub fn as_str(&self) -> (r: Option<&String>)
        ensures
            match r {
                Some(s) => self@ == Json::Str(s@),
                None => !(self@ is Str),
            },
    {
        match self {
            JsonValue::Str(s) => Some(s),
            _ => None,
        }
    }

    /// This value as a boolean, if it is one.
    pub fn as_bool(&self) -> (r: Option<bool>)
        ensures
            match r {
                Some(b) => self@ == Json::Bool(b),
                None => !(self@ is Bool),
            },
    {
        match self {
            JsonValue::Bool(b) => Some(*b),
            _ => None,
        }
    }

    /// This value as a non-negative integer, if it is one that fits in `u64`.
    pub fn as_u64(&self) -> (r: Option<u64>)
        ensures
            r == opt_u64(Some(self@)),
    {
        match self {
            JsonValue::Number(n) => *n,
            _ => None,
        }
    }

    /// The strings of an array, in order, other items left out; `None` where
    /// this value is no array.
    pub fn strings_of_array(&self) -> (r: Option<Vec<String>>)
        ensures
            match r {
                Some(v) => opt_array(Some(self@)) is Some && v@.map_values(|s: String| s@)
                    == strings_in(opt_array(Some(self@))->Some_0),
                None => opt_array(Some(self@)) is None,
            },
    {
        match self {
            JsonValue::Array(items) => {
                proof {
                    reveal_with_fuel(<JsonValue as View>::view, 2);
                }
                let ghost elems = self@->Array_0;
                let mut out: Vec<String> = Vec::new();
                let mut i: usize = 0;
                while i < items.len()
                    invariant
                        0 <= i <= items.len(),
                        elems.len() == items.len(),
                        forall|j: int| 0 <= j < items.len() ==> #[trigger] elems[j] == items[j]@,
                        out@.map_values(|s: String| s@) == strings_in(elems.take(i as int)),
                    decreases items.len() - i,
                {
                    assert(elems.take(i + 1).drop_last() =~= elems.take(i as int));
                    assert(elems.take(i + 1).last() == items[i as int]@);
                    match &items[i] {
                        JsonValue::Str(s) => {
                            out.push(s.clone());
                            assert(out@.map_values(|s: String| s@) =~= strings_in(
                                elems.take(i as int),
                            ).push(s@));
                        },
                        _ => {},
                    }
                    i = i + 1;
                }
                assert(elems.take(items.len() as int) =~= elems);
                Some(out)
            },
            _ => None,
        }
    }
}

} // verus!
