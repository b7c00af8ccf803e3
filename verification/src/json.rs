//! JSON values: their mathematical model, and reading, building and writing
//! them with `serde_json`.
use vstd::prelude::*;
use vstd::string::*;

use serde_json::Value;

verus! {

/// `serde_json::Value`, a JSON document; what it holds is [`json_view`].
#[verifier::external_type_specification]
#[verifier::external_body]
pub struct ExValue(serde_json::Value);

/// `serde_json::Error`, why a conversion failed; nothing is read from it.
#[verifier::external_type_specification]
#[verifier::external_body]
pub struct ExJsonError(serde_json::Error);

/// `serde_json::Map`, the fields of an object; what it holds is [`map_view`].
#[verifier::external_type_specification]
#[verifier::external_body]
#[verifier::reject_recursive_types(K)]
#[verifier::reject_recursive_types(V)]
pub struct ExJsonMap<K, V>(serde_json::Map<K, V>);

/// What a JSON document holds. A number that is not an integer is given by the
/// bits of its floating-point form.
pub enum Json {
    Null,
    Bool(bool),
    Int(int),
    Float(u64),
    Text(Seq<char>),
    Array(Seq<Json>),
    Object(Map<Seq<char>, Json>),
}

/// What a `serde_json::Value` holds. The crate keeps the fields of an object in
/// the order of their names, so the contents of a document fix its text.
pub uninterp spec fn json_view(v: serde_json::Value) -> Json;

/// The fields that a `serde_json::Map` holds.
pub uninterp spec fn map_view(
    m: serde_json::Map<String, serde_json::Value>,
) -> Map<Seq<char>, Json>;

/// The compact text that `serde_json::to_string` gives for a document.
pub uninterp spec fn compact_text(j: Json) -> Option<Seq<char>>;

/// The indented text that `serde_json::to_string_pretty` gives for a document.
pub uninterp spec fn pretty_text(j: Json) -> Option<Seq<char>>;

/// What each of the values holds.
pub open spec fn json_views(vs: Seq<Value>) -> Seq<Json> {
    vs.map_values(|v: Value| json_view(v))
}

/// What each of the named values holds.
pub open spec fn field_views(fields: Seq<(String, Value)>) -> Seq<(Seq<char>, Json)> {
    fields.map_values(|f: (String, Value)| (f.0@, json_view(f.1)))
}

/// The map with the given fields; of two with one name the later counts.
pub open spec fn fields_map(fields: Seq<(Seq<char>, Json)>) -> Map<Seq<char>, Json>
    decreases fields.len(),
{
    if fields.len() == 0 {
        Map::empty()
    } else {
        fields_map(fields.drop_last()).insert(fields.last().0, fields.last().1)
    }
}

impl Json {
    /// The object with the given fields.
    pub open spec fn object(fields: Seq<(Seq<char>, Json)>) -> Json {
        Json::Object(fields_map(fields))
    }

    /// The field `key` of an object.
    pub open spec fn field(self, key: Seq<char>) -> Option<Json> {
        match self {
            Json::Object(m) => if m.contains_key(key) {
                Some(m[key])
            } else {
                None
            },
            _ => None,
        }
    }

    /// The characters of a text.
    pub open spec fn text(self) -> Option<Seq<char>> {
        match self {
            Json::Text(s) => Some(s),
            _ => None,
        }
    }

    /// The text in the field `key` of an object.
    pub open spec fn text_field(self, key: Seq<char>) -> Option<Seq<char>> {
        match self.field(key) {
            Some(j) => j.text(),
            None => None,
        }
    }

    /// The elements of an array.
    pub open spec fn elements(self) -> Option<Seq<Json>> {
        match self {
            Json::Array(s) => Some(s),
            _ => None,
        }
    }

    /// An integer from 0 to `max`.
    pub open spec fn int_up_to(self, max: int) -> Option<int> {
        match self {
            Json::Int(n) => if 0 <= n <= max {
                Some(n)
            } else {
                None
            },
            _ => None,
        }
    }

    /// The id in the field `key` of an object: an integer in the range of `u32`.
    pub open spec fn id_field(self, key: Seq<char>) -> Option<u32> {
        match self.field(key) {
            Some(j) => match j.int_up_to(u32::MAX as int) {
                Some(n) => Some(n as u32),
                None => None,
            },
            None => None,
        }
    }

    /// The ids in an array that holds nothing but integers in the range of
    /// `u32`.
    pub open spec fn ids(self) -> Option<Seq<u32>> {
        match self {
            Json::Array(s) => if forall|i: int|
                0 <= i < s.len() ==> (#[trigger] s[i]).int_up_to(u32::MAX as int) is Some {
                Some(s.map_values(|j: Json| j.int_up_to(u32::MAX as int)->0 as u32))
            } else {
                None
            },
            _ => None,
        }
    }

    /// An id, or nothing.
    pub open spec fn optional_id(id: Option<u32>) -> Json {
        match id {
            Some(n) => Json::Int(n as int),
            None => Json::Null,
        }
    }

    /// A text, or nothing.
    pub open spec fn optional_text(t: Option<Seq<char>>) -> Json {
        match t {
            Some(s) => Json::Text(s),
            None => Json::Null,
        }
    }

    /// An array of texts.
    pub open spec fn texts(ts: Seq<Seq<char>>) -> Json {
        Json::Array(ts.map_values(|t: Seq<char>| Json::Text(t)))
    }

    /// An array of ids.
    pub open spec fn id_array(ids: Seq<u32>) -> Json {
        Json::Array(ids.map_values(|n: u32| Json::Int(n as int)))
    }
}

/// A document's text, or the empty object where there is none.
pub open spec fn text_or_empty_object(t: Option<Seq<char>>) -> Seq<char> {
    match t {
        Some(s) => s,
        None => "{}"@,
    }
}

/// `serde_json::Value::as_str`: the characters of a JSON string, and nothing for
/// any other value.
pub assume_specification[ serde_json::Value::as_str ](v: &Value) -> (r: Option<&str>)
    ensures
        match r {
            Some(s) => json_view(*v).text() == Some(s@),
            None => json_view(*v).text() is None,
        },
;

/// `serde_json::Value::as_u64`: an integer in the range of `u64`, and nothing for
/// any other value, numbers with a fraction or an exponent among them.
pub assume_specification[ serde_json::Value::as_u64 ](v: &Value) -> (r: Option<u64>)
    ensures
        match r {
            Some(n) => json_view(*v).int_up_to(u64::MAX as int) == Some(n as int),
            None => json_view(*v).int_up_to(u64::MAX as int) is None,
        },
;

/// `serde_json::Value::as_array`: the elements of a JSON array in their order,
/// and nothing for any other value.
pub assume_specification[ serde_json::Value::as_array ](v: &Value) -> (r: Option<&Vec<Value>>)
    ensures
        match r {
            Some(a) => json_view(*v).elements() == Some(json_views(a@)),
            None => json_view(*v).elements() is None,
        },
;

/// `serde_json::Value::get` with a string: the field of that name of a JSON
/// object, and nothing where there is none or for any other value.
#[verifier::external_body]
pub(crate) fn get_field<'a>(v: &'a Value, key: &str) -> (r: Option<&'a Value>)
    ensures
        match r {
            Some(f) => json_view(*v).field(key@) == Some(json_view(*f)),
            None => json_view(*v).field(key@) is None,
        },
{
    v.get(key)
}

/// `serde_json::from_value` into a list of `u32`: succeeds just on an array that
/// holds nothing but integers in that range, and then gives them in order.
#[verifier::external_body]
pub(crate) fn parse_ids(v: &Value) -> (r: Result<Vec<u32>, serde_json::Error>)
    ensures
        match r {
            Ok(ids) => json_view(*v).ids() == Some(ids@),
            Err(_) => json_view(*v).ids() is None,
        },
{
    serde_json::from_value(v.clone())
}

/// `serde_json::to_string` of a document: the same text for the same contents,
/// whatever it is.
#[verifier::external_body]
pub(crate) fn to_compact(v: &Value) -> (r: Result<String, serde_json::Error>)
    ensures
        match r {
            Ok(s) => compact_text(json_view(*v)) == Some(s@),
            Err(_) => compact_text(json_view(*v)) is None,
        },
{
    serde_json::to_string(v)
}

/// `serde_json::to_string_pretty` of a document: the same text for the same
/// contents, whatever it is.
#[verifier::external_body]
pub(crate) fn to_pretty(v: &Value) -> (r: Result<String, serde_json::Error>)
    ensures
        match r {
            Ok(s) => pretty_text(json_view(*v)) == Some(s@),
            Err(_) => pretty_text(json_view(*v)) is None,
        },
{
    serde_json::to_string_pretty(v)
}

/// `serde_json::Value::from` the unit value: JSON's `null`.
#[verifier::external_body]
pub(crate) fn null() -> (r: Value)
    ensures
        json_view(r) == Json::Null,
{
    Value::from(())
}

/// `serde_json::Value::from` a `bool`: that truth value.
#[verifier::external_body]
pub(crate) fn boolean(b: bool) -> (r: Value)
    ensures
        json_view(r) == Json::Bool(b),
{
    Value::from(b)
}

/// `serde_json::Value::from` a `u64`: that number.
#[verifier::external_body]
pub(crate) fn number(n: u64) -> (r: Value)
    ensures
        json_view(r) == Json::Int(n as int),
{
    Value::from(n)
}

/// `serde_json::Value::from` a string slice: that text.
#[verifier::external_body]
pub(crate) fn text(s: &str) -> (r: Value)
    ensures
        json_view(r) == Json::Text(s@),
{
    Value::from(s)
}

/// `serde_json::Value::from` a vector of values: the array of them.
#[verifier::external_body]
pub(crate) fn array(vs: Vec<Value>) -> (r: Value)
    ensures
        json_view(r) == Json::Array(json_views(vs@)),
{
    Value::from(vs)
}

/// `serde_json::Map::new`: no fields.
#[verifier::external_body]
fn new_map() -> (r: serde_json::Map<String, Value>)
    ensures
        map_view(r) == fields_map(Seq::empty()),
{
    serde_json::Map::new()
}

/// `serde_json::Map::insert`: the field with this name gets this value, whether
/// or not it was there; the value that it had, if any, is handed back.
#[verifier::external_body]
fn insert_field(
    m: &mut serde_json::Map<String, Value>,
    name: String,
    value: Value,
) -> (r: Option<Value>)
    ensures
        map_view(*final(m)) == map_view(*old(m)).insert(name@, json_view(value)),
        match r {
            Some(v) => map_view(*old(m)).contains_key(name@) && json_view(v) == map_view(
                *old(m),
            )[name@],
            None => !map_view(*old(m)).contains_key(name@),
        },
{
    m.insert(name, value)
}

/// `serde_json::Value::from` a map: the object with its fields.
#[verifier::external_body]
fn from_map(m: serde_json::Map<String, Value>) -> (r: Value)
    ensures
        json_view(r) == Json::Object(map_view(m)),
{
    Value::from(m)
}

/// The object with the given fields; of two with one name the later counts.
pub fn object(fields: Vec<(String, Value)>) -> (r: Value)
    ensures
        json_view(r) == Json::object(field_views(fields@)),
{
    let ghost views = field_views(fields@);
    let mut m = new_map();
    for f in it: fields
        invariant
            views == field_views(it.seq()),
            map_view(m) == fields_map(views.take(it.index())),
    {
        proof {
            let done = views.take(it.index() + 1);
            assert(done.drop_last() =~= views.take(it.index()));
            assert(done.last() == (f.0@, json_view(f.1)));
        }
        insert_field(&mut m, f.0, f.1);
    }
    assert(views.take(views.len() as int) =~= views);
    from_map(m)
}

/// A document's text, or the empty object where it could not be written.
pub fn or_empty_object(text: Option<String>) -> (r: String)
    ensures
        r@ == text_or_empty_object(crate::item::text_view(text)),
{
    match text {
        Some(s) => s,
        None => String::from_str("{}"),
    }
}

/// A named value.
pub(crate) fn field(name: &str, value: Value) -> (r: (String, Value))
    ensures
        r.0@ == name@,
        r.1 == value,
{
    (name.to_owned(), value)
}

/// The text in the field `key` of an object.
pub(crate) fn get_text<'a>(v: &'a Value, key: &str) -> (r: Option<&'a str>)
    ensures
        match r {
            Some(s) => json_view(*v).text_field(key@) == Some(s@),
            None => json_view(*v).text_field(key@) is None,
        },
{
    match get_field(v, key) {
        Some(f) => f.as_str(),
        None => None,
    }
}

/// The id in the field `key` of an object.
pub(crate) fn get_id(v: &Value, key: &str) -> (r: Option<u32>)
    ensures
        r == json_view(*v).id_field(key@),
{
    match get_field(v, key) {
        Some(f) => match f.as_u64() {
            Some(n) => if n <= u32::MAX as u64 {
                Some(n as u32)
            } else {
                None
            },
            None => None,
        },
        None => None,
    }
}

/// An id, or `null`.
pub(crate) fn optional_id(id: Option<u32>) -> (r: Value)
    ensures
        json_view(r) == Json::optional_id(id),
{
    match id {
        Some(n) => number(n as u64),
        None => null(),
    }
}

/// A text, or `null`.
pub(crate) fn optional_text(t: &Option<String>) -> (r: Value)
    ensures
        json_view(r) == Json::optional_text(crate::item::text_view(*t)),
{
    match t {
        Some(s) => text(s.as_str()),
        None => null(),
    }
}

/// An array of texts.
pub(crate) fn texts(ts: Vec<&str>) -> (r: Value)
    ensures
        json_view(r) == Json::texts(ts@.map_values(|t: &str| t@)),
{
    let mut vs: Vec<Value> = Vec::new();
    let mut i: usize = 0;
    while i < ts.len()
        invariant
            i <= ts@.len(),
            vs@.len() == i,
            forall|j: int| 0 <= j < i ==> json_view(#[trigger] vs@[j]) == Json::Text(ts@[j]@),
        decreases ts@.len() - i,
    {
        vs.push(text(ts[i]));
        i += 1;
    }
    let r = array(vs);
    assert(json_views(vs@) =~= ts@.map_values(|t: &str| t@).map_values(
        |t: Seq<char>| Json::Text(t),
    ));
    r
}

/// An array of ids.
pub(crate) fn id_array(ids: &Vec<u32>) -> (r: Value)
    ensures
        json_view(r) == Json::id_array(ids@),
{
    let mut vs: Vec<Value> = Vec::new();
    let mut i: usize = 0;
    while i < ids.len()
        invariant
            i <= ids@.len(),
            vs@.len() == i,
            forall|j: int|
                0 <= j < i ==> json_view(#[trigger] vs@[j]) == Json::Int(ids@[j] as int),
        decreases ids@.len() - i,
    {
        vs.push(number(ids[i] as u64));
        i += 1;
    }
    let r = array(vs);
    assert(json_views(vs@) =~= ids@.map_values(|n: u32| Json::Int(n as int)));
    r
}

} // verus!
