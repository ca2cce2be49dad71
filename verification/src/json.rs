//! JSON values: their mathematical model, the calls into `serde_json`, and
//! the reading of a message of the trading API.

use vstd::prelude::*;

verus! {

/// What a JSON value is: the model that contracts speak of.
///
/// Numbers are kept as `serde_json` keeps them: an unsigned integer, a
/// negative integer, or the bit pattern of a binary64 number.
pub enum Json {
    Null,
    Bool(bool),
    Unsigned(u64),
    Negative(i64),
    Float(u64),
    Text(Seq<char>),
    Array(Seq<Json>),
    Object(Map<Seq<char>, Json>),
}

impl Json {
    /// The member of an object under a key; nothing for other values.
    pub open spec fn member(self, key: Seq<char>) -> Option<Json> {
        match self {
            Json::Object(members) => if members.contains_key(key) {
                Some(members[key])
            } else {
                None
            },
            _ => None,
        }
    }

    /// The string that stands under a key, where there is one.
    pub open spec fn text_member(self, key: Seq<char>) -> Option<Seq<char>> {
        match self.member(key) {
            Some(Json::Text(text)) => Some(text),
            _ => None,
        }
    }

    /// The model of an integer.
    pub open spec fn integer(n: i64) -> Json {
        if n >= 0 {
            Json::Unsigned(n as u64)
        } else {
            Json::Negative(n)
        }
    }
}

/// The members of the empty object.
pub open spec fn no_members() -> Map<Seq<char>, Json> {
    Map::empty()
}

// ---------------------------------------------------------------------------
// serde_json
// ---------------------------------------------------------------------------

/// `serde_json::Value`, a JSON value.
#[verifier::external_type_specification]
#[verifier::external_body]
pub struct ExValue(serde_json::Value);

/// `serde_json::Map`, the members of a JSON object.
#[verifier::external_type_specification]
#[verifier::external_body]
#[verifier::reject_recursive_types(K)]
#[verifier::reject_recursive_types(V)]
pub struct ExMap<K, V>(serde_json::Map<K, V>);

/// `serde_json::Error`, why a text is not JSON.
#[verifier::external_type_specification]
#[verifier::external_body]
pub struct ExError(serde_json::Error);

/// What a `serde_json::Value` holds.
pub uninterp spec fn json(value: serde_json::Value) -> Json;

/// What a `serde_json::Map` holds.
pub uninterp spec fn members(map: serde_json::Map<String, serde_json::Value>) -> Map<
    Seq<char>,
    Json,
>;

/// The value that `serde_json::from_str` reads from a text; nothing where it
/// reports an error.
pub uninterp spec fn json_of_text(text: Seq<char>) -> Option<Json>;

/// The compact text in which `serde_json` displays a value. It is a function
/// of what the value holds because the members of an object are kept in the
/// order of their keys; with the feature `preserve_order` of `serde_json`,
/// which is off here, it would depend on the order of insertion too.
pub uninterp spec fn json_text(value: Json) -> Seq<char>;

/// `serde_json::from_str` at the type `Value`: the outcome depends on the
/// text alone.
#[verifier::external_body]
fn parse_text(text: &str) -> (r: Result<serde_json::Value, serde_json::Error>)
    ensures
        match r {
            Ok(value) => json_of_text(text@) == Some(json(value)),
            Err(_) => json_of_text(text@) is None,
        },
{
    serde_json::from_str(text)
}

/// `Display` of `serde_json::Value`: the text depends on what the value holds
/// alone.
#[verifier::external_body]
pub(crate) fn value_text(value: &serde_json::Value) -> (r: String)
    ensures
        r@ == json_text(json(*value)),
{
    value.to_string()
}

/// `serde_json::Value::get` with a string: the member of an object under that
/// key, and nothing for a value that is no object or has no such member.
#[verifier::external_body]
fn value_get<'a>(value: &'a serde_json::Value, key: &str) -> (r: Option<&'a serde_json::Value>)
    ensures
        match r {
            Some(found) => json(*value).member(key@) == Some(json(*found)),
            None => json(*value).member(key@) is None,
        },
{
    value.get(key)
}

/// `serde_json::Value::as_str`: the string, for a value that is one.
#[verifier::external_body]
fn value_as_str(value: &serde_json::Value) -> (r: Option<&str>)
    ensures
        match r {
            Some(text) => json(*value) == Json::Text(text@),
            None => !(json(*value) is Text),
        },
{
    value.as_str()
}

/// `serde_json::Value::as_object_mut`: the members of an object, for writing;
/// nothing for a value that is no object.
#[verifier::external_body]
fn value_as_object_mut(value: &mut serde_json::Value) -> (r: Option<
    &mut serde_json::Map<String, serde_json::Value>,
>)
    ensures
        match r {
            Some(map) => json(*old(value)) == Json::Object(members(*map)) && json(*final(value))
                == Json::Object(members(*final(map))),
            None => !(json(*old(value)) is Object) && *final(value) == *old(value),
        },
{
    value.as_object_mut()
}

/// `serde_json::Map::new`: no members.
#[verifier::external_body]
fn map_new() -> (r: serde_json::Map<String, serde_json::Value>)
    ensures
        members(r) == no_members(),
{
    serde_json::Map::new()
}

/// `serde_json::Map::insert`: the value stands under the key afterwards, and
/// what stood there before is returned.
#[verifier::external_body]
fn map_insert(
    map: &mut serde_json::Map<String, serde_json::Value>,
    key: String,
    value: serde_json::Value,
) -> (r: Option<serde_json::Value>)
    ensures
        members(*final(map)) == members(*old(map)).insert(key@, json(value)),
        match r {
            Some(before) => members(*old(map)).contains_key(key@) && members(*old(map))[key@]
                == json(before),
            None => !members(*old(map)).contains_key(key@),
        },
{
    map.insert(key, value)
}

/// `From<Map<String, Value>>` of `serde_json::Value`: the object with these
/// members.
#[verifier::external_body]
fn value_from_map(map: serde_json::Map<String, serde_json::Value>) -> (r: serde_json::Value)
    ensures
        json(r) == Json::Object(members(map)),
{
    serde_json::Value::from(map)
}

/// `From<&str>` of `serde_json::Value`: the string.
#[verifier::external_body]
pub(crate) fn value_from_str(text: &str) -> (r: serde_json::Value)
    ensures
        json(r) == Json::Text(text@),
{
    serde_json::Value::from(text)
}

/// `From<u64>` of `serde_json::Value`: the integer.
#[verifier::external_body]
pub(crate) fn value_from_u64(n: u64) -> (r: serde_json::Value)
    ensures
        json(r) == Json::Unsigned(n),
{
    serde_json::Value::from(n)
}

/// `From<i64>` of `serde_json::Value`: the integer.
#[verifier::external_body]
pub(crate) fn value_from_i64(n: i64) -> (r: serde_json::Value)
    ensures
        json(r) == Json::integer(n),
{
    serde_json::Value::from(n)
}

/// A message of the API: its body, and the two members that decide what
/// becomes of it.
pub struct Message {
    pub body: serde_json::Value,
    /// The member `msg_type`, where it is a string.
    pub msg_type: Option<String>,
    /// The member `error`, of whatever kind, as JSON text.
    pub error: Option<String>,
}

impl Message {
    /// `self` is the message that a text holds. A text that is no JSON counts
    /// as an empty object.
    pub open spec fn is_read_from(self, text: Seq<char>) -> bool {
        let body = body_of_text(text);
        &&& json(self.body) == body
        &&& optional_text(self.msg_type) == body.text_member("msg_type"@)
        &&& optional_text(self.error) == match body.member("error"@) {
            Some(error) => Some(json_text(error)),
            None => None,
        }
    }

    /// Whether the message is of the given type.
    pub open spec fn has_type(self, msg_type: Seq<char>) -> bool {
        optional_text(self.msg_type) == Some(msg_type)
    }

    /// Whether the message is of the given type.
    pub fn is_of_type(&self, msg_type: &str) -> (r: bool)
        ensures
            r == self.has_type(msg_type@),
    {
        match &self.msg_type {
            Some(found) => *found == msg_type.to_owned(),
            None => false,
        }
    }
}

/// The characters of an optional string.
pub open spec fn optional_text(text: Option<String>) -> Option<Seq<char>> {
    match text {
        Some(text) => Some(text@),
        None => None,
    }
}

/// The value that a text stands for as a message: what it parses to, or the
/// empty object where it does not parse.
pub open spec fn body_of_text(text: Seq<char>) -> Json {
    match json_of_text(text) {
        Some(value) => value,
        None => Json::Object(no_members()),
    }
}

/// Reads a message from the text that came over the wire.
pub fn read_message(text: &str) -> (message: Message)
    ensures
        message.is_read_from(text@),
{
    let body = match parse_text(text) {
        Ok(value) => value,
        Err(_) => value_from_map(map_new()),
    };
    let msg_type = match value_get(&body, "msg_type") {
        Some(member) => match value_as_str(member) {
            Some(found) => Some(found.to_owned()),
            None => None,
        },
        None => None,
    };
    let error = match value_get(&body, "error") {
        Some(member) => Some(value_text(member)),
        None => None,
    };
    Message { body, msg_type, error }
}

/// An object without members, to be filled.
pub(crate) fn new_object() -> (r: serde_json::Value)
    ensures
        json(r) == Json::Object(no_members()),
{
    value_from_map(map_new())
}

/// A value after a member was set: an object gets the member, any other value
/// stays as it is.
pub open spec fn with_member(value: Json, key: Seq<char>, member: Json) -> Json {
    match value {
        Json::Object(members) => Json::Object(members.insert(key, member)),
        _ => value,
    }
}

/// Sets a member of an object; leaves any other value alone.
pub fn set_member(value: &mut serde_json::Value, key: &str, member: serde_json::Value)
    ensures
        json(*final(value)) == with_member(json(*old(value)), key@, json(member)),
{
    if let Some(map) = value_as_object_mut(value) {
        map_insert(map, key.to_owned(), member);
    }
}

/// A JSON object has a member under this key.
pub open spec fn has_key(value: Json, key: Seq<char>) -> bool {
    value matches Json::Object(members) && members.contains_key(key)
}

/// A JSON object has this string under this key.
pub open spec fn has_text(value: Json, key: Seq<char>, text: Seq<char>) -> bool {
    value matches Json::Object(members) && members.contains_key(key) && members[key] == Json::Text(
        text,
    )
}

/// A message is what its text parses to, with all its members, whichever they
/// are: the body is that value, the type is the string under `msg_type`, and
/// the error is whatever stands under `error`.
pub proof fn law_message_is_what_was_parsed(message: Message, text: Seq<char>, value: Json)
    requires
        message.is_read_from(text),
        json_of_text(text) == Some(value),
    ensures
        json(message.body) == value,
        forall|msg_type: Seq<char>|
            message.has_type(msg_type) <==> #[trigger] has_text(value, "msg_type"@, msg_type),
        message.msg_type matches Some(msg_type) ==> has_text(value, "msg_type"@, msg_type@),
        message.error is Some <==> has_key(value, "error"@),
        message.error matches Some(error) ==> error@ == json_text(value->Object_0["error"@]),
{
}

/// A text that does not parse gives a message without members, of no type and
/// without an error.
pub proof fn law_unparsed_message_is_empty(message: Message, text: Seq<char>)
    requires
        message.is_read_from(text),
        json_of_text(text) is None,
    ensures
        json(message.body) is Object,
        forall|key: Seq<char>| !(#[trigger] has_key(json(message.body), key)),
        message.msg_type is None,
        message.error is None,
{
}

/// A message is of the type that it names, to the letter, and of no other.
pub proof fn law_type_to_the_letter(message: Message, msg_type: Seq<char>)
    ensures
        message.has_type(msg_type) <==> message.msg_type is Some && message.msg_type->0@
            == msg_type,
{
}

/// A member that is set in an object is there afterwards, every other member
/// is what it was, and what is no object stays as it is.
pub proof fn law_set_member(value: Json, key: Seq<char>, member: Json, other: Seq<char>)
    ensures
        value is Object ==> {
            let after = with_member(value, key, member);
            &&& has_key(after, key)
            &&& after->Object_0[key] == member
            &&& other != key ==> (has_key(after, other) <==> has_key(value, other))
            &&& other != key && has_key(value, other) ==> after->Object_0[other]
                == value->Object_0[other]
        },
        !(value is Object) ==> with_member(value, key, member) == value,
{
}

} // verus!
