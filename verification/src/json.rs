use vstd::prelude::*;

verus! {

/// A JSON value as the indexer sends and receives it. A number that is not a
/// non-negative integer below 2^64 is kept only as `OtherNumber`: nothing
/// here reads its value.
#[derive(Debug, PartialEq, Eq)]
pub enum JsonValue {
    Null,
    Bool(bool),
    Unsigned(u64),
    OtherNumber,
    Text(String),
    Array(Vec<JsonValue>),
    Object(Vec<JsonMember>),
}

/// One member of a JSON object.
#[derive(Debug, PartialEq, Eq)]
pub struct JsonMember {
    pub key: String,
    pub value: JsonValue,
}

/// The value of the first member with the given key, if there is one.
pub open spec fn member(members: Seq<JsonMember>, key: Seq<char>) -> Option<JsonValue>
    decreases members.len(),
{
    if members.len() == 0 {
        None
    } else if members[0].key@ == key {
        Some(members[0].value)
    } else {
        member(members.drop_first(), key)
    }
}

/// The member of an object with the given key; `None` for a value that is no
/// object or has no such member.
pub open spec fn field(value: JsonValue, key: Seq<char>) -> Option<JsonValue> {
    match value {
        JsonValue::Object(members) => member(members@, key),
        _ => None,
    }
}

/// The characters of a JSON string; `None` for any other value.
pub open spec fn as_text(value: Option<JsonValue>) -> Option<Seq<char>> {
    match value {
        Some(JsonValue::Text(text)) => Some(text@),
        _ => None,
    }
}

/// The truth value of a JSON boolean; `None` for any other value.
pub open spec fn as_bool(value: Option<JsonValue>) -> Option<bool> {
    match value {
        Some(JsonValue::Bool(flag)) => Some(flag),
        _ => None,
    }
}

/// The number of a JSON number that is a non-negative integer below 2^64;
/// `None` for any other value.
pub open spec fn as_unsigned(value: Option<JsonValue>) -> Option<u64> {
    match value {
        Some(JsonValue::Unsigned(number)) => Some(number),
        _ => None,
    }
}

/// The members of a JSON object; `None` for any other value.
pub open spec fn as_object(value: Option<JsonValue>) -> Option<Seq<JsonMember>> {
    match value {
        Some(JsonValue::Object(members)) => Some(members@),
        _ => None,
    }
}

/// The strings of a JSON array that holds nothing but strings; `None` for any
/// other value.
pub open spec fn as_texts(value: Option<JsonValue>) -> Option<Seq<Seq<char>>> {
    match value {
        Some(JsonValue::Array(items)) => if forall|i: int|
            0 <= i < items@.len() ==> #[trigger] items@[i] is Text {
            Some(Seq::new(items@.len(), |i: int| items@[i]->Text_0@))
        } else {
            None
        },
        _ => None,
    }
}

/// Looks up the first member with the given key.
pub fn lookup<'a>(members: &'a Vec<JsonMember>, key: &str) -> (found: Option<&'a JsonValue>)
    ensures
        match member(members@, key@) {
            Some(value) => found == Some(&value),
            None => found is None,
        },
{
    let wanted: String = key.to_owned();
    let mut i: usize = 0;
    assert(members@.skip(0) =~= members@);
    while i < members.len()
        invariant
            i <= members.len(),
            wanted@ == key@,
            member(members@, key@) == member(members@.skip(i as int), key@),
        decreases members.len() - i,
    {
        if members[i].key == wanted {
            assert(members@.skip(i as int)[0] == members@[i as int]);
            return Some(&members[i].value);
        }
        assert(members@.skip(i as int).drop_first() =~= members@.skip(i + 1));
        i += 1;
    }
    None
}

/// Looks up a member of a value that should be an object.
pub fn get_field<'a>(value: &'a JsonValue, key: &str) -> (found: Option<&'a JsonValue>)
    ensures
        match field(*value, key@) {
            Some(inner) => found == Some(&inner),
            None => found is None,
        },
{
    match value {
        JsonValue::Object(members) => lookup(members, key),
        _ => None,
    }
}

} // verus!
