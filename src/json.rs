//! A JSON document as plain values, and the rules by which a schema field
//! is read from it: an optional field may be absent or null, a required one
//! must be present with the right kind of value, and unknown members are
//! ignored.
use vstd::prelude::*;
use vstd::string::*;

verus! {

/// A JSON value. A number is held as an integer when it is one that fits,
/// and as its decimal text otherwise.
#[derive(Debug, PartialEq)]
pub enum JsonValue {
    Null,
    Bool(bool),
    Int(i64),
    Decimal(String),
    Text(String),
    Array(Vec<JsonValue>),
    Object(Vec<(String, JsonValue)>),
}

/// The value of the first member named `key`.
pub open spec fn member(members: Seq<(String, JsonValue)>, key: Seq<char>) -> Option<JsonValue>
    decreases members.len(),
{
    if members.len() == 0 {
        None
    } else if members[0].0@ == key {
        Some(members[0].1)
    } else {
        member(members.drop_first(), key)
    }
}

/// The member `key` of an object; nothing for any other value.
pub open spec fn member_of(v: JsonValue, key: Seq<char>) -> Option<JsonValue> {
    match v {
        JsonValue::Object(m) => member(m@, key),
        _ => None,
    }
}

/// An optional text field: absent and null are `None`; any value but a
/// string does not match.
pub open spec fn opt_text(v: Option<JsonValue>) -> Option<Option<String>> {
    match v {
        None => Some(None),
        Some(JsonValue::Null) => Some(None),
        Some(JsonValue::Text(s)) => Some(Some(s)),
        _ => None,
    }
}

/// A required text field.
pub open spec fn text(v: Option<JsonValue>) -> Option<String> {
    match v {
        Some(JsonValue::Text(s)) => Some(s),
        _ => None,
    }
}

/// An optional boolean field: absent and null are `None`.
pub open spec fn opt_boolean(v: Option<JsonValue>) -> Option<Option<bool>> {
    match v {
        None => Some(None),
        Some(JsonValue::Null) => Some(None),
        Some(JsonValue::Bool(b)) => Some(Some(b)),
        _ => None,
    }
}

/// An optional integer field that fits in 16 bits: absent and null are
/// `None`.
pub open spec fn opt_small_int(v: Option<JsonValue>) -> Option<Option<i16>> {
    match v {
        None => Some(None),
        Some(JsonValue::Null) => Some(None),
        Some(JsonValue::Int(n)) => if i16::MIN <= n <= i16::MAX {
            Some(Some(n as i16))
        } else {
            None
        },
        _ => None,
    }
}

/// An optional member that is absent or null.
pub open spec fn left_out(m: Option<JsonValue>) -> bool {
    m is None || m == Some(JsonValue::Null)
}

/// How an optional text is written: a string, or null.
pub open spec fn opt_text_json(o: Option<String>) -> JsonValue {
    match o {
        Some(s) => JsonValue::Text(s),
        None => JsonValue::Null,
    }
}

/// A JSON object whose members are `members`, in order.
pub open spec fn object_with(v: JsonValue, members: Seq<(Seq<char>, JsonValue)>) -> bool {
    &&& v is Object
    &&& v->Object_0@.len() == members.len()
    &&& forall|i: int|
        0 <= i < members.len() ==> (#[trigger] v->Object_0@[i]).0@ == members[i].0
            && v->Object_0@[i].1 == members[i].1
}

pub proof fn lemma_object_member(v: JsonValue, members: Seq<(Seq<char>, JsonValue)>, i: int)
    requires
        object_with(v, members),
        0 <= i < members.len(),
        forall|j: int| 0 <= j < i ==> members[j].0 != members[i].0,
    ensures
        member_of(v, members[i].0) == Some(members[i].1),
{
    let m = v->Object_0@;
    assert forall|j: int| 0 <= j < i implies m[j].0@ != members[i].0 by {
        assert(m[j].0@ == members[j].0);
    }
    lemma_member_found(m, members[i].0, i);
}

proof fn lemma_member_found(members: Seq<(String, JsonValue)>, key: Seq<char>, i: int)
    requires
        0 <= i < members.len(),
        members[i].0@ == key,
        forall|j: int| 0 <= j < i ==> members[j].0@ != key,
    ensures
        member(members, key) == Some(members[i].1),
    decreases i,
{
    if i > 0 {
        assert(members[0].0@ != key);
        lemma_member_found(members.drop_first(), key, i - 1);
    }
}

proof fn lemma_member_absent(members: Seq<(String, JsonValue)>, key: Seq<char>)
    requires
        forall|j: int| 0 <= j < members.len() ==> members[j].0@ != key,
    ensures
        member(members, key) is None,
    decreases members.len(),
{
    if members.len() > 0 {
        assert(members[0].0@ != key);
        lemma_member_absent(members.drop_first(), key);
    }
}

/// Where the first member named `key` stands in a list of members.
pub fn member_position(members: &Vec<(String, JsonValue)>, key: &str) -> (r: Option<usize>)
    ensures
        match r {
            Some(i) => i < members@.len() && members@[i as int].0@ == key@ && member(members@, key@)
                == Some(members@[i as int].1),
            None => member(members@, key@) is None,
        },
{
    let k = String::from_str(key);
    let mut i: usize = 0;
    while i < members.len()
        invariant
            0 <= i <= members@.len(),
            k@ == key@,
            forall|j: int| 0 <= j < i ==> members@[j].0@ != key@,
        decreases members@.len() - i,
    {
        if members[i].0 == k {
            proof {
                lemma_member_found(members@, key@, i as int);
            }
            return Some(i);
        }
        i = i + 1;
    }
    proof {
        lemma_member_absent(members@, key@);
    }
    None
}

/// The member `key` of an object, if it has one.
pub fn member_value<'a>(v: &'a JsonValue, key: &str) -> (r: Option<&'a JsonValue>)
    ensures
        match r {
            Some(x) => member_of(*v, key@) == Some(*x),
            None => member_of(*v, key@) is None,
        },
{
    match v {
        JsonValue::Object(m) => {
            let k = String::from_str(key);
            let mut i: usize = 0;
            while i < m.len()
                invariant
                    0 <= i <= m@.len(),
                    k@ == key@,
                    member_of(*v, key@) == member(m@, key@),
                    forall|j: int| 0 <= j < i ==> m@[j].0@ != key@,
                decreases m@.len() - i,
            {
                let entry = &m[i];
                if entry.0 == k {
                    proof {
                        lemma_member_found(m@, key@, i as int);
                    }
                    return Some(&entry.1);
                }
                i = i + 1;
            }
            proof {
                lemma_member_absent(m@, key@);
            }
            None
        },
        _ => None,
    }
}

/// Whether a value is an object.
pub fn is_object(v: &JsonValue) -> (r: bool)
    ensures
        r == (v is Object),
{
    match v {
        JsonValue::Object(_) => true,
        _ => false,
    }
}

/// Reads an optional text member.
pub fn opt_text_member(v: &JsonValue, key: &str) -> (r: Option<Option<String>>)
    ensures
        r == opt_text(member_of(*v, key@)),
{
    match member_value(v, key) {
        None => Some(None),
        Some(JsonValue::Null) => Some(None),
        Some(JsonValue::Text(s)) => Some(Some(s.clone())),
        Some(_) => None,
    }
}

/// Reads a required text member.
pub fn text_member(v: &JsonValue, key: &str) -> (r: Option<String>)
    ensures
        r == text(member_of(*v, key@)),
{
    match member_value(v, key) {
        Some(JsonValue::Text(s)) => Some(s.clone()),
        _ => None,
    }
}

/// Reads an optional boolean member.
pub fn opt_bool_member(v: &JsonValue, key: &str) -> (r: Option<Option<bool>>)
    ensures
        r == opt_boolean(member_of(*v, key@)),
{
    match member_value(v, key) {
        None => Some(None),
        Some(JsonValue::Null) => Some(None),
        Some(JsonValue::Bool(b)) => Some(Some(*b)),
        Some(_) => None,
    }
}

/// Reads an optional 16-bit integer member.
pub fn opt_small_int_member(v: &JsonValue, key: &str) -> (r: Option<Option<i16>>)
    ensures
        r == opt_small_int(member_of(*v, key@)),
{
    match member_value(v, key) {
        None => Some(None),
        Some(JsonValue::Null) => Some(None),
        Some(JsonValue::Int(n)) => if i16::MIN as i64 <= *n && *n <= i16::MAX as i64 {
            Some(Some(*n as i16))
        } else {
            None
        },
        Some(_) => None,
    }
}

/// Writes an optional text: a string, or null.
pub fn opt_text_to_json(o: &Option<String>) -> (r: JsonValue)
    ensures
        r == opt_text_json(*o),
{
    match o {
        Some(s) => JsonValue::Text(s.clone()),
        None => JsonValue::Null,
    }
}

} // verus!
