//! A JSON document held as plain values.
use vstd::prelude::*;
use vstd::string::StringExecFns;

verus! {

/// A JSON number as the document wrote it.
#[derive(Clone, Copy, Debug, PartialEq, Eq, Structural)]
pub enum JsonNumber {
    /// A non-negative integer.
    PosInt(u64),
    /// A negative integer.
    NegInt(i64),
    /// A number with a fraction or an exponent, as the IEEE-754 bit pattern of
    /// its double-precision value.
    Float(u64),
}

/// A JSON value. An object keeps its members in document order.
#[derive(Debug)]
pub enum Json {
    Null,
    Bool(bool),
    Number(JsonNumber),
    Str(String),
    Array(Vec<Json>),
    Object(Vec<(String, Json)>),
}

/// The value of the first member of `members` named `key`.
pub open spec fn member(members: Seq<(String, Json)>, key: Seq<char>) -> Option<Json>
    decreases members.len(),
{
    if members.len() == 0 {
        None
    } else if members[0].0@ == key {
        Some(members[0].1)
    } else {
        member(members.drop_first(), key)
    }
}

/// The member `key` of `j`, where `j` is an object that has one.
pub open spec fn field(j: Json, key: Seq<char>) -> Option<Json> {
    match j {
        Json::Object(members) => member(members@, key),
        _ => None,
    }
}

/// `j` read as a 64-bit signed integer.
pub open spec fn int64_of(j: Json) -> Option<i64> {
    match j {
        Json::Number(JsonNumber::PosInt(u)) => if u <= i64::MAX {
            Some(u as i64)
        } else {
            None
        },
        Json::Number(JsonNumber::NegInt(i)) => Some(i),
        _ => None,
    }
}

/// `j` read as a 32-bit signed integer.
pub open spec fn int32_of(j: Json) -> Option<i32> {
    match int64_of(j) {
        Some(i) => if i32::MIN <= i <= i32::MAX {
            Some(i as i32)
        } else {
            None
        },
        None => None,
    }
}

/// `j` read as a number of any kind.
pub open spec fn number_of(j: Json) -> Option<JsonNumber> {
    match j {
        Json::Number(n) => Some(n),
        _ => None,
    }
}

/// `j` read as a string.
pub open spec fn text_of(j: Json) -> Option<Seq<char>> {
    match j {
        Json::Str(s) => Some(s@),
        _ => None,
    }
}

pub proof fn lemma_member_at(members: Seq<(String, Json)>, key: Seq<char>, i: int)
    requires
        0 <= i < members.len(),
        members[i].0@ == key,
        forall|k: int| 0 <= k < i ==> members[k].0@ != key,
    ensures
        member(members, key) == Some(members[i].1),
    decreases i,
{
    if i > 0 {
        lemma_member_at(members.drop_first(), key, i - 1);
    }
}

proof fn lemma_member_absent(members: Seq<(String, Json)>, key: Seq<char>)
    requires
        forall|k: int| 0 <= k < members.len() ==> members[k].0@ != key,
    ensures
        member(members, key) is None,
    decreases members.len(),
{
    if members.len() > 0 {
        lemma_member_absent(members.drop_first(), key);
    }
}

/// Looks up the member `key` of `j`.
pub fn get_field<'a>(j: &'a Json, key: &str) -> (r: Option<&'a Json>)
    ensures
        r matches Some(v) ==> field(*j, key@) == Some(*v),
        r is None ==> field(*j, key@) is None,
{
    match j {
        Json::Object(members) => {
            let wanted: String = key.to_owned();
            let mut i: usize = 0;
            while i < members.len()
                invariant
                    i <= members@.len(),
                    wanted@ == key@,
                    field(*j, key@) == member(members@, key@),
                    forall|k: int| 0 <= k < i ==> members@[k].0@ != key@,
                decreases members@.len() - i,
            {
                if members[i].0.eq(&wanted) {
                    proof {
                        lemma_member_at(members@, key@, i as int);
                    }
                    return Some(&members[i].1);
                }
                i = i + 1;
            }
            proof {
                lemma_member_absent(members@, key@);
            }
            None
        },
        _ => None,
    }
}

/// The message for a member `key` that an object lacks.
pub open spec fn missing_field(key: Seq<char>) -> Seq<char> {
    "missing field `"@ + key + "`"@
}

/// The message for a member `key` whose value is of the wrong kind.
pub open spec fn invalid_type(key: Seq<char>) -> Seq<char> {
    "invalid type for field `"@ + key + "`"@
}

/// The message for a value that should be an object and is not.
pub open spec fn not_an_object() -> Seq<char> {
    "invalid type: expected a JSON object"@
}

/// The member `key` of the object `j`, or why there is none.
pub open spec fn lookup(j: Json, key: Seq<char>) -> Result<Json, Seq<char>> {
    match j {
        Json::Object(members) => match member(members@, key) {
            Some(v) => Ok(v),
            None => Err(missing_field(key)),
        },
        _ => Err(not_an_object()),
    }
}

/// The member `key` of `j` read as a 64-bit signed integer, or why not.
pub open spec fn i64_field(j: Json, key: Seq<char>) -> Result<i64, Seq<char>> {
    match lookup(j, key) {
        Ok(v) => match int64_of(v) {
            Some(i) => Ok(i),
            None => Err(invalid_type(key)),
        },
        Err(e) => Err(e),
    }
}

/// The member `key` of `j` read as a 32-bit signed integer, or why not.
pub open spec fn i32_field(j: Json, key: Seq<char>) -> Result<i32, Seq<char>> {
    match lookup(j, key) {
        Ok(v) => match int32_of(v) {
            Some(i) => Ok(i),
            None => Err(invalid_type(key)),
        },
        Err(e) => Err(e),
    }
}

/// The member `key` of `j` read as a number, or why not.
pub open spec fn number_field(j: Json, key: Seq<char>) -> Result<JsonNumber, Seq<char>> {
    match lookup(j, key) {
        Ok(v) => match number_of(v) {
            Some(n) => Ok(n),
            None => Err(invalid_type(key)),
        },
        Err(e) => Err(e),
    }
}

/// The member `key` of `j` read as a string, or why not.
pub open spec fn text_field(j: Json, key: Seq<char>) -> Result<Seq<char>, Seq<char>> {
    match lookup(j, key) {
        Ok(v) => match text_of(v) {
            Some(s) => Ok(s),
            None => Err(invalid_type(key)),
        },
        Err(e) => Err(e),
    }
}

/// The member `key` of `j` read as an array, or why not.
pub open spec fn array_field(j: Json, key: Seq<char>) -> Result<Seq<Json>, Seq<char>> {
    match lookup(j, key) {
        Ok(Json::Array(items)) => Ok(items@),
        Ok(_) => Err(invalid_type(key)),
        Err(e) => Err(e),
    }
}

/// Reads `j` as a 64-bit signed integer.
pub fn read_i64(j: &Json) -> (r: Option<i64>)
    ensures
        r == int64_of(*j),
{
    match j {
        Json::Number(JsonNumber::PosInt(u)) => if *u <= i64::MAX as u64 {
            Some(*u as i64)
        } else {
            None
        },
        Json::Number(JsonNumber::NegInt(i)) => Some(*i),
        _ => None,
    }
}

/// Reads `j` as a 32-bit signed integer.
pub fn read_i32(j: &Json) -> (r: Option<i32>)
    ensures
        r == int32_of(*j),
{
    match read_i64(j) {
        Some(i) => if i32::MIN as i64 <= i && i <= i32::MAX as i64 {
            Some(i as i32)
        } else {
            None
        },
        None => None,
    }
}

/// Reads `j` as a number.
pub fn read_number(j: &Json) -> (r: Option<JsonNumber>)
    ensures
        r == number_of(*j),
{
    match j {
        Json::Number(n) => Some(*n),
        _ => None,
    }
}

/// Reads `j` as a string.
pub fn read_text(j: &Json) -> (r: Option<String>)
    ensures
        r matches Some(s) ==> text_of(*j) == Some(s@),
        r is None ==> text_of(*j) is None,
{
    match j {
        Json::Str(s) => Some(s.clone()),
        _ => None,
    }
}

/// Builds `missing_field(key)`.
fn missing_field_message(key: &str) -> (r: String)
    ensures
        r@ == missing_field(key@),
{
    let mut m = String::from_str("missing field `");
    m.append(key);
    m.append("`");
    m
}

/// Builds `invalid_type(key)`.
fn invalid_type_message(key: &str) -> (r: String)
    ensures
        r@ == invalid_type(key@),
{
    let mut m = String::from_str("invalid type for field `");
    m.append(key);
    m.append("`");
    m
}

/// Looks up the member `key` of the object `j`.
pub fn find<'a>(j: &'a Json, key: &str) -> (r: Result<&'a Json, String>)
    ensures
        r matches Ok(v) ==> lookup(*j, key@) == Ok::<Json, Seq<char>>(*v),
        r matches Err(e) ==> lookup(*j, key@) == Err::<Json, Seq<char>>(e@),
{
    match j {
        Json::Object(_) => match get_field(j, key) {
            Some(v) => Ok(v),
            None => Err(missing_field_message(key)),
        },
        _ => Err("invalid type: expected a JSON object".to_owned()),
    }
}

/// Reads the member `key` of `j` as a 64-bit signed integer.
pub fn read_i64_field(j: &Json, key: &str) -> (r: Result<i64, String>)
    ensures
        r matches Ok(i) ==> i64_field(*j, key@) == Ok::<i64, Seq<char>>(i),
        r matches Err(e) ==> i64_field(*j, key@) == Err::<i64, Seq<char>>(e@),
{
    match find(j, key) {
        Ok(v) => match read_i64(v) {
            Some(i) => Ok(i),
            None => Err(invalid_type_message(key)),
        },
        Err(e) => Err(e),
    }
}

/// Reads the member `key` of `j` as a 32-bit signed integer.
pub fn read_i32_field(j: &Json, key: &str) -> (r: Result<i32, String>)
    ensures
        r matches Ok(i) ==> i32_field(*j, key@) == Ok::<i32, Seq<char>>(i),
        r matches Err(e) ==> i32_field(*j, key@) == Err::<i32, Seq<char>>(e@),
{
    match find(j, key) {
        Ok(v) => match read_i32(v) {
            Some(i) => Ok(i),
            None => Err(invalid_type_message(key)),
        },
        Err(e) => Err(e),
    }
}

/// Reads the member `key` of `j` as a number.
pub fn read_number_field(j: &Json, key: &str) -> (r: Result<JsonNumber, String>)
    ensures
        r matches Ok(n) ==> number_field(*j, key@) == Ok::<JsonNumber, Seq<char>>(n),
        r matches Err(e) ==> number_field(*j, key@) == Err::<JsonNumber, Seq<char>>(e@),
{
    match find(j, key) {
        Ok(v) => match read_number(v) {
            Some(n) => Ok(n),
            None => Err(invalid_type_message(key)),
        },
        Err(e) => Err(e),
    }
}

/// Reads the member `key` of `j` as a string.
pub fn read_text_field(j: &Json, key: &str) -> (r: Result<String, String>)
    ensures
        r matches Ok(s) ==> text_field(*j, key@) == Ok::<Seq<char>, Seq<char>>(s@),
        r matches Err(e) ==> text_field(*j, key@) == Err::<Seq<char>, Seq<char>>(e@),
{
    match find(j, key) {
        Ok(v) => match read_text(v) {
            Some(s) => Ok(s),
            None => Err(invalid_type_message(key)),
        },
        Err(e) => Err(e),
    }
}

/// Reads the member `key` of `j` as an array.
pub fn read_array_field<'a>(j: &'a Json, key: &str) -> (r: Result<&'a Vec<Json>, String>)
    ensures
        r matches Ok(items) ==> array_field(*j, key@) == Ok::<Seq<Json>, Seq<char>>(items@),
        r matches Err(e) ==> array_field(*j, key@) == Err::<Seq<Json>, Seq<char>>(e@),
{
    match find(j, key) {
        Ok(Json::Array(items)) => Ok(items),
        Ok(_) => Err(invalid_type_message(key)),
        Err(e) => Err(e),
    }
}

/// Whether `j` is the string `s`.
pub open spec fn is_text(j: Json, s: Seq<char>) -> bool {
    j matches Json::Str(t) && t@ == s
}

/// Whether `j` is the integer `i`, written as the non-negative or the
/// negative kind of JSON integer according to its sign.
pub open spec fn is_integer(j: Json, i: int) -> bool {
    match j {
        Json::Number(JsonNumber::PosInt(u)) => i >= 0 && u == i,
        Json::Number(JsonNumber::NegInt(n)) => i < 0 && n == i,
        _ => false,
    }
}

/// Whether `m[k]` is the member named `key`.
pub open spec fn names(m: Seq<(String, Json)>, k: int, key: Seq<char>) -> bool {
    m[k].0@ == key
}

/// The JSON integer that holds `i`.
pub fn int_json(i: i64) -> (r: Json)
    ensures
        is_integer(r, i as int),
        int64_of(r) == Some(i),
        i32::MIN <= i <= i32::MAX ==> int32_of(r) == Some(i as i32),
{
    if i >= 0 {
        Json::Number(JsonNumber::PosInt(i as u64))
    } else {
        Json::Number(JsonNumber::NegInt(i))
    }
}

} // verus!
