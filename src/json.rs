//! The JSON values that the document readers and writers work on.
use vstd::prelude::*;
use crate::error::DecodeError;
use crate::text::{opt_view, same_text};

verus! {

/// A JSON value. Numbers are integers: no document of this library holds
/// another kind. An object keeps its members in the order written.
#[derive(Debug, PartialEq, Eq)]
pub enum JsonValue {
    Null,
    Bool(bool),
    Number(i64),
    Str(String),
    Array(Vec<JsonValue>),
    Object(Vec<JsonMember>),
}

/// One member of a JSON object.
#[derive(Debug, PartialEq, Eq)]
pub struct JsonMember {
    pub key: String,
    pub value: JsonValue,
}

/// `v` is the string `t`.
pub open spec fn is_text(v: JsonValue, t: Seq<char>) -> bool {
    v matches JsonValue::Str(s) && s@ == t
}

/// `v` is an array of exactly the strings `t`.
pub open spec fn is_text_list(v: JsonValue, t: Seq<Seq<char>>) -> bool {
    v matches JsonValue::Array(items) && items@.len() == t.len() && forall|i: int|
        0 <= i < t.len() ==> is_text(#[trigger] items@[i], t[i])
}

/// The value of the first member named `key`.
pub open spec fn field_spec(members: Seq<JsonMember>, key: Seq<char>) -> Option<JsonValue>
    decreases members.len(),
{
    if members.len() == 0 {
        None
    } else if members[0].key@ == key {
        Some(members[0].value)
    } else {
        field_spec(members.skip(1), key)
    }
}

/// The position of the first member named `key`, if there is one.
pub fn find_field(members: &Vec<JsonMember>, key: &str) -> (r: Option<usize>)
    ensures
        match r {
            Some(i) => i < members@.len() && members@[i as int].key@ == key@ && field_spec(members@, key@) == Some(members@[i as int].value),
            None => field_spec(members@, key@) is None,
        },
{
    let mut i: usize = 0;
    assert(members@.skip(0) =~= members@);
    while i < members.len()
        invariant
            i <= members@.len(),
            field_spec(members@, key@) == field_spec(members@.skip(i as int), key@),
        decreases members@.len() - i,
    {
        let ghost rest = members@.skip(i as int);
        assert(rest[0] == members@[i as int]);
        if same_text(members[i].key.as_str(), key) {
            return Some(i);
        }
        assert(rest.skip(1) =~= members@.skip(i + 1));
        i = i + 1;
    }
    None
}

/// The value of the first member named `key`, if there is one.
pub fn get_field<'a>(members: &'a Vec<JsonMember>, key: &str) -> (r: Option<&'a JsonValue>)
    ensures
        match r {
            Some(v) => field_spec(members@, key@) == Some(*v),
            None => field_spec(members@, key@) is None,
        },
{
    match find_field(members, key) {
        Some(i) => Some(&members[i].value),
        None => None,
    }
}

/// Appending a member adds a name that was not there, and changes no other.
pub broadcast proof fn lemma_field_push(members: Seq<JsonMember>, x: JsonMember, key: Seq<char>)
    ensures
        #[trigger] field_spec(members.push(x), key) == match field_spec(members, key) {
            Some(v) => Some(v),
            None => if x.key@ == key {
                Some(x.value)
            } else {
                None
            },
        },
    decreases members.len(),
{
    if members.len() == 0 {
        assert(members.push(x).skip(1) =~= members);
    } else {
        assert(members.push(x).skip(1) =~= members.skip(1).push(x));
        lemma_field_push(members.skip(1), x, key);
    }
}

/// The member at `i` is the first one named `key`.
pub proof fn lemma_field_at(members: Seq<JsonMember>, key: Seq<char>, i: int)
    requires
        0 <= i < members.len(),
        members[i].key@ == key,
        forall|j: int| 0 <= j < i ==> (#[trigger] members[j]).key@ != key,
    ensures
        field_spec(members, key) == Some(members[i].value),
    decreases i,
{
    if i > 0 {
        let rest = members.skip(1);
        assert forall|j: int| 0 <= j < i - 1 implies (#[trigger] rest[j]).key@ != key by {
            assert(rest[j] == members[j + 1]);
        }
        lemma_field_at(rest, key, i - 1);
    }
}

/// The text of the member named `key`, where it is a string.
pub open spec fn field_text_spec(members: Seq<JsonMember>, key: Seq<char>) -> Option<Seq<char>> {
    match field_spec(members, key) {
        Some(JsonValue::Str(s)) => Some(s@),
        _ => None,
    }
}

/// `m` is the member `key` holding the string `t`.
pub open spec fn member_is(m: JsonMember, key: Seq<char>, t: Seq<char>) -> bool {
    m.key@ == key && is_text(m.value, t)
}

/// The text of the member named `key`, where it is a string.
pub fn field_text(members: &Vec<JsonMember>, key: &str) -> (r: Option<String>)
    ensures
        opt_view(r) == field_text_spec(members@, key@),
{
    match get_field(members, key) {
        Some(JsonValue::Str(s)) => Some(s.clone()),
        _ => None,
    }
}

/// A member holding a string.
pub fn text_member(key: &str, t: String) -> (r: JsonMember)
    ensures
        member_is(r, key@, t@),
{
    JsonMember { key: key.to_owned(), value: JsonValue::Str(t) }
}

/// A required string member.
pub open spec fn text_field_spec(members: Seq<JsonMember>, key: Seq<char>) -> Result<Seq<char>, DecodeError> {
    match field_spec(members, key) {
        None => Err(DecodeError::MissingField),
        Some(JsonValue::Str(s)) => Ok(s@),
        Some(_) => Err(DecodeError::ExpectedString),
    }
}

/// An optional string member: absent or null is none.
pub open spec fn opt_text_field_spec(members: Seq<JsonMember>, key: Seq<char>) -> Result<Option<Seq<char>>, DecodeError> {
    match field_spec(members, key) {
        None => Ok(None),
        Some(JsonValue::Null) => Ok(None),
        Some(JsonValue::Str(s)) => Ok(Some(s@)),
        Some(_) => Err(DecodeError::ExpectedString),
    }
}

/// An optional integer member: absent or null is none.
pub open spec fn opt_int_field_spec(members: Seq<JsonMember>, key: Seq<char>) -> Result<Option<i64>, DecodeError> {
    match field_spec(members, key) {
        None => Ok(None),
        Some(JsonValue::Null) => Ok(None),
        Some(JsonValue::Number(n)) => Ok(Some(n)),
        Some(_) => Err(DecodeError::ExpectedInteger),
    }
}

/// A required boolean member.
pub open spec fn bool_field_spec(members: Seq<JsonMember>, key: Seq<char>) -> Result<bool, DecodeError> {
    match field_spec(members, key) {
        None => Err(DecodeError::MissingField),
        Some(JsonValue::Bool(b)) => Ok(b),
        Some(_) => Err(DecodeError::ExpectedBool),
    }
}

/// A required object member.
pub open spec fn object_field_spec(members: Seq<JsonMember>, key: Seq<char>) -> Result<Seq<JsonMember>, DecodeError> {
    match field_spec(members, key) {
        None => Err(DecodeError::MissingField),
        Some(JsonValue::Object(m)) => Ok(m@),
        Some(_) => Err(DecodeError::ExpectedObject),
    }
}

/// The texts that an array of strings holds, as a set.
pub open spec fn text_set_spec(v: JsonValue) -> Result<Set<Seq<char>>, DecodeError> {
    match v {
        JsonValue::Array(items) => if forall|i: int| 0 <= i < items@.len() ==> (#[trigger] items@[i]) is Str {
            Ok(Set::new(|t: Seq<char>| exists|i: int| 0 <= i < items@.len() && is_text(#[trigger] items@[i], t)))
        } else {
            Err(DecodeError::ExpectedString)
        },
        _ => Err(DecodeError::ExpectedArray),
    }
}

/// A required member that is an array of strings, read as a set.
pub open spec fn text_set_field_spec(members: Seq<JsonMember>, key: Seq<char>) -> Result<Set<Seq<char>>, DecodeError> {
    match field_spec(members, key) {
        None => Err(DecodeError::MissingField),
        Some(v) => text_set_spec(v),
    }
}

/// The texts of a list of names, as a set.
pub open spec fn text_set(v: Seq<String>) -> Set<Seq<char>> {
    v.map_values(|s: String| s@).to_set()
}

/// No name is listed twice.
pub open spec fn distinct_texts(v: Seq<String>) -> bool {
    forall|i: int, j: int| 0 <= i < v.len() && 0 <= j < v.len() && i != j ==> (#[trigger] v[i])@ != (#[trigger] v[j])@
}

pub fn text_field(members: &Vec<JsonMember>, key: &str) -> (r: Result<String, DecodeError>)
    ensures
        match r {
            Ok(s) => text_field_spec(members@, key@) == Ok::<_, DecodeError>(s@),
            Err(e) => text_field_spec(members@, key@) == Err::<Seq<char>, _>(e),
        },
{
    match get_field(members, key) {
        None => Err(DecodeError::MissingField),
        Some(JsonValue::Str(s)) => Ok(s.clone()),
        Some(_) => Err(DecodeError::ExpectedString),
    }
}

pub fn opt_text_field(members: &Vec<JsonMember>, key: &str) -> (r: Result<Option<String>, DecodeError>)
    ensures
        match r {
            Ok(s) => opt_text_field_spec(members@, key@) == Ok::<_, DecodeError>(opt_view(s)),
            Err(e) => opt_text_field_spec(members@, key@) == Err::<Option<Seq<char>>, _>(e),
        },
{
    match get_field(members, key) {
        None => Ok(None),
        Some(JsonValue::Null) => Ok(None),
        Some(JsonValue::Str(s)) => Ok(Some(s.clone())),
        Some(_) => Err(DecodeError::ExpectedString),
    }
}

pub fn opt_int_field(members: &Vec<JsonMember>, key: &str) -> (r: Result<Option<i64>, DecodeError>)
    ensures
        r == opt_int_field_spec(members@, key@),
{
    match get_field(members, key) {
        None => Ok(None),
        Some(JsonValue::Null) => Ok(None),
        Some(JsonValue::Number(n)) => Ok(Some(*n)),
        Some(_) => Err(DecodeError::ExpectedInteger),
    }
}

pub fn bool_field(members: &Vec<JsonMember>, key: &str) -> (r: Result<bool, DecodeError>)
    ensures
        r == bool_field_spec(members@, key@),
{
    match get_field(members, key) {
        None => Err(DecodeError::MissingField),
        Some(JsonValue::Bool(b)) => Ok(*b),
        Some(_) => Err(DecodeError::ExpectedBool),
    }
}

pub fn object_field<'a>(members: &'a Vec<JsonMember>, key: &str) -> (r: Result<&'a Vec<JsonMember>, DecodeError>)
    ensures
        match r {
            Ok(m) => object_field_spec(members@, key@) == Ok::<_, DecodeError>(m@),
            Err(e) => object_field_spec(members@, key@) == Err::<Seq<JsonMember>, _>(e),
        },
{
    match get_field(members, key) {
        None => Err(DecodeError::MissingField),
        Some(JsonValue::Object(m)) => Ok(m),
        Some(_) => Err(DecodeError::ExpectedObject),
    }
}

/// Whether some name of `v` has the text `t`.
fn contains_text(v: &Vec<String>, t: &String) -> (r: bool)
    ensures
        r == exists|k: int| 0 <= k < v@.len() && (#[trigger] v@[k])@ == t@,
{
    let mut k: usize = 0;
    while k < v.len()
        invariant
            k <= v@.len(),
            forall|j: int| 0 <= j < k ==> (#[trigger] v@[j])@ != t@,
        decreases v@.len() - k,
    {
        if same_text(v[k].as_str(), t.as_str()) {
            return true;
        }
        k = k + 1;
    }
    false
}

/// Reads an array of strings as a list of names without repeats.
pub fn text_set_from_json(v: &JsonValue) -> (r: Result<Vec<String>, DecodeError>)
    ensures
        match r {
            Ok(names) => text_set_spec(*v) == Ok::<_, DecodeError>(text_set(names@)) && distinct_texts(names@),
            Err(e) => text_set_spec(*v) == Err::<Set<Seq<char>>, _>(e),
        },
{
    let items = match v {
        JsonValue::Array(items) => items,
        _ => return Err(DecodeError::ExpectedArray),
    };
    let mut out: Vec<String> = Vec::new();
    let mut i: usize = 0;
    while i < items.len()
        invariant
            *v == JsonValue::Array(*items),
            i <= items@.len(),
            distinct_texts(out@),
            forall|j: int| 0 <= j < i ==> (#[trigger] items@[j]) is Str,
            forall|k: int| 0 <= k < out@.len() ==> exists|j: int| 0 <= j < i && is_text(#[trigger] items@[j], (#[trigger] out@[k])@),
            forall|j: int| 0 <= j < i ==> exists|k: int| 0 <= k < out@.len() && is_text(#[trigger] items@[j], (#[trigger] out@[k])@),
        decreases items@.len() - i,
    {
        match &items[i] {
            JsonValue::Str(s) => {
                let found = contains_text(&out, s);
                if !found {
                    let ghost old_out = out@;
                    out.push(s.clone());
                    assert forall|k: int| 0 <= k < out@.len() implies exists|j: int| 0 <= j < i + 1 && is_text(#[trigger] items@[j], (#[trigger] out@[k])@) by {
                        if k < old_out.len() {
                            assert(out@[k] == old_out[k]);
                        } else {
                            assert(is_text(items@[i as int], out@[k]@));
                        }
                    }
                    assert forall|j: int| 0 <= j < i + 1 implies exists|k: int| 0 <= k < out@.len() && is_text(#[trigger] items@[j], (#[trigger] out@[k])@) by {
                        if j < i {
                            let k0 = choose|k: int| 0 <= k < old_out.len() && is_text(items@[j], (#[trigger] old_out[k])@);
                            assert(out@[k0] == old_out[k0]);
                        } else {
                            assert(is_text(items@[j], out@[old_out.len() as int]@));
                        }
                    }
                } else {
                    assert forall|j: int| 0 <= j < i + 1 implies exists|k: int| 0 <= k < out@.len() && is_text(#[trigger] items@[j], (#[trigger] out@[k])@) by {
                        if j == i {
                            let k0 = choose|k: int| 0 <= k < out@.len() && (#[trigger] out@[k])@ == s@;
                            assert(is_text(items@[j], out@[k0]@));
                        }
                    }
                }
            },
            _ => {
                return Err(DecodeError::ExpectedString);
            },
        }
        i = i + 1;
    }
    proof {
        let want = Set::new(|t: Seq<char>| exists|j: int| 0 <= j < items@.len() && is_text(#[trigger] items@[j], t));
        let have = text_set(out@);
        let mv = out@.map_values(|s: String| s@);
        assert forall|t: Seq<char>| want.contains(t) <==> have.contains(t) by {
            if want.contains(t) {
                let j = choose|j: int| 0 <= j < items@.len() && is_text(#[trigger] items@[j], t);
                let k = choose|k: int| 0 <= k < out@.len() && is_text(#[trigger] items@[j], (#[trigger] out@[k])@);
                assert(mv[k] == t);
            }
            if have.contains(t) {
                let k = choose|k: int| 0 <= k < mv.len() && #[trigger] mv[k] == t;
                assert(mv[k] == out@[k]@);
                let j = choose|j: int| 0 <= j < items@.len() && is_text(#[trigger] items@[j], (#[trigger] out@[k])@);
            }
        }
        assert(want =~= have);
    }
    Ok(out)
}

pub fn text_set_field(members: &Vec<JsonMember>, key: &str) -> (r: Result<Vec<String>, DecodeError>)
    ensures
        match r {
            Ok(names) => text_set_field_spec(members@, key@) == Ok::<_, DecodeError>(text_set(names@)) && distinct_texts(names@),
            Err(e) => text_set_field_spec(members@, key@) == Err::<Set<Seq<char>>, _>(e),
        },
{
    match get_field(members, key) {
        None => Err(DecodeError::MissingField),
        Some(v) => text_set_from_json(v),
    }
}

/// Writes a list of names as an array of strings.
pub fn text_list_to_json(names: &Vec<String>) -> (r: JsonValue)
    ensures
        is_text_list(r, names@.map_values(|s: String| s@)),
        text_set_spec(r) == Ok::<_, DecodeError>(text_set(names@)),
{
    let mut items: Vec<JsonValue> = Vec::new();
    let mut i: usize = 0;
    while i < names.len()
        invariant
            i <= names@.len(),
            items@.len() == i,
            forall|j: int| 0 <= j < i ==> is_text(#[trigger] items@[j], names@[j]@),
        decreases names@.len() - i,
    {
        items.push(JsonValue::Str(names[i].clone()));
        i = i + 1;
    }
    let r = JsonValue::Array(items);
    proof {
        let want = Set::new(|t: Seq<char>| exists|j: int| 0 <= j < items@.len() && is_text(#[trigger] items@[j], t));
        let have = text_set(names@);
        let mv = names@.map_values(|s: String| s@);
        assert forall|t: Seq<char>| want.contains(t) <==> have.contains(t) by {
            if want.contains(t) {
                let j = choose|j: int| 0 <= j < items@.len() && is_text(#[trigger] items@[j], t);
                assert(mv[j] == t);
            }
            if have.contains(t) {
                let k = choose|k: int| 0 <= k < mv.len() && #[trigger] mv[k] == t;
                assert(is_text(items@[k], t));
            }
        }
        assert(want =~= have);
        assert forall|j: int| 0 <= j < items@.len() implies (#[trigger] items@[j]) is Str by {
            assert(is_text(items@[j], names@[j]@));
        }
    }
    r
}

/// The names of the members, in order.
pub open spec fn keys_of(members: Seq<JsonMember>) -> Seq<Seq<char>> {
    members.map_values(|x: JsonMember| x.key@)
}

/// `key` where `present` holds, else nothing.
pub open spec fn key_if(present: bool, key: Seq<char>) -> Seq<Seq<char>> {
    if present {
        seq![key]
    } else {
        seq![]
    }
}

/// No two members share a name.
pub open spec fn distinct_keys(members: Seq<JsonMember>) -> bool {
    forall|i: int, j: int|
        0 <= i < members.len() && 0 <= j < members.len() && i != j ==> (#[trigger] members[i]).key@
            != (#[trigger] members[j]).key@
}

/// Some member is named `key`.
pub open spec fn has_key(members: Seq<JsonMember>, key: Seq<char>) -> bool {
    exists|i: int| 0 <= i < members.len() && (#[trigger] members[i]).key@ == key
}

/// The members with every repeated name dropped after its first use.
pub open spec fn dedup_keys_spec(members: Seq<JsonMember>) -> Seq<JsonMember>
    decreases members.len(),
{
    if members.len() == 0 {
        seq![]
    } else {
        let d = dedup_keys_spec(members.drop_last());
        if has_key(d, members.last().key@) {
            d
        } else {
            d.push(members.last())
        }
    }
}

/// Members without repeated names lose none of them.
pub proof fn lemma_dedup_keys_distinct(members: Seq<JsonMember>)
    requires
        distinct_keys(members),
    ensures
        dedup_keys_spec(members) == members,
    decreases members.len(),
{
    if members.len() > 0 {
        let init = members.drop_last();
        assert(distinct_keys(init)) by {
            assert forall|i: int, j: int| 0 <= i < init.len() && 0 <= j < init.len() && i != j implies (#[trigger] init[i]).key@ != (#[trigger] init[j]).key@ by {
                assert(init[i] == members[i] && init[j] == members[j]);
            }
        }
        lemma_dedup_keys_distinct(init);
        if has_key(init, members.last().key@) {
            let i = choose|i: int| 0 <= i < init.len() && (#[trigger] init[i]).key@ == members.last().key@;
            assert(members[i] == init[i]);
            assert(members[members.len() - 1] == members.last());
        }
        assert(init.push(members.last()) =~= members);
    }
}

fn contains_key(members: &Vec<JsonMember>, key: &String) -> (r: bool)
    ensures
        r == has_key(members@, key@),
{
    let mut k: usize = 0;
    while k < members.len()
        invariant
            k <= members@.len(),
            forall|j: int| 0 <= j < k ==> (#[trigger] members@[j]).key@ != key@,
        decreases members@.len() - k,
    {
        if same_text(members[k].key.as_str(), key.as_str()) {
            return true;
        }
        k = k + 1;
    }
    false
}

/// Drops every member whose name was used by an earlier one.
pub fn dedup_keys(members: Vec<JsonMember>) -> (r: Vec<JsonMember>)
    ensures
        r@ == dedup_keys_spec(members@),
        distinct_keys(r@),
{
    let ghost orig = members@;
    let mut rest = members;
    let n = rest.len();
    let mut out: Vec<JsonMember> = Vec::new();
    let mut i: usize = 0;
    assert(orig.subrange(0, 0) =~= Seq::<JsonMember>::empty());
    assert(orig.subrange(0, n as int) =~= orig);
    while i < n
        invariant
            n == orig.len(),
            i <= n,
            rest@ == orig.subrange(i as int, n as int),
            out@ == dedup_keys_spec(orig.subrange(0, i as int)),
            distinct_keys(out@),
        decreases n - i,
    {
        let x = rest.remove(0);
        assert(x == orig[i as int]);
        assert(rest@ =~= orig.subrange(i + 1, n as int));
        let ghost pre = orig.subrange(0, i + 1);
        assert(pre.drop_last() =~= orig.subrange(0, i as int));
        assert(pre.last() == x);
        if !contains_key(&out, &x.key) {
            let ghost before = out@;
            out.push(x);
            assert forall|a: int, b: int| 0 <= a < out@.len() && 0 <= b < out@.len() && a != b implies (#[trigger] out@[a]).key@ != (#[trigger] out@[b]).key@ by {
                if a < before.len() && b < before.len() {
                    assert(out@[a] == before[a] && out@[b] == before[b]);
                } else if a < before.len() {
                    assert(out@[a] == before[a]);
                } else {
                    assert(out@[b] == before[b]);
                }
            }
        }
        i = i + 1;
    }
    out
}

} // verus!
