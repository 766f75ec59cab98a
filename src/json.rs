use vstd::prelude::*;

verus! {

#[verifier::external_type_specification]
#[verifier::external_body]
pub struct ExValue(serde_json::Value);

#[verifier::external_type_specification]
#[verifier::external_body]
pub struct ExNumber(serde_json::Number);

/// A JSON value as the bridge sees it. Numbers stay in serde_json's own
/// representation, which the bridge carries without reading.
#[derive(Debug, PartialEq)]
pub enum Json {
    Null,
    Bool(bool),
    Num(serde_json::Number),
    Str(String),
    Arr(Vec<Json>),
    Obj(Vec<(String, Json)>),
}

/// The bytes that serde_json writes for a value.
pub uninterp spec fn json_text(j: Json) -> Seq<u8>;

/// The value that serde_json reads from bytes, or `None` where they are not JSON.
pub uninterp spec fn json_parse(b: Seq<u8>) -> Option<Json>;

/// The value of the first member named `key`.
pub open spec fn member(fields: Seq<(String, Json)>, key: Seq<char>) -> Option<Json>
    decreases fields.len(),
{
    if fields.len() == 0 {
        None
    } else if fields[0].0@ == key {
        Some(fields[0].1)
    } else {
        member(fields.drop_first(), key)
    }
}

/// The members with the first one named `key` left out.
pub open spec fn without(fields: Seq<(String, Json)>, key: Seq<char>) -> Seq<(String, Json)>
    decreases fields.len(),
{
    if fields.len() == 0 {
        fields
    } else if fields[0].0@ == key {
        fields.drop_first()
    } else {
        seq![fields[0]].add(without(fields.drop_first(), key))
    }
}

/// The text of a string value.
pub open spec fn text_of(j: Option<Json>) -> Option<String> {
    match j {
        Some(Json::Str(s)) => Some(s),
        _ => None,
    }
}

proof fn lemma_member_at(fields: Seq<(String, Json)>, key: Seq<char>, i: int)
    requires
        0 <= i < fields.len(),
        fields[i].0@ == key,
        forall|j: int| 0 <= j < i ==> fields[j].0@ != key,
    ensures
        member(fields, key) == Some(fields[i].1),
        without(fields, key) == fields.remove(i),
    decreases i,
{
    if i > 0 {
        let rest = fields.drop_first();
        assert forall|j: int| 0 <= j < i - 1 implies rest[j].0@ != key by {
            assert(rest[j] == fields[j + 1]);
        }
        lemma_member_at(rest, key, i - 1);
        assert(fields.remove(i) =~= seq![fields[0]].add(rest.remove(i - 1)));
    }
}

proof fn lemma_member_absent(fields: Seq<(String, Json)>, key: Seq<char>)
    requires
        forall|j: int| 0 <= j < fields.len() ==> fields[j].0@ != key,
    ensures
        member(fields, key) == None::<Json>,
        without(fields, key) == fields,
    decreases fields.len(),
{
    if fields.len() > 0 {
        let rest = fields.drop_first();
        assert forall|j: int| 0 <= j < rest.len() implies rest[j].0@ != key by {
            assert(rest[j] == fields[j + 1]);
        }
        lemma_member_absent(rest, key);
        assert(seq![fields[0]].add(rest) =~= fields);
    }
}

/// Taking out one member leaves every member of another name where it was found.
pub proof fn lemma_member_without(fields: Seq<(String, Json)>, taken: Seq<char>, key: Seq<char>)
    requires
        taken != key,
    ensures
        member(without(fields, taken), key) == member(fields, key),
    decreases fields.len(),
{
    if fields.len() > 0 {
        let rest = fields.drop_first();
        lemma_member_without(rest, taken, key);
        if fields[0].0@ != taken {
            let w = seq![fields[0]].add(without(rest, taken));
            assert(w[0] == fields[0]);
            assert(w.drop_first() =~= without(rest, taken));
        }
    }
}

/// The text of a string value, as characters.
pub open spec fn str_view(j: Json) -> Option<Seq<char>> {
    match j {
        Json::Str(s) => Some(s@),
        _ => None,
    }
}

/// The members of an object.
pub open spec fn obj_view(j: Json) -> Option<Seq<(String, Json)>> {
    match j {
        Json::Obj(v) => Some(v@),
        _ => None,
    }
}

/// The first members are the strings `vals`, and all are named by `keys`.
pub open spec fn texts(d: Seq<(String, Json)>, keys: Seq<Seq<char>>, vals: Seq<String>) -> bool {
    &&& named(d, keys)
    &&& vals.len() <= keys.len()
    &&& forall|i: int| 0 <= i < vals.len() ==> d[i].1 == Json::Str(#[trigger] vals[i])
}

/// The members are named by `keys`, in that order.
pub open spec fn named(fields: Seq<(String, Json)>, keys: Seq<Seq<char>>) -> bool {
    &&& fields.len() == keys.len()
    &&& forall|i: int| 0 <= i < keys.len() ==> #[trigger] fields[i].0@ == keys[i]
}

/// No name occurs twice.
pub open spec fn distinct(keys: Seq<Seq<char>>) -> bool {
    forall|i: int, j: int| 0 <= i < j < keys.len() ==> keys[i] != keys[j]
}

/// In an object whose names are all different, each name finds its own member.
pub proof fn lemma_named_members(fields: Seq<(String, Json)>, keys: Seq<Seq<char>>)
    requires
        named(fields, keys),
        distinct(keys),
    ensures
        forall|i: int| 0 <= i < keys.len() ==> member(fields, #[trigger] keys[i]) == Some(fields[i].1),
        forall|k: Seq<char>| !keys.contains(k) ==> member(fields, k) == None::<Json>,
    decreases fields.len(),
{
    if fields.len() > 0 {
        let rest = fields.drop_first();
        let rk = keys.drop_first();
        assert forall|i: int| 0 <= i < rk.len() implies #[trigger] rest[i].0@ == rk[i] by {
            assert(fields[i + 1].0@ == keys[i + 1]);
        }
        assert forall|i: int, j: int| 0 <= i < j < rk.len() implies rk[i] != rk[j] by {
            assert(keys[i + 1] != keys[j + 1]);
        }
        lemma_named_members(rest, rk);
        assert forall|i: int| 0 <= i < keys.len() implies member(fields, #[trigger] keys[i]) == Some(fields[i].1) by {
            if i > 0 {
                assert(keys[i] == rk[i - 1]);
                assert(keys[0] != keys[i]);
                assert(fields[0].0@ == keys[0]);
            }
        }
        assert forall|k: Seq<char>| !keys.contains(k) implies member(fields, k) == None::<Json> by {
            assert(fields[0].0@ == keys[0]);
            if rk.contains(k) {
                let i = choose|i: int| 0 <= i < rk.len() && rk[i] == k;
                assert(keys[i + 1] == k);
            }
        }
    }
}

/// Removes the first member named `key` and hands back its value.
pub fn take_member(fields: &mut Vec<(String, Json)>, key: &String) -> (r: Option<Json>)
    ensures
        r == member(old(fields)@, key@),
        final(fields)@ == without(old(fields)@, key@),
        forall|k: Seq<char>| k != key@ ==> member(final(fields)@, k) == member(old(fields)@, k),
{
    let ghost start = fields@;
    let mut i: usize = 0;
    while i < fields.len()
        invariant
            fields@ == start,
            start == old(fields)@,
            i <= fields.len(),
            forall|j: int| 0 <= j < i ==> fields@[j].0@ != key@,
        decreases fields.len() - i,
    {
        if fields[i].0 == *key {
            proof {
                lemma_member_at(start, key@, i as int);
            }
            let (_, v) = fields.remove(i);
            proof {
                assert forall|k: Seq<char>| k != key@ implies member(fields@, k) == member(start, k) by {
                    lemma_member_without(start, key@, k);
                }
            }
            return Some(v);
        }
        i = i + 1;
    }
    proof {
        lemma_member_absent(start, key@);
    }
    None
}

/// Takes out the first member named `key` where it is a string.
pub fn take_text(fields: &mut Vec<(String, Json)>, key: &String) -> (r: Option<String>)
    ensures
        r == text_of(member(old(fields)@, key@)),
        forall|k: Seq<char>| k != key@ ==> member(final(fields)@, k) == member(old(fields)@, k),
{
    match take_member(fields, key) {
        Some(Json::Str(s)) => Some(s),
        _ => None,
    }
}

/// A string member of an object.
pub fn text_member(key: &str, value: String) -> (r: (String, Json))
    ensures
        r.0@ == key@,
        r.1 == Json::Str(value),
{
    (key.to_string(), Json::Str(value))
}

/// Converts a value into serde_json's representation, node for node.
#[verifier::external_body]
fn value_of(j: Json) -> serde_json::Value {
    match j {
        Json::Null => serde_json::Value::Null,
        Json::Bool(b) => serde_json::Value::Bool(b),
        Json::Num(n) => serde_json::Value::Number(n),
        Json::Str(s) => serde_json::Value::String(s),
        Json::Arr(a) => serde_json::Value::Array(a.into_iter().map(value_of).collect()),
        Json::Obj(m) => serde_json::Value::Object(m.into_iter().map(|(k, v)| (k, value_of(v))).collect()),
    }
}

/// Converts serde_json's representation of a value, node for node.
#[verifier::external_body]
fn json_of(v: serde_json::Value) -> Json {
    match v {
        serde_json::Value::Null => Json::Null,
        serde_json::Value::Bool(b) => Json::Bool(b),
        serde_json::Value::Number(n) => Json::Num(n),
        serde_json::Value::String(s) => Json::Str(s),
        serde_json::Value::Array(a) => Json::Arr(a.into_iter().map(json_of).collect()),
        serde_json::Value::Object(m) => Json::Obj(m.into_iter().map(|(k, v)| (k, json_of(v))).collect()),
    }
}

/// Relies on serde_json::to_vec, which writes a value's JSON text. Writing a
/// `serde_json::Value` into a `Vec` does not fail: its keys are strings.
#[verifier::external_body]
pub(crate) fn write_json(j: Json) -> (r: Vec<u8>)
    ensures
        r@ == json_text(j),
{
    serde_json::to_vec(&value_of(j)).unwrap_or_default()
}

/// Relies on serde_json::from_slice, which reads one JSON value from bytes
/// and fails where they hold anything else.
#[verifier::external_body]
pub(crate) fn read_json(b: &[u8]) -> (r: Option<Json>)
    ensures
        r == json_parse(b@),
{
    serde_json::from_slice::<serde_json::Value>(b).ok().map(json_of)
}

} // verus!
