use std::collections::BTreeMap;
use vstd::prelude::*;

use crate::state::SimpleWindowState;
use crate::store::SaveError;

verus! {

#[verifier::external_type_specification]
#[verifier::external_body]
pub struct ExJsonError(serde_json::Error);

/// The members that serde_json reads from `text` taken as one JSON object whose
/// members are all integers in the range of `i64`, in the order of their keys;
/// `None` where `text` is not such an object.
pub uninterp spec fn int_members_of(text: Seq<char>) -> Option<Seq<(Seq<char>, i64)>>;

/// The pretty-printed JSON text that serde_json writes for the object with
/// these integer members.
pub uninterp spec fn pretty_json_of(members: Seq<(Seq<char>, i64)>) -> Seq<char>;

/// Members of a JSON object, each key seen as its characters.
pub open spec fn members_view(v: Seq<(String, i64)>) -> Seq<(Seq<char>, i64)> {
    v.map_values(|e: (String, i64)| (e.0@, e.1))
}

/// Relies on `serde_json::from_str` into a `BTreeMap<String, i64>`: it reads
/// the object or fails, and the map hands its entries out in key order.
#[verifier::external_body]
fn parse_int_members(text: &str) -> (r: Option<Vec<(String, i64)>>)
    ensures
        match r {
            Some(v) => int_members_of(text@) == Some(members_view(v@)),
            None => int_members_of(text@) is None,
        },
{
    serde_json::from_str::<BTreeMap<String, i64>>(text).ok().map(|m| m.into_iter().collect())
}

/// Relies on `serde_json::to_string_pretty` on a `BTreeMap<String, i64>`
/// holding the members: the pretty JSON text of that object. It fails only
/// when the writer fails or a map key is not a string; it writes into a `Vec`
/// and every key here is a `String`, so it succeeds.
#[verifier::external_body]
fn print_int_members(members: &Vec<(String, i64)>) -> (r: Result<String, serde_json::Error>)
    ensures
        r is Ok,
        r matches Ok(t) ==> t@ == pretty_json_of(members_view(members@)),
{
    serde_json::to_string_pretty(&members.iter().cloned().collect::<BTreeMap<String, i64>>())
}

/// Relies on the `Display` impl of `serde_json::Error` for a readable cause.
#[verifier::external_body]
pub(crate) fn json_error_text(e: &serde_json::Error) -> (r: String) {
    e.to_string()
}

/// The value of the first member named `key`, if any.
pub open spec fn member_value(members: Seq<(Seq<char>, i64)>, key: Seq<char>) -> Option<i64>
    decreases members.len(),
{
    if members.len() == 0 {
        None
    } else if members[0].0 == key {
        Some(members[0].1)
    } else {
        member_value(members.drop_first(), key)
    }
}

/// The members under which a record is stored.
pub open spec fn members_of(s: SimpleWindowState) -> Seq<(Seq<char>, i64)> {
    seq![
        ("width"@, s.width as i64),
        ("height"@, s.height as i64),
        ("x"@, s.x as i64),
        ("y"@, s.y as i64),
    ]
}

/// The record that a set of members describes: all four fields present, each
/// in the range of its type. Other members are ignored.
pub open spec fn state_from_members(m: Seq<(Seq<char>, i64)>) -> Option<SimpleWindowState> {
    match (
        member_value(m, "width"@),
        member_value(m, "height"@),
        member_value(m, "x"@),
        member_value(m, "y"@),
    ) {
        (Some(w), Some(h), Some(x), Some(y)) => {
            if 0 <= w <= u32::MAX && 0 <= h <= u32::MAX && i32::MIN <= x <= i32::MAX && i32::MIN
                <= y <= i32::MAX {
                Some(SimpleWindowState { width: w as u32, height: h as u32, x: x as i32, y: y as i32 })
            } else {
                None
            }
        },
        _ => None,
    }
}

/// The record that a stored text describes, if any.
pub open spec fn decoded(text: Seq<char>) -> Option<SimpleWindowState> {
    match int_members_of(text) {
        Some(m) => state_from_members(m),
        None => None,
    }
}

proof fn lemma_member_value_skip(m: Seq<(Seq<char>, i64)>, key: Seq<char>, i: int)
    requires
        0 <= i <= m.len(),
        forall|j: int| 0 <= j < i ==> m[j].0 != key,
    ensures
        member_value(m, key) == member_value(m.subrange(i, m.len() as int), key),
    decreases i,
{
    if i > 0 {
        let rest = m.drop_first();
        lemma_member_value_skip(rest, key, i - 1);
        assert(rest.subrange(i - 1, rest.len() as int) =~= m.subrange(i, m.len() as int));
    } else {
        assert(m.subrange(0, m.len() as int) =~= m);
    }
}

/// The value of the first member named `key`, if any.
pub fn member(members: &Vec<(String, i64)>, key: &str) -> (r: Option<i64>)
    ensures
        r == member_value(members_view(members@), key@),
{
    let ghost mv = members_view(members@);
    let wanted = key.to_owned();
    let mut i: usize = 0;
    while i < members.len()
        invariant
            0 <= i <= members.len(),
            mv == members_view(members@),
            wanted@ == key@,
            forall|j: int| 0 <= j < i ==> mv[j].0 != key@,
        decreases members.len() - i,
    {
        if members[i].0 == wanted {
            proof {
                lemma_member_value_skip(mv, key@, i as int);
                assert(mv.subrange(i as int, mv.len() as int)[0] == mv[i as int]);
            }
            return Some(members[i].1);
        }
        i = i + 1;
    }
    proof {
        lemma_member_value_skip(mv, key@, i as int);
    }
    None
}

/// The record that a set of members describes, if any.
pub fn from_members(members: &Vec<(String, i64)>) -> (r: Option<SimpleWindowState>)
    ensures
        r == state_from_members(members_view(members@)),
{
    let w = member(members, "width");
    let h = member(members, "height");
    let x = member(members, "x");
    let y = member(members, "y");
    match (w, h, x, y) {
        (Some(w), Some(h), Some(x), Some(y)) => {
            if 0 <= w && w <= u32::MAX as i64 && 0 <= h && h <= u32::MAX as i64 && i32::MIN as i64
                <= x && x <= i32::MAX as i64 && i32::MIN as i64 <= y && y <= i32::MAX as i64 {
                Some(SimpleWindowState { width: w as u32, height: h as u32, x: x as i32, y: y as i32 })
            } else {
                None
            }
        },
        _ => None,
    }
}

/// Reads a record from its stored text: `None` where the text is not a JSON
/// object of integers holding the four fields within their ranges.
pub fn decode(text: &str) -> (r: Option<SimpleWindowState>)
    ensures
        r == decoded(text@),
{
    match parse_int_members(text) {
        Some(members) => from_members(&members),
        None => None,
    }
}

/// The members under which a record is stored.
pub fn to_members(s: &SimpleWindowState) -> (r: Vec<(String, i64)>)
    ensures
        members_view(r@) == members_of(*s),
{
    let r = vec![
        ("width".to_owned(), s.width as i64),
        ("height".to_owned(), s.height as i64),
        ("x".to_owned(), s.x as i64),
        ("y".to_owned(), s.y as i64),
    ];
    assert(members_view(r@) =~= members_of(*s));
    r
}

/// Writes a record as pretty-printed JSON text with exactly its four fields.
/// Always succeeds: the record is four integers under string keys.
pub fn encode(s: &SimpleWindowState) -> (r: Result<String, SaveError>)
    ensures
        match r {
            Ok(t) => t@ == pretty_json_of(members_of(*s)),
            Err(_) => false,
        },
{
    let members = to_members(s);
    match print_int_members(&members) {
        Ok(t) => Ok(t),
        Err(e) => Err(SaveError::SerializationFailed(json_error_text(&e))),
    }
}

/// Reading back the members a record is stored under gives that record again.
/// This is the library's half of the save-then-load round trip; the other
/// half, that the JSON text holds those members, rests on serde_json.
pub proof fn lemma_members_round_trip(s: SimpleWindowState)
    ensures
        state_from_members(members_of(s)) == Some(s),
{
    reveal_strlit("width");
    reveal_strlit("height");
    reveal_strlit("x");
    reveal_strlit("y");
    let m = members_of(s);
    assert("width"@.len() == 5 && "height"@.len() == 6 && "x"@.len() == 1 && "y"@.len() == 1);
    assert("x"@[0] != "y"@[0]);
    let m1 = m.drop_first();
    let m2 = m1.drop_first();
    let m3 = m2.drop_first();
    assert(m1[0] == m[1] && m2[0] == m[2] && m3[0] == m[3]);
    assert(member_value(m, "width"@) == Some(s.width as i64));
    assert(member_value(m1, "height"@) == Some(s.height as i64));
    assert(member_value(m, "height"@) == Some(s.height as i64));
    assert(member_value(m2, "x"@) == Some(s.x as i64));
    assert(member_value(m1, "x"@) == Some(s.x as i64));
    assert(member_value(m, "x"@) == Some(s.x as i64));
    assert(member_value(m3, "y"@) == Some(s.y as i64));
    assert(member_value(m2, "y"@) == Some(s.y as i64));
    assert(member_value(m1, "y"@) == Some(s.y as i64));
    assert(member_value(m, "y"@) == Some(s.y as i64));
}

} // verus!
