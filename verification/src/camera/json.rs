//! The members of a JSON object as plain values, and how a member is found by
//! its key. The JSON readers of the camera listings hand objects out in this
//! form; which keys matter, and which reading of each value, is decided here.

use vstd::prelude::*;

verus! {

/// One member of a JSON object: its key, and the readings of its value that
/// the listings use: as an unsigned integer, as a boolean, and as a string.
/// A reading is `None` when the value is not of that kind.
pub struct JsonMember {
    pub key: String,
    pub unsigned: Option<u64>,
    pub flag: Option<bool>,
    pub text: Option<String>,
}

/// A member as plain values: key, unsigned reading, boolean reading, string
/// reading.
pub type MemberView = (Seq<char>, Option<u64>, Option<bool>, Option<Seq<char>>);

pub open spec fn opt_string_view(o: Option<String>) -> Option<Seq<char>> {
    match o {
        Some(s) => Some(s@),
        None => None,
    }
}

pub open spec fn member_view(m: JsonMember) -> MemberView {
    (m.key@, m.unsigned, m.flag, opt_string_view(m.text))
}

pub open spec fn members_view(ms: Seq<JsonMember>) -> Seq<MemberView> {
    ms.map_values(|m: JsonMember| member_view(m))
}

/// An array element as plain values: the members of an object, or `None` for
/// an element that is not an object.
pub open spec fn element_view(e: Option<Vec<JsonMember>>) -> Option<Seq<MemberView>> {
    match e {
        Some(ms) => Some(members_view(ms@)),
        None => None,
    }
}

pub open spec fn elements_view(es: Seq<Option<Vec<JsonMember>>>) -> Seq<Option<Seq<MemberView>>> {
    es.map_values(|e: Option<Vec<JsonMember>>| element_view(e))
}

/// The first member with the given key, if any.
pub open spec fn member_with_key(ms: Seq<MemberView>, key: Seq<char>) -> Option<MemberView>
    decreases ms.len(),
{
    if ms.len() == 0 {
        None
    } else if ms[0].0 == key {
        Some(ms[0])
    } else {
        member_with_key(ms.drop_first(), key)
    }
}

/// The unsigned reading of the member with the given key.
pub open spec fn unsigned_at(ms: Seq<MemberView>, key: Seq<char>) -> Option<u64> {
    match member_with_key(ms, key) {
        Some(m) => m.1,
        None => None,
    }
}

/// The boolean reading of the member with the given key.
pub open spec fn flag_at(ms: Seq<MemberView>, key: Seq<char>) -> Option<bool> {
    match member_with_key(ms, key) {
        Some(m) => m.2,
        None => None,
    }
}

/// The string reading of the member with the given key.
pub open spec fn text_at(ms: Seq<MemberView>, key: Seq<char>) -> Option<Seq<char>> {
    match member_with_key(ms, key) {
        Some(m) => m.3,
        None => None,
    }
}

/// The position of the first member with the given key.
pub fn find_member(ms: &Vec<JsonMember>, key: &str) -> (r: Option<usize>)
    ensures
        match r {
            Some(i) => i < ms@.len() && member_with_key(members_view(ms@), key@) == Some(
                member_view(ms@[i as int]),
            ),
            None => member_with_key(members_view(ms@), key@) is None,
        },
{
    let target = key.to_owned();
    let n = ms.len();
    let mut i: usize = 0;
    let ghost all = members_view(ms@);
    assert(all.subrange(0, n as int) =~= all);
    while i < n
        invariant
            n == ms@.len(),
            all == members_view(ms@),
            target@ == key@,
            i <= n,
            member_with_key(all, key@) == member_with_key(all.subrange(i as int, n as int), key@),
        decreases n - i,
    {
        assert(all.subrange(i as int, n as int).drop_first() =~= all.subrange(i + 1, n as int));
        assert(all[i as int] == member_view(ms@[i as int]));
        if ms[i].key == target {
            return Some(i);
        }
        i = i + 1;
    }
    None
}

/// The unsigned reading of the member with the given key.
pub fn unsigned_member(ms: &Vec<JsonMember>, key: &str) -> (r: Option<u64>)
    ensures
        r == unsigned_at(members_view(ms@), key@),
{
    match find_member(ms, key) {
        Some(i) => ms[i].unsigned,
        None => None,
    }
}

/// The boolean reading of the member with the given key.
pub fn flag_member(ms: &Vec<JsonMember>, key: &str) -> (r: Option<bool>)
    ensures
        r == flag_at(members_view(ms@), key@),
{
    match find_member(ms, key) {
        Some(i) => ms[i].flag,
        None => None,
    }
}

/// The string reading of the member with the given key.
pub fn text_member(ms: &Vec<JsonMember>, key: &str) -> (r: Option<String>)
    ensures
        opt_string_view(r) == text_at(members_view(ms@), key@),
{
    match find_member(ms, key) {
        Some(i) => match &ms[i].text {
            Some(t) => Some(t.clone()),
            None => None,
        },
        None => None,
    }
}

} // verus!
