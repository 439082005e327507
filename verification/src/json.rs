//! JSON values as the tool and action schemas read and build them.
use vstd::prelude::*;
use crate::text::same_text;

verus! {

/// A JSON value. An object lists its members in the order of the map it came
/// from, each key once.
#[derive(Debug, PartialEq)]
pub enum Json {
    Null,
    Bool(bool),
    /// A number without sign or fraction.
    Unsigned(u64),
    /// A number below zero without fraction.
    Negative(i64),
    /// Any other number, as written.
    Float(String),
    Text(String),
    Array(Vec<Json>),
    Object(Vec<(String, Json)>),
}

/// What a JSON value holds.
pub enum Value {
    Null,
    Bool(bool),
    Unsigned(u64),
    Negative(i64),
    Float(Seq<char>),
    Text(Seq<char>),
    Array(Seq<Value>),
    Object(Seq<(Seq<char>, Value)>),
}

/// What a JSON value holds.
pub open spec fn value_of(json: Json) -> Value
    decreases json, 0nat,
{
    match json {
        Json::Null => Value::Null,
        Json::Bool(flag) => Value::Bool(flag),
        Json::Unsigned(number) => Value::Unsigned(number),
        Json::Negative(number) => Value::Negative(number),
        Json::Float(digits) => Value::Float(digits@),
        Json::Text(text) => Value::Text(text@),
        Json::Array(items) => Value::Array(values_of(items@, items@.len())),
        Json::Object(members) => Value::Object(members_of(members@, members@.len())),
    }
}

/// What the first `n` items hold.
pub open spec fn values_of(items: Seq<Json>, n: nat) -> Seq<Value>
    decreases items, n,
{
    if n == 0 || n > items.len() {
        Seq::empty()
    } else {
        values_of(items, (n - 1) as nat).push(value_of(items[n - 1]))
    }
}

/// What the first `n` members hold.
pub open spec fn members_of(members: Seq<(String, Json)>, n: nat) -> Seq<(Seq<char>, Value)>
    decreases members, n,
{
    if n == 0 || n > members.len() {
        Seq::empty()
    } else {
        let member = members[n - 1];
        members_of(members, (n - 1) as nat).push((member.0@, value_of(member.1)))
    }
}

impl DeepView for Json {
    type V = Value;

    open spec fn deep_view(&self) -> Value {
        value_of(*self)
    }
}

/// The members of an object.
pub open spec fn all_members(members: Seq<(String, Json)>) -> Seq<(Seq<char>, Value)> {
    members_of(members, members.len())
}

/// The items of an array.
pub open spec fn all_items(items: Seq<Json>) -> Seq<Value> {
    values_of(items, items.len())
}

/// The members of a prefix do not depend on what follows it.
proof fn members_of_prefix(members: Seq<(String, Json)>, last: (String, Json), n: nat)
    requires
        n <= members.len(),
    ensures
        members_of(members.push(last), n) == members_of(members, n),
    decreases n,
{
    if n > 0 {
        members_of_prefix(members, last, (n - 1) as nat);
        assert(members.push(last)[n - 1] == members[n - 1]);
    }
}

/// A member at the end is the last that its object holds.
pub proof fn members_pushed(members: Seq<(String, Json)>, last: (String, Json))
    ensures
        all_members(members.push(last)) == all_members(members).push(
            (last.0@, value_of(last.1)),
        ),
{
    members_of_prefix(members, last, members.len());
}

/// Each of the first `n` members is held under its own key, in its place.
pub proof fn members_in_place(members: Seq<(String, Json)>, n: nat)
    requires
        n <= members.len(),
    ensures
        members_of(members, n).len() == n,
        forall|i: int|
            0 <= i < n ==> (#[trigger] members_of(members, n)[i]) == (
                members[i].0@,
                value_of(members[i].1),
            ),
    decreases n,
{
    if n > 0 {
        members_in_place(members, (n - 1) as nat);
    }
}

/// The items of a prefix do not depend on what follows it.
proof fn values_of_prefix(items: Seq<Json>, last: Json, n: nat)
    requires
        n <= items.len(),
    ensures
        values_of(items.push(last), n) == values_of(items, n),
    decreases n,
{
    if n > 0 {
        values_of_prefix(items, last, (n - 1) as nat);
        assert(items.push(last)[n - 1] == items[n - 1]);
    }
}

/// Appends one member.
pub fn add_member(members: &mut Vec<(String, Json)>, key: &str, value: Json)
    ensures
        all_members(final(members)@) == all_members(old(members)@).push(
            (key@, value_of(value)),
        ),
{
    let ghost before = members@;
    let name: String = key.to_owned();
    members.push((name, value));
    proof {
        members_of_prefix(before, (name, value), before.len());
        assert(members@ == before.push((name, value)));
    }
}

/// Appends one item.
pub fn add_item(items: &mut Vec<Json>, value: Json)
    ensures
        all_items(final(items)@) == all_items(old(items)@).push(value_of(value)),
{
    let ghost before = items@;
    items.push(value);
    proof {
        values_of_prefix(before, value, before.len());
        assert(items@ == before.push(value));
    }
}

/// A text value.
pub fn text(value: &str) -> (r: Json)
    ensures
        value_of(r) == Value::Text(value@),
{
    Json::Text(value.to_owned())
}

/// The first member under a key.
pub open spec fn lookup(members: Seq<(String, Json)>, key: Seq<char>) -> Option<Json>
    decreases members.len(),
{
    if members.len() == 0 {
        None
    } else if members[0].0@ == key {
        Some(members[0].1)
    } else {
        lookup(members.subrange(1, members.len() as int), key)
    }
}

/// The member under a key, if there is one.
pub fn get<'a>(members: &'a Vec<(String, Json)>, key: &str) -> (r: Option<&'a Json>)
    ensures
        (match r {
            Some(value) => lookup(members@, key@) == Some(*value),
            None => lookup(members@, key@) is None,
        }),
{
    let mut i: usize = 0;
    proof {
        assert(members@.subrange(0, members@.len() as int) =~= members@);
    }
    while i < members.len()
        invariant
            i <= members@.len(),
            lookup(members@, key@) == lookup(
                members@.subrange(i as int, members@.len() as int),
                key@,
            ),
        decreases members@.len() - i,
    {
        let ghost rest = members@.subrange(i as int, members@.len() as int);
        if same_text(members[i].0.as_str(), key) {
            return Some(&members[i].1);
        }
        proof {
            assert(rest.subrange(1, rest.len() as int) =~= members@.subrange(
                i + 1,
                members@.len() as int,
            ));
        }
        i += 1;
    }
    None
}

} // verus!
