//! Finding things in lists.
use vstd::prelude::*;

verus! {

/// The place of the first item with a property, or the length.
pub open spec fn first_place<T>(items: Seq<T>, holds: spec_fn(T) -> bool) -> int
    decreases items.len(),
{
    if items.len() == 0 || holds(items[0]) {
        0
    } else {
        1 + first_place(items.subrange(1, items.len() as int), holds)
    }
}

/// The first item with a property.
pub open spec fn first_item<T>(items: Seq<T>, holds: spec_fn(T) -> bool) -> Option<T> {
    let at = first_place(items, holds);
    if at < items.len() {
        Some(items[at])
    } else {
        None
    }
}

/// A place with the property, and none before it, is the first.
pub proof fn first_place_at<T>(items: Seq<T>, holds: spec_fn(T) -> bool, at: int)
    requires
        0 <= at <= items.len(),
        forall|i: int| 0 <= i < at ==> !holds(#[trigger] items[i]),
        at < items.len() ==> holds(items[at]),
    ensures
        first_place(items, holds) == at,
    decreases at,
{
    if at > 0 {
        let rest = items.subrange(1, items.len() as int);
        assert forall|i: int| 0 <= i < at - 1 implies !holds(#[trigger] rest[i]) by {
            assert(rest[i] == items[i + 1]);
        }
        assert(!holds(items[0]));
        first_place_at(rest, holds, at - 1);
    }
}

/// The first place has the property, unless it is the length, and no place
/// before it has.
pub proof fn first_place_bounds<T>(items: Seq<T>, holds: spec_fn(T) -> bool)
    ensures
        0 <= first_place(items, holds) <= items.len(),
        first_place(items, holds) < items.len() ==> holds(items[first_place(items, holds)]),
        forall|i: int| 0 <= i < first_place(items, holds) ==> !holds(#[trigger] items[i]),
    decreases items.len(),
{
    if items.len() > 0 && !holds(items[0]) {
        let rest = items.subrange(1, items.len() as int);
        first_place_bounds(rest, holds);
        assert forall|i: int| 0 <= i < first_place(items, holds) implies !holds(
            #[trigger] items[i],
        ) by {
            if i > 0 {
                assert(rest[i - 1] == items[i]);
            }
        }
    }
}

/// It has that key.
pub open spec fn has_key<T, K>(key: spec_fn(T) -> K, k: K) -> spec_fn(T) -> bool {
    |item: T| key(item) == k
}

/// A list of items under keys, as a map; the first item under a key counts.
pub open spec fn keyed<T, K, V>(
    items: Seq<T>,
    key: spec_fn(T) -> K,
    value: spec_fn(T) -> V,
) -> Map<K, V> {
    Map::new(
        |k: K| first_place(items, has_key(key, k)) < items.len(),
        |k: K| value(items[first_place(items, has_key(key, k))]),
    )
}

/// No two items share a key.
pub open spec fn keys_distinct<T, K>(items: Seq<T>, key: spec_fn(T) -> K) -> bool {
    forall|i: int, j: int|
        0 <= i < j < items.len() ==> key(#[trigger] items[i]) != key(#[trigger] items[j])
}

/// Where keys are not shared, an item is what the map holds under its key.
pub proof fn keyed_item<T, K, V>(
    items: Seq<T>,
    key: spec_fn(T) -> K,
    value: spec_fn(T) -> V,
    at: int,
)
    requires
        keys_distinct(items, key),
        0 <= at < items.len(),
    ensures
        first_place(items, has_key(key, key(items[at]))) == at,
        keyed(items, key, value).dom().contains(key(items[at])),
        keyed(items, key, value)[key(items[at])] == value(items[at]),
{
    let holds = has_key(key, key(items[at]));
    assert forall|i: int| 0 <= i < at implies !holds(#[trigger] items[i]) by {
        assert(key(items[i]) != key(items[at]));
    }
    first_place_at(items, holds, at);
}

/// A changed item changes the map under its key alone.
pub proof fn keyed_update<T, K, V>(
    items: Seq<T>,
    key: spec_fn(T) -> K,
    value: spec_fn(T) -> V,
    at: int,
    item: T,
)
    requires
        keys_distinct(items, key),
        0 <= at < items.len(),
        key(item) == key(items[at]),
    ensures
        keys_distinct(items.update(at, item), key),
        keyed(items.update(at, item), key, value) == keyed(items, key, value).insert(
            key(item),
            value(item),
        ),
{
    let after = items.update(at, item);
    assert forall|k: K| #[trigger] first_place(after, has_key(key, k)) == first_place(
        items,
        has_key(key, k),
    ) by {
        let holds = has_key(key, k);
        first_place_bounds(items, holds);
        let place = first_place(items, holds);
        assert forall|i: int| 0 <= i < place implies !holds(#[trigger] after[i]) by {
            assert(!holds(items[i]));
        }
        first_place_at(after, holds, place);
    }
    keyed_item(items, key, value, at);
    assert forall|i: int, j: int| 0 <= i < j < after.len() implies key(#[trigger] after[i]) != key(
        #[trigger] after[j],
    ) by {
        assert(key(items[i]) != key(items[j]));
    }
    let target = keyed(items, key, value).insert(key(item), value(item));
    assert forall|k: K| #[trigger] keyed(after, key, value).dom().contains(k) implies keyed(
        after,
        key,
        value,
    )[k] == target[k] by {
        first_place_bounds(items, has_key(key, k));
        assert(first_place(after, has_key(key, k)) == first_place(items, has_key(key, k)));
        let place = first_place(items, has_key(key, k));
        if place == at {
            assert(key(items[at]) == k);
        } else {
            assert(key(items[place]) == k);
        }
    }
    assert forall|k: K| keyed(after, key, value).dom().contains(k) == target.dom().contains(k) by {
        first_place_bounds(items, has_key(key, k));
        assert(first_place(after, has_key(key, k)) == first_place(items, has_key(key, k)));
    }
    assert(keyed(after, key, value) =~= target);
}

/// A new item at the end joins the map.
pub proof fn keyed_push<T, K, V>(
    items: Seq<T>,
    key: spec_fn(T) -> K,
    value: spec_fn(T) -> V,
    item: T,
)
    requires
        keys_distinct(items, key),
        !keyed(items, key, value).dom().contains(key(item)),
    ensures
        keys_distinct(items.push(item), key),
        keyed(items.push(item), key, value) == keyed(items, key, value).insert(
            key(item),
            value(item),
        ),
{
    let after = items.push(item);
    first_place_bounds(items, has_key(key, key(item)));
    assert forall|i: int| 0 <= i < items.len() implies key(#[trigger] items[i]) != key(item) by {
        assert(!has_key(key, key(item))(items[i]));
    }
    assert forall|i: int, j: int| 0 <= i < j < after.len() implies key(#[trigger] after[i]) != key(
        #[trigger] after[j],
    ) by {
        if j == items.len() {
            assert(key(items[i]) != key(item));
        }
    }
    let target = keyed(items, key, value).insert(key(item), value(item));
    assert forall|k: K| #[trigger]
        keyed(after, key, value).dom().contains(k) == target.dom().contains(k) by {
        keyed_push_at(items, key, value, item, k);
    }
    assert forall|k: K| keyed(after, key, value).dom().contains(k) implies #[trigger] keyed(
        after,
        key,
        value,
    )[k] == target[k] by {
        keyed_push_at(items, key, value, item, k);
    }
    assert(keyed(after, key, value) =~= target);
}

/// What a new item at the end means for one key.
proof fn keyed_push_at<T, K, V>(
    items: Seq<T>,
    key: spec_fn(T) -> K,
    value: spec_fn(T) -> V,
    item: T,
    k: K,
)
    requires
        keys_distinct(items, key),
        !keyed(items, key, value).dom().contains(key(item)),
    ensures
        ({
            let after = keyed(items.push(item), key, value);
            let target = keyed(items, key, value).insert(key(item), value(item));
            &&& after.dom().contains(k) == target.dom().contains(k)
            &&& after.dom().contains(k) ==> after[k] == target[k]
        }),
{
    let after = items.push(item);
    let holds = has_key(key, k);
    first_place_bounds(items, holds);
    let place = first_place(items, holds);
    assert forall|i: int| 0 <= i < place implies !holds(#[trigger] after[i]) by {
        assert(!holds(items[i]));
    }
    if place < items.len() {
        first_place_at(after, holds, place);
        assert(key(items[place]) == k);
    } else if k == key(item) {
        first_place_at(after, holds, place);
    } else {
        assert forall|i: int| 0 <= i < after.len() implies !holds(#[trigger] after[i]) by {
            if i < items.len() {
                assert(!holds(items[i]));
            }
        }
        first_place_at(after, holds, after.len() as int);
    }
}

/// A removed item leaves the others in the map.
pub proof fn keyed_remove<T, K, V>(
    items: Seq<T>,
    key: spec_fn(T) -> K,
    value: spec_fn(T) -> V,
    at: int,
)
    requires
        keys_distinct(items, key),
        0 <= at < items.len(),
    ensures
        keys_distinct(items.remove(at), key),
        keyed(items.remove(at), key, value) == keyed(items, key, value).remove(key(items[at])),
{
    let after = items.remove(at);
    let gone = key(items[at]);
    assert forall|i: int, j: int| 0 <= i < j < after.len() implies key(#[trigger] after[i]) != key(
        #[trigger] after[j],
    ) by {
        let a = if i < at { i } else { i + 1 };
        let b = if j < at { j } else { j + 1 };
        assert(after[i] == items[a] && after[j] == items[b]);
    }
    let target = keyed(items, key, value).remove(gone);
    assert forall|k: K| #[trigger]
        keyed(after, key, value).dom().contains(k) == target.dom().contains(k) by {
        keyed_remove_at(items, key, value, at, k);
    }
    assert forall|k: K| keyed(after, key, value).dom().contains(k) implies #[trigger] keyed(
        after,
        key,
        value,
    )[k] == target[k] by {
        keyed_remove_at(items, key, value, at, k);
    }
    assert(keyed(after, key, value) =~= target);
}

/// What a removed item means for one key.
proof fn keyed_remove_at<T, K, V>(
    items: Seq<T>,
    key: spec_fn(T) -> K,
    value: spec_fn(T) -> V,
    at: int,
    k: K,
)
    requires
        keys_distinct(items, key),
        keys_distinct(items.remove(at), key),
        0 <= at < items.len(),
    ensures
        ({
            let after = keyed(items.remove(at), key, value);
            let target = keyed(items, key, value).remove(key(items[at]));
            &&& after.dom().contains(k) == target.dom().contains(k)
            &&& after.dom().contains(k) ==> after[k] == target[k]
        }),
{
    let after = items.remove(at);
    let gone = key(items[at]);
    let holds = has_key(key, k);
    first_place_bounds(items, holds);
    first_place_bounds(after, holds);
    let was = first_place(items, holds);
    let place = first_place(after, holds);
    if place < after.len() {
        let a = if place < at {
            place
        } else {
            place + 1
        };
        assert(after[place] == items[a]);
        keyed_item(items, key, value, a);
        assert(k != gone) by {
            if a < at {
                assert(key(items[a]) != key(items[at]));
            } else {
                assert(key(items[at]) != key(items[a]));
            }
        }
    }
    if was < items.len() && k != gone {
        assert(was != at);
        let b = if was < at {
            was
        } else {
            was - 1
        };
        assert(after[b] == items[was]);
        keyed_item(after, key, value, b);
    }
}

} // verus!
