//! Stable ordering of listed items by a group and a text key.
//!
//! Lists in this crate are ordered by a small group number first (pinned or
//! default items in group 0) and then by a text key, ascending or
//! descending. Texts compare as `String`s do: lexicographically by their
//! characters (the byte order of UTF-8 is the order of the characters). The
//! sort is a stable insertion sort; [`sort_order`] says which position each
//! item takes, and the laws below show that the result is a permutation,
//! sorted, and keeps items with equal keys in their input order.
use vstd::prelude::*;

verus! {

/// Strict lexicographic order of texts.
pub open spec fn text_lt(a: Seq<char>, b: Seq<char>) -> bool
    decreases a.len(),
{
    if a.len() == 0 {
        b.len() > 0
    } else if b.len() == 0 {
        false
    } else if a[0] != b[0] {
        a[0] < b[0]
    } else {
        text_lt(a.drop_first(), b.drop_first())
    }
}

/// Lexicographic order of texts.
pub open spec fn text_le(a: Seq<char>, b: Seq<char>) -> bool {
    text_lt(a, b) || a == b
}

/// A sort key: a group (smaller first) and a text.
pub struct KeyView {
    pub group: u8,
    pub text: Seq<char>,
}

/// Whether key `a` may stand before key `b`: a smaller group, or the same
/// group and a text that is not after (before, when descending) `b`'s.
pub open spec fn key_le(a: KeyView, b: KeyView, desc: bool) -> bool {
    a.group < b.group || (a.group == b.group && if desc {
        text_le(b.text, a.text)
    } else {
        text_le(a.text, b.text)
    })
}

/// `order` with index `j` inserted after the last index whose key may
/// stand before `j`'s (stable insertion from the back).
pub open spec fn insert_by_key(order: Seq<int>, keys: Seq<KeyView>, desc: bool, j: int) -> Seq<int>
    decreases order.len(),
{
    if order.len() == 0 {
        seq![j]
    } else if key_le(keys[order.last()], keys[j], desc) {
        order.push(j)
    } else {
        insert_by_key(order.drop_last(), keys, desc, j).push(order.last())
    }
}

/// The positions of the first `n` items in stable order of their keys.
pub open spec fn sort_order(keys: Seq<KeyView>, desc: bool, n: nat) -> Seq<int>
    decreases n,
{
    if n == 0 {
        Seq::empty()
    } else {
        insert_by_key(sort_order(keys, desc, (n - 1) as nat), keys, desc, n - 1)
    }
}

/// The keys of parallel lists of groups and texts.
pub open spec fn keys_of(groups: Seq<u8>, texts: Seq<Seq<char>>) -> Seq<KeyView> {
    Seq::new(groups.len(), |i: int| KeyView { group: groups[i], text: texts[i] })
}

/// The order of two texts: -1, 0 or 1.
pub fn text_order(a: &Vec<char>, b: &Vec<char>) -> (r: i8)
    ensures
        r == -1 <==> text_lt(a@, b@),
        r == 0 <==> a@ == b@,
        r == 1 <==> text_lt(b@, a@),
        r == -1 || r == 0 || r == 1,
{
    let mut i: usize = 0;
    while i < a.len() && i < b.len() && a[i] == b[i]
        invariant
            i <= a.len(),
            i <= b.len(),
            forall|k: int| 0 <= k < i ==> a@[k] == b@[k],
        decreases a.len() - i,
    {
        i = i + 1;
    }
    proof {
        lemma_text_lt_common_prefix(a@, b@, i as int);
        lemma_text_lt_common_prefix(b@, a@, i as int);
        if i == a.len() && i == b.len() {
            assert(a@ =~= b@);
        }
        lemma_text_lt_irreflexive(a@);
    }
    if i < a.len() && i < b.len() {
        proof {
            assert(a@ != b@ ==> true);
            assert(a@[i as int] != b@[i as int]);
        }
        if a[i] < b[i] {
            -1
        } else {
            1
        }
    } else if i == a.len() && i == b.len() {
        0
    } else if i == a.len() {
        -1
    } else {
        1
    }
}

/// Texts that agree on their first `i` characters compare as what follows.
pub proof fn lemma_text_lt_common_prefix(a: Seq<char>, b: Seq<char>, i: int)
    requires
        0 <= i <= a.len(),
        i <= b.len(),
        forall|k: int| 0 <= k < i ==> a[k] == b[k],
    ensures
        text_lt(a, b) == text_lt(a.subrange(i, a.len() as int), b.subrange(i, b.len() as int)),
    decreases i,
{
    if i > 0 {
        assert forall|k: int| 0 <= k < i - 1 implies a.drop_first()[k] == b.drop_first()[k] by {
            assert(a.drop_first()[k] == a[k + 1]);
            assert(b.drop_first()[k] == b[k + 1]);
        }
        lemma_text_lt_common_prefix(a.drop_first(), b.drop_first(), i - 1);
        assert(a.drop_first().subrange(i - 1, a.len() - 1) =~= a.subrange(i, a.len() as int));
        assert(b.drop_first().subrange(i - 1, b.len() - 1) =~= b.subrange(i, b.len() as int));
    } else {
        assert(a.subrange(0, a.len() as int) =~= a);
        assert(b.subrange(0, b.len() as int) =~= b);
    }
}

/// No text is before itself.
pub proof fn lemma_text_lt_irreflexive(a: Seq<char>)
    ensures
        !text_lt(a, a),
    decreases a.len(),
{
    if a.len() > 0 {
        lemma_text_lt_irreflexive(a.drop_first());
    }
}

/// Of two texts, one is before the other or they are equal, and not both
/// are before each other.
pub proof fn lemma_text_lt_total(a: Seq<char>, b: Seq<char>)
    ensures
        text_lt(a, b) || text_lt(b, a) || a == b,
        !(text_lt(a, b) && text_lt(b, a)),
    decreases a.len(),
{
    if a.len() > 0 && b.len() > 0 && a[0] == b[0] {
        lemma_text_lt_total(a.drop_first(), b.drop_first());
        if a.drop_first() == b.drop_first() {
            assert(a =~= seq![a[0]] + a.drop_first());
            assert(b =~= seq![b[0]] + b.drop_first());
        }
    } else if a.len() == 0 && b.len() == 0 {
        assert(a =~= b);
    }
}

/// The order of texts is transitive.
pub proof fn lemma_text_lt_transitive(a: Seq<char>, b: Seq<char>, c: Seq<char>)
    requires
        text_lt(a, b),
        text_lt(b, c),
    ensures
        text_lt(a, c),
    decreases a.len(),
{
    if a.len() > 0 && b.len() > 0 && c.len() > 0 && a[0] == b[0] && b[0] == c[0] {
        lemma_text_lt_transitive(a.drop_first(), b.drop_first(), c.drop_first());
    }
}

/// The order of keys is a total preorder.
pub proof fn lemma_key_le_total_preorder(a: KeyView, b: KeyView, c: KeyView, desc: bool)
    ensures
        key_le(a, a, desc),
        key_le(a, b, desc) || key_le(b, a, desc),
        key_le(a, b, desc) && key_le(b, c, desc) ==> key_le(a, c, desc),
{
    lemma_text_lt_total(a.text, b.text);
    if desc {
        if key_le(a, b, desc) && key_le(b, c, desc) && a.group == b.group && b.group == c.group {
            if text_lt(c.text, b.text) && text_lt(b.text, a.text) {
                lemma_text_lt_transitive(c.text, b.text, a.text);
            }
        }
    } else {
        if key_le(a, b, desc) && key_le(b, c, desc) && a.group == b.group && b.group == c.group {
            if text_lt(a.text, b.text) && text_lt(b.text, c.text) {
                lemma_text_lt_transitive(a.text, b.text, c.text);
            }
        }
    }
}

fn key_le_exec(ga: u8, ta: &Vec<char>, gb: u8, tb: &Vec<char>, desc: bool) -> (r: bool)
    ensures
        r == key_le(KeyView { group: ga, text: ta@ }, KeyView { group: gb, text: tb@ }, desc),
{
    if ga < gb {
        true
    } else if ga > gb {
        false
    } else {
        let o = text_order(ta, tb);
        if desc {
            o >= 0
        } else {
            o <= 0
        }
    }
}

/// Inserting behind items whose keys may not stand before `j`'s: those
/// items stay after `j`.
proof fn lemma_insert_suffix(order: Seq<int>, keys: Seq<KeyView>, desc: bool, j: int, k: int)
    requires
        0 <= k <= order.len(),
        forall|t: int| k <= t < order.len() ==> !key_le(keys[order[t]], keys[j], desc),
    ensures
        insert_by_key(order, keys, desc, j) == insert_by_key(order.take(k), keys, desc, j) + order.skip(k),
    decreases order.len() - k,
{
    if k == order.len() {
        assert(order.take(k) =~= order);
        assert(order.skip(k) =~= Seq::<int>::empty());
        assert(insert_by_key(order, keys, desc, j) + Seq::<int>::empty() =~= insert_by_key(order, keys, desc, j));
    } else {
        let d = order.drop_last();
        assert forall|t: int| k <= t < d.len() implies !key_le(keys[d[t]], keys[j], desc) by {
            assert(d[t] == order[t]);
        }
        lemma_insert_suffix(d, keys, desc, j, k);
        assert(d.take(k) =~= order.take(k));
        assert(order.skip(k) =~= d.skip(k).push(order.last()));
        assert(!key_le(keys[order.last()], keys[j], desc));
        assert(insert_by_key(order, keys, desc, j) == insert_by_key(d, keys, desc, j).push(order.last()));
        assert((insert_by_key(order.take(k), keys, desc, j) + d.skip(k)).push(order.last()) =~= insert_by_key(
            order.take(k),
            keys,
            desc,
            j,
        ) + order.skip(k));
    }
}

/// The positions of items in stable order of their keys: groups ascending,
/// then texts ascending (descending when `desc`).
pub fn sort_positions(groups: &Vec<u8>, texts: &Vec<Vec<char>>, desc: bool) -> (r: Vec<usize>)
    requires
        groups.len() == texts.len(),
    ensures
        r@.len() == groups.len(),
        forall|i: int| 0 <= i < r@.len() ==> r@[i] as int == sort_order(keys_of(groups@, texts.deep_view()), desc, groups.len() as nat)[i],
{
    let ghost keys = keys_of(groups@, texts.deep_view());
    assert forall|i: int| 0 <= i < groups.len() implies #[trigger] keys[i] == (KeyView { group: groups@[i], text: texts@[i]@ }) by {
        assert(texts.deep_view()[i] == texts@[i]@);
    }
    let mut order: Vec<usize> = Vec::new();
    let n = groups.len();
    let mut j: usize = 0;
    while j < n
        invariant
            j <= n,
            n == groups.len(),
            n == texts.len(),
            keys == keys_of(groups@, texts.deep_view()),
            order@.len() == j,
            order@.map_values(|x: usize| x as int) == sort_order(keys, desc, j as nat),
            forall|t: int| 0 <= t < j ==> order@[t] < j,
            forall|i: int| 0 <= i < n ==> #[trigger] keys[i] == (KeyView { group: groups@[i], text: texts@[i]@ }),
        decreases n - j,
    {
        let ghost before = order@.map_values(|x: usize| x as int);
        proof {
            lemma_sort_order_len(keys, desc, j as nat);
            assert forall|t: int| 0 <= t < j implies 0 <= #[trigger] before[t] < j by {
                assert(before[t] == order@[t] as int);
            }
        }
        order.push(j);
        assert(order@.map_values(|x: usize| x as int) =~= before.take(j as int).push(j as int) + before.skip(j as int));
        let mut k: usize = j;
        // order[k] holds j; the items after it are those that moved behind it.
        while k > 0 && !key_le_exec(groups[order[k - 1]], &texts[order[k - 1]], groups[j], &texts[j], desc)
            invariant
                0 <= k <= j,
                j < n,
                n == groups.len(),
                n == texts.len(),
                keys == keys_of(groups@, texts.deep_view()),
                order@.len() == j + 1,
                order@[k as int] == j,
                order@.map_values(|x: usize| x as int) == before.take(k as int).push(j as int) + before.skip(k as int),
                forall|t: int| k <= t < j ==> !key_le(keys[before[t]], keys[j as int], desc),
                forall|t: int| 0 <= t < j ==> 0 <= #[trigger] before[t] < j,
                forall|t: int| 0 <= t < k ==> order@[t] as int == #[trigger] before[t],
                forall|t: int| 0 <= t <= j ==> order@[t] < n,
                before.len() == j,
                forall|i: int| 0 <= i < n ==> #[trigger] keys[i] == (KeyView { group: groups@[i], text: texts@[i]@ }),
            decreases k,
        {
            let p = order[k - 1];
            assert(p as int == before[k - 1]);
            let ghost m0 = order@;
            let ghost target = before.take(k - 1).push(j as int) + before.skip(k - 1);
            let ghost prev = before.take(k as int).push(j as int) + before.skip(k as int);
            order.set(k - 1, j);
            order.set(k, p);
            proof {
                assert(!key_le(keys[p as int], keys[j as int], desc));
                assert(order@ == m0.update(k - 1, j).update(k as int, p));
                assert forall|t: int| 0 <= t < j + 1 implies order@.map_values(|x: usize| x as int)[t] == target[t] by {
                    assert(m0.map_values(|x: usize| x as int)[t] == prev[t]);
                    if t < k - 1 {
                        assert(prev[t] == before[t]);
                        assert(target[t] == before[t]);
                    } else if t == k - 1 {
                        assert(target[t] == j);
                    } else if t == k {
                        assert(target[t] == before[k - 1]);
                    } else {
                        assert(prev[t] == before[t - 1]);
                        assert(target[t] == before[t - 1]);
                    }
                }
                assert(order@.map_values(|x: usize| x as int) =~= target);
            }
            k = k - 1;
        }
        proof {
            lemma_insert_suffix(before, keys, desc, j as int, k as int);
            if k > 0 {
                assert(before.take(k as int).last() == before[k - 1]);
                assert(before.take(k as int).drop_last() =~= before.take(k - 1));
            } else {
                assert(before.take(0) =~= Seq::<int>::empty());
            }
            assert(order@.map_values(|x: usize| x as int) =~= sort_order(keys, desc, (j + 1) as nat));
            assert forall|t: int| 0 <= t < j + 1 implies order@[t] < j + 1 by {
                assert(order@.map_values(|x: usize| x as int)[t] == order@[t] as int);
            }
        }
        j = j + 1;
    }
    proof {
        assert forall|i: int| 0 <= i < order@.len() implies order@[i] as int == sort_order(keys, desc, n as nat)[i] by {
            assert(order@.map_values(|x: usize| x as int)[i] == order@[i] as int);
        }
    }
    order
}

/// The order of `n` items has `n` positions, each below `n`.
pub proof fn lemma_sort_order_len(keys: Seq<KeyView>, desc: bool, n: nat)
    ensures
        sort_order(keys, desc, n).len() == n,
        forall|t: int| 0 <= t < n ==> 0 <= #[trigger] sort_order(keys, desc, n)[t] < n,
    decreases n,
{
    if n > 0 {
        lemma_sort_order_len(keys, desc, (n - 1) as nat);
        lemma_insert_bounds(sort_order(keys, desc, (n - 1) as nat), keys, desc, n - 1, n as int);
    }
}

/// Insertion adds one position and keeps all positions within a bound.
pub proof fn lemma_insert_bounds(order: Seq<int>, keys: Seq<KeyView>, desc: bool, j: int, n: int)
    requires
        0 <= j < n,
        forall|t: int| 0 <= t < order.len() ==> 0 <= #[trigger] order[t] < n,
    ensures
        insert_by_key(order, keys, desc, j).len() == order.len() + 1,
        forall|t: int|
            0 <= t < order.len() + 1 ==> 0 <= #[trigger] insert_by_key(order, keys, desc, j)[t] < n,
    decreases order.len(),
{
    if order.len() > 0 && !key_le(keys[order.last()], keys[j], desc) {
        let d = order.drop_last();
        assert forall|t: int| 0 <= t < d.len() implies 0 <= #[trigger] d[t] < n by {
            assert(d[t] == order[t]);
        }
        lemma_insert_bounds(d, keys, desc, j, n);
    }
}

/// Insertion adds `j` to the positions and keeps all others.
pub proof fn lemma_insert_multiset(order: Seq<int>, keys: Seq<KeyView>, desc: bool, j: int)
    ensures
        insert_by_key(order, keys, desc, j).to_multiset() == order.to_multiset().insert(j),
    decreases order.len(),
{
    broadcast use vstd::seq_lib::group_to_multiset_ensures;

    if order.len() == 0 {
        assert(insert_by_key(order, keys, desc, j) =~= Seq::<int>::empty().push(j));
        assert(order =~= Seq::<int>::empty());
    } else if key_le(keys[order.last()], keys[j], desc) {
    } else {
        let d = order.drop_last();
        lemma_insert_multiset(d, keys, desc, j);
        assert(order =~= d.push(order.last()));
        assert(d.to_multiset().insert(j).insert(order.last()) =~= d.to_multiset().insert(order.last()).insert(j));
    }
}


/// Whether the items at the positions are in order of their keys.
pub open spec fn sorted_by_key(order: Seq<int>, keys: Seq<KeyView>, desc: bool) -> bool {
    forall|a: int, b: int|
        0 <= a < b < order.len() ==> key_le(#[trigger] keys[order[a]], #[trigger] keys[order[b]], desc)
}

/// Whether items whose keys are equal keep their input order.
pub open spec fn stable_by_key(order: Seq<int>, keys: Seq<KeyView>, desc: bool) -> bool {
    forall|a: int, b: int|
        0 <= a < b < order.len() && key_le(#[trigger] keys[order[b]], #[trigger] keys[order[a]], desc)
            ==> order[a] < order[b]
}

/// Where insertion puts `j`: after the items whose keys may stand before
/// its own, before the rest.
proof fn lemma_insert_shape(order: Seq<int>, keys: Seq<KeyView>, desc: bool, j: int) -> (p: int)
    ensures
        0 <= p <= order.len(),
        insert_by_key(order, keys, desc, j) == order.take(p).push(j) + order.skip(p),
        forall|t: int| p <= t < order.len() ==> !key_le(#[trigger] keys[order[t]], keys[j], desc),
        p > 0 ==> key_le(keys[order[p - 1]], keys[j], desc),
    decreases order.len(),
{
    if order.len() == 0 {
        assert(order.take(0).push(j) + order.skip(0) =~= seq![j]);
        0
    } else if key_le(keys[order.last()], keys[j], desc) {
        let n = order.len() as int;
        assert(order.take(n).push(j) + order.skip(n) =~= order.push(j));
        n
    } else {
        let d = order.drop_last();
        let p = lemma_insert_shape(d, keys, desc, j);
        assert(order.take(p) =~= d.take(p));
        assert(order.skip(p) =~= d.skip(p).push(order.last()));
        assert((d.take(p).push(j) + d.skip(p)).push(order.last()) =~= order.take(p).push(j) + order.skip(p));
        assert forall|t: int| p <= t < order.len() implies !key_le(#[trigger] keys[order[t]], keys[j], desc) by {
            if t < d.len() {
                assert(d[t] == order[t]);
            }
        }
        if p > 0 {
            assert(d[p - 1] == order[p - 1]);
        }
        p
    }
}

/// Insertion keeps a sorted, stable order sorted and stable, when `j` is
/// after every position already placed.
proof fn lemma_insert_sorted(order: Seq<int>, keys: Seq<KeyView>, desc: bool, j: int)
    requires
        sorted_by_key(order, keys, desc),
        stable_by_key(order, keys, desc),
        forall|t: int| 0 <= t < order.len() ==> #[trigger] order[t] < j,
    ensures
        sorted_by_key(insert_by_key(order, keys, desc, j), keys, desc),
        stable_by_key(insert_by_key(order, keys, desc, j), keys, desc),
{
    let p = lemma_insert_shape(order, keys, desc, j);
    let r = insert_by_key(order, keys, desc, j);
    assert forall|t: int| 0 <= t < r.len() implies #[trigger] r[t] == (if t < p {
        order[t]
    } else if t == p {
        j
    } else {
        order[t - 1]
    }) by {
        if t < p {
            assert(order.take(p).push(j)[t] == order[t]);
        } else if t > p {
            assert(r[t] == order.skip(p)[t - p - 1]);
        }
    }
    assert forall|a: int, b: int| 0 <= a < b < r.len() implies key_le(#[trigger] keys[r[a]], #[trigger] keys[r[b]], desc) by {
        let ka = keys[r[a]];
        let kb = keys[r[b]];
        if a == p {
            assert(!key_le(keys[order[b - 1]], keys[j], desc));
            lemma_key_le_total_preorder(kb, ka, ka, desc);
        } else if b == p {
            lemma_key_le_total_preorder(ka, keys[order[p - 1]], kb, desc);
            if a < p - 1 {
                assert(key_le(keys[order[a]], keys[order[p - 1]], desc));
            }
        } else {
            let oa = if a < p { a } else { a - 1 };
            let ob = if b < p { b } else { b - 1 };
            assert(key_le(keys[order[oa]], keys[order[ob]], desc));
        }
    }
    assert forall|a: int, b: int|
        0 <= a < b < r.len() && key_le(#[trigger] keys[r[b]], #[trigger] keys[r[a]], desc) implies r[a] < r[b] by {
        if a == p {
            assert(!key_le(keys[order[b - 1]], keys[j], desc));
        } else if b == p {
            assert(order[a] < j);
        } else {
            let oa = if a < p { a } else { a - 1 };
            let ob = if b < p { b } else { b - 1 };
            assert(key_le(keys[order[ob]], keys[order[oa]], desc) ==> order[oa] < order[ob]);
        }
    }
}

/// The stable order places every item once: its positions are `0..n` in
/// some order.
pub proof fn law_sort_order_is_permutation(keys: Seq<KeyView>, desc: bool, n: nat)
    ensures
        sort_order(keys, desc, n).to_multiset() == Seq::new(n, |i: int| i).to_multiset(),
    decreases n,
{
    broadcast use vstd::seq_lib::group_to_multiset_ensures;

    if n == 0 {
        assert(Seq::new(0, |i: int| i) =~= Seq::<int>::empty());
    } else {
        law_sort_order_is_permutation(keys, desc, (n - 1) as nat);
        lemma_insert_multiset(sort_order(keys, desc, (n - 1) as nat), keys, desc, n - 1);
        assert(Seq::new(n, |i: int| i) =~= Seq::new((n - 1) as nat, |i: int| i).push(n - 1));
    }
}

/// Insertion adds the one position to those already there.
proof fn lemma_insert_contains(order: Seq<int>, keys: Seq<KeyView>, desc: bool, j: int, x: int)
    ensures
        insert_by_key(order, keys, desc, j).contains(x) <==> (order.contains(x) || x == j),
    decreases order.len(),
{
    let r = insert_by_key(order, keys, desc, j);
    if order.len() == 0 {
        assert(r =~= seq![j]);
        assert(r[0] == j);
    } else if key_le(keys[order.last()], keys[j], desc) {
        assert(r =~= order.push(j));
        if order.contains(x) {
            let k = choose|k: int| 0 <= k < order.len() && order[k] == x;
            assert(r[k] == x);
        }
        if x == j {
            assert(r[order.len() as int] == j);
        }
    } else {
        let d = order.drop_last();
        lemma_insert_contains(d, keys, desc, j, x);
        let q = insert_by_key(d, keys, desc, j);
        assert(r =~= q.push(order.last()));
        assert(order =~= d.push(order.last()));
        if r.contains(x) {
            let k = choose|k: int| 0 <= k < r.len() && r[k] == x;
            if k < q.len() {
                assert(q[k] == x);
                if d.contains(x) {
                    let m = choose|m: int| 0 <= m < d.len() && d[m] == x;
                    assert(order[m] == x);
                }
            } else {
                assert(order[order.len() - 1] == x);
            }
        }
        if order.contains(x) {
            let k = choose|k: int| 0 <= k < order.len() && order[k] == x;
            if k < d.len() {
                assert(d[k] == x);
                assert(q.contains(x));
                let m = choose|m: int| 0 <= m < q.len() && q[m] == x;
                assert(r[m] == x);
            } else {
                assert(r[q.len() as int] == x);
            }
        }
        if x == j {
            assert(q.contains(x));
            let m = choose|m: int| 0 <= m < q.len() && q[m] == x;
            assert(r[m] == x);
        }
    }
}

/// Inserting a new position keeps the positions distinct.
proof fn lemma_insert_no_duplicates(order: Seq<int>, keys: Seq<KeyView>, desc: bool, j: int)
    requires
        order.no_duplicates(),
        !order.contains(j),
    ensures
        insert_by_key(order, keys, desc, j).no_duplicates(),
    decreases order.len(),
{
    let r = insert_by_key(order, keys, desc, j);
    if order.len() == 0 {
        assert(r =~= seq![j]);
    } else if key_le(keys[order.last()], keys[j], desc) {
        assert(r =~= order.push(j));
        assert forall|a: int, b: int| 0 <= a < r.len() && 0 <= b < r.len() && a != b implies r[a] != r[b] by {
            if a == order.len() {
                assert(order[b] == r[b]);
            } else if b == order.len() {
                assert(order[a] == r[a]);
            }
        }
    } else {
        let d = order.drop_last();
        let last = order.last();
        assert(d.no_duplicates());
        assert(!d.contains(j)) by {
            if d.contains(j) {
                let k = choose|k: int| 0 <= k < d.len() && d[k] == j;
                assert(order[k] == j);
            }
        }
        lemma_insert_no_duplicates(d, keys, desc, j);
        let q = insert_by_key(d, keys, desc, j);
        assert(r =~= q.push(last));
        lemma_insert_contains(d, keys, desc, j, last);
        assert(!d.contains(last)) by {
            if d.contains(last) {
                let k = choose|k: int| 0 <= k < d.len() && d[k] == last;
                assert(order[k] == order[order.len() - 1]);
            }
        }
        assert(last != j) by {
            assert(order[order.len() - 1] == last);
        }
        assert forall|a: int, b: int| 0 <= a < r.len() && 0 <= b < r.len() && a != b implies r[a] != r[b] by {
            if a == q.len() {
                assert(q[b] == r[b]);
                assert(q.contains(r[b]));
            } else if b == q.len() {
                assert(q[a] == r[a]);
                assert(q.contains(r[a]));
            }
        }
    }
}

/// The stable order names each position once.
pub proof fn lemma_sort_order_no_duplicates(keys: Seq<KeyView>, desc: bool, n: nat)
    ensures
        sort_order(keys, desc, n).no_duplicates(),
    decreases n,
{
    if n > 0 {
        let prev = sort_order(keys, desc, (n - 1) as nat);
        lemma_sort_order_no_duplicates(keys, desc, (n - 1) as nat);
        lemma_sort_order_len(keys, desc, (n - 1) as nat);
        assert(!prev.contains(n - 1)) by {
            if prev.contains(n - 1) {
                let k = choose|k: int| 0 <= k < prev.len() && prev[k] == n - 1;
                assert(prev[k] < n - 1);
            }
        }
        lemma_insert_no_duplicates(prev, keys, desc, n - 1);
    }
}

/// The stable order lists the items in order of their keys, and items with
/// equal keys in their input order.
pub proof fn law_sort_order_sorted_and_stable(keys: Seq<KeyView>, desc: bool, n: nat)
    ensures
        sorted_by_key(sort_order(keys, desc, n), keys, desc),
        stable_by_key(sort_order(keys, desc, n), keys, desc),
    decreases n,
{
    if n > 0 {
        law_sort_order_sorted_and_stable(keys, desc, (n - 1) as nat);
        lemma_sort_order_len(keys, desc, (n - 1) as nat);
        lemma_insert_sorted(sort_order(keys, desc, (n - 1) as nat), keys, desc, n - 1);
    }
}


/// Every item takes some place in the stable order.
pub proof fn lemma_sort_order_covers(keys: Seq<KeyView>, desc: bool, n: nat, j: int)
    requires
        0 <= j < n,
    ensures
        exists|i: int| 0 <= i < n && #[trigger] sort_order(keys, desc, n)[i] == j,
{
    let o = sort_order(keys, desc, n);
    let ids = Seq::new(n, |i: int| i);
    law_sort_order_is_permutation(keys, desc, n);
    lemma_sort_order_len(keys, desc, n);
    assert(ids[j] == j);
    vstd::seq_lib::to_multiset_contains(ids, j);
    vstd::seq_lib::to_multiset_contains(o, j);
    assert(o.contains(j));
    let i = choose|i: int| 0 <= i < o.len() && o[i] == j;
    assert(0 <= i < n && sort_order(keys, desc, n)[i] == j);
}

} // verus!
