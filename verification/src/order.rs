use vstd::prelude::*;

verus! {

/// Lexicographic order on key sequences: `a` does not come after `b`.
pub open spec fn lex_le(a: Seq<u64>, b: Seq<u64>) -> bool
    decreases a.len(),
{
    if a.len() == 0 {
        true
    } else if b.len() == 0 {
        false
    } else if a[0] < b[0] {
        true
    } else if a[0] > b[0] {
        false
    } else {
        lex_le(a.drop_first(), b.drop_first())
    }
}

/// The index at which a stable insertion places an item with key `k` into
/// `sorted`: after every item whose key does not come after `k`.
pub open spec fn insert_pos<T>(sorted: Seq<(Seq<u64>, T)>, k: Seq<u64>) -> nat
    decreases sorted.len(),
{
    if sorted.len() == 0 {
        0
    } else if !lex_le(sorted[0].0, k) {
        0
    } else {
        1 + insert_pos(sorted.drop_first(), k)
    }
}

/// Stable sort of keyed items by their keys, as insertion sort defines it:
/// each item goes after every earlier item whose key does not come after its own.
pub open spec fn stable_sort<T>(s: Seq<(Seq<u64>, T)>) -> Seq<(Seq<u64>, T)>
    decreases s.len(),
{
    if s.len() == 0 {
        Seq::empty()
    } else {
        let sorted = stable_sort(s.drop_last());
        sorted.insert(insert_pos(sorted, s.last().0) as int, s.last())
    }
}

/// Pairs each item with its key.
pub open spec fn keyed<T>(keys: Seq<Seq<u64>>, items: Seq<T>) -> Seq<(Seq<u64>, T)> {
    Seq::new(items.len(), |i: int| (keys[i], items[i]))
}

/// The items of `items`, stably sorted by `keys`.
pub open spec fn sort_by_keys_spec<T>(keys: Seq<Seq<u64>>, items: Seq<T>) -> Seq<T> {
    stable_sort(keyed(keys, items)).map_values(|p: (Seq<u64>, T)| p.1)
}

proof fn lemma_stable_sort_len<T>(s: Seq<(Seq<u64>, T)>)
    ensures
        stable_sort(s).len() == s.len(),
    decreases s.len(),
{
    if s.len() > 0 {
        lemma_stable_sort_len(s.drop_last());
        lemma_insert_pos_bound(stable_sort(s.drop_last()), s.last().0);
    }
}

/// Sorting by keys keeps the number of items.
pub proof fn lemma_sort_by_keys_len<T>(keys: Seq<Seq<u64>>, items: Seq<T>)
    ensures
        sort_by_keys_spec(keys, items).len() == items.len(),
{
    lemma_stable_sort_len(keyed(keys, items));
}

proof fn lemma_insert_pos_bound<T>(sorted: Seq<(Seq<u64>, T)>, k: Seq<u64>)
    ensures
        insert_pos(sorted, k) <= sorted.len(),
    decreases sorted.len(),
{
    if sorted.len() > 0 && lex_le(sorted[0].0, k) {
        lemma_insert_pos_bound(sorted.drop_first(), k);
    }
}

/// Whether key `a` does not come after key `b`.
pub fn key_le(a: &Vec<u64>, b: &Vec<u64>) -> (r: bool)
    ensures
        r == lex_le(a@, b@),
{
    let mut i: usize = 0;
    proof {
        assert(a@.skip(0) =~= a@);
        assert(b@.skip(0) =~= b@);
    }
    while i < a.len() && i < b.len()
        invariant
            i <= a.len(),
            i <= b.len(),
            lex_le(a@, b@) == lex_le(a@.skip(i as int), b@.skip(i as int)),
        decreases a.len() - i,
    {
        proof {
            let sa = a@.skip(i as int);
            let sb = b@.skip(i as int);
            assert(sa[0] == a@[i as int]);
            assert(sb[0] == b@[i as int]);
            assert(sa.drop_first() =~= a@.skip(i + 1));
            assert(sb.drop_first() =~= b@.skip(i + 1));
        }
        if a[i] < b[i] {
            return true;
        }
        if a[i] > b[i] {
            return false;
        }
        i = i + 1;
    }
    proof {
        if i == a.len() {
            assert(a@.skip(i as int).len() == 0);
        } else {
            assert(b@.skip(i as int).len() == 0);
        }
    }
    i == a.len()
}

pub open spec fn key_view<T>(p: (Vec<u64>, T)) -> (Seq<u64>, T) {
    (p.0@, p.1)
}

pub open spec fn kview_seq<T>(s: Seq<(Vec<u64>, T)>) -> Seq<(Seq<u64>, T)> {
    s.map_values(|p: (Vec<u64>, T)| key_view(p))
}

pub open spec fn keys_view(s: Seq<Vec<u64>>) -> Seq<Seq<u64>> {
    s.map_values(|k: Vec<u64>| k@)
}

/// Stably sorts keyed items by key.
pub fn sort_keyed<T>(items: Vec<(Vec<u64>, T)>) -> (r: Vec<(Vec<u64>, T)>)
    ensures
        kview_seq(r@) == stable_sort(
            kview_seq(items@),
        ),
{
    let ghost orig = kview_seq(items@);
    let mut rest = items;
    let mut out: Vec<(Vec<u64>, T)> = Vec::new();
    let mut done: usize = 0;
    let _n = rest.len();
    proof {
        assert(orig.skip(0) =~= orig);
        assert(orig.take(0) =~= Seq::<(Seq<u64>, T)>::empty());
    }
    while rest.len() > 0
        invariant
            done + rest@.len() == orig.len(),
            orig.len() <= usize::MAX,
            kview_seq(rest@) == orig.skip(done as int),
            kview_seq(out@) == stable_sort(orig.take(done as int)),
        decreases rest@.len(),
    {
        let ghost before = kview_seq(out@);
        let ghost old_rest = rest@;
        let x = rest.remove(0);
        proof {
            assert(kview_seq(old_rest)[0] == key_view(old_rest[0]));
            assert(key_view(x) == orig[done as int]) by {
                assert(orig.skip(done as int)[0] == orig[done as int]);
            }
        }
        let mut pos: usize = 0;
        proof {
            assert(before.skip(0) =~= before);
        }
        while pos < out.len() && key_le(&out[pos].0, &x.0)
            invariant
                pos <= out@.len(),
                kview_seq(out@) == before,
                insert_pos(before, x.0@) == pos + insert_pos(before.skip(pos as int), x.0@),
            decreases out@.len() - pos,
        {
            proof {
                let sk = before.skip(pos as int);
                assert(sk[0] == before[pos as int]);
                assert(sk.drop_first() =~= before.skip(pos + 1));
            }
            pos = pos + 1;
        }
        proof {
            let sk = before.skip(pos as int);
            if pos < out@.len() {
                assert(sk[0] == before[pos as int]);
            } else {
                assert(sk.len() == 0);
            }
        }
        let ghost old_out = out@;
        let ghost kx = key_view(x);
        out.insert(pos, x);
        done = done + 1;
        proof {
            assert(out@ == old_out.insert(pos as int, x));
            assert(kview_seq(out@) =~= before.insert(pos as int, kx));
            let pre = orig.take(done as int);
            assert(kx == pre.last());
            assert(stable_sort(pre) == stable_sort(pre.drop_last()).insert(
                insert_pos(stable_sort(pre.drop_last()), pre.last().0) as int, pre.last()));
            assert(rest@ == old_rest.remove(0));
            assert(pre.drop_last() =~= orig.take(done - 1));
            assert(pre.last() == orig[done - 1]);
            assert(kview_seq(out@) =~= stable_sort(pre));
            assert forall|m: int| 0 <= m < rest@.len() implies
                #[trigger] kview_seq(rest@)[m] == orig.skip(done as int)[m] by {
                assert(rest@[m] == old_rest[m + 1]);
                assert(kview_seq(old_rest)[m + 1] == orig.skip(done - 1)[m + 1]);
            }
            assert(kview_seq(rest@) =~= orig.skip(done as int));
        }
    }
    proof {
        assert(orig.take(done as int) =~= orig);
    }
    out
}

/// Stably sorts `items` by the matching entries of `keys`.
pub fn sort_by_keys<T>(items: Vec<T>, keys: Vec<Vec<u64>>) -> (r: Vec<T>)
    requires
        items.len() == keys.len(),
    ensures
        r@ == sort_by_keys_spec(keys_view(keys@), items@),
{
    let ghost kv = keys_view(keys@);
    let ghost orig = items@;
    let mut rest = items;
    let mut ks = keys;
    let mut pairs: Vec<(Vec<u64>, T)> = Vec::new();
    let mut i: usize = 0;
    let _n = rest.len();
    proof {
        assert(orig.skip(0) =~= orig);
        assert(kv.skip(0) =~= kv);
        assert(keyed(kv, orig).take(0) =~= Seq::<(Seq<u64>, T)>::empty());
    }
    while rest.len() > 0
        invariant
            i + rest@.len() == orig.len(),
            orig.len() <= usize::MAX,
            ks@.len() == rest@.len(),
            rest@ == orig.skip(i as int),
            keys_view(ks@) == kv.skip(i as int),
            kv.len() == orig.len(),
            kview_seq(pairs@) == keyed(kv, orig).take(i as int),
        decreases rest@.len(),
    {
        let ghost old_ks = ks@;
        let ghost old_rest = rest@;
        let x = rest.remove(0);
        let k = ks.remove(0);
        proof {
            assert(keys_view(old_ks)[0] == old_ks[0]@);
            assert(k@ == kv[i as int]);
            assert(x == orig[i as int]);
            assert(orig.skip(i as int)[0] == orig[i as int]);
            assert(kv.skip(i as int)[0] == kv[i as int]);
        }
        let ghost old_pairs = pairs@;
        pairs.push((k, x));
        i = i + 1;
        proof {
            let kd = keyed(kv, orig);
            assert(kd.take(i as int) =~= kd.take(i - 1).push(kd[i - 1]));
            assert(pairs@ == old_pairs.push((k, x)));
            assert(kview_seq(pairs@) =~= keyed(kv, orig).take(i as int));
            assert forall|m: int| 0 <= m < rest@.len() implies #[trigger] rest@[m] == orig.skip(i as int)[m] by {
                assert(rest@[m] == old_rest[m + 1]);
            }
            assert(rest@ =~= orig.skip(i as int));
            assert forall|m: int| 0 <= m < ks@.len() implies
                #[trigger] keys_view(ks@)[m] == kv.skip(i as int)[m] by {
                assert(ks@[m] == old_ks[m + 1]);
                assert(keys_view(old_ks)[m + 1] == kv.skip(i - 1)[m + 1]);
            }
            assert(keys_view(ks@) =~= kv.skip(i as int));
        }
    }
    proof {
        assert(keyed(kv, orig).take(i as int) =~= keyed(kv, orig));
    }
    let sorted = sort_keyed(pairs);
    let ghost sv = kview_seq(sorted@);
    proof {
        lemma_stable_sort_len(keyed(kv, orig));
    }
    let mut srest = sorted;
    let mut out: Vec<T> = Vec::new();
    let mut j: usize = 0;
    let _n = srest.len();
    proof {
        assert(sv.skip(0) =~= sv);
        assert(sv.take(0).map_values(|p: (Seq<u64>, T)| p.1) =~= Seq::<T>::empty());
    }
    while srest.len() > 0
        invariant
            j + srest@.len() == sv.len(),
            sv.len() <= usize::MAX,
            kview_seq(srest@) == sv.skip(j as int),
            out@ == sv.take(j as int).map_values(|p: (Seq<u64>, T)| p.1),
        decreases srest@.len(),
    {
        let ghost old_srest = srest@;
        let p = srest.remove(0);
        proof {
            assert(kview_seq(old_srest)[0] == key_view(old_srest[0]));
            assert(p.1 == sv[j as int].1);
            assert(sv.skip(j as int)[0] == sv[j as int]);
        }
        let ghost old_out = out@;
        out.push(p.1);
        j = j + 1;
        proof {
            assert(sv.take(j as int) =~= sv.take(j - 1).push(sv[j - 1]));
            assert(out@ == old_out.push(p.1));
            assert(out@ =~= sv.take(j as int).map_values(|p: (Seq<u64>, T)| p.1));
            assert forall|m: int| 0 <= m < srest@.len() implies
                #[trigger] kview_seq(srest@)[m] == sv.skip(j as int)[m] by {
                assert(srest@[m] == old_srest[m + 1]);
                assert(kview_seq(old_srest)[m + 1] == sv.skip(j - 1)[m + 1]);
            }
            assert(kview_seq(srest@) =~= sv.skip(j as int));
        }
    }
    proof {
        assert(sv.take(j as int) =~= sv);
    }
    out
}

} // verus!

verus! {

/// Applies `f` to the item of each keyed pair.
pub open spec fn map_items<T, U>(s: Seq<(Seq<u64>, T)>, f: spec_fn(T) -> U) -> Seq<(Seq<u64>, U)> {
    s.map_values(|p: (Seq<u64>, T)| (p.0, f(p.1)))
}

proof fn lemma_insert_pos_map<T, U>(sorted: Seq<(Seq<u64>, T)>, k: Seq<u64>, f: spec_fn(T) -> U)
    ensures
        insert_pos(map_items(sorted, f), k) == insert_pos(sorted, k),
    decreases sorted.len(),
{
    if sorted.len() > 0 {
        assert(map_items(sorted, f).drop_first() =~= map_items(sorted.drop_first(), f));
        lemma_insert_pos_map(sorted.drop_first(), k, f);
    }
}

proof fn lemma_stable_sort_map<T, U>(s: Seq<(Seq<u64>, T)>, f: spec_fn(T) -> U)
    ensures
        stable_sort(map_items(s, f)) == map_items(stable_sort(s), f),
    decreases s.len(),
{
    if s.len() > 0 {
        let ms = map_items(s, f);
        assert(ms.drop_last() =~= map_items(s.drop_last(), f));
        lemma_stable_sort_map(s.drop_last(), f);
        let sorted = stable_sort(s.drop_last());
        lemma_insert_pos_map(sorted, s.last().0, f);
        lemma_stable_sort_len(s.drop_last());
        lemma_insert_pos_bound(sorted, s.last().0);
        let p = insert_pos(sorted, s.last().0) as int;
        assert(map_items(sorted, f).insert(p, ms.last()) =~= map_items(sorted.insert(p, s.last()), f));
    }
}

/// Sorting by keys commutes with transforming the items.
pub proof fn lemma_sort_by_keys_map<T, U>(keys: Seq<Seq<u64>>, items: Seq<T>, f: spec_fn(T) -> U)
    requires
        keys.len() == items.len(),
    ensures
        sort_by_keys_spec(keys, items.map_values(f)) == sort_by_keys_spec(keys, items).map_values(f),
{
    let mi = items.map_values(f);
    assert(keyed(keys, mi) =~= map_items(keyed(keys, items), f));
    lemma_stable_sort_map(keyed(keys, items), f);
    assert(sort_by_keys_spec(keys, mi) =~= sort_by_keys_spec(keys, items).map_values(f));
}

} // verus!

verus! {

/// Whether the keys of `s` come in lexicographic order.
pub open spec fn keys_sorted<T>(s: Seq<(Seq<u64>, T)>) -> bool {
    forall|i: int, j: int| 0 <= i < j < s.len() ==> lex_le(#[trigger] s[i].0, #[trigger] s[j].0)
}

/// Of two keys, one comes no later than the other.
pub proof fn lemma_lex_le_total(a: Seq<u64>, b: Seq<u64>)
    ensures
        lex_le(a, b) || lex_le(b, a),
    decreases a.len(),
{
    if a.len() > 0 && b.len() > 0 && a[0] == b[0] {
        lemma_lex_le_total(a.drop_first(), b.drop_first());
    }
}

/// The lexicographic order is transitive.
pub proof fn lemma_lex_le_transitive(a: Seq<u64>, b: Seq<u64>, c: Seq<u64>)
    requires
        lex_le(a, b),
        lex_le(b, c),
    ensures
        lex_le(a, c),
    decreases a.len(),
{
    if a.len() > 0 && a[0] == b[0] && b[0] == c[0] {
        lemma_lex_le_transitive(a.drop_first(), b.drop_first(), c.drop_first());
    }
}

proof fn lemma_insert_pos_split<T>(sorted: Seq<(Seq<u64>, T)>, k: Seq<u64>)
    ensures
        insert_pos(sorted, k) <= sorted.len(),
        forall|i: int| 0 <= i < insert_pos(sorted, k) ==> lex_le(#[trigger] sorted[i].0, k),
        insert_pos(sorted, k) < sorted.len() ==> !lex_le(sorted[insert_pos(sorted, k) as int].0, k),
    decreases sorted.len(),
{
    if sorted.len() > 0 && lex_le(sorted[0].0, k) {
        let rest = sorted.drop_first();
        lemma_insert_pos_split(rest, k);
        assert forall|i: int| 0 <= i < insert_pos(sorted, k) implies lex_le(#[trigger] sorted[i].0, k) by {
            if i > 0 {
                assert(sorted[i] == rest[i - 1]);
            }
        }
    }
}

proof fn lemma_insert_pos_after_all<T>(sorted: Seq<(Seq<u64>, T)>, k: Seq<u64>)
    requires
        forall|i: int| 0 <= i < sorted.len() ==> lex_le(#[trigger] sorted[i].0, k),
    ensures
        insert_pos(sorted, k) == sorted.len(),
    decreases sorted.len(),
{
    if sorted.len() > 0 {
        let rest = sorted.drop_first();
        assert(lex_le(sorted[0].0, k));
        assert forall|i: int| 0 <= i < rest.len() implies lex_le(#[trigger] rest[i].0, k) by {
            assert(rest[i] == sorted[i + 1]);
        }
        lemma_insert_pos_after_all(rest, k);
    }
}

/// A stable sort puts the keys in order.
pub proof fn lemma_stable_sort_sorted<T>(s: Seq<(Seq<u64>, T)>)
    ensures
        keys_sorted(stable_sort(s)),
    decreases s.len(),
{
    if s.len() > 0 {
        let sorted = stable_sort(s.drop_last());
        lemma_stable_sort_sorted(s.drop_last());
        let x = s.last();
        let k = x.0;
        lemma_insert_pos_split(sorted, k);
        let p = insert_pos(sorted, k) as int;
        let r = sorted.insert(p, x);
        assert(r == stable_sort(s));
        if p < sorted.len() {
            lemma_lex_le_total(sorted[p].0, k);
        }
        assert forall|i: int, j: int| 0 <= i < j < r.len() implies lex_le(#[trigger] r[i].0, #[trigger] r[j].0) by {
            if j < p {
                assert(r[i] == sorted[i] && r[j] == sorted[j]);
            } else if j == p {
                assert(r[i] == sorted[i]);
            } else if i < p {
                assert(r[i] == sorted[i] && r[j] == sorted[j - 1]);
            } else if i == p {
                assert(r[j] == sorted[j - 1]);
                if j - 1 > p {
                    assert(lex_le(sorted[p].0, sorted[j - 1].0));
                    lemma_lex_le_transitive(k, sorted[p].0, sorted[j - 1].0);
                }
            } else {
                assert(r[i] == sorted[i - 1] && r[j] == sorted[j - 1]);
            }
        }
    }
}

/// A stable sort leaves a sequence whose keys are already in order as it is.
pub proof fn lemma_stable_sort_of_sorted<T>(s: Seq<(Seq<u64>, T)>)
    requires
        keys_sorted(s),
    ensures
        stable_sort(s) == s,
    decreases s.len(),
{
    if s.len() > 0 {
        let front = s.drop_last();
        assert forall|i: int, j: int| 0 <= i < j < front.len() implies lex_le(#[trigger] front[i].0, #[trigger] front[j].0) by {
            assert(front[i] == s[i] && front[j] == s[j]);
        }
        lemma_stable_sort_of_sorted(front);
        assert forall|i: int| 0 <= i < front.len() implies lex_le(#[trigger] front[i].0, s.last().0) by {
            assert(front[i] == s[i]);
        }
        lemma_insert_pos_after_all(front, s.last().0);
        assert(front.insert(front.len() as int, s.last()) =~= s);
    }
}

/// What holds of every item of a sequence holds of every item of its stable sort.
pub proof fn lemma_stable_sort_keeps<T>(s: Seq<(Seq<u64>, T)>, pred: spec_fn((Seq<u64>, T)) -> bool)
    requires
        forall|i: int| 0 <= i < s.len() ==> pred(#[trigger] s[i]),
    ensures
        stable_sort(s).len() == s.len(),
        forall|i: int| 0 <= i < stable_sort(s).len() ==> pred(#[trigger] stable_sort(s)[i]),
    decreases s.len(),
{
    lemma_stable_sort_len(s);
    if s.len() > 0 {
        let front = s.drop_last();
        assert forall|i: int| 0 <= i < front.len() implies pred(#[trigger] front[i]) by {
            assert(front[i] == s[i]);
        }
        lemma_stable_sort_keeps(front, pred);
        let sorted = stable_sort(front);
        lemma_insert_pos_bound(sorted, s.last().0);
        let p = insert_pos(sorted, s.last().0) as int;
        let r = sorted.insert(p, s.last());
        assert(pred(s[s.len() - 1]));
        assert forall|i: int| 0 <= i < r.len() implies pred(#[trigger] r[i]) by {
            if i < p {
                assert(r[i] == sorted[i]);
            } else if i > p {
                assert(r[i] == sorted[i - 1]);
            }
        }
    }
}

proof fn lemma_multiset_insert<A>(s: Seq<A>, i: int, a: A)
    requires
        0 <= i <= s.len(),
    ensures
        s.insert(i, a).to_multiset() =~= s.to_multiset().insert(a),
{
    broadcast use vstd::seq_lib::group_to_multiset_ensures;

    let t = s.insert(i, a);
    assert(t.remove(i) =~= s);
    assert(t[i] == a);
    assert(t.contains(a));
    assert(t.to_multiset().count(a) > 0);
    assert(s.to_multiset() =~= t.to_multiset().remove(a));
}

proof fn lemma_stable_sort_items_permute<T>(s: Seq<(Seq<u64>, T)>)
    ensures
        stable_sort(s).map_values(|p: (Seq<u64>, T)| p.1).to_multiset()
            =~= s.map_values(|p: (Seq<u64>, T)| p.1).to_multiset(),
    decreases s.len(),
{
    broadcast use vstd::seq_lib::group_to_multiset_ensures;

    if s.len() > 0 {
        let front = s.drop_last();
        lemma_stable_sort_items_permute(front);
        let sorted = stable_sort(front);
        lemma_insert_pos_bound(sorted, s.last().0);
        let p = insert_pos(sorted, s.last().0) as int;
        let sm = sorted.map_values(|p: (Seq<u64>, T)| p.1);
        assert(sorted.insert(p, s.last()).map_values(|p: (Seq<u64>, T)| p.1) =~= sm.insert(p, s.last().1));
        lemma_multiset_insert(sm, p, s.last().1);
        assert(s.map_values(|p: (Seq<u64>, T)| p.1) =~= front.map_values(|p: (Seq<u64>, T)| p.1).push(s.last().1));
    }
}

/// Sorting by keys only reorders the items: each occurs as often as before.
pub proof fn lemma_sort_by_keys_permutes<T>(keys: Seq<Seq<u64>>, items: Seq<T>)
    requires
        keys.len() == items.len(),
    ensures
        sort_by_keys_spec(keys, items).to_multiset() =~= items.to_multiset(),
{
    lemma_stable_sort_items_permute(keyed(keys, items));
    assert(keyed(keys, items).map_values(|p: (Seq<u64>, T)| p.1) =~= items);
}

/// Items sorted by a key computed from each item come in the order of that key.
pub proof fn lemma_sort_by_key_fn_sorted<T>(items: Seq<T>, key: spec_fn(T) -> Seq<u64>)
    ensures
        forall|i: int, j: int|
            0 <= i < j < sort_by_keys_spec(items.map_values(key), items).len() ==> lex_le(
                key(#[trigger] sort_by_keys_spec(items.map_values(key), items)[i]),
                key(#[trigger] sort_by_keys_spec(items.map_values(key), items)[j]),
            ),
{
    let kd = keyed(items.map_values(key), items);
    let pred = |p: (Seq<u64>, T)| p.0 == key(p.1);
    lemma_stable_sort_keeps(kd, pred);
    lemma_stable_sort_sorted(kd);
    let z = stable_sort(kd);
    let y = sort_by_keys_spec(items.map_values(key), items);
    assert forall|i: int, j: int| 0 <= i < j < y.len() implies lex_le(key(#[trigger] y[i]), key(#[trigger] y[j])) by {
        assert(pred(z[i]) && pred(z[j]));
        assert(lex_le(z[i].0, z[j].0));
    }
}

/// Sorting again by the same key changes nothing.
pub proof fn lemma_sort_by_key_fn_idempotent<T>(items: Seq<T>, key: spec_fn(T) -> Seq<u64>)
    ensures
        sort_by_keys_spec(
            sort_by_keys_spec(items.map_values(key), items).map_values(key),
            sort_by_keys_spec(items.map_values(key), items),
        ) == sort_by_keys_spec(items.map_values(key), items),
{
    let kd = keyed(items.map_values(key), items);
    let pred = |p: (Seq<u64>, T)| p.0 == key(p.1);
    lemma_stable_sort_keeps(kd, pred);
    lemma_stable_sort_sorted(kd);
    let z = stable_sort(kd);
    let y = sort_by_keys_spec(items.map_values(key), items);
    assert forall|i: int| 0 <= i < z.len() implies #[trigger] keyed(y.map_values(key), y)[i] == z[i] by {
        assert(pred(z[i]));
    }
    assert(keyed(y.map_values(key), y) =~= z);
    lemma_stable_sort_of_sorted(z);
}

} // verus!

verus! {

/// Whether a sequence of keys is in lexicographic order.
pub open spec fn in_key_order(keys: Seq<Seq<u64>>) -> bool {
    forall|i: int, j: int| 0 <= i < j < keys.len() ==> lex_le(#[trigger] keys[i], #[trigger] keys[j])
}

/// Sorting items by a key computed from each item reorders them only, puts
/// their keys in order, and is a fixpoint: sorting the result again changes nothing.
pub proof fn lemma_sort_by_key_fn<T>(items: Seq<T>, key: spec_fn(T) -> Seq<u64>)
    ensures
        sort_by_keys_spec(items.map_values(key), items).to_multiset() =~= items.to_multiset(),
        in_key_order(sort_by_keys_spec(items.map_values(key), items).map_values(key)),
        sort_by_keys_spec(
            sort_by_keys_spec(items.map_values(key), items).map_values(key),
            sort_by_keys_spec(items.map_values(key), items),
        ) == sort_by_keys_spec(items.map_values(key), items),
{
    lemma_sort_by_keys_permutes(items.map_values(key), items);
    lemma_sort_by_key_fn_sorted(items, key);
    lemma_sort_by_key_fn_idempotent(items, key);
    let y = sort_by_keys_spec(items.map_values(key), items);
    let ky = y.map_values(key);
    assert forall|i: int, j: int| 0 <= i < j < ky.len() implies lex_le(#[trigger] ky[i], #[trigger] ky[j]) by {
        assert(lex_le(key(y[i]), key(y[j])));
    }
}

} // verus!
