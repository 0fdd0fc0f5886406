//! Recently used values (proxies, shortcuts): most recent first, no repeats, bounded.

use vstd::prelude::*;
use crate::text::{lemma_trim_idempotent, str_equals, trim, trim_str};

verus! {

/// How many entries a history keeps.
pub const HISTORY_LIMIT: usize = 10;

/// The texts of a list of strings.
pub open spec fn texts(v: Seq<String>) -> Seq<Seq<char>> {
    v.map_values(|s: String| s@)
}

/// `h` with every entry equal to `v` removed, the others kept in order.
pub open spec fn without(h: Seq<Seq<char>>, v: Seq<char>) -> Seq<Seq<char>>
    decreases h.len(),
{
    if h.len() == 0 {
        h
    } else {
        let rest = without(h.drop_last(), v);
        if h.last() == v {
            rest
        } else {
            rest.push(h.last())
        }
    }
}

/// The first `HISTORY_LIMIT` entries of `h`.
pub open spec fn bounded(h: Seq<Seq<char>>) -> Seq<Seq<char>> {
    if h.len() > HISTORY_LIMIT {
        h.take(HISTORY_LIMIT as int)
    } else {
        h
    }
}

/// `h` after `v` was used: `v` moves to the front, cut to `HISTORY_LIMIT`
/// entries; an empty `v` leaves `h` as it is.
pub open spec fn upserted(h: Seq<Seq<char>>, v: Seq<char>) -> Seq<Seq<char>> {
    if v.len() == 0 {
        h
    } else {
        bounded(seq![v] + without(h, v))
    }
}

/// The trimmed, non-empty, distinct entries of `values` in order of first
/// appearance, stopping once `HISTORY_LIMIT` of them are collected.
pub open spec fn deduped(values: Seq<Seq<char>>) -> Seq<Seq<char>>
    decreases values.len(),
{
    if values.len() == 0 {
        seq![]
    } else {
        let d = deduped(values.drop_last());
        let t = trim(values.last());
        if d.len() >= HISTORY_LIMIT || t.len() == 0 || d.contains(t) {
            d
        } else {
            d.push(t)
        }
    }
}

/// The value with surrounding white space removed, unless nothing is left.
pub fn trim_non_empty(value: &str) -> (r: Option<String>)
    ensures
        match r {
            Some(t) => t@ == trim(value@) && t@.len() > 0,
            None => trim(value@).len() == 0,
        },
{
    let trimmed = trim_str(value);
    if trimmed.is_empty() {
        None
    } else {
        Some(trimmed.to_string())
    }
}

/// Whether `v` holds an entry equal to `x`.
fn holds_text(v: &Vec<String>, x: &str) -> (r: bool)
    ensures
        r == texts(v@).contains(x@),
{
    let mut i: usize = 0;
    while i < v.len()
        invariant
            i <= v@.len(),
            forall|k: int| 0 <= k < i ==> v@[k]@ != x@,
        decreases v@.len() - i,
    {
        if str_equals(v[i].as_str(), x) {
            assert(texts(v@)[i as int] == x@);
            return true;
        }
        i = i + 1;
    }
    assert forall|k: int| 0 <= k < texts(v@).len() implies texts(v@)[k] != x@ by {
        assert(texts(v@)[k] == v@[k]@);
    }
    false
}

/// Removes every entry equal to `value`, keeping the others in order.
pub fn remove_history(history: &mut Vec<String>, value: &str)
    ensures
        texts(final(history)@) == without(texts(old(history)@), value@),
{
    let mut kept: Vec<String> = Vec::new();
    let mut i: usize = 0;
    while i < history.len()
        invariant
            i <= history@.len(),
            history@ == old(history)@,
            texts(kept@) == without(texts(history@).take(i as int), value@),
        decreases history@.len() - i,
    {
        assert(texts(history@).take(i + 1).drop_last() =~= texts(history@).take(i as int));
        if !str_equals(history[i].as_str(), value) {
            kept.push(history[i].clone());
            assert(texts(kept@) =~= without(texts(history@).take(i + 1), value@));
        }
        i = i + 1;
    }
    assert(texts(history@).take(i as int) =~= texts(history@));
    *history = kept;
}

/// Records `value` as the most recent entry: earlier copies of it go, it moves
/// to the front, and the history is cut to `HISTORY_LIMIT` entries. An empty
/// value changes nothing.
pub fn upsert_history(history: &mut Vec<String>, value: &str)
    ensures
        texts(final(history)@) == upserted(texts(old(history)@), value@),
{
    if value.is_empty() {
        return;
    }
    remove_history(history, value);
    history.insert(0, value.to_string());
    assert(texts(history@) =~= seq![value@] + without(texts(old(history)@), value@));
    history.truncate(HISTORY_LIMIT);
    assert(texts(history@) =~= upserted(texts(old(history)@), value@));
}

/// Once `HISTORY_LIMIT` entries are collected, later values change nothing.
proof fn lemma_deduped_full(values: Seq<Seq<char>>, k: int)
    requires
        0 <= k <= values.len(),
        deduped(values.take(k)).len() >= HISTORY_LIMIT,
    ensures
        deduped(values) == deduped(values.take(k)),
    decreases values.len() - k,
{
    if k < values.len() {
        assert(values.take(k + 1).drop_last() =~= values.take(k));
        lemma_deduped_full(values, k + 1);
    } else {
        assert(values.take(k) =~= values);
    }
}

/// Trims the values, drops empty ones and repeats, and keeps at most
/// `HISTORY_LIMIT` of them, in order of first appearance.
pub fn dedupe_history(values: Vec<String>) -> (r: Vec<String>)
    ensures
        texts(r@) == deduped(texts(values@)),
{
    let ghost vals = texts(values@);
    let mut out: Vec<String> = Vec::new();
    let mut i: usize = 0;
    while i < values.len()
        invariant
            i <= values@.len(),
            vals == texts(values@),
            texts(out@) == deduped(vals.take(i as int)),
            out@.len() < HISTORY_LIMIT,
        decreases values@.len() - i,
    {
        assert(vals.take(i + 1).drop_last() =~= vals.take(i as int));
        assert(vals.take(i + 1).last() == values@[i as int]@);
        if let Some(value) = trim_non_empty(values[i].as_str()) {
            if !holds_text(&out, value.as_str()) {
                out.push(value);
                assert(texts(out@) =~= deduped(vals.take(i + 1)));
                if out.len() >= HISTORY_LIMIT {
                    proof {
                        lemma_deduped_full(vals, i + 1);
                    }
                    return out;
                }
            }
        }
        i = i + 1;
    }
    assert(vals.take(i as int) =~= vals);
    out
}


/// Removing `v` keeps exactly the other entries, adds nothing, and keeps a
/// history free of repeats free of repeats.
pub proof fn lemma_without(h: Seq<Seq<char>>, v: Seq<char>)
    ensures
        forall|x: Seq<char>| #[trigger] without(h, v).contains(x) <==> (h.contains(x) && x != v),
        without(h, v).len() <= h.len(),
        h.no_duplicates() ==> without(h, v).no_duplicates(),
    decreases h.len(),
{
    if h.len() > 0 {
        let init = h.drop_last();
        let w0 = without(init, v);
        let last = h.last();
        lemma_without(init, v);
        assert forall|x: Seq<char>| #[trigger] without(h, v).contains(x) <==> (h.contains(x) && x != v) by {
            if h.contains(x) && x != v {
                let k = choose|k: int| 0 <= k < h.len() && h[k] == x;
                if k < h.len() - 1 {
                    assert(init[k] == x);
                    assert(init.contains(x));
                    assert(w0.contains(x));
                    let k2 = choose|k2: int| 0 <= k2 < w0.len() && w0[k2] == x;
                    if last != v {
                        assert(w0.push(last)[k2] == x);
                    }
                } else {
                    assert(last == x);
                    assert(w0.push(last)[w0.len() as int] == x);
                }
            }
            if without(h, v).contains(x) {
                let k = choose|k: int| 0 <= k < without(h, v).len() && without(h, v)[k] == x;
                if last == v || k < w0.len() {
                    assert(w0[k] == x);
                    assert(w0.contains(x));
                    assert(init.contains(x));
                    let k2 = choose|k2: int| 0 <= k2 < init.len() && init[k2] == x;
                    assert(h[k2] == x);
                } else {
                    assert(x == last);
                    assert(h[h.len() - 1] == x);
                }
            }
        }
        if h.no_duplicates() {
            assert(init.no_duplicates()) by {
                assert forall|i: int, j: int| 0 <= i < init.len() && 0 <= j < init.len() && i != j implies init[i] != init[j] by {
                    assert(init[i] == h[i] && init[j] == h[j]);
                }
            }
            if last != v {
                assert(!init.contains(last)) by {
                    if init.contains(last) {
                        let k = choose|k: int| 0 <= k < init.len() && init[k] == last;
                        assert(h[k] == h[h.len() - 1]);
                    }
                }
                assert(!w0.contains(last));
                let w = w0.push(last);
                assert forall|i: int, j: int| 0 <= i < w.len() && 0 <= j < w.len() && i != j implies w[i] != w[j] by {
                    if i == w0.len() {
                        assert(w0[j] != last) by {
                            if w0[j] == last {
                                assert(w0.contains(last));
                            }
                        }
                    } else if j == w0.len() {
                        assert(w0[i] != last) by {
                            if w0[i] == last {
                                assert(w0.contains(last));
                            }
                        }
                    }
                }
            }
        }
    }
}

/// After a non-empty value is recorded it is the most recent entry, it occurs
/// once, every other entry was there before, the history holds at most
/// `HISTORY_LIMIT` entries, and a history free of repeats stays so.
pub proof fn lemma_upsert_history(h: Seq<Seq<char>>, v: Seq<char>)
    requires
        v.len() > 0,
    ensures
        upserted(h, v).len() > 0,
        upserted(h, v)[0] == v,
        upserted(h, v).len() <= HISTORY_LIMIT,
        forall|k: int| 0 < k < upserted(h, v).len() ==> #[trigger] upserted(h, v)[k] != v,
        forall|x: Seq<char>| #[trigger] upserted(h, v).contains(x) ==> x == v || h.contains(x),
        h.no_duplicates() ==> upserted(h, v).no_duplicates(),
{
    lemma_without(h, v);
    let full = seq![v] + without(h, v);
    assert(full[0] == v);
    assert forall|k: int| 0 < k < full.len() implies #[trigger] full[k] != v by {
        assert(full[k] == without(h, v)[k - 1]);
        assert(without(h, v).contains(full[k]));
    }
    assert forall|x: Seq<char>| #[trigger] upserted(h, v).contains(x) implies x == v || h.contains(x) by {
        let k = choose|k: int| 0 <= k < upserted(h, v).len() && upserted(h, v)[k] == x;
        assert(full[k] == x);
        if k > 0 {
            assert(without(h, v)[k - 1] == x);
            assert(without(h, v).contains(x));
        }
    }
    if h.no_duplicates() {
        assert forall|i: int, j: int| 0 <= i < j < full.len() implies full[i] != full[j] by {
            if i > 0 {
                assert(full[i] == without(h, v)[i - 1]);
                assert(full[j] == without(h, v)[j - 1]);
            }
        }
        assert(full.no_duplicates());
    }
}

/// Removing a value that occurs shortens the history by at least one entry.
proof fn lemma_without_shorter(h: Seq<Seq<char>>, v: Seq<char>)
    requires
        h.contains(v),
    ensures
        without(h, v).len() < h.len(),
    decreases h.len(),
{
    let init = h.drop_last();
    lemma_without(init, v);
    if h.last() != v {
        let k = choose|k: int| 0 <= k < h.len() && h[k] == v;
        assert(init[k] == v);
        lemma_without_shorter(init, v);
    }
}

/// Recording a non-empty value `v` puts `v` first, followed by the entries of
/// the old history other than `v` in their old order, cut to `HISTORY_LIMIT`
/// entries. When the old history holds `v` and at most `HISTORY_LIMIT`
/// entries, or holds fewer than `HISTORY_LIMIT` entries, no old entry is lost.
pub proof fn lemma_upsert_keeps_entries(h: Seq<Seq<char>>, v: Seq<char>)
    requires
        v.len() > 0,
    ensures
        upserted(h, v).len() == if without(h, v).len() + 1 > HISTORY_LIMIT {
            HISTORY_LIMIT as int
        } else {
            without(h, v).len() + 1int
        },
        upserted(h, v)[0] == v,
        forall|k: int| 1 <= k < upserted(h, v).len() ==> #[trigger] upserted(h, v)[k] == without(h, v)[k - 1],
        (h.len() < HISTORY_LIMIT || (h.contains(v) && h.len() <= HISTORY_LIMIT)) ==> forall|x: Seq<char>|
            #[trigger] h.contains(x) ==> upserted(h, v).contains(x),
{
    lemma_without(h, v);
    let full = seq![v] + without(h, v);
    if h.len() < HISTORY_LIMIT || (h.contains(v) && h.len() <= HISTORY_LIMIT) {
        if h.contains(v) {
            lemma_without_shorter(h, v);
        }
        assert(upserted(h, v) == full);
        assert forall|x: Seq<char>| #[trigger] h.contains(x) implies upserted(h, v).contains(x) by {
            if x == v {
                assert(full[0] == v);
            } else {
                assert(without(h, v).contains(x));
                let k = choose|k: int| 0 <= k < without(h, v).len() && without(h, v)[k] == x;
                assert(full[k + 1] == x);
            }
        }
    }
}

/// Recording a value and then removing it gives what removing it from the
/// old history gives, as long as nothing was cut.
pub proof fn lemma_upsert_then_remove(h: Seq<Seq<char>>, v: Seq<char>)
    requires
        v.len() > 0,
        without(h, v).len() < HISTORY_LIMIT,
    ensures
        without(upserted(h, v), v) == without(h, v),
{
    lemma_without(h, v);
    lemma_without_prepend(without(h, v), v);
}

/// Removing `v` from `[v]` followed by a history free of `v` gives that history.
proof fn lemma_without_prepend(w: Seq<Seq<char>>, v: Seq<char>)
    requires
        !w.contains(v),
    ensures
        without(seq![v] + w, v) == w,
    decreases w.len(),
{
    if w.len() == 0 {
        assert(without(seq![v], v) =~= without(seq![v].drop_last(), v));
        assert(seq![v] + w =~= seq![v]);
    } else {
        let init = w.drop_last();
        assert(!init.contains(v)) by {
            if init.contains(v) {
                let k = choose|k: int| 0 <= k < init.len() && init[k] == v;
                assert(w[k] == v);
            }
        }
        lemma_without_prepend(init, v);
        assert((seq![v] + w).drop_last() =~= seq![v] + init);
        assert(w.last() != v) by {
            assert(w[w.len() - 1] == w.last());
        }
        assert(init.push(w.last()) =~= w);
    }
}

/// Removing a value leaves no entry equal to it, and every other entry stays.
pub proof fn lemma_remove_history(h: Seq<Seq<char>>, v: Seq<char>)
    ensures
        !without(h, v).contains(v),
        forall|x: Seq<char>| x != v && h.contains(x) ==> #[trigger] without(h, v).contains(x),
{
    lemma_without(h, v);
}

/// A de-duplicated history holds no repeats, no empty entry, at most
/// `HISTORY_LIMIT` entries, and only trimmed input values.
pub proof fn lemma_dedupe_history(values: Seq<Seq<char>>)
    ensures
        deduped(values).no_duplicates(),
        deduped(values).len() <= HISTORY_LIMIT,
        forall|k: int|
            0 <= k < deduped(values).len() ==> (#[trigger] deduped(values)[k]).len() > 0
                && exists|j: int| 0 <= j < values.len() && deduped(values)[k] == trim(values[j]),
    decreases values.len(),
{
    if values.len() > 0 {
        let init = values.drop_last();
        lemma_dedupe_history(init);
        let d = deduped(init);
        assert forall|k: int| 0 <= k < deduped(values).len() implies (#[trigger] deduped(values)[k]).len() > 0
                && exists|j: int| 0 <= j < values.len() && deduped(values)[k] == trim(values[j]) by {
            if k < d.len() {
                let j = choose|j: int| 0 <= j < init.len() && d[k] == trim(init[j]);
                assert(values[j] == init[j]);
            } else {
                assert(deduped(values)[k] == trim(values[values.len() - 1]));
            }
        }
    }
}


/// A history of distinct, trimmed, non-blank entries within the limit is its
/// own de-duplication.
proof fn lemma_deduped_fixed(v: Seq<Seq<char>>)
    requires
        v.no_duplicates(),
        v.len() <= HISTORY_LIMIT,
        forall|k: int| 0 <= k < v.len() ==> (#[trigger] v[k]).len() > 0 && trim(v[k]) == v[k],
    ensures
        deduped(v) == v,
    decreases v.len(),
{
    if v.len() > 0 {
        let init = v.drop_last();
        assert forall|k: int| 0 <= k < init.len() implies (#[trigger] init[k]).len() > 0 && trim(init[k]) == init[k] by {
            assert(init[k] == v[k]);
        }
        assert(init.no_duplicates()) by {
            assert forall|i: int, j: int| 0 <= i < init.len() && 0 <= j < init.len() && i != j implies init[i] != init[j] by {
                assert(init[i] == v[i] && init[j] == v[j]);
            }
        }
        lemma_deduped_fixed(init);
        assert(!init.contains(v.last())) by {
            if init.contains(v.last()) {
                let k = choose|k: int| 0 <= k < init.len() && init[k] == v.last();
                assert(v[k] == v[v.len() - 1]);
            }
        }
        assert(trim(v.last()) == v.last()) by {
            assert(v.last() == v[v.len() - 1]);
        }
        assert(init.push(v.last()) =~= v);
    }
}

/// De-duplicating a de-duplicated history changes nothing.
pub proof fn lemma_dedupe_history_idempotent(values: Seq<Seq<char>>)
    ensures
        deduped(deduped(values)) == deduped(values),
{
    let d = deduped(values);
    lemma_dedupe_history(values);
    assert forall|k: int| 0 <= k < d.len() implies (#[trigger] d[k]).len() > 0 && trim(d[k]) == d[k] by {
        let j = choose|j: int| 0 <= j < values.len() && d[k] == trim(values[j]);
        lemma_trim_idempotent(values[j]);
    }
    lemma_deduped_fixed(d);
}


/// Removing a value keeps exactly the other entries in their order: it is the
/// history filtered by "differs from the value".
pub proof fn lemma_without_is_filter(h: Seq<Seq<char>>, v: Seq<char>)
    ensures
        without(h, v) == h.filter(|x: Seq<char>| x != v),
    decreases h.len(),
{
    reveal(Seq::filter);
    if h.len() > 0 {
        lemma_without_is_filter(h.drop_last(), v);
    }
}

/// Every trimmed non-blank input value is in the de-duplicated history unless
/// that history is already full, and the history lists values in the order of
/// their first appearance.
pub proof fn lemma_dedupe_history_complete(values: Seq<Seq<char>>)
    ensures
        deduped(values).len() < HISTORY_LIMIT ==> forall|j: int|
            0 <= j < values.len() && trim(values[j]).len() > 0 ==> deduped(values).contains(#[trigger] trim(values[j])),
        forall|i: int, j: int|
            0 <= i < j < deduped(values).len() ==> first_index(values, #[trigger] deduped(values)[i])
                < first_index(values, #[trigger] deduped(values)[j]),
    decreases values.len(),
{
    if values.len() > 0 {
        let init = values.drop_last();
        lemma_dedupe_history_complete(init);
        lemma_dedupe_history(init);
        let d = deduped(init);
        let t = trim(values.last());
        lemma_deduped_grows(values);
        assert forall|j: int| 0 <= j < values.len() && trim(values[j]).len() > 0 && deduped(values).len() < HISTORY_LIMIT
            implies deduped(values).contains(#[trigger] trim(values[j])) by {
            if j < init.len() {
                assert(init[j] == values[j]);
                assert(d.contains(trim(init[j])));
                let k = choose|k: int| 0 <= k < d.len() && d[k] == trim(init[j]);
                assert(deduped(values)[k] == d[k]);
            } else {
                if !d.contains(t) {
                    assert(deduped(values)[d.len() as int] == t);
                }
            }
        }
        assert forall|i: int, j: int| 0 <= i < j < deduped(values).len() implies first_index(values, #[trigger] deduped(values)[i])
                < first_index(values, #[trigger] deduped(values)[j]) by {
            lemma_first_index_prefix(values, deduped(values)[i]);
            lemma_first_index_prefix(values, deduped(values)[j]);
            if j < d.len() {
                assert(deduped(values)[i] == d[i] && deduped(values)[j] == d[j]);
            } else {
                assert(deduped(values)[j] == t);
                assert(!d.contains(t));
                assert(d.contains(d[i]));
                lemma_first_index_in(init, d[i]);
                lemma_first_index_absent(init, t);
            }
        }
    }
}

/// The first position at which an input value's trimmed text is `x`, or the
/// number of values when there is none.
pub open spec fn first_index(values: Seq<Seq<char>>, x: Seq<char>) -> int
    decreases values.len(),
{
    if values.len() == 0 {
        0
    } else {
        let rest = first_index(values.drop_last(), x);
        if rest < values.len() - 1 {
            rest
        } else if trim(values.last()) == x {
            values.len() - 1
        } else {
            values.len() as int
        }
    }
}

/// The first position of `x` in `values` without its last value is its first
/// position in `values` when it occurs before the end.
proof fn lemma_first_index_prefix(values: Seq<Seq<char>>, x: Seq<char>)
    requires
        values.len() > 0,
    ensures
        first_index(values.drop_last(), x) < values.len() - 1 ==> first_index(values, x) == first_index(values.drop_last(), x),
        first_index(values.drop_last(), x) == values.len() - 1 ==> first_index(values, x) >= values.len() - 1,
        0 <= first_index(values.drop_last(), x) <= values.len() - 1,
{
    lemma_first_index_bounds(values.drop_last(), x);
}

/// The first position lies between 0 and the number of values.
proof fn lemma_first_index_bounds(values: Seq<Seq<char>>, x: Seq<char>)
    ensures
        0 <= first_index(values, x) <= values.len(),
    decreases values.len(),
{
    if values.len() > 0 {
        lemma_first_index_bounds(values.drop_last(), x);
    }
}

/// Every entry of a de-duplicated history is the trim of an input value that
/// occurs before the end.
proof fn lemma_first_index_in(values: Seq<Seq<char>>, x: Seq<char>)
    requires
        deduped(values).contains(x),
    ensures
        first_index(values, x) < values.len(),
    decreases values.len(),
{
    let init = values.drop_last();
    lemma_first_index_bounds(init, x);
    if deduped(init).contains(x) {
        lemma_first_index_in(init, x);
    } else {
        let k = choose|k: int| 0 <= k < deduped(values).len() && deduped(values)[k] == x;
        if k < deduped(init).len() {
            assert(deduped(init)[k] == x);
        }
        assert(trim(values.last()) == x);
    }
}

/// A value that the de-duplicated history of `values` lacks has no first
/// position among `values`, unless the history was already full.
proof fn lemma_first_index_absent(values: Seq<Seq<char>>, x: Seq<char>)
    requires
        !deduped(values).contains(x),
        deduped(values).len() < HISTORY_LIMIT,
        x.len() > 0,
    ensures
        first_index(values, x) == values.len(),
    decreases values.len(),
{
    if values.len() > 0 {
        let init = values.drop_last();
        lemma_deduped_grows(values);
        assert(!deduped(init).contains(x)) by {
            if deduped(init).contains(x) {
                let k = choose|k: int| 0 <= k < deduped(init).len() && deduped(init)[k] == x;
                assert(deduped(values)[k] == x);
            }
        }
        lemma_first_index_absent(init, x);
        if trim(values.last()) == x {
            assert(deduped(values)[deduped(init).len() as int] == x);
        }
    }
}

/// A de-duplicated history only grows when another value is added.
proof fn lemma_deduped_grows(values: Seq<Seq<char>>)
    requires
        values.len() > 0,
    ensures
        deduped(values).len() >= deduped(values.drop_last()).len(),
        forall|k: int| 0 <= k < deduped(values.drop_last()).len() ==> #[trigger] deduped(values)[k] == deduped(values.drop_last())[k],
{
}

} // verus!
