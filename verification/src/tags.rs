//! Tag lists: how tags are normalised, stored in one text column, and how
//! a clip's tag list changes when tags are added, removed, renamed or deleted.
use vstd::prelude::*;
use crate::text::{
    contains_text, join_spec, lowercase, owned, split_on, split_spec, str_eq, to_lowercase,
    trim, trim_spec,
};

verus! {

/// A tag as it is stored: trimmed, then lower-cased.
pub open spec fn normalize_tag_spec(t: Seq<char>) -> Seq<char> {
    lowercase(trim_spec(t))
}

/// The normalised tags of `ts` that are not empty, in order.
pub open spec fn clean_tags_spec(ts: Seq<Seq<char>>) -> Seq<Seq<char>>
    decreases ts.len(),
{
    if ts.len() == 0 {
        Seq::<Seq<char>>::empty()
    } else {
        let r = clean_tags_spec(ts.drop_last());
        let t = normalize_tag_spec(ts.last());
        if t.len() > 0 {
            r.push(t)
        } else {
            r
        }
    }
}

/// The text a tag list is stored as: the tags separated by commas.
pub open spec fn tags_column_text(ts: Seq<Seq<char>>) -> Seq<char> {
    join_spec(ts, seq![','])
}

/// The tag list read back from a stored tags text: nothing for an empty
/// text, otherwise the trimmed pieces between commas.
pub open spec fn tags_from_column(s: Seq<char>) -> Seq<Seq<char>> {
    if s.len() == 0 {
        Seq::<Seq<char>>::empty()
    } else {
        trim_all(split_spec(s, ','))
    }
}

/// Each piece trimmed.
pub open spec fn trim_all(ps: Seq<Seq<char>>) -> Seq<Seq<char>> {
    ps.map_values(|p: Seq<char>| trim_spec(p))
}

/// Each tag normalised.
pub open spec fn normalize_all(ts: Seq<Seq<char>>) -> Seq<Seq<char>> {
    ts.map_values(|t: Seq<char>| normalize_tag_spec(t))
}

/// `ts` with the normalised tags of `new` appended, skipping empty ones and
/// ones already present.
pub open spec fn with_added_tags(ts: Seq<Seq<char>>, new: Seq<Seq<char>>) -> Seq<Seq<char>>
    decreases new.len(),
{
    if new.len() == 0 {
        ts
    } else {
        let r = with_added_tags(ts, new.drop_last());
        let c = normalize_tag_spec(new.last());
        if c.len() > 0 && !r.contains(c) {
            r.push(c)
        } else {
            r
        }
    }
}

/// `ts` without the tags equal to a normalised tag of `removed`.
pub open spec fn without_tags(ts: Seq<Seq<char>>, removed: Seq<Seq<char>>) -> Seq<Seq<char>>
    decreases ts.len(),
{
    if ts.len() == 0 {
        ts
    } else {
        let r = without_tags(ts.drop_last(), removed);
        if normalize_all(removed).contains(ts.last()) {
            r
        } else {
            r.push(ts.last())
        }
    }
}

/// `ts` without the tags equal to `tag`.
pub open spec fn tags_except(ts: Seq<Seq<char>>, tag: Seq<char>) -> Seq<Seq<char>>
    decreases ts.len(),
{
    if ts.len() == 0 {
        ts
    } else {
        let r = tags_except(ts.drop_last(), tag);
        if ts.last() == tag {
            r
        } else {
            r.push(ts.last())
        }
    }
}

/// The position of the first `x` in `ts`, or -1.
pub open spec fn first_index(ts: Seq<Seq<char>>, x: Seq<char>) -> int
    decreases ts.len(),
{
    if ts.len() == 0 {
        -1
    } else if ts[0] == x {
        0
    } else {
        let k = first_index(ts.drop_first(), x);
        if k < 0 {
            -1
        } else {
            k + 1
        }
    }
}

/// `ts` with `old` renamed to `new`: the first `old` is dropped and `new` is
/// appended unless already present.
pub open spec fn renamed_tags(ts: Seq<Seq<char>>, old: Seq<char>, new: Seq<char>) -> Seq<
    Seq<char>,
> {
    let k = first_index(ts, old);
    let r = if k < 0 {
        ts
    } else {
        ts.remove(k)
    };
    if r.contains(new) {
        r
    } else {
        r.push(new)
    }
}

/// A tag as it is stored: trimmed, then lower-cased.
pub fn normalize_tag(t: &str) -> (n: String)
    ensures
        n@ == normalize_tag_spec(t@),
{
    to_lowercase(trim(t))
}

/// The normalised, non-empty tags of `tags`, in order.
pub fn clean_tags(tags: &Vec<String>) -> (cleaned: Vec<String>)
    ensures
        cleaned.deep_view() == clean_tags_spec(tags.deep_view()),
{
    let mut out: Vec<String> = Vec::new();
    let n = tags.len();
    for i in 0..n
        invariant
            n == tags.len(),
            out.deep_view() == clean_tags_spec(tags.deep_view().take(i as int)),
    {
        proof {
            let t = tags.deep_view().take(i + 1);
            assert(t.drop_last() == tags.deep_view().take(i as int));
            assert(t.last() == tags[i as int]@);
        }
        let c = normalize_tag(tags[i].as_str());
        if !c.as_str().is_empty() {
            out.push(c);
        }
    }
    assert(tags.deep_view().take(n as int) == tags.deep_view());
    out
}

/// The tag list read back from a stored tags text.
pub fn parse_tags_column(s: &str) -> (tags: Vec<String>)
    ensures
        tags.deep_view() == tags_from_column(s@),
{
    if s.is_empty() {
        return Vec::new();
    }
    let parts = split_on(s, ',');
    let mut out: Vec<String> = Vec::new();
    let n = parts.len();
    for i in 0..n
        invariant
            n == parts.len(),
            parts.deep_view() == split_spec(s@, ','),
            s@.len() > 0,
            out.deep_view() == trim_all(parts.deep_view().take(i as int)),
    {
        let piece = owned(trim(parts[i].as_str()));
        let ghost prev = out.deep_view();
        let ghost pc = piece@;
        out.push(piece);
        proof {
            let pv = parts.deep_view().take(i + 1);
            assert(pv == parts.deep_view().take(i as int).push(parts[i as int]@));
            assert(out.deep_view() =~= prev.push(pc));
            assert(trim_all(pv) =~= trim_all(parts.deep_view().take(i as int)).push(pc));
        }
    }
    assert(parts.deep_view().take(n as int) == parts.deep_view());
    out
}

/// `existing` with the normalised tags of `new` appended, skipping empty ones
/// and ones already present.
pub fn add_tags(existing: &Vec<String>, new: &[String]) -> (tags: Vec<String>)
    ensures
        tags.deep_view() == with_added_tags(
            existing.deep_view(),
            new@.map_values(|s: String| s@),
        ),
{
    let mut out: Vec<String> = existing.clone();
    proof {
        assert(out.deep_view() =~= existing.deep_view());
    }
    let ghost nv = new@.map_values(|s: String| s@);
    let n = new.len();
    for i in 0..n
        invariant
            n == new@.len(),
            nv == new@.map_values(|s: String| s@),
            out.deep_view() == with_added_tags(existing.deep_view(), nv.take(i as int)),
    {
        proof {
            let t = nv.take(i + 1);
            assert(t.drop_last() == nv.take(i as int));
            assert(t.last() == new@[i as int]@);
        }
        let c = normalize_tag(new[i].as_str());
        if !c.as_str().is_empty() && !contains_text(&out, c.as_str()) {
            out.push(c);
        }
    }
    assert(nv.take(n as int) == nv);
    out
}

/// `existing` without the tags that equal a normalised tag of `removed`.
pub fn remove_tags(existing: &Vec<String>, removed: &[String]) -> (tags: Vec<String>)
    ensures
        tags.deep_view() == without_tags(existing.deep_view(), removed@.map_values(|s: String| s@)),
{
    let mut remove_set: Vec<String> = Vec::new();
    let ghost rv = removed@.map_values(|s: String| s@);
    let m = removed.len();
    for j in 0..m
        invariant
            m == removed@.len(),
            rv == removed@.map_values(|s: String| s@),
            remove_set.deep_view() == normalize_all(rv.take(j as int)),
    {
        let c = normalize_tag(removed[j].as_str());
        let ghost prev = remove_set.deep_view();
        let ghost cv = c@;
        remove_set.push(c);
        proof {
            let pv = rv.take(j + 1);
            assert(pv == rv.take(j as int).push(removed@[j as int]@));
            assert(remove_set.deep_view() =~= prev.push(cv));
            assert(normalize_all(pv) =~= normalize_all(rv.take(j as int)).push(cv));
        }
    }
    assert(rv.take(m as int) == rv);
    let mut out: Vec<String> = Vec::new();
    let n = existing.len();
    for i in 0..n
        invariant
            n == existing.len(),
            remove_set.deep_view() == normalize_all(rv),
            out.deep_view() == without_tags(existing.deep_view().take(i as int), rv),
    {
        proof {
            let t = existing.deep_view().take(i + 1);
            assert(t.drop_last() == existing.deep_view().take(i as int));
            assert(t.last() == existing[i as int]@);
        }
        if !contains_text(&remove_set, existing[i].as_str()) {
            out.push(existing[i].clone());
        }
    }
    assert(existing.deep_view().take(n as int) == existing.deep_view());
    out
}

/// `existing` without the tags equal to `tag`.
pub fn drop_tag(existing: &Vec<String>, tag: &str) -> (tags: Vec<String>)
    ensures
        tags.deep_view() == tags_except(existing.deep_view(), tag@),
{
    let mut out: Vec<String> = Vec::new();
    let n = existing.len();
    for i in 0..n
        invariant
            n == existing.len(),
            out.deep_view() == tags_except(existing.deep_view().take(i as int), tag@),
    {
        proof {
            let t = existing.deep_view().take(i + 1);
            assert(t.drop_last() == existing.deep_view().take(i as int));
            assert(t.last() == existing[i as int]@);
        }
        if !str_eq(existing[i].as_str(), tag) {
            out.push(existing[i].clone());
        }
    }
    assert(existing.deep_view().take(n as int) == existing.deep_view());
    out
}

proof fn lemma_first_index(ts: Seq<Seq<char>>, x: Seq<char>)
    ensures
        -1 <= first_index(ts, x) < ts.len(),
        first_index(ts, x) >= 0 ==> ts[first_index(ts, x)] == x,
        first_index(ts, x) >= 0 ==> forall|j: int| 0 <= j < first_index(ts, x) ==> ts[j] != x,
        first_index(ts, x) < 0 ==> !ts.contains(x),
    decreases ts.len(),
{
    if ts.len() > 0 && ts[0] != x {
        lemma_first_index(ts.drop_first(), x);
        let k = first_index(ts.drop_first(), x);
        if k >= 0 {
            assert forall|j: int| 0 <= j < k + 1 implies ts[j] != x by {
                if j > 0 {
                    assert(ts[j] == ts.drop_first()[j - 1]);
                }
            }
        } else {
            assert forall|j: int| 0 <= j < ts.len() implies ts[j] != x by {
                if j > 0 {
                    assert(ts[j] == ts.drop_first()[j - 1]);
                }
            }
        }
    }
}

/// `existing` with `old` renamed to `new`: the first `old` is dropped and
/// `new` is appended unless already present.
pub fn rename_in_tags(existing: &Vec<String>, old: &str, new: &str) -> (tags: Vec<String>)
    ensures
        tags.deep_view() == renamed_tags(existing.deep_view(), old@, new@),
{
    let mut out: Vec<String> = existing.clone();
    proof {
        assert(out.deep_view() =~= existing.deep_view());
        lemma_first_index(existing.deep_view(), old@);
    }
    let n = out.len();
    let mut k: usize = 0;
    while k < n
        invariant
            n == out.len(),
            out.deep_view() == existing.deep_view(),
            k <= n,
            forall|j: int| 0 <= j < k ==> existing.deep_view()[j] != old@,
        ensures
            k <= n,
            k < n ==> existing.deep_view()[k as int] == old@,
            forall|j: int| 0 <= j < k ==> existing.deep_view()[j] != old@,
        decreases n - k,
    {
        if str_eq(out[k].as_str(), old) {
            break;
        }
        k = k + 1;
    }
    proof {
        let ev = existing.deep_view();
        if k < n {
            assert(ev[k as int] == old@);
            if first_index(ev, old@) < k {
                assert(ev[first_index(ev, old@)] == old@);
            }
            assert(first_index(ev, old@) == k);
        } else {
            assert(!ev.contains(old@)) by {
                if ev.contains(old@) {
                    let j = choose|j: int| 0 <= j < ev.len() && ev[j] == old@;
                    assert(ev[j] != old@);
                }
            }
        }
    }
    if k < n {
        out.remove(k);
        proof {
            assert(out.deep_view() =~= existing.deep_view().remove(k as int));
        }
    }
    if !contains_text(&out, new) {
        out.push(owned(new));
    }
    out
}


/// Every tag kept by cleaning is the normalised form of a given tag and is
/// not empty; every given tag whose normalised form is not empty is kept.
pub proof fn law_clean_tags(ts: Seq<Seq<char>>)
    ensures
        forall|i: int|
            0 <= i < clean_tags_spec(ts).len() ==> (#[trigger] clean_tags_spec(ts)[i]).len() > 0
                && normalize_all(ts).contains(clean_tags_spec(ts)[i]),
        forall|j: int|
            0 <= j < ts.len() && normalize_tag_spec(#[trigger] ts[j]).len() > 0 ==> clean_tags_spec(
                ts,
            ).contains(normalize_tag_spec(ts[j])),
        clean_tags_spec(ts).len() <= ts.len(),
    decreases ts.len(),
{
    if ts.len() > 0 {
        let d = ts.drop_last();
        law_clean_tags(d);
        let r = clean_tags_spec(d);
        let t = normalize_tag_spec(ts.last());
        assert forall|i: int|
            0 <= i < clean_tags_spec(ts).len() implies (#[trigger] clean_tags_spec(ts)[i]).len() > 0
            && normalize_all(ts).contains(clean_tags_spec(ts)[i]) by {
            if i < r.len() {
                assert(clean_tags_spec(ts)[i] == r[i]);
                let k = choose|k: int| 0 <= k < normalize_all(d).len() && normalize_all(d)[k] == r[i];
                assert(normalize_all(ts)[k] == normalize_all(d)[k]);
            } else {
                assert(normalize_all(ts)[ts.len() - 1] == t);
            }
        }
        assert forall|j: int|
            0 <= j < ts.len() && normalize_tag_spec(#[trigger] ts[j]).len() > 0 implies clean_tags_spec(
            ts,
        ).contains(normalize_tag_spec(ts[j])) by {
            if j < d.len() {
                assert(d[j] == ts[j]);
                let k = choose|k: int| 0 <= k < r.len() && r[k] == normalize_tag_spec(d[j]);
                assert(clean_tags_spec(ts)[k] == r[k]);
            } else {
                assert(ts[j] == ts.last());
                assert(clean_tags_spec(ts)[r.len() as int] == t);
            }
        }
    }
}

/// Adding tags keeps the tags there were, in order, in front, and leaves
/// every given tag whose normalised form is not empty in the list.
pub proof fn law_added_tags(ts: Seq<Seq<char>>, new: Seq<Seq<char>>)
    ensures
        with_added_tags(ts, new).len() >= ts.len(),
        with_added_tags(ts, new).take(ts.len() as int) == ts,
        forall|j: int|
            0 <= j < new.len() && normalize_tag_spec(#[trigger] new[j]).len() > 0 ==> with_added_tags(
                ts,
                new,
            ).contains(normalize_tag_spec(new[j])),
    decreases new.len(),
{
    if new.len() > 0 {
        let d = new.drop_last();
        law_added_tags(ts, d);
        let r = with_added_tags(ts, d);
        let c = normalize_tag_spec(new.last());
        if c.len() > 0 && !r.contains(c) {
            assert(r.push(c).take(ts.len() as int) =~= r.take(ts.len() as int));
        }
        assert forall|j: int|
            0 <= j < new.len() && normalize_tag_spec(#[trigger] new[j]).len() > 0 implies with_added_tags(
            ts,
            new,
        ).contains(normalize_tag_spec(new[j])) by {
            if j < d.len() {
                assert(d[j] == new[j]);
                let k = choose|k: int| 0 <= k < r.len() && r[k] == normalize_tag_spec(d[j]);
                if c.len() > 0 && !r.contains(c) {
                    assert(r.push(c)[k] == r[k]);
                }
            } else {
                assert(new[j] == new.last());
                if c.len() > 0 && !r.contains(c) {
                    assert(r.push(c)[r.len() as int] == c);
                }
            }
        }
    }
}

/// Removing tags leaves none of the normalised removed tags, and keeps
/// every other tag.
pub proof fn law_removed_tags(ts: Seq<Seq<char>>, removed: Seq<Seq<char>>)
    ensures
        forall|x: Seq<char>|
            #[trigger] without_tags(ts, removed).contains(x) <==> (ts.contains(x) && !normalize_all(
                removed,
            ).contains(x)),
    decreases ts.len(),
{
    if ts.len() > 0 {
        let d = ts.drop_last();
        law_removed_tags(d, removed);
        let r = without_tags(d, removed);
        assert forall|x: Seq<char>|
            #[trigger] without_tags(ts, removed).contains(x) <==> (ts.contains(x) && !normalize_all(
                removed,
            ).contains(x)) by {
            if ts.contains(x) && !normalize_all(removed).contains(x) {
                let k = choose|k: int| 0 <= k < ts.len() && ts[k] == x;
                if k < d.len() {
                    assert(d[k] == x);
                    assert(d.contains(x));
                    assert(r.contains(x));
                    let m = choose|m: int| 0 <= m < r.len() && r[m] == x;
                    if !normalize_all(removed).contains(ts.last()) {
                        assert(r.push(ts.last())[m] == x);
                    }
                } else {
                    assert(x == ts.last());
                    assert(r.push(ts.last())[r.len() as int] == x);
                }
            }
            if without_tags(ts, removed).contains(x) {
                let w = without_tags(ts, removed);
                let m = choose|m: int| 0 <= m < w.len() && w[m] == x;
                if m < r.len() {
                    assert(r[m] == x);
                    assert(r.contains(x));
                    assert(d.contains(x));
                    let k = choose|k: int| 0 <= k < d.len() && d[k] == x;
                    assert(ts[k] == x);
                } else {
                    assert(x == ts.last());
                    assert(ts[ts.len() - 1] == x);
                }
            }
        }
    }
}

/// Dropping a tag leaves no copy of it, and keeps every other tag in order.
pub proof fn law_tags_except(ts: Seq<Seq<char>>, tag: Seq<char>)
    ensures
        !tags_except(ts, tag).contains(tag),
        forall|x: Seq<char>| x != tag ==> (#[trigger] tags_except(ts, tag).contains(x) <==> ts.contains(x)),
    decreases ts.len(),
{
    if ts.len() > 0 {
        let d = ts.drop_last();
        law_tags_except(d, tag);
        let r = tags_except(d, tag);
        assert(!tags_except(ts, tag).contains(tag)) by {
            if tags_except(ts, tag).contains(tag) {
                let w = tags_except(ts, tag);
                let m = choose|m: int| 0 <= m < w.len() && w[m] == tag;
                if m < r.len() {
                    assert(r[m] == tag);
                }
            }
        }
        assert forall|x: Seq<char>| x != tag implies (#[trigger] tags_except(ts, tag).contains(x)
            <==> ts.contains(x)) by {
            let w = tags_except(ts, tag);
            if ts.contains(x) {
                let k = choose|k: int| 0 <= k < ts.len() && ts[k] == x;
                if k < d.len() {
                    assert(d[k] == x);
                    assert(d.contains(x));
                    assert(r.contains(x));
                    let m = choose|m: int| 0 <= m < r.len() && r[m] == x;
                    assert(w[m] == x);
                } else {
                    assert(w[r.len() as int] == x);
                }
            }
            if w.contains(x) {
                let m = choose|m: int| 0 <= m < w.len() && w[m] == x;
                if m < r.len() {
                    assert(r[m] == x);
                    assert(r.contains(x));
                    assert(d.contains(x));
                    let k = choose|k: int| 0 <= k < d.len() && d[k] == x;
                    assert(ts[k] == x);
                } else {
                    assert(ts[ts.len() - 1] == x);
                }
            }
        }
    }
}

/// Renaming leaves the new name in the list, and drops one copy of the old
/// name (so none is left when there was one).
pub proof fn law_renamed_tags(ts: Seq<Seq<char>>, old: Seq<char>, new: Seq<char>)
    requires
        old != new,
    ensures
        renamed_tags(ts, old, new).contains(new),
        ts.contains(old) && ts.filter(|x: Seq<char>| x == old).len() == 1 ==> !renamed_tags(
            ts,
            old,
            new,
        ).contains(old),
        forall|x: Seq<char>| x != old && ts.contains(x) ==> #[trigger] renamed_tags(ts, old, new).contains(x),
{
    lemma_first_index(ts, old);
    let k = first_index(ts, old);
    let r = if k < 0 {
        ts
    } else {
        ts.remove(k)
    };
    if !r.contains(new) {
        assert(r.push(new)[r.len() as int] == new);
    }
    assert forall|x: Seq<char>| x != old && ts.contains(x) implies #[trigger] renamed_tags(
        ts,
        old,
        new,
    ).contains(x) by {
        let j = choose|j: int| 0 <= j < ts.len() && ts[j] == x;
        let m = if k >= 0 && j > k {
            j - 1
        } else {
            j
        };
        assert(r[m] == x);
        if !r.contains(new) {
            assert(r.push(new)[m] == x);
        }
    }
    if ts.contains(old) && ts.filter(|x: Seq<char>| x == old).len() == 1 {
        assert(k >= 0);
        assert(!renamed_tags(ts, old, new).contains(old)) by {
            let w = renamed_tags(ts, old, new);
            if w.contains(old) {
                let m = choose|m: int| 0 <= m < w.len() && w[m] == old;
                assert(m < r.len());
                let j = if m < k {
                    m
                } else {
                    m + 1
                };
                assert(ts[j] == old);
                assert(j != k);
                lemma_two_copies_filter(ts, old, j, k);
            }
        }
    }
}

/// Two copies of `x` at different places make its filter at least two long.
proof fn lemma_two_copies_filter(ts: Seq<Seq<char>>, x: Seq<char>, a: int, b: int)
    requires
        0 <= a < ts.len(),
        0 <= b < ts.len(),
        a != b,
        ts[a] == x,
        ts[b] == x,
    ensures
        ts.filter(|y: Seq<char>| y == x).len() >= 2,
    decreases ts.len(),
{
    let f = |y: Seq<char>| y == x;
    let d = ts.drop_last();
    reveal(Seq::filter);
    if a == ts.len() - 1 || b == ts.len() - 1 {
        let other = if a == ts.len() - 1 {
            b
        } else {
            a
        };
        assert(d[other] == x);
        lemma_one_copy_filter(d, x, other);
    } else {
        assert(d[a] == x && d[b] == x);
        lemma_two_copies_filter(d, x, a, b);
    }
}

/// A copy of `x` makes its filter at least one long.
proof fn lemma_one_copy_filter(ts: Seq<Seq<char>>, x: Seq<char>, a: int)
    requires
        0 <= a < ts.len(),
        ts[a] == x,
    ensures
        ts.filter(|y: Seq<char>| y == x).len() >= 1,
    decreases ts.len(),
{
    let d = ts.drop_last();
    reveal(Seq::filter);
    if a < ts.len() - 1 {
        assert(d[a] == x);
        lemma_one_copy_filter(d, x, a);
    }
}

} // verus!
