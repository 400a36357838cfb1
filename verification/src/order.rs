//! Orderings used to sort identifiers and file paths.
use vstd::prelude::*;

verus! {

broadcast use vstd::seq_lib::group_to_multiset_ensures;

/// Lexicographic order on characters, which is the order `String` uses (UTF-8 byte order
/// and code point order agree).
pub open spec fn chars_le(a: Seq<char>, b: Seq<char>) -> bool
    decreases a.len(),
{
    if a.len() == 0 {
        true
    } else if b.len() == 0 {
        false
    } else if a[0] != b[0] {
        a[0] < b[0]
    } else {
        chars_le(a.drop_first(), b.drop_first())
    }
}

pub proof fn lemma_chars_le_total(a: Seq<char>, b: Seq<char>)
    ensures
        chars_le(a, b) || chars_le(b, a),
    decreases a.len(),
{
    if a.len() > 0 && b.len() > 0 && a[0] == b[0] {
        lemma_chars_le_total(a.drop_first(), b.drop_first());
    }
}

pub proof fn lemma_chars_le_trans(a: Seq<char>, b: Seq<char>, c: Seq<char>)
    requires
        chars_le(a, b),
        chars_le(b, c),
    ensures
        chars_le(a, c),
    decreases a.len(),
{
    if a.len() > 0 && b.len() > 0 && c.len() > 0 && a[0] == b[0] && b[0] == c[0] {
        lemma_chars_le_trans(a.drop_first(), b.drop_first(), c.drop_first());
    }
}

/// Compares two strings in `String`'s order.
pub fn str_le(a: &str, b: &str) -> (r: bool)
    ensures
        r == chars_le(a@, b@),
{
    let x = crate::text::chars_of(a);
    let y = crate::text::chars_of(b);
    let mut i: usize = 0;
    assert(a@.skip(0) =~= a@);
    assert(b@.skip(0) =~= b@);
    while i < x.len() && i < y.len() && x[i] == y[i]
        invariant
            i <= x@.len(),
            i <= y@.len(),
            x@ == a@,
            y@ == b@,
            chars_le(a@, b@) == chars_le(a@.skip(i as int), b@.skip(i as int)),
        decreases x@.len() - i,
    {
        assert(a@.skip(i as int).drop_first() =~= a@.skip(i + 1));
        assert(b@.skip(i as int).drop_first() =~= b@.skip(i + 1));
        i += 1;
    }
    if i == x.len() {
        assert(a@.skip(i as int).len() == 0);
        true
    } else if i == y.len() {
        assert(b@.skip(i as int).len() == 0);
        false
    } else {
        assert(a@.skip(i as int)[0] == x@[i as int]);
        assert(b@.skip(i as int)[0] == y@[i as int]);
        x[i] < y[i]
    }
}

pub open spec fn strings_sorted(v: Seq<Seq<char>>) -> bool {
    forall|i: int, j: int| 0 <= i < j < v.len() ==> chars_le(#[trigger] v[i], #[trigger] v[j])
}

/// Sorts strings in ascending order, as `Vec<String>::sort`.
pub fn sort_strings(items: Vec<String>) -> (r: Vec<String>)
    ensures
        strings_sorted(r.deep_view()),
        r.deep_view().to_multiset() == items.deep_view().to_multiset(),
        r@.len() == items@.len(),
{
    let mut out: Vec<String> = Vec::new();
    let mut i: usize = 0;
    while i < items.len()
        invariant
            i <= items@.len(),
            strings_sorted(out.deep_view()),
            out.deep_view().to_multiset() == items.deep_view().take(i as int).to_multiset(),
            out@.len() == i,
        decreases items@.len() - i,
    {
        let x = items[i].clone();
        let mut p: usize = 0;
        while p < out.len() && str_le(out[p].as_str(), x.as_str())
            invariant
                p <= out@.len(),
                forall|k: int| 0 <= k < p ==> chars_le(#[trigger] out.deep_view()[k], x@),
            decreases out@.len() - p,
        {
            p += 1;
        }
        let ghost before = out.deep_view();
        out.insert(p, x);
        proof {
            assert(out.deep_view() =~= before.insert(p as int, x@));
            if p < before.len() {
                lemma_chars_le_total(before[p as int], x@);
            }
            assert forall|a: int, b: int| 0 <= a < b < out.deep_view().len() implies chars_le(
                #[trigger] out.deep_view()[a],
                #[trigger] out.deep_view()[b],
            ) by {
                let v = out.deep_view();
                if b < p {
                    assert(v[a] == before[a] && v[b] == before[b]);
                } else if b == p {
                    assert(v[a] == before[a]);
                } else if a == p {
                    assert(v[b] == before[b - 1]);
                    if b - 1 > p {
                        lemma_chars_le_trans(x@, before[p as int], before[b - 1]);
                    }
                } else if a < p {
                    assert(v[a] == before[a] && v[b] == before[b - 1]);
                    if b - 1 >= p {
                        lemma_chars_le_trans(before[a], x@, before[p as int]);
                        if b - 1 > p {
                            lemma_chars_le_trans(before[a], before[p as int], before[b - 1]);
                        }
                    }
                } else {
                    assert(v[a] == before[a - 1] && v[b] == before[b - 1]);
                }
            }
            assert(items.deep_view().take(i as int + 1) =~= items.deep_view().take(i as int).push(
                x@,
            ));
            assert(items.deep_view().take(i as int).push(x@) =~= items.deep_view().take(
                i as int,
            ).insert(i as int, x@));
        }
        i += 1;
    }
    assert(items.deep_view().take(items@.len() as int) =~= items.deep_view());
    out
}

pub open spec fn ids_strictly_increasing(v: Seq<i64>) -> bool {
    forall|i: int, j: int| 0 <= i < j < v.len() ==> v[i] < v[j]
}

/// The positive identifiers of `ids`, ascending, each once: what filtering out non-positive
/// values, `sort_unstable` and `dedup` leave.
pub fn positive_sorted_unique(ids: &Vec<i64>) -> (r: Vec<i64>)
    ensures
        ids_strictly_increasing(r@),
        forall|x: i64| r@.contains(x) <==> (ids@.contains(x) && x > 0),
{
    let mut out: Vec<i64> = Vec::new();
    let mut i: usize = 0;
    while i < ids.len()
        invariant
            i <= ids@.len(),
            ids_strictly_increasing(out@),
            forall|x: i64| out@.contains(x) <==> (ids@.take(i as int).contains(x) && x > 0),
        decreases ids@.len() - i,
    {
        let x = ids[i];
        let ghost out_before = out;
        proof {
            let t1 = ids@.take(i as int + 1);
            let t0 = ids@.take(i as int);
            assert forall|y: i64| t1.contains(y) <==> (t0.contains(y) || y == x) by {
                if t1.contains(y) {
                    let k = choose|k: int| 0 <= k < t1.len() && t1[k] == y;
                    if k < i {
                        assert(t0[k] == y);
                    }
                }
                if t0.contains(y) {
                    let k = choose|k: int| 0 <= k < t0.len() && t0[k] == y;
                    assert(t1[k] == y);
                }
                if y == x {
                    assert(t1[i as int] == y);
                }
            }
        }
        if x > 0 {
            let mut p: usize = 0;
            while p < out.len() && out[p] < x
                invariant
                    p <= out@.len(),
                    forall|k: int| 0 <= k < p ==> out@[k] < x,
                decreases out@.len() - p,
            {
                p += 1;
            }
            if p < out.len() && out[p] == x {
                assert(out@[p as int] == x);
            } else {
                let ghost before = out@;
                out.insert(p, x);
                proof {
                    assert(out@ =~= before.insert(p as int, x));
                    assert forall|a: int, b: int| 0 <= a < b < out@.len() implies out@[a]
                        < out@[b] by {
                        if b < p {
                        } else if b == p {
                        } else if a == p {
                            assert(out@[b] == before[b - 1]);
                        } else if a < p {
                        } else {
                        }
                    }
                    assert forall|y: i64| out@.contains(y) <==> (before.contains(y) || y == x) by {
                        if out@.contains(y) {
                            let k = choose|k: int| 0 <= k < out@.len() && out@[k] == y;
                            if k < p {
                                assert(before[k] == y);
                            } else if k > p {
                                assert(before[k - 1] == y);
                            }
                        }
                        if before.contains(y) {
                            let k = choose|k: int| 0 <= k < before.len() && before[k] == y;
                            if k < p {
                                assert(out@[k] == y);
                            } else {
                                assert(out@[k + 1] == y);
                            }
                        }
                        if y == x {
                            assert(out@[p as int] == y);
                        }
                    }
                }
            }
        }
        proof {
            let t1 = ids@.take(i as int + 1);
            let t0 = ids@.take(i as int);
            assert forall|y: i64| out@.contains(y) <==> (t1.contains(y) && y > 0) by {
                assert(t1.contains(y) <==> (t0.contains(y) || y == x));
                assert(out_before@.contains(y) <==> (t0.contains(y) && y > 0));
            }
        }
        i += 1;
    }
    assert(ids@.take(ids@.len() as int) =~= ids@);
    out
}

} // verus!
