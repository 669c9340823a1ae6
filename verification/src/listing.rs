//! Selecting and ordering the values of a table.

use crate::chunk::{ChunkView, MemoryChunk};
use crate::session::{MemorySession, SessionView};
use crate::sort::{place, sort_by_time, Stamped};
use crate::table::{lemma_key_row, lemma_row, row_of, Table};
use crate::time::Timestamp;
use vstd::prelude::*;
use vstd::seq_lib::group_to_multiset_ensures;

verus! {

/// What a list of values shows.
pub open spec fn views<V: View>(list: Seq<V>) -> Seq<V::V> {
    list.map_values(|v: V| v@)
}

/// What the values of a table show, by their keys.
pub open spec fn table_view<V: View>(t: Table<V>) -> Map<Seq<char>, V::V> {
    t@.map_values(|v: V| v@)
}

/// `out` holds, under `keys`, each value of the map that satisfies `p`, and no
/// other; none is left out or repeated.
pub open spec fn listed_under<T>(
    keys: Seq<Seq<char>>,
    out: Seq<T>,
    m: Map<Seq<char>, T>,
    p: spec_fn(T) -> bool,
) -> bool {
    &&& keys.len() == out.len()
    &&& keys.no_duplicates()
    &&& forall|i: int|
        0 <= i < keys.len() ==> m.contains_key(#[trigger] keys[i]) && m[keys[i]] == out[i] && p(
            out[i],
        )
    &&& forall|k: Seq<char>| #[trigger] m.contains_key(k) && p(m[k]) ==> keys.contains(k)
}

/// `out` lists the values of the map that satisfy `p`, each once, in some
/// order.
pub open spec fn lists<T>(out: Seq<T>, m: Map<Seq<char>, T>, p: spec_fn(T) -> bool) -> bool {
    exists|keys: Seq<Seq<char>>| listed_under(keys, out, m, p)
}

/// The keys of the values that satisfy `p`.
pub open spec fn matching<T>(m: Map<Seq<char>, T>, p: spec_fn(T) -> bool) -> Set<Seq<char>> {
    Set::new(|k: Seq<char>| m.contains_key(k) && p(m[k]))
}

/// Some value of the map satisfies `p`.
pub open spec fn some_match<T>(m: Map<Seq<char>, T>, p: spec_fn(T) -> bool) -> bool {
    exists|k: Seq<char>| #[trigger] m.contains_key(k) && p(m[k])
}

/// A value that belongs to an instant.
pub trait Timed: View + Sized {
    /// The instant that the value belongs to.
    spec fn instant(v: Self::V) -> int;

    /// The instant that the value belongs to.
    fn time(&self) -> (t: Timestamp)
        ensures
            t.rank() == Self::instant(self@),
    ;

    /// A copy of the value.
    fn copy(&self) -> (r: Self)
        ensures
            r@ == self@,
    ;
}

impl Timed for MemoryChunk {
    open spec fn instant(v: ChunkView) -> int {
        v.created_at.rank()
    }

    fn time(&self) -> Timestamp {
        self.created_at
    }

    fn copy(&self) -> MemoryChunk {
        self.clone()
    }
}

impl Timed for MemorySession {
    open spec fn instant(v: SessionView) -> int {
        v.started_at.rank()
    }

    fn time(&self) -> Timestamp {
        self.started_at
    }

    fn copy(&self) -> MemorySession {
        self.clone()
    }
}

/// Later values stand before earlier ones.
pub open spec fn newest_first<V: Timed>(out: Seq<V::V>) -> bool {
    forall|i: int, j: int|
        0 <= i < j < out.len() ==> V::instant(#[trigger] out[i]) >= V::instant(#[trigger] out[j])
}

/// Earlier values stand before later ones.
pub open spec fn oldest_first<V: Timed>(out: Seq<V::V>) -> bool {
    forall|i: int, j: int|
        0 <= i < j < out.len() ==> V::instant(#[trigger] out[i]) <= V::instant(#[trigger] out[j])
}

/// `full` lists the values that satisfy `p`, newest first, and `out` is what is
/// left of it when it is cut after `limit` values.
pub open spec fn cut_from<V: Timed>(
    full: Seq<V::V>,
    out: Seq<V::V>,
    m: Map<Seq<char>, V::V>,
    p: spec_fn(V::V) -> bool,
    limit: Option<usize>,
) -> bool {
    &&& lists(full, m, p)
    &&& newest_first::<V>(full)
    &&& out == match limit {
        Some(n) => if n < full.len() {
            full.take(n as int)
        } else {
            full
        },
        None => full,
    }
}

/// `out` is a list of the values that satisfy `p`, newest first, cut after
/// `limit` values. Values of the same instant may stand in any order.
pub open spec fn newest<V: Timed>(
    out: Seq<V::V>,
    m: Map<Seq<char>, V::V>,
    p: spec_fn(V::V) -> bool,
    limit: Option<usize>,
) -> bool {
    exists|full: Seq<V::V>| cut_from::<V>(full, out, m, p, limit)
}

/// The positions in `rows` of the values that satisfy `p`, each once.
pub open spec fn positions_of<V: View>(
    positions: Seq<usize>,
    rows: Seq<(Seq<char>, V)>,
    p: spec_fn(V::V) -> bool,
) -> bool {
    &&& positions.no_duplicates()
    &&& forall|i: int|
        0 <= i < positions.len() ==> (#[trigger] positions[i]) < rows.len() && p(
            rows[positions[i] as int].1@,
        )
    &&& forall|n: usize| n < rows.len() && p((#[trigger] rows[n as int]).1@) ==> positions.contains(
        n,
    )
}

/// The positions of the rows whose values satisfy `p`.
pub(crate) fn select<V: View, F: Fn(&V) -> bool>(
    t: &Table<V>,
    f: F,
    Ghost(p): Ghost<spec_fn(V::V) -> bool>,
) -> (r: Vec<usize>)
    requires
        t.wf(),
        forall|v: &V| f.requires((v,)),
        forall|v: &V, b: bool| f.ensures((v,), b) ==> b == p(v@),
    ensures
        positions_of(r@, t.rows(), p),
{
    let mut out: Vec<usize> = Vec::new();
    let mut i: usize = 0;
    let n: usize = t.len();
    while i < n
        invariant
            0 <= i <= n,
            n == t.rows().len(),
            forall|v: &V| f.requires((v,)),
            forall|v: &V, b: bool| f.ensures((v,), b) ==> b == p(v@),
            out@.no_duplicates(),
            forall|k: int|
                0 <= k < out@.len() ==> (#[trigger] out@[k]) < i && p(
                    t.rows()[out@[k] as int].1@,
                ),
            forall|k: usize| k < i && p((#[trigger] t.rows()[k as int]).1@) ==> out@.contains(k),
        decreases n - i,
    {
        let ghost before = out@;
        if f(t.at(i)) {
            out.push(i);
            assert(out@[out@.len() - 1] == i);
        }
        assert forall|k: usize| k <= i && p((#[trigger] t.rows()[k as int]).1@) implies out@.contains(
            k,
        ) by {
            if k < i {
                let j = choose|j: int| 0 <= j < before.len() && before[j] == k;
                assert(out@[j] == k);
            }
        }
        i = i + 1;
    }
    out
}

/// The position of a row whose value satisfies `p`, if there is one.
pub(crate) fn find_match<V: View, F: Fn(&V) -> bool>(
    t: &Table<V>,
    f: F,
    Ghost(p): Ghost<spec_fn(V::V) -> bool>,
) -> (r: Option<usize>)
    requires
        t.wf(),
        forall|v: &V| f.requires((v,)),
        forall|v: &V, b: bool| f.ensures((v,), b) ==> b == p(v@),
    ensures
        match r {
            Some(i) => {
                &&& i < t.rows().len()
                &&& p(t.rows()[i as int].1@)
                &&& table_view(*t).contains_key(t.rows()[i as int].0)
                &&& table_view(*t)[t.rows()[i as int].0] == t.rows()[i as int].1@
            },
            None => !some_match(table_view(*t), p),
        },
{
    let mut i: usize = 0;
    let n: usize = t.len();
    while i < n
        invariant
            0 <= i <= n,
            n == t.rows().len(),
            t.wf(),
            forall|v: &V| f.requires((v,)),
            forall|v: &V, b: bool| f.ensures((v,), b) ==> b == p(v@),
            forall|k: int| 0 <= k < i ==> !p((#[trigger] t.rows()[k]).1@),
        decreases n - i,
    {
        if f(t.at(i)) {
            proof {
                lemma_row(t.rows(), i as int);
            }
            return Some(i);
        }
        i = i + 1;
    }
    proof {
        if some_match(table_view(*t), p) {
            let k = choose|k: Seq<char>|
                #[trigger] table_view(*t).contains_key(k) && p(table_view(*t)[k]);
            lemma_key_row(t.rows(), k);
            assert(!p(t.rows()[row_of(t.rows(), k)].1@));
        }
    }
    None
}

/// Values at the positions of all rows that satisfy `p` are a list of them.
proof fn lemma_positions_list<V: View>(
    t: Table<V>,
    positions: Seq<usize>,
    out: Seq<V::V>,
    p: spec_fn(V::V) -> bool,
)
    requires
        t.wf(),
        t.rows().len() <= usize::MAX,
        positions_of(positions, t.rows(), p),
        out.len() == positions.len(),
        forall|i: int|
            0 <= i < out.len() ==> #[trigger] out[i] == t.rows()[positions[i] as int].1@,
    ensures
        lists(out, table_view(t), p),
{
    let rows = t.rows();
    let m = table_view(t);
    let keys = Seq::new(positions.len(), |i: int| rows[positions[i] as int].0);
    assert forall|i: int| 0 <= i < keys.len() implies m.contains_key(#[trigger] keys[i])
        && m[keys[i]] == out[i] && p(out[i]) by {
        lemma_row(rows, positions[i] as int);
        assert(out[i] == rows[positions[i] as int].1@);
    }
    assert(keys.no_duplicates()) by {
        assert forall|i: int, j: int|
            0 <= i < keys.len() && 0 <= j < keys.len() && i != j implies keys[i] != keys[j] by {
            assert(positions[i] != positions[j]);
            assert(rows[positions[i] as int].0 != rows[positions[j] as int].0);
        }
    }
    assert forall|k: Seq<char>| #[trigger] m.contains_key(k) && p(m[k]) implies keys.contains(
        k,
    ) by {
        lemma_key_row(rows, k);
        let n = row_of(rows, k);
        assert(p(rows[n as usize as int].1@));
        assert(positions.contains(n as usize));
        let i = choose|i: int| 0 <= i < positions.len() && positions[i] == n as usize;
        assert(keys[i] == k);
    }
    assert(listed_under(keys, out, m, p));
}

/// Every list of the values that satisfy `p` has as many entries as there are
/// such values.
pub proof fn lemma_lists_len<T>(out: Seq<T>, m: Map<Seq<char>, T>, p: spec_fn(T) -> bool)
    requires
        lists(out, m, p),
    ensures
        matching(m, p).finite(),
        matching(m, p).len() == out.len(),
{
    let keys = choose|keys: Seq<Seq<char>>| listed_under(keys, out, m, p);
    keys.unique_seq_to_set();
    assert(keys.to_set() =~= matching(m, p)) by {
        assert forall|k: Seq<char>| keys.to_set().contains(k) implies matching(m, p).contains(
            k,
        ) by {
            let i = choose|i: int| 0 <= i < keys.len() && keys[i] == k;
            assert(m.contains_key(keys[i]));
        }
        assert forall|k: Seq<char>| matching(m, p).contains(k) implies keys.to_set().contains(
            k,
        ) by {
            assert(m.contains_key(k));
            assert(keys.contains(k));
        }
    }
}

/// How many values of the table satisfy `p`.
pub(crate) fn count<V: View, F: Fn(&V) -> bool>(
    t: &Table<V>,
    f: F,
    Ghost(p): Ghost<spec_fn(V::V) -> bool>,
) -> (n: usize)
    requires
        t.wf(),
        forall|v: &V| f.requires((v,)),
        forall|v: &V, b: bool| f.ensures((v,), b) ==> b == p(v@),
    ensures
        matching(table_view(*t), p).finite(),
        n == matching(table_view(*t), p).len(),
{
    let _rows: usize = t.len();
    let positions: Vec<usize> = select(t, f, Ghost(p));
    proof {
        let out = Seq::new(positions@.len(), |i: int| t.rows()[positions@[i] as int].1@);
        lemma_positions_list(*t, positions@, out, p);
        lemma_lists_len(out, table_view(*t), p);
    }
    positions.len()
}

/// Copies of the values at the given positions.
fn copies<V: Timed>(t: &Table<V>, positions: &Vec<usize>) -> (r: Vec<V>)
    requires
        forall|i: int| 0 <= i < positions@.len() ==> (#[trigger] positions@[i]) < t.rows().len(),
    ensures
        r@.len() == positions@.len(),
        forall|i: int|
            0 <= i < r@.len() ==> #[trigger] views(r@)[i] == t.rows()[positions@[i] as int].1@,
{
    let mut out: Vec<V> = Vec::new();
    let mut i: usize = 0;
    while i < positions.len()
        invariant
            0 <= i <= positions@.len(),
            out@.len() == i,
            forall|k: int|
                0 <= k < positions@.len() ==> (#[trigger] positions@[k]) < t.rows().len(),
            forall|k: int|
                0 <= k < i ==> #[trigger] views(out@)[k] == t.rows()[positions@[k] as int].1@,
        decreases positions@.len() - i,
    {
        assert(positions@[i as int] < t.rows().len());
        let ghost before = out@;
        out.push(t.at(positions[i]).copy());
        assert forall|k: int| 0 <= k <= i implies #[trigger] views(out@)[k]
            == t.rows()[positions@[k] as int].1@ by {
            if k < i {
                assert(views(before)[k] == views(out@)[k]);
            }
        }
        i = i + 1;
    }
    out
}

/// The values that satisfy `p`.
pub(crate) fn list_all<V: Timed, F: Fn(&V) -> bool>(
    t: &Table<V>,
    f: F,
    Ghost(p): Ghost<spec_fn(V::V) -> bool>,
) -> (r: Vec<V>)
    requires
        t.wf(),
        forall|v: &V| f.requires((v,)),
        forall|v: &V, b: bool| f.ensures((v,), b) ==> b == p(v@),
    ensures
        lists(views(r@), table_view(*t), p),
{
    let _rows: usize = t.len();
    let positions: Vec<usize> = select(t, f, Ghost(p));
    let out: Vec<V> = copies(t, &positions);
    proof {
        lemma_positions_list(*t, positions@, views(out@), p);
    }
    out
}

/// The positions in the order of their instants.
fn ordered<V: Timed>(t: &Table<V>, positions: &Vec<usize>, newest: bool, Ghost(p): Ghost<
    spec_fn(V::V) -> bool,
>) -> (r: Vec<usize>)
    requires
        positions_of(positions@, t.rows(), p),
    ensures
        positions_of(r@, t.rows(), p),
        forall|i: int, j: int|
            0 <= i < j < r@.len() ==> {
                let a = V::instant(t.rows()[(#[trigger] r@[i]) as int].1@);
                let b = V::instant(t.rows()[(#[trigger] r@[j]) as int].1@);
                if newest {
                    a >= b
                } else {
                    a <= b
                }
            },
{
    let mut stamped: Vec<Stamped> = Vec::new();
    let mut i: usize = 0;
    while i < positions.len()
        invariant
            0 <= i <= positions@.len(),
            positions_of(positions@, t.rows(), p),
            stamped@.len() == i,
            forall|k: int|
                0 <= k < i ==> (#[trigger] stamped@[k]).1 == positions@[k]
                    && stamped@[k].0.rank() == V::instant(t.rows()[positions@[k] as int].1@),
        decreases positions@.len() - i,
    {
        assert(positions@[i as int] < t.rows().len());
        stamped.push((t.at(positions[i]).time(), positions[i]));
        i = i + 1;
    }
    let sorted: Vec<Stamped> = sort_by_time(&stamped, newest);
    proof {
        broadcast use group_to_multiset_ensures;

        assert(stamped@.no_duplicates()) by {
            assert forall|a: int, b: int|
                0 <= a < stamped@.len() && 0 <= b < stamped@.len() && a != b implies stamped@[a]
                != stamped@[b] by {
                assert(positions@[a] != positions@[b]);
            }
        }
        stamped@.lemma_multiset_has_no_duplicates();
        sorted@.lemma_multiset_has_no_duplicates_conv();
        assert forall|s: Stamped| sorted@.contains(s) <==> stamped@.contains(s) by {
            assert(sorted@.to_multiset().count(s) == stamped@.to_multiset().count(s));
        }
    }
    let mut out: Vec<usize> = Vec::new();
    let mut i: usize = 0;
    while i < sorted.len()
        invariant
            0 <= i <= sorted@.len(),
            out@.len() == i,
            forall|k: int| 0 <= k < i ==> #[trigger] out@[k] == sorted@[k].1,
        decreases sorted@.len() - i,
    {
        out.push(sorted[i].1);
        i = i + 1;
    }
    proof {
        let rows = t.rows();
        assert forall|k: int| 0 <= k < out@.len() implies exists|j: int|
            0 <= j < positions@.len() && positions@[j] == #[trigger] out@[k] && sorted@[k]
                == stamped@[j] by {
            assert(sorted@.contains(sorted@[k]));
            let j = choose|j: int| 0 <= j < stamped@.len() && stamped@[j] == sorted@[k];
            assert(positions@[j] == out@[k]);
        }
        assert forall|a: int, b: int|
            0 <= a < out@.len() && 0 <= b < out@.len() && a != b implies out@[a] != out@[b] by {
            let ja = choose|j: int|
                0 <= j < positions@.len() && positions@[j] == out@[a] && sorted@[a] == stamped@[j];
            let jb = choose|j: int|
                0 <= j < positions@.len() && positions@[j] == out@[b] && sorted@[b] == stamped@[j];
            assert(sorted@[a] != sorted@[b]);
            assert(ja != jb);
        }
        assert forall|n: usize| n < rows.len() && p((#[trigger] rows[n as int]).1@) implies out@.contains(
            n,
        ) by {
            assert(positions@.contains(n));
            let j = choose|j: int| 0 <= j < positions@.len() && positions@[j] == n;
            assert(stamped@.contains(stamped@[j]));
            assert(sorted@.contains(stamped@[j]));
            let k = choose|k: int| 0 <= k < sorted@.len() && sorted@[k] == stamped@[j];
            assert(out@[k] == n);
        }
        assert forall|a: int, b: int| 0 <= a < b < out@.len() implies {
            let x = V::instant(rows[(#[trigger] out@[a]) as int].1@);
            let y = V::instant(rows[(#[trigger] out@[b]) as int].1@);
            if newest {
                x >= y
            } else {
                x <= y
            }
        } by {
            assert(place(sorted@[a], newest) <= place(sorted@[b], newest));
            let ja = choose|j: int|
                0 <= j < positions@.len() && positions@[j] == out@[a] && sorted@[a] == stamped@[j];
            let jb = choose|j: int|
                0 <= j < positions@.len() && positions@[j] == out@[b] && sorted@[b] == stamped@[j];
            assert(stamped@[ja].1 == positions@[ja] && stamped@[jb].1 == positions@[jb]);
        }
    }
    out
}

/// The values that satisfy `p`, oldest first.
pub(crate) fn list_oldest_first<V: Timed, F: Fn(&V) -> bool>(
    t: &Table<V>,
    f: F,
    Ghost(p): Ghost<spec_fn(V::V) -> bool>,
) -> (r: Vec<V>)
    requires
        t.wf(),
        forall|v: &V| f.requires((v,)),
        forall|v: &V, b: bool| f.ensures((v,), b) ==> b == p(v@),
    ensures
        lists(views(r@), table_view(*t), p),
        oldest_first::<V>(views(r@)),
{
    let _rows: usize = t.len();
    let positions: Vec<usize> = select(t, f, Ghost(p));
    let positions: Vec<usize> = ordered(t, &positions, false, Ghost(p));
    let out: Vec<V> = copies(t, &positions);
    proof {
        lemma_positions_list(*t, positions@, views(out@), p);
    }
    out
}

/// The values that satisfy `p`, newest first, at most `limit` of them.
pub(crate) fn list_newest<V: Timed, F: Fn(&V) -> bool>(
    t: &Table<V>,
    f: F,
    Ghost(p): Ghost<spec_fn(V::V) -> bool>,
    limit: Option<usize>,
) -> (r: Vec<V>)
    requires
        t.wf(),
        forall|v: &V| f.requires((v,)),
        forall|v: &V, b: bool| f.ensures((v,), b) ==> b == p(v@),
    ensures
        newest::<V>(views(r@), table_view(*t), p, limit),
{
    let _rows: usize = t.len();
    let positions: Vec<usize> = select(t, f, Ghost(p));
    let mut positions: Vec<usize> = ordered(t, &positions, true, Ghost(p));
    let ghost all = positions@;
    let ghost full = Seq::new(all.len(), |i: int| t.rows()[all[i] as int].1@);
    proof {
        lemma_positions_list(*t, all, full, p);
        assert(newest_first::<V>(full)) by {
            assert forall|i: int, j: int| 0 <= i < j < full.len() implies V::instant(
                #[trigger] full[i],
            ) >= V::instant(#[trigger] full[j]) by {
                assert(full[i] == t.rows()[all[i] as int].1@);
                assert(full[j] == t.rows()[all[j] as int].1@);
            }
        }
    }
    if let Some(n) = limit {
        if n < positions.len() {
            positions.truncate(n);
        }
    }
    let out: Vec<V> = copies(t, &positions);
    proof {
        assert(views(out@) =~= full.take(positions@.len() as int));
        assert(full.take(full.len() as int) =~= full);
        assert(cut_from::<V>(full, views(out@), table_view(*t), p, limit));
    }
    out
}

} // verus!
