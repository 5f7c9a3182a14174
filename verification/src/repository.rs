//! The repository capability contracts: persistence-agnostic
//! interfaces that the interactor layer depends on, together with the
//! pagination model that `list` and `count` share.

pub mod staff;
pub mod tenant;

use vstd::prelude::*;

verus! {

/// Where a page starts: the requested offset, clamped to the store
/// size (absent means from the beginning).
pub open spec fn page_start<T>(s: Seq<T>, offset: Option<u64>) -> int {
    let o: int = match offset {
        Some(v) => v as int,
        None => 0,
    };
    if o <= s.len() {
        o
    } else {
        s.len() as int
    }
}

/// Where a page ends: at most `limit` rows past the start (absent
/// means unbounded).
pub open spec fn page_end<T>(s: Seq<T>, limit: Option<u64>, offset: Option<u64>) -> int {
    let start = page_start(s, offset);
    match limit {
        Some(l) => if start + l <= s.len() {
            start + l
        } else {
            s.len() as int
        },
        None => s.len() as int,
    }
}

/// The rows a `list` call returns out of the full filtered collection.
pub open spec fn page<T>(s: Seq<T>, limit: Option<u64>, offset: Option<u64>) -> Seq<T> {
    s.subrange(page_start(s, offset), page_end(s, limit, offset))
}

/// A page never holds more rows than the whole filtered collection,
/// and with neither a limit nor an offset it is that collection.
pub proof fn lemma_page_within_total<T>(s: Seq<T>, limit: Option<u64>, offset: Option<u64>)
    ensures
        page(s, limit, offset).len() <= s.len(),
        limit is None && offset is None ==> page(s, limit, offset) == s,
{
    if limit is None && offset is None {
        assert(page(s, limit, offset) =~= s);
    }
}

/// A sequence whose elements all satisfy a predicate is unchanged by
/// filtering with it.
pub(crate) proof fn lemma_filter_all_kept<T>(s: Seq<T>, p: spec_fn(T) -> bool)
    requires
        forall|i: int| 0 <= i < s.len() ==> p(s[i]),
    ensures
        s.filter(p) == s,
    decreases s.len(),
{
    reveal(Seq::filter);
    if s.len() == 0 {
        assert(s.filter(p) =~= s);
    } else {
        let d = s.drop_last();
        assert(forall|i: int| 0 <= i < d.len() ==> p(d[i]));
        lemma_filter_all_kept(d, p);
        assert(p(s.last()));
        assert(d.push(s.last()) =~= s);
    }
}

/// How `filter` treats one more element at the end of a sequence.
pub(crate) proof fn lemma_filter_push<T>(s: Seq<T>, e: T, p: spec_fn(T) -> bool)
    ensures
        s.push(e).filter(p) == if p(e) {
            s.filter(p).push(e)
        } else {
            s.filter(p)
        },
{
    reveal(Seq::filter);
    assert(s.push(e).drop_last() =~= s);
    assert(s.push(e).last() == e);
}

} // verus!
