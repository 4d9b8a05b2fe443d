//! Paging of list results: which items a page holds and where the next page
//! starts, and the text filter applied before paging.

use vstd::prelude::*;

verus! {

/// ASCII case-insensitive equality of two characters.
pub open spec fn chars_eq_ci(a: char, b: char) -> bool {
    a == b || ('A' <= a && a <= 'Z' && a as int + 32 == b as int) || ('A' <= b && b <= 'Z' && b as int + 32
        == a as int)
}

/// `needle` occurs in `hay` at position `i`, ignoring ASCII case.
pub open spec fn occurs_at_ci(hay: Seq<char>, needle: Seq<char>, i: int) -> bool {
    0 <= i && i + needle.len() <= hay.len() && forall|j: int| 0 <= j < needle.len() ==> chars_eq_ci(
        #[trigger] hay[i + j],
        needle[j],
    )
}

/// `needle` occurs somewhere in `hay`, ignoring ASCII case.
pub open spec fn contains_ci(hay: Seq<char>, needle: Seq<char>) -> bool {
    exists|i: int| occurs_at_ci(hay, needle, i)
}

fn char_eq_ci(a: char, b: char) -> (r: bool)
    ensures
        r == chars_eq_ci(a, b),
{
    a == b || ('A' <= a && a <= 'Z' && (a as u32) + 32 == (b as u32)) || ('A' <= b && b <= 'Z' && (b as u32) + 32
        == (a as u32))
}

/// Whether the text of an item's filter field matches a filter: the filter
/// occurs in it, ignoring ASCII case.
pub fn filter_matches(value: &str, filter: &str) -> (r: bool)
    ensures
        r == contains_ci(value@, filter@),
{
    let n = value.unicode_len();
    let m = filter.unicode_len();
    if m > n {
        assert forall|i: int| !occurs_at_ci(value@, filter@, i) by {}
        return false;
    }
    let mut i: usize = 0;
    while i <= n - m
        invariant
            n == value@.len(),
            m == filter@.len(),
            m <= n,
            i <= n - m + 1,
            forall|k: int| 0 <= k < i ==> !occurs_at_ci(value@, filter@, k),
        decreases n - m + 1 - i,
    {
        let mut j: usize = 0;
        let mut ok = true;
        while j < m
            invariant
                n == value@.len(),
                m == filter@.len(),
                i + m <= n,
                j <= m,
                ok ==> forall|t: int| 0 <= t < j ==> chars_eq_ci(#[trigger] value@[i + t], filter@[t]),
                !ok ==> !occurs_at_ci(value@, filter@, i as int),
            decreases m - j,
        {
            if ok && !char_eq_ci(value.get_char(i + j), filter.get_char(j)) {
                ok = false;
                assert(!chars_eq_ci(value@[i + j], filter@[j as int]));
            }
            j = j + 1;
        }
        if ok {
            assert(occurs_at_ci(value@, filter@, i as int));
            return true;
        }
        i = i + 1;
    }
    assert forall|k: int| !occurs_at_ci(value@, filter@, k) by {
        if 0 <= k < i {
        }
    }
    false
}

/// The items of one page.
#[derive(Clone, Debug, PartialEq, Eq)]
pub struct PageSelection {
    /// Positions (in the unfiltered list) of the items on this page, in order.
    pub indices: Vec<usize>,
    /// How many items pass the filter.
    pub total: usize,
    /// Whether items remain after this page.
    pub has_more: bool,
    /// The offset of the next page, when there is one.
    pub next_offset: Option<usize>,
}

/// The positions of the kept items, in order.
pub open spec fn kept_positions(keep: Seq<bool>) -> Seq<usize>
    decreases keep.len(),
{
    if keep.len() == 0 {
        Seq::empty()
    } else if keep.last() {
        kept_positions(keep.drop_last()).push((keep.len() - 1) as usize)
    } else {
        kept_positions(keep.drop_last())
    }
}

/// The page of at most `limit` kept items starting at kept item `offset`.
pub open spec fn spec_page(keep: Seq<bool>, limit: usize, offset: usize) -> (Seq<usize>, int, bool, Option<int>) {
    let all = kept_positions(keep);
    let start = if offset < all.len() { offset as int } else { all.len() as int };
    let end = if start + limit < all.len() { start + limit } else { all.len() as int };
    let more = end < all.len();
    (all.subrange(start, end), all.len() as int, more, if more { Some(end) } else { None })
}

proof fn lemma_kept_positions_bounded(keep: Seq<bool>)
    ensures
        kept_positions(keep).len() <= keep.len(),
        forall|k: int| 0 <= k < kept_positions(keep).len() ==> (#[trigger] kept_positions(keep)[k]) < keep.len(),
    decreases keep.len(),
{
    if keep.len() > 0 {
        lemma_kept_positions_bounded(keep.drop_last());
    }
}

/// Selects the page of at most `limit` items starting at item `offset`, among
/// the items marked in `keep` (the items passing the filter).
pub fn select_page(keep: &Vec<bool>, limit: usize, offset: usize) -> (r: PageSelection)
    ensures
        ({
            let (items, total, more, next) = spec_page(keep@, limit, offset);
            &&& r.indices@ == items
            &&& r.total == total
            &&& r.has_more == more
            &&& match next {
                Some(n) => r.next_offset == Some(n as usize),
                None => r.next_offset is None,
            }
        }),
{
    let mut all: Vec<usize> = Vec::new();
    let mut i: usize = 0;
    while i < keep.len()
        invariant
            i <= keep@.len(),
            all@ == kept_positions(keep@.take(i as int)),
        decreases keep@.len() - i,
    {
        assert(keep@.take(i + 1).drop_last() =~= keep@.take(i as int));
        if keep[i] {
            all.push(i);
        }
        i = i + 1;
    }
    assert(keep@.take(keep@.len() as int) =~= keep@);
    proof {
        lemma_kept_positions_bounded(keep@);
    }
    let total = all.len();
    let start = if offset < total { offset } else { total };
    let end = if limit < total - start { start + limit } else { total };
    let mut indices: Vec<usize> = Vec::new();
    let mut k = start;
    while k < end
        invariant
            start <= k <= end,
            end <= all@.len(),
            indices@ == all@.subrange(start as int, k as int),
        decreases end - k,
    {
        indices.push(all[k]);
        k = k + 1;
        assert(indices@ =~= all@.subrange(start as int, k as int));
    }
    let has_more = end < total;
    PageSelection { indices, total, has_more, next_offset: if has_more { Some(end) } else { None } }
}

/// Following `next_offset` visits every kept item exactly once: a page followed
/// by more items is full (it holds `limit` items), the next page starts right
/// where it ended, and the two pages together are the kept items from `offset`
/// on, in order. With a positive `limit` each step therefore advances.
pub proof fn lemma_next_page_continues(keep: Seq<bool>, limit: usize, offset: usize, next: usize)
    requires
        spec_page(keep, limit, offset).3 == Some(next as int),
    ensures
        ({
            let all = kept_positions(keep);
            let (first, _, _, _) = spec_page(keep, limit, offset);
            let (second, _, _, _) = spec_page(keep, limit, next);
            &&& first.len() == limit
            &&& next as int == (offset as int) + first.len()
            &&& first + second =~= all.subrange(
                offset as int,
                if next + limit < all.len() { next + limit } else { all.len() as int },
            )
        }),
{
}

} // verus!
