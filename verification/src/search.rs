//! Search hits as the results panel presents them: grouped by page, previewed, and
//! walked through one after another.

use crate::pdf::SearchResult;
use vstd::prelude::*;
use vstd::string::*;

verus! {

/// The pages of a list of search hits, in order.
pub open spec fn result_pages(results: Seq<SearchResult>) -> Seq<u16> {
    results.map_values(|r: SearchResult| r.page_index)
}

/// The positions `i < k` with `pages[i] == p`, in increasing order.
pub open spec fn positions_upto(pages: Seq<u16>, p: u16, k: int) -> Seq<usize>
    decreases k,
{
    if k <= 0 {
        seq![]
    } else if pages[k - 1] == p {
        positions_upto(pages, p, k - 1).push((k - 1) as usize)
    } else {
        positions_upto(pages, p, k - 1)
    }
}

/// The positions of the hits on page `p`, in increasing order.
pub open spec fn positions_on_page(pages: Seq<u16>, p: u16) -> Seq<usize> {
    positions_upto(pages, p, pages.len() as int)
}

/// `groups` lists each page that has a hit once, in increasing page order, each with
/// the positions of its hits in increasing order.
pub open spec fn grouped_by_page(pages: Seq<u16>, groups: Seq<(u16, Vec<usize>)>) -> bool {
    &&& forall|i: int, j: int| 0 <= i < j < groups.len() ==> groups[i].0 < groups[j].0
    &&& forall|i: int|
        0 <= i < groups.len() ==> #[trigger] groups[i].1@ == positions_on_page(pages, groups[i].0)
    &&& forall|i: int| 0 <= i < groups.len() ==> pages.contains(#[trigger] groups[i].0)
    &&& forall|j: int| #![trigger pages[j]] 0 <= j < pages.len() ==> exists|i: int| 0 <= i < groups.len() && #[trigger] groups[i].0 == pages[j]
}

/// A position is listed for page `p` exactly when its hit is on page `p`, and the
/// listed positions are valid and strictly increasing.
pub proof fn lemma_positions_on_page(pages: Seq<u16>, p: u16, k: int)
    requires
        0 <= k <= pages.len(),
        pages.len() <= usize::MAX,
    ensures
        forall|j: int|
            0 <= j < positions_upto(pages, p, k).len() ==> {
                &&& 0 <= #[trigger] positions_upto(pages, p, k)[j] < k
                &&& pages[positions_upto(pages, p, k)[j] as int] == p
            },
        forall|a: int, b: int|
            0 <= a < b < positions_upto(pages, p, k).len() ==> positions_upto(pages, p, k)[a]
                < positions_upto(pages, p, k)[b],
        forall|i: int| 0 <= i < k && pages[i] == p ==> positions_upto(pages, p, k).contains(i as usize),
    decreases k,
{
    if k > 0 {
        lemma_positions_on_page(pages, p, k - 1);
        let prev = positions_upto(pages, p, k - 1);
        if pages[k - 1] == p {
            let cur = prev.push((k - 1) as usize);
            assert forall|i: int| 0 <= i < k && pages[i] == p implies cur.contains(i as usize) by {
                if i == k - 1 {
                    assert(cur[cur.len() - 1] == (k - 1) as usize);
                } else {
                    let j = choose|j: int| 0 <= j < prev.len() && prev[j] == i as usize;
                    assert(cur[j] == prev[j]);
                }
            }
        }
    }
}

/// Groups the hits by page, as the results panel lists them: pages in increasing
/// order, and under each page the positions of its hits in the order found.
pub fn group_by_page(results: &[SearchResult]) -> (groups: Vec<(u16, Vec<usize>)>)
    ensures
        grouped_by_page(result_pages(results@), groups@),
{
    let ghost pages = result_pages(results@);
    let n = results.len();
    let mut groups: Vec<(u16, Vec<usize>)> = Vec::new();
    let mut have_last = false;
    let mut last: u16 = 0;
    loop
        invariant
            n == results@.len(),
            pages == result_pages(results@),
            pages.len() == n,
            forall|j: int| 0 <= j < n ==> #[trigger] pages[j] == results@[j].page_index,
            forall|i: int, j: int| 0 <= i < j < groups@.len() ==> groups@[i].0 < groups@[j].0,
            forall|i: int|
                0 <= i < groups@.len() ==> #[trigger] groups@[i].1@ == positions_on_page(
                    pages,
                    groups@[i].0,
                ),
            forall|i: int| 0 <= i < groups@.len() ==> pages.contains(#[trigger] groups@[i].0),
            have_last <==> groups@.len() > 0,
            have_last ==> last == groups@[groups@.len() - 1].0,
            forall|j: int|
                #![trigger pages[j]]
                0 <= j < n && have_last && pages[j] <= last ==> exists|i: int|
                    0 <= i < groups@.len() && #[trigger] groups@[i].0 == pages[j],
        decreases 65536 - (if have_last {
            last + 1
        } else {
            0
        }),
    {
        let mut found = false;
        let mut best: u16 = 0;
        let mut i: usize = 0;
        while i < n
            invariant
                n == results@.len(),
                pages.len() == n,
                forall|j: int| 0 <= j < n ==> #[trigger] pages[j] == results@[j].page_index,
                i <= n,
                found ==> (!have_last || best > last) && pages.contains(best),
                !have_last && i > 0 ==> found,
                forall|j: int|
                    #![trigger pages[j]]
                    0 <= j < i && (!have_last || pages[j] > last) ==> found && best <= pages[j],
            decreases n - i,
        {
            let p = results[i].page_index;
            if (!have_last || p > last) && (!found || p < best) {
                found = true;
                best = p;
                assert(pages[i as int] == p);
            }
            i = i + 1;
        }
        if !found {
            assert(i == n);
            assert(forall|j: int| 0 <= j < n ==> have_last && #[trigger] pages[j] <= last);
            assert forall|j: int| #![trigger pages[j]] 0 <= j < n implies exists|g: int|
                0 <= g < groups@.len() && #[trigger] groups@[g].0 == pages[j] by {
                assert(have_last && pages[j] <= last);
            }
            return groups;
        }
        let mut positions: Vec<usize> = Vec::new();
        let mut k: usize = 0;
        while k < n
            invariant
                n == results@.len(),
                pages.len() == n,
                forall|j: int| 0 <= j < n ==> #[trigger] pages[j] == results@[j].page_index,
                k <= n,
                positions@ == positions_upto(pages, best, k as int),
            decreases n - k,
        {
            if results[k].page_index == best {
                positions.push(k);
            }
            k = k + 1;
        }
        let ghost old_groups = groups@;
        groups.push((best, positions));
        proof {
            assert forall|j: int|
                #![trigger pages[j]]
                0 <= j < n && pages[j] <= best implies exists|g: int|
                0 <= g < groups@.len() && #[trigger] groups@[g].0 == pages[j] by {
                if pages[j] == best {
                    assert(groups@[old_groups.len() as int].0 == pages[j]);
                } else {
                    assert(have_last && pages[j] <= last);
                    let g = choose|g: int| 0 <= g < old_groups.len() && #[trigger] old_groups[g].0 == pages[j];
                    assert(groups@[g] == old_groups[g]);
                }
            }
            assert forall|i: int| 0 <= i < groups@.len() implies #[trigger] groups@[i].1@ == positions_on_page(
                pages,
                groups@[i].0,
            ) by {
                if i < old_groups.len() {
                    assert(groups@[i] == old_groups[i]);
                }
            }
        }
        have_last = true;
        last = best;
    }
}

/// The text of a hit as the panel shows it: its first `limit` characters followed by
/// `...` when it has more characters than that, else the whole text.
pub open spec fn preview_of(text: Seq<char>, limit: int) -> Seq<char> {
    if text.len() > limit {
        text.subrange(0, limit) + seq!['.', '.', '.']
    } else {
        text
    }
}

/// Shortens a hit's text for display (see `preview_of`).
pub fn preview(text: &str, limit: usize) -> (r: String)
    ensures
        r@ == preview_of(text@, limit as int),
{
    let n = text.unicode_len();
    if n > limit {
        let head = text.substring_char(0, limit);
        let mut r = String::from_str(head);
        let dots = "...";
        proof {
            reveal_strlit("...");
        }
        r.append(dots);
        assert(r@ =~= text@.subrange(0, limit as int) + seq!['.', '.', '.']);
        r
    } else {
        String::from_str(text)
    }
}

/// The hit after `active`, wrapping to the first one; with no active hit, the first.
pub open spec fn next_match(active: Option<usize>, len: int) -> int {
    match active {
        Some(i) => if i + 1 < len {
            i + 1
        } else {
            0
        },
        None => 0,
    }
}

/// The hit before `active`, wrapping to the last one; with no active hit, the last.
pub open spec fn prev_match(active: Option<usize>, len: int) -> int {
    match active {
        Some(i) => if i > 0 {
            i - 1
        } else {
            len - 1
        },
        None => len - 1,
    }
}

/// "Next" then "previous" comes back to the hit one started from, and "previous"
/// then "next" too; past the last hit "next" wraps to the first, before the first
/// "previous" wraps to the last.
pub proof fn lemma_match_navigation(i: usize, len: int)
    requires
        0 <= i < len,
        len <= usize::MAX,
    ensures
        0 <= next_match(Some(i), len) < len,
        0 <= prev_match(Some(i), len) < len,
        prev_match(Some(next_match(Some(i), len) as usize), len) == i,
        next_match(Some(prev_match(Some(i), len) as usize), len) == i,
        i == len - 1 ==> next_match(Some(i), len) == 0,
        i == 0 ==> prev_match(Some(i), len) == len - 1,
{
}

/// In a grouping of the hits by page, every hit is listed exactly once: under the
/// group of its page, and under no other.
pub proof fn lemma_each_hit_listed_once(pages: Seq<u16>, groups: Seq<(u16, Vec<usize>)>, j: int)
    requires
        grouped_by_page(pages, groups),
        0 <= j < pages.len(),
        pages.len() <= usize::MAX,
    ensures
        exists|g: int| 0 <= g < groups.len() && #[trigger] groups[g].1@.contains(j as usize),
        forall|g: int, k: int|
            0 <= g < groups.len() && 0 <= k < groups[g].1@.len() && #[trigger] groups[g].1@[k]
                == j as usize ==> groups[g].0 == pages[j],
        forall|g: int, a: int, b: int|
            0 <= g < groups.len() && 0 <= a < b < groups[g].1@.len() ==> #[trigger] groups[g].1@[a]
                != #[trigger] groups[g].1@[b],
{
    let g = choose|g: int| 0 <= g < groups.len() && #[trigger] groups[g].0 == pages[j];
    lemma_positions_on_page(pages, pages[j], pages.len() as int);
    assert(groups[g].1@.contains(j as usize));
    assert forall|g: int, k: int|
        0 <= g < groups.len() && 0 <= k < groups[g].1@.len() && #[trigger] groups[g].1@[k]
            == j as usize implies groups[g].0 == pages[j] by {
        lemma_positions_on_page(pages, groups[g].0, pages.len() as int);
    }
    assert forall|g: int, a: int, b: int|
        0 <= g < groups.len() && 0 <= a < b < groups[g].1@.len() implies #[trigger] groups[g].1@[a]
            != #[trigger] groups[g].1@[b] by {
        lemma_positions_on_page(pages, groups[g].0, pages.len() as int);
    }
}

} // verus!
