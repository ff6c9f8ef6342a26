//! Pagination: a row of page buttons for navigating between page numbers.
//!
//! The interesting logic is the choice of which page numbers get a button
//! ([`Pagination::derive_button_pages`]) and the reconciliation of the existing
//! buttons with that choice ([`Pagination::sync_buttons`]).

use vstd::prelude::*;
use vstd::set_lib::*;
use crate::button::Button;
use crate::format::{decimal, to_decimal};
use crate::label::Label;
use crate::widget::{AccessRole, EventCtx, Request, UpdateEvent, WidgetId, WidgetPod};

verus! {

// --- MARK: SPEC

/// `a + b`, saturating at `usize::MAX`.
pub open spec fn sat_add(a: usize, b: int) -> usize {
    if a + b > usize::MAX { usize::MAX } else { (a + b) as usize }
}

/// `a - b`, saturating at `0`.
pub open spec fn sat_sub(a: usize, b: int) -> usize {
    if a - b < 0 { 0 } else { (a - b) as usize }
}

/// The `k`-th page of the outward walk around `active`:
/// `active + 1, active - 1, active + 2, active - 2, ...` (saturating).
pub open spec fn outward_page(active: usize, k: int) -> usize {
    if k % 2 == 0 { sat_add(active, k / 2 + 1) } else { sat_sub(active, k / 2 + 1) }
}

/// The page indices in the order in which they are offered a button:
/// the active page, then the first `start` pages, then the last `end` pages
/// (from the last one backwards), then the pages around the active page,
/// alternating between the next and the previous ones.
///
/// The outward walk is long enough to reach every page.
pub open spec fn page_candidates(page_count: usize, active: usize, start: u8, end: u8) -> Seq<usize> {
    let n_last = page_count - sat_sub(page_count, end as int);
    seq![active]
        + Seq::new(start as nat, |i: int| i as usize)
        + Seq::new(n_last as nat, |i: int| (page_count - 1 - i) as usize)
        + Seq::new((2 * page_count + 2) as nat, |k: int| outward_page(active, k))
}

/// One step of the selection: `page` is added when there is room left,
/// it names an existing page and it was not chosen yet.
pub open spec fn offer_page(chosen: Seq<usize>, page: usize, count: usize, page_count: usize) -> Seq<usize> {
    if chosen.len() < count && page < page_count && !chosen.contains(page) {
        chosen.push(page)
    } else {
        chosen
    }
}

/// The pages chosen, in order of choice, when the candidates are offered one by one.
pub open spec fn choose_pages(cands: Seq<usize>, count: usize, page_count: usize) -> Seq<usize>
    decreases cands.len(),
{
    if cands.len() == 0 {
        Seq::empty()
    } else {
        offer_page(choose_pages(cands.drop_last(), count, page_count), cands.last(), count, page_count)
    }
}

/// `s` is in strictly ascending order.
pub open spec fn strictly_ascending(s: Seq<usize>) -> bool {
    forall|i: int, j: int| 0 <= i < j < s.len() ==> s[i] < s[j]
}

/// The number of page buttons: the page count, capped by the total button limit.
pub open spec fn button_count(page_count: usize, buttons_total: u8) -> usize {
    if page_count < buttons_total as usize { page_count } else { buttons_total as usize }
}

/// The pages that get a button, in ascending order.
///
/// These are exactly the pages chosen by offering [`page_candidates`] one by one.
pub open spec fn is_button_pages(
    result: Seq<usize>,
    page_count: usize,
    active: usize,
    start: u8,
    end: u8,
    total: u8,
) -> bool {
    let chosen = choose_pages(
        page_candidates(page_count, active, start, end),
        button_count(page_count, total),
        page_count,
    );
    &&& strictly_ascending(result)
    &&& result.to_set() == chosen.to_set()
    &&& result.len() == chosen.len()
}

// --- MARK: LEMMAS

proof fn lemma_choose_pages_facts(cands: Seq<usize>, count: usize, page_count: usize)
    ensures
        choose_pages(cands, count, page_count).len() <= count,
        choose_pages(cands, count, page_count).no_duplicates(),
        forall|i: int| 0 <= i < choose_pages(cands, count, page_count).len()
            ==> #[trigger] choose_pages(cands, count, page_count)[i] < page_count,
    decreases cands.len(),
{
    if cands.len() > 0 {
        lemma_choose_pages_facts(cands.drop_last(), count, page_count);
    }
}

/// Once `count` pages are chosen, later candidates change nothing.
proof fn lemma_choose_pages_full(cands: Seq<usize>, k: int, count: usize, page_count: usize)
    requires
        0 <= k <= cands.len(),
        choose_pages(cands.take(k), count, page_count).len() == count,
    ensures
        choose_pages(cands, count, page_count) == choose_pages(cands.take(k), count, page_count),
    decreases cands.len() - k,
{
    if cands.len() > k {
        assert(cands.drop_last().take(k) == cands.take(k));
        lemma_choose_pages_full(cands.drop_last(), k, count, page_count);
    } else {
        assert(cands.take(k) == cands);
    }
}

proof fn lemma_choose_pages_take_step(cands: Seq<usize>, k: int, count: usize, page_count: usize)
    requires
        0 <= k < cands.len(),
    ensures
        choose_pages(cands.take(k + 1), count, page_count)
            == offer_page(choose_pages(cands.take(k), count, page_count), cands[k], count, page_count),
{
    assert(cands.take(k + 1).drop_last() == cands.take(k));
}

/// A duplicate-free sequence holding every page below `n` has at least `n` elements.
proof fn lemma_covering_len(s: Seq<usize>, n: usize)
    requires
        s.no_duplicates(),
        forall|p: usize| p < n ==> s.contains(p),
    ensures
        s.len() >= n,
{
    let m = s.map_values(|p: usize| p as int);
    assert forall|i: int, j: int| 0 <= i < m.len() && 0 <= j < m.len() && i != j implies m[i] != m[j] by {
        assert(s[i] != s[j]);
    }
    assert(m.no_duplicates());
    m.unique_seq_to_set();
    assert(set_int_range(0, n as int).subset_of(m.to_set())) by {
        assert forall|x: int| set_int_range(0, n as int).contains(x) implies m.to_set().contains(x) by {
            let p = x as usize;
            assert(s.contains(p));
            let i = choose|i: int| 0 <= i < s.len() && s[i] == p;
            assert(m[i] == x);
        }
    }
    lemma_int_range(0, n as int);
    vstd::seq_lib::seq_to_set_is_finite(m);
    lemma_len_subset(set_int_range(0, n as int), m.to_set());
}

proof fn lemma_candidates_index(page_count: usize, active: usize, start: u8, end: u8)
    ensures
        ({
            let cands = page_candidates(page_count, active, start, end);
            let n_last = page_count - sat_sub(page_count, end as int);
            let base = 1 + start + n_last;
            &&& cands.len() == base + 2 * page_count + 2
            &&& cands[0] == active
            &&& forall|j: int| 0 <= j < start ==> #[trigger] cands[1 + j] == j as usize
            &&& forall|j: int| 0 <= j < n_last ==> #[trigger] cands[1 + start + j] == (page_count - 1 - j) as usize
            &&& forall|k: int| 0 <= k < 2 * page_count + 2 ==> #[trigger] cands[base + k] == outward_page(active, k)
        }),
{
    let n_last = page_count - sat_sub(page_count, end as int);
    let a = seq![active];
    let b = Seq::new(start as nat, |i: int| i as usize);
    let c = Seq::new(n_last as nat, |i: int| (page_count - 1 - i) as usize);
    let d = Seq::new((2 * page_count + 2) as nat, |k: int| outward_page(active, k));
    assert(page_candidates(page_count, active, start, end) == a + b + c + d);
    let ab = a + b;
    let abc = ab + c;
    assert forall|j: int| 0 <= j < start implies #[trigger] (a + b + c + d)[1 + j] == j as usize by {
        assert(ab[1 + j] == b[j]);
        assert(abc[1 + j] == ab[1 + j]);
    }
    assert forall|j: int| 0 <= j < n_last implies #[trigger] (a + b + c + d)[1 + start + j] == (page_count - 1 - j) as usize by {
        assert(abc[1 + start + j] == c[j]);
    }
}

/// A page chosen from a prefix of the candidates stays chosen.
proof fn lemma_choose_pages_grows(cands: Seq<usize>, k: int, count: usize, page_count: usize, x: usize)
    requires
        0 <= k <= cands.len(),
        choose_pages(cands.take(k), count, page_count).contains(x),
    ensures
        choose_pages(cands, count, page_count).contains(x),
    decreases cands.len() - k,
{
    if k < cands.len() {
        assert(cands.drop_last().take(k) == cands.take(k));
        lemma_choose_pages_grows(cands.drop_last(), k, count, page_count, x);
        let prev = choose_pages(cands.drop_last(), count, page_count);
        let i = choose|i: int| 0 <= i < prev.len() && prev[i] == x;
        assert(choose_pages(cands, count, page_count)[i] == x);
    } else {
        assert(cands.take(k) == cands);
    }
}

/// While the chosen pages are fewer than `count`, every existing page that
/// was offered is chosen.
proof fn lemma_choose_pages_saturates(cands: Seq<usize>, count: usize, page_count: usize, j: int)
    requires
        0 <= j < cands.len(),
        cands[j] < page_count,
        choose_pages(cands, count, page_count).len() < count,
    ensures
        choose_pages(cands, count, page_count).contains(cands[j]),
    decreases cands.len(),
{
    let prev = choose_pages(cands.drop_last(), count, page_count);
    let cur = choose_pages(cands, count, page_count);
    if j < cands.len() - 1 {
        assert(cands.drop_last()[j] == cands[j]);
        lemma_choose_pages_saturates(cands.drop_last(), count, page_count, j);
        let i = choose|i: int| 0 <= i < prev.len() && prev[i] == cands[j];
        assert(cur[i] == cands[j]);
    } else if !prev.contains(cands[j]) {
        assert(cur == prev.push(cands[j]));
        assert(cur[prev.len() as int] == cands[j]);
    }
}

/// Every existing page is a candidate, when the active page exists.
proof fn lemma_candidates_cover(page_count: usize, active: usize, start: u8, end: u8, p: usize)
    requires
        active < page_count,
        p < page_count,
    ensures
        page_candidates(page_count, active, start, end).contains(p),
{
    lemma_candidates_index(page_count, active, start, end);
    let cands = page_candidates(page_count, active, start, end);
    let n_last = page_count - sat_sub(page_count, end as int);
    let base = 1 + start + n_last;
    if p == active {
        assert(cands[0] == p);
    } else if p > active {
        let k = 2 * (p - active - 1);
        assert(k % 2 == 0 && k / 2 == p - active - 1);
        assert(cands[base + k] == outward_page(active, k));
        assert(cands[base + k] == p);
    } else {
        let k = 2 * (active - p - 1) + 1;
        assert(k % 2 == 1 && k / 2 == active - p - 1);
        assert(cands[base + k] == outward_page(active, k));
        assert(cands[base + k] == p);
    }
}

// --- MARK: LAWS

/// As many pages get a button as the total limit allows, or all pages when
/// there are fewer.
pub proof fn law_button_pages_count(result: Seq<usize>, page_count: usize, active: usize, start: u8, end: u8, total: u8)
    requires
        is_button_pages(result, page_count, active, start, end, total),
        page_count == 0 || active < page_count,
    ensures
        result.len() == button_count(page_count, total),
{
    let cands = page_candidates(page_count, active, start, end);
    let count = button_count(page_count, total);
    let chosen = choose_pages(cands, count, page_count);
    lemma_choose_pages_facts(cands, count, page_count);
    if chosen.len() < count {
        assert forall|p: usize| p < page_count implies chosen.contains(p) by {
            lemma_candidates_cover(page_count, active, start, end, p);
            let j = choose|j: int| 0 <= j < cands.len() && cands[j] == p;
            lemma_choose_pages_saturates(cands, count, page_count, j);
        }
        lemma_covering_len(chosen, page_count);
    }
}

/// The active page always gets a button, when there is a page and at least
/// one button is allowed.
pub proof fn law_active_page_has_button(result: Seq<usize>, page_count: usize, active: usize, start: u8, end: u8, total: u8)
    requires
        is_button_pages(result, page_count, active, start, end, total),
        active < page_count,
        total > 0,
    ensures
        result.contains(active),
{
    let cands = page_candidates(page_count, active, start, end);
    let count = button_count(page_count, total);
    lemma_candidates_index(page_count, active, start, end);
    lemma_choose_pages_take_step(cands, 0, count, page_count);
    assert(cands.take(0).len() == 0);
    let first = choose_pages(cands.take(1), count, page_count);
    assert(first == seq![active]);
    assert(first[0] == active);
    lemma_choose_pages_grows(cands, 1, count, page_count, active);
    let chosen = choose_pages(cands, count, page_count);
    assert(chosen.to_set().contains(active));
    assert(result.to_set().contains(active));
}

/// A page is chosen only when it is offered.
proof fn lemma_choose_pages_offered(cands: Seq<usize>, count: usize, page_count: usize, x: usize)
    requires
        choose_pages(cands, count, page_count).contains(x),
    ensures
        cands.contains(x),
    decreases cands.len(),
{
    if cands.len() > 0 {
        let prev = choose_pages(cands.drop_last(), count, page_count);
        if prev.contains(x) {
            lemma_choose_pages_offered(cands.drop_last(), count, page_count, x);
            let j = choose|j: int| 0 <= j < cands.drop_last().len() && cands.drop_last()[j] == x;
            assert(cands[j] == x);
        } else {
            assert(cands.last() == x);
            assert(cands[cands.len() - 1] == x);
        }
    }
}

/// Around the active page, the next pages come before the previous ones:
/// when the page `i` before the active one gets a button because of its
/// closeness to the active page (it is neither among the first nor among the
/// last pages), the page `i` after the active one gets one too, when it
/// exists. So when the buttons run out between the two, the later page wins.
pub proof fn law_next_page_before_previous(
    result: Seq<usize>,
    page_count: usize,
    active: usize,
    start: u8,
    end: u8,
    total: u8,
    i: usize,
)
    requires
        is_button_pages(result, page_count, active, start, end, total),
        active < page_count,
        1 <= i <= active,
        active + i < page_count,
        active - i >= start,
        active - i < page_count - end,
        result.contains((active - i) as usize),
    ensures
        result.contains((active + i) as usize),
{
    let cands = page_candidates(page_count, active, start, end);
    let count = button_count(page_count, total);
    let chosen = choose_pages(cands, count, page_count);
    let n_last = page_count - sat_sub(page_count, end as int);
    let base = 1 + start + n_last;
    let p = (active - i) as usize;
    let q = (active + i) as usize;
    let kq = base + 2 * (i - 1);
    let kp = kq + 1;
    lemma_candidates_index(page_count, active, start, end);
    lemma_choose_pages_facts(cands, count, page_count);
    assert(cands[kq] == q) by {
        assert(cands[base + 2 * (i - 1)] == outward_page(active, 2 * (i - 1)));
        assert((2 * (i - 1)) % 2 == 0 && (2 * (i - 1)) / 2 == i - 1);
    }
    assert(cands[kp] == p) by {
        assert(cands[base + (2 * (i - 1) + 1)] == outward_page(active, 2 * (i - 1) + 1));
        assert((2 * (i - 1) + 1) % 2 == 1 && (2 * (i - 1) + 1) / 2 == i - 1);
    }
    // The page before is not offered before its turn in the outward walk.
    assert(!cands.take(kq).contains(p)) by {
        if cands.take(kq).contains(p) {
            let j = choose|j: int| 0 <= j < cands.take(kq).len() && cands.take(kq)[j] == p;
            assert(cands[j] == p);
            if j == 0 {
            } else if j < 1 + start {
                assert(cands[1 + (j - 1)] == (j - 1) as usize);
            } else if j < base {
                assert(cands[1 + start + (j - 1 - start)] == (page_count - 1 - (j - 1 - start)) as usize);
            } else {
                let k = j - base;
                assert(cands[base + k] == outward_page(active, k));
                if k % 2 == 0 {
                    assert(k / 2 + 1 <= i - 1 + 1);
                } else {
                    assert(k / 2 < i - 1);
                }
            }
        }
    }
    assert(result.to_set().contains(p));
    assert(chosen.to_set().contains(p));
    assert(chosen.contains(p));
    let before = choose_pages(cands.take(kq), count, page_count);
    lemma_choose_pages_facts(cands.take(kq), count, page_count);
    if before.len() == count {
        lemma_choose_pages_full(cands, kq, count, page_count);
        lemma_choose_pages_offered(cands.take(kq), count, page_count, p);
        assert(false);
    }
    lemma_choose_pages_take_step(cands, kq, count, page_count);
    let after = choose_pages(cands.take(kq + 1), count, page_count);
    assert(after.contains(q)) by {
        if before.contains(q) {
            let j = choose|j: int| 0 <= j < before.len() && before[j] == q;
            assert(after[j] == q);
        } else {
            assert(after == before.push(q));
            assert(after[before.len() as int] == q);
        }
    }
    lemma_choose_pages_grows(cands, kq + 1, count, page_count, q);
    assert(chosen.to_set().contains(q));
    assert(result.to_set().contains(q));
}

/// An existing page offered before a chosen page is first offered is chosen
/// too: the chosen pages were fewer than the limit until then.
proof fn lemma_offered_earlier_chosen(cands: Seq<usize>, count: usize, page_count: usize, a: int, b: int)
    requires
        0 <= a < b < cands.len(),
        cands[a] < page_count,
        !cands.take(b).contains(cands[b]),
        choose_pages(cands, count, page_count).contains(cands[b]),
    ensures
        choose_pages(cands, count, page_count).contains(cands[a]),
{
    let before = choose_pages(cands.take(b), count, page_count);
    lemma_choose_pages_facts(cands.take(b), count, page_count);
    if before.len() == count {
        lemma_choose_pages_full(cands, b, count, page_count);
        lemma_choose_pages_offered(cands.take(b), count, page_count, cands[b]);
    }
    assert(cands.take(b)[a] == cands[a]);
    lemma_choose_pages_saturates(cands.take(b), count, page_count, a);
    lemma_choose_pages_grows(cands, b, count, page_count, cands[a]);
}

/// The distance between two pages.
pub open spec fn page_distance(a: usize, b: usize) -> int {
    if a >= b { a - b } else { b - a }
}

/// The position in the offering order of a page `x` near the active page:
/// the active page first, then, after the first and last pages, the pages
/// at distance 1, 2, ... with the next one before the previous one.
proof fn lemma_outward_position(page_count: usize, active: usize, start: u8, end: u8, x: usize)
    requires
        active < page_count,
        x < page_count,
    ensures
        ({
            let cands = page_candidates(page_count, active, start, end);
            let n_last = page_count - sat_sub(page_count, end as int);
            let base = 1 + start + n_last;
            let d = page_distance(x, active);
            &&& x == active ==> cands[0] == x
            &&& x > active ==> cands[base + 2 * (d - 1)] == x
            &&& x < active ==> cands[base + 2 * (d - 1) + 1] == x
        }),
{
    lemma_candidates_index(page_count, active, start, end);
    let cands = page_candidates(page_count, active, start, end);
    let n_last = page_count - sat_sub(page_count, end as int);
    let base = 1 + start + n_last;
    let d = page_distance(x, active);
    if x > active {
        let k = 2 * (d - 1);
        assert(k % 2 == 0 && k / 2 == d - 1);
        assert(cands[base + k] == outward_page(active, k));
    } else if x < active {
        let k = 2 * (d - 1) + 1;
        assert(k % 2 == 1 && k / 2 == d - 1);
        assert(cands[base + k] == outward_page(active, k));
    }
}

/// A page that is neither the active page nor among the first or last pages
/// is not offered before its turn in the outward walk.
proof fn lemma_outward_first_offer(page_count: usize, active: usize, start: u8, end: u8, y: usize)
    requires
        active < page_count,
        y < page_count,
        y != active,
        y >= start,
        y < page_count - end,
    ensures
        ({
            let cands = page_candidates(page_count, active, start, end);
            let n_last = page_count - sat_sub(page_count, end as int);
            let base = 1 + start + n_last;
            let d = page_distance(y, active);
            let ky = if y > active { base + 2 * (d - 1) } else { base + 2 * (d - 1) + 1 };
            &&& ky < cands.len()
            &&& cands[ky] == y
            &&& !cands.take(ky).contains(y)
        }),
{
    lemma_candidates_index(page_count, active, start, end);
    lemma_outward_position(page_count, active, start, end, y);
    let cands = page_candidates(page_count, active, start, end);
    let n_last = page_count - sat_sub(page_count, end as int);
    let base = 1 + start + n_last;
    let d = page_distance(y, active);
    let ky = if y > active { base + 2 * (d - 1) } else { base + 2 * (d - 1) + 1 };
    if cands.take(ky).contains(y) {
        let j = choose|j: int| 0 <= j < cands.take(ky).len() && cands.take(ky)[j] == y;
        assert(cands[j] == y);
        if j == 0 {
        } else if j < 1 + start {
            assert(cands[1 + (j - 1)] == (j - 1) as usize);
        } else if j < base {
            assert(cands[1 + start + (j - 1 - start)] == (page_count - 1 - (j - 1 - start)) as usize);
        } else {
            let k = j - base;
            assert(cands[base + k] == outward_page(active, k));
        }
    }
}

/// The pages around the active one get their buttons from the nearest
/// outwards: when a page gets a button for its closeness to the active page
/// (it is neither among the first nor among the last pages), every existing
/// page nearer to the active page gets one too, and so does the page at the
/// same distance after the active page when it is the page before that got
/// one.
pub proof fn law_nearer_pages_first(
    result: Seq<usize>,
    page_count: usize,
    active: usize,
    start: u8,
    end: u8,
    total: u8,
    x: usize,
    y: usize,
)
    requires
        is_button_pages(result, page_count, active, start, end, total),
        active < page_count,
        result.contains(y),
        y != active,
        y >= start,
        y < page_count - end,
        x < page_count,
        page_distance(x, active) < page_distance(y, active)
            || (page_distance(x, active) == page_distance(y, active) && x > active),
    ensures
        result.contains(x),
{
    if x == y {
        return;
    }
    let cands = page_candidates(page_count, active, start, end);
    let count = button_count(page_count, total);
    let chosen = choose_pages(cands, count, page_count);
    let n_last = page_count - sat_sub(page_count, end as int);
    let base = 1 + start + n_last;
    let dy = page_distance(y, active);
    let dx = page_distance(x, active);
    let ky = if y > active { base + 2 * (dy - 1) } else { base + 2 * (dy - 1) + 1 };
    let kx = if x == active { 0 } else if x > active { base + 2 * (dx - 1) } else { base + 2 * (dx - 1) + 1 };
    lemma_outward_first_offer(page_count, active, start, end, y);
    lemma_outward_position(page_count, active, start, end, x);
    lemma_candidates_index(page_count, active, start, end);
    assert(dy >= 1);
    assert(x != active ==> dx >= 1);
    assert(base >= 1);
    assert(kx < ky) by {
        if x == active {
        } else if x > active {
            if y > active {
                assert(dx < dy);
            } else {
                assert(dx <= dy);
            }
        } else {
            if y > active {
                assert(dx < dy);
            } else {
                assert(x != y);
                assert(dx < dy);
            }
        }
    }
    assert(cands[kx] == x);
    assert(result.to_set().contains(y));
    assert(chosen.contains(y));
    lemma_offered_earlier_chosen(cands, count, page_count, kx, ky);
    assert(chosen.to_set().contains(x));
    assert(result.to_set().contains(x));
}

/// The first pages get their buttons in order: when one of them gets a
/// button and is not the active page, every first page before it gets one.
pub proof fn law_first_pages_in_order(
    result: Seq<usize>,
    page_count: usize,
    active: usize,
    start: u8,
    end: u8,
    total: u8,
    a: usize,
    b: usize,
)
    requires
        is_button_pages(result, page_count, active, start, end, total),
        a < b < start,
        b < page_count,
        b != active,
        result.contains(b),
    ensures
        result.contains(a),
{
    let cands = page_candidates(page_count, active, start, end);
    let count = button_count(page_count, total);
    let chosen = choose_pages(cands, count, page_count);
    lemma_candidates_index(page_count, active, start, end);
    assert(cands[1 + a] == a);
    assert(cands[1 + b] == b);
    let t = cands.take(1 + b);
    if t.contains(b) {
        let j = choose|j: int| 0 <= j < t.len() && t[j] == b;
        assert(cands[j] == b);
        if j > 0 {
            assert(cands[1 + (j - 1)] == (j - 1) as usize);
        }
    }
    assert(result.to_set().contains(b));
    assert(chosen.contains(b));
    lemma_offered_earlier_chosen(cands, count, page_count, 1 + a, 1 + b);
    assert(chosen.to_set().contains(a));
    assert(result.to_set().contains(a));
}

/// The last pages get their buttons from the very last one backwards: when
/// one of them gets a button and is neither the active page nor among the
/// first pages, every page after it gets one.
pub proof fn law_last_pages_from_the_end(
    result: Seq<usize>,
    page_count: usize,
    active: usize,
    start: u8,
    end: u8,
    total: u8,
    a: usize,
    b: usize,
)
    requires
        is_button_pages(result, page_count, active, start, end, total),
        page_count - end <= a < b < page_count,
        a != active,
        a >= start,
        result.contains(a),
    ensures
        result.contains(b),
{
    let cands = page_candidates(page_count, active, start, end);
    let count = button_count(page_count, total);
    let chosen = choose_pages(cands, count, page_count);
    let n_last = page_count - sat_sub(page_count, end as int);
    lemma_candidates_index(page_count, active, start, end);
    let ia = page_count - 1 - a;
    let ib = page_count - 1 - b;
    assert(0 <= ib < ia < n_last);
    assert(cands[1 + start + ia] == a);
    assert(cands[1 + start + ib] == b);
    let t = cands.take(1 + start + ia);
    if t.contains(a) {
        let j = choose|j: int| 0 <= j < t.len() && t[j] == a;
        assert(cands[j] == a);
        if 0 < j < 1 + start {
            assert(cands[1 + (j - 1)] == (j - 1) as usize);
        } else if j >= 1 + start {
            assert(cands[1 + start + (j - 1 - start)] == (page_count - 1 - (j - 1 - start)) as usize);
        }
    }
    assert(result.to_set().contains(a));
    assert(chosen.contains(a));
    lemma_offered_earlier_chosen(cands, count, page_count, 1 + start + ib, 1 + start + ia);
    assert(chosen.to_set().contains(b));
    assert(result.to_set().contains(b));
}

// --- MARK: EXEC HELPERS

/// Returns whether `pages` holds `page`.
fn contains_page(pages: &Vec<usize>, page: usize) -> (found: bool)
    ensures
        found == pages@.contains(page),
{
    let mut i: usize = 0;
    while i < pages.len()
        invariant
            i <= pages.len(),
            forall|j: int| 0 <= j < i ==> pages@[j] != page,
        decreases pages.len() - i,
    {
        if pages[i] == page {
            return true;
        }
        i += 1;
    }
    false
}

/// Offers `page` to the chosen `pages`; returns whether no more pages can be added.
fn add_page(pages: &mut Vec<usize>, page: usize, count: usize, page_count: usize) -> (full: bool)
    ensures
        final(pages)@ == offer_page(old(pages)@, page, count, page_count),
        full == (final(pages)@.len() == count),
{
    if pages.len() < count && page < page_count && !contains_page(pages, page) {
        pages.push(page);
    }
    pages.len() == count
}

/// Sorts distinct pages in ascending order.
fn sort_pages(pages: &Vec<usize>) -> (sorted: Vec<usize>)
    requires
        pages@.no_duplicates(),
    ensures
        strictly_ascending(sorted@),
        sorted@.to_set() == pages@.to_set(),
        sorted@.len() == pages@.len(),
{
    let mut sorted: Vec<usize> = Vec::new();
    let mut i: usize = 0;
    while i < pages.len()
        invariant
            i <= pages.len(),
            pages@.no_duplicates(),
            strictly_ascending(sorted@),
            sorted@.to_set() == pages@.take(i as int).to_set(),
            sorted@.len() == i,
        decreases pages.len() - i,
    {
        let page = pages[i];
        assert(!sorted@.contains(page)) by {
            if sorted@.contains(page) {
                assert(pages@.take(i as int).to_set().contains(page));
                let j = choose|j: int| 0 <= j < i && pages@.take(i as int)[j] == page;
                assert(pages@[j] == pages@[i as int]);
            }
        }
        let mut pos: usize = 0;
        while pos < sorted.len() && sorted[pos] < page
            invariant
                pos <= sorted.len(),
                strictly_ascending(sorted@),
                forall|j: int| 0 <= j < pos ==> sorted@[j] < page,
            decreases sorted.len() - pos,
        {
            pos += 1;
        }
        let ghost before = sorted@;
        assert(pos < before.len() ==> before[pos as int] > page) by {
            if pos < before.len() {
                assert(before[pos as int] != page);
            }
        }
        sorted.insert(pos, page);
        assert(sorted@ == before.insert(pos as int, page));
        assert forall|a: int, b: int| 0 <= a < b < sorted@.len() implies sorted@[a] < sorted@[b] by {
            if b < pos {
            } else if b == pos {
            } else if a < pos {
                assert(sorted@[b] == before[b - 1]);
                if a + 1 < b {
                    assert(before[a] < before[b - 1]);
                }
            } else if a == pos {
                assert(sorted@[b] == before[b - 1]);
                assert(before[pos as int] > page);
                if pos < b - 1 {
                    assert(before[pos as int] < before[b - 1]);
                }
            } else {
                assert(before[a - 1] < before[b - 1]);
            }
        }
        assert(pages@.take(i + 1) == pages@.take(i as int).push(page));
        assert(sorted@.to_set() == before.to_set().insert(page)) by {
            assert forall|x: usize| sorted@.to_set().contains(x) <==> before.to_set().insert(page).contains(x) by {
                if sorted@.contains(x) {
                    let j = choose|j: int| 0 <= j < sorted@.len() && sorted@[j] == x;
                    if j < pos { assert(before[j] == x); }
                    else if j > pos { assert(before[j - 1] == x); }
                }
                if before.contains(x) {
                    let j = choose|j: int| 0 <= j < before.len() && before[j] == x;
                    if j < pos { assert(sorted@[j] == x); }
                    else { assert(sorted@[j + 1] == x); }
                }
                if x == page { assert(sorted@[pos as int] == page); }
            }
        }
        proof { pages@.take(i as int).lemma_push_to_set_commute(page); }
        i += 1;
    }
    assert(pages@.take(pages.len() as int) == pages@);
    sorted
}

// --- MARK: WIDGET

/// Every button is labeled with the number of its page (counted from 1),
/// and its page index leaves room for that number.
pub open spec fn buttons_labeled(buttons: Seq<PageButton>) -> bool {
    forall|i: int| 0 <= i < buttons.len() ==> #[trigger] button_labeled(buttons[i])
}

/// The button is labeled with the number of its page (counted from 1), and
/// its page index leaves room for that number.
pub open spec fn button_labeled(button: PageButton) -> bool {
    &&& button.widget.widget.child.widget.text@ == page_label(button.page_idx)
    &&& button.page_idx < usize::MAX
}

/// Shows `button` for page `page_idx`: relabels it when it showed another
/// page, disables it when the page is the active one, and unstashes it.
fn reuse_button(button: &mut PageButton, page_idx: usize, active: usize)
    requires
        button_labeled(*old(button)),
        page_idx < usize::MAX,
    ensures
        final(button).page_idx == page_idx,
        final(button).disabled == (page_idx == active),
        !final(button).stashed,
        final(button).widget.id == old(button).widget.id,
        button_labeled(*final(button)),
{
    if button.page_idx != page_idx {
        button.page_idx = page_idx;
        let new_text = to_decimal((page_idx + 1) as u64);
        Label::set_text(Button::child_mut(&mut button.widget.widget), new_text.as_str());
    }
    button.disabled = page_idx == active;
    button.stashed = false;
}

proof fn lemma_labeled_prefix(s: Seq<PageButton>, k: int)
    requires
        buttons_labeled(s),
        0 <= k <= s.len(),
    ensures
        buttons_labeled(s.take(k)),
{
    assert forall|i: int| 0 <= i < s.take(k).len() implies #[trigger] button_labeled(s.take(k)[i]) by {
        assert(s.take(k)[i] == s[i]);
        assert(button_labeled(s[i]));
    }
}

/// Pagination for navigating between different page numbers.
pub struct Pagination {
    /// Total number of pages.
    pub page_count: usize,
    /// The 0-based index of the currently active page.
    pub active_page: usize,
    /// The maximum number of buttons shown for the first pages.
    pub buttons_start: u8,
    /// The maximum number of buttons shown for the last pages.
    pub buttons_end: u8,
    /// The maximum number of buttons shown in total.
    pub buttons_total: u8,
    /// All the page buttons.
    pub buttons: Vec<PageButton>,
    pub requests: Vec<Request>,
}

/// One button for a specific page.
pub struct PageButton {
    pub widget: WidgetPod<Button<Label>>,
    /// The button is disabled (it is the active page's button).
    pub disabled: bool,
    /// The button is stashed (hidden, not part of layout).
    pub stashed: bool,
    /// The page the button leads to.
    pub page_idx: usize,
}

/// Page change action with the new page index.
#[derive(Debug, Copy, Clone, PartialEq, Eq)]
pub struct PageChanged(pub usize);

/// The active page of a pagination with `page_count` pages when `requested` is asked for:
/// `requested` clamped to the last page, or `0` when there are no pages.
pub open spec fn clamp_page(requested: usize, page_count: usize) -> usize {
    if page_count == 0 { 0 } else if requested < page_count { requested } else { (page_count - 1) as usize }
}

/// The label text of the button for page `page_idx`: the 1-based page number.
pub open spec fn page_label(page_idx: usize) -> Seq<char> {
    decimal(page_idx as nat + 1)
}

/// The buttons after a synchronization of `old_buttons` with `pages`:
/// buttons beyond the total limit are removed, the first `pages.len()` buttons
/// show those pages (existing buttons reused in order, missing ones created),
/// the active page's button is disabled, and the remaining buttons are stashed.
pub open spec fn synced(
    old_buttons: Seq<PageButton>,
    new_buttons: Seq<PageButton>,
    pages: Seq<usize>,
    total: u8,
    active: usize,
) -> bool {
    let kept = if old_buttons.len() < total { old_buttons.len() as int } else { total as int };
    &&& new_buttons.len() == if kept < pages.len() { pages.len() as int } else { kept }
    &&& forall|i: int| 0 <= i < pages.len() ==> {
        &&& (#[trigger] new_buttons[i]).page_idx == pages[i]
        &&& new_buttons[i].disabled == (pages[i] == active)
        &&& !new_buttons[i].stashed
        &&& new_buttons[i].widget.widget.child.widget.text@ == page_label(pages[i])
        &&& i < kept ==> new_buttons[i].widget.id == old_buttons[i].widget.id
        &&& i >= kept ==> new_buttons[i].widget.id.is_none()
    }
    &&& forall|i: int| pages.len() <= i < kept ==> {
        &&& (#[trigger] new_buttons[i]).stashed
        &&& new_buttons[i].page_idx == old_buttons[i].page_idx
        &&& new_buttons[i].disabled == old_buttons[i].disabled
        &&& new_buttons[i].widget == old_buttons[i].widget
    }
}

/// The requests of a synchronization: one removal per button beyond the
/// total limit, then a children change if buttons were created.
pub open spec fn sync_requests(old_len: nat, pages_len: nat, total: u8) -> Seq<Request> {
    let kept = if old_len < total { old_len } else { total as nat };
    Seq::new((old_len - kept) as nat, |i: int| Request::RemoveChild)
        + if kept < pages_len { seq![Request::ChildrenChanged] } else { Seq::empty() }
}

impl Pagination {
    /// The settings and buttons are consistent: [`Pagination::labels_wf`], and
    /// every button that is shown leads to an existing page.
    pub open spec fn wf(&self) -> bool {
        &&& self.labels_wf()
        &&& forall|i: int| 0 <= i < self.buttons@.len() && !(#[trigger] self.buttons@[i]).stashed
            ==> self.buttons@[i].page_idx < self.page_count
    }

    /// The active page is a page, or `0` when there are none; every button shows
    /// its page number.
    pub open spec fn labels_wf(&self) -> bool {
        &&& (self.page_count == 0 ==> self.active_page == 0)
        &&& (self.page_count > 0 ==> self.active_page < self.page_count)
        &&& buttons_labeled(self.buttons@)
    }

    /// The pages that get a button with the current settings, in ascending order.
    pub open spec fn button_pages_spec(&self, pages: Seq<usize>) -> bool {
        is_button_pages(pages, self.page_count, self.active_page, self.buttons_start, self.buttons_end, self.buttons_total)
    }

    /// Creates a new pagination with `page_count` pages, the first one active,
    /// 1 button for the first pages, 1 for the last pages and 9 in total.
    pub fn new(page_count: usize) -> (pg: Self)
        ensures
            pg.wf(),
            pg.page_count == page_count,
            pg.active_page == 0,
            pg.buttons_start == 1,
            pg.buttons_end == 1,
            pg.buttons_total == 9,
            pg.buttons@.len() == 0,
            pg.requests@.len() == 0,
    {
        Pagination {
            page_count,
            active_page: 0,
            buttons_start: 1,
            buttons_end: 1,
            buttons_total: 9,
            buttons: Vec::new(),
            requests: Vec::new(),
        }
    }

    /// Sets the currently active page, clamped to the page count.
    pub fn active_page(self, active_page: usize) -> (pg: Self)
        requires
            self.wf(),
        ensures
            pg.wf(),
            pg == (Pagination { active_page: clamp_page(active_page, self.page_count), ..self }),
    {
        let clamped = if self.page_count == 0 {
            0
        } else if active_page < self.page_count - 1 {
            active_page
        } else {
            self.page_count - 1
        };
        let pg = Pagination { active_page: clamped, ..self };
        assert(pg.buttons@ == self.buttons@);
        pg
    }

    /// Sets the maximum number of buttons to always show for the first pages.
    pub fn buttons_start(self, buttons_start: u8) -> (pg: Self)
        ensures
            pg == (Pagination { buttons_start, ..self }),
    {
        Pagination { buttons_start, ..self }
    }

    /// Sets the maximum number of buttons to always show for the last pages.
    pub fn buttons_end(self, buttons_end: u8) -> (pg: Self)
        ensures
            pg == (Pagination { buttons_end, ..self }),
    {
        Pagination { buttons_end, ..self }
    }

    /// Sets the maximum number of buttons shown in total.
    pub fn buttons_total(self, buttons_total: u8) -> (pg: Self)
        ensures
            pg == (Pagination { buttons_total, ..self }),
    {
        Pagination { buttons_total, ..self }
    }

    /// Returns the list of page indices that the pagination buttons are associated with.
    #[verifier::spinoff_prover]
    #[verifier::rlimit(30)]
    pub fn derive_button_pages(&self) -> (pages: Vec<usize>)
        requires
            self.labels_wf(),
        ensures
            self.button_pages_spec(pages@),
    {
        let pc = self.page_count;
        let active = self.active_page;
        let total = self.buttons_total as usize;
        let count = if pc < total { pc } else { total };
        let ghost cands = page_candidates(pc, active, self.buttons_start, self.buttons_end);
        let ghost n_first = self.buttons_start as int;
        let ghost n_last = pc - sat_sub(pc, self.buttons_end as int);
        let mut pages: Vec<usize> = Vec::new();
        proof { lemma_candidates_index(pc, active, self.buttons_start, self.buttons_end); }

        // Prioritize the currently active page.
        let _ = add_page(&mut pages, active, count, pc);
        proof {
            lemma_choose_pages_take_step(cands, 0, count, pc);
            assert(cands.take(0).len() == 0);
        }

        // Then all the first pages.
        let mut idx: usize = 0;
        while idx < self.buttons_start as usize
            invariant
                idx <= self.buttons_start,
                cands == page_candidates(pc, active, self.buttons_start, self.buttons_end),
                cands.len() == 1 + n_first + n_last + 2 * pc + 2,
                forall|j: int| 0 <= j < n_first ==> #[trigger] cands[1 + j] == j as usize,
                pages@ == choose_pages(cands.take(1 + idx), count, pc),
                count > 0 ==> pages@.len() > 0 && pages@[0] == active,
            decreases self.buttons_start - idx,
        {
            proof {
                lemma_choose_pages_take_step(cands, 1 + idx, count, pc);
                assert(cands[1 + idx as int] == idx);
            }
            let _ = add_page(&mut pages, idx, count, pc);
            idx += 1;
        }

        // Followed by all the last pages, from the last one backwards.
        let low = if pc > self.buttons_end as usize { pc - self.buttons_end as usize } else { 0 };
        let mut idx: usize = pc;
        while idx > low
            invariant
                low <= idx <= pc,
                low == sat_sub(pc, self.buttons_end as int),
                n_last == pc - low,
                cands == page_candidates(pc, active, self.buttons_start, self.buttons_end),
                cands.len() == 1 + n_first + n_last + 2 * pc + 2,
                forall|j: int| 0 <= j < n_last ==> #[trigger] cands[1 + n_first + j] == (pc - 1 - j) as usize,
                pages@ == choose_pages(cands.take(1 + n_first + (pc - idx)), count, pc),
                count > 0 ==> pages@.len() > 0 && pages@[0] == active,
            decreases idx,
        {
            proof {
                lemma_choose_pages_take_step(cands, 1 + n_first + (pc - idx), count, pc);
                assert(cands[1 + n_first + (pc - idx)] == idx - 1);
            }
            let _ = add_page(&mut pages, idx - 1, count, pc);
            idx -= 1;
        }

        // Finally, reach the desired button count by alternating between next and previous pages.
        let ghost base = 1 + n_first + n_last;
        proof {
            lemma_choose_pages_facts(cands.take(base), count, pc);
        }
        let mut i: usize = 1;
        loop
            invariant_except_break
                1 <= i,
                i <= pc + 1,
                pages@ == choose_pages(cands.take(base + 2 * (i - 1)), count, pc),
                pages@.no_duplicates(),
                pages@.len() <= count,
                i > 1 ==> pages@.len() < count,
                pages@.len() < count ==> pc > 0 && pages@.contains(active),
                pages@.len() < count ==> forall|j: int, p: usize| 1 <= j < i && p < pc
                    && (p == sat_add(active, j) || p == sat_sub(active, j)) ==> pages@.contains(p),
            invariant
                pc == self.page_count,
                active == self.active_page,
                pc > 0 ==> active < pc,
                count <= pc,
                cands == page_candidates(pc, active, self.buttons_start, self.buttons_end),
                base == 1 + n_first + n_last,
                cands.len() == base + 2 * pc + 2,
                forall|k: int| 0 <= k < 2 * pc + 2 ==> #[trigger] cands[base + k] == outward_page(active, k),
            ensures
                pages@ == choose_pages(cands, count, pc),
            decreases pc + 1 - i,
        {
            proof {
                lemma_choose_pages_take_step(cands, base + 2 * (i - 1), count, pc);
                lemma_choose_pages_take_step(cands, base + 2 * (i - 1) + 1, count, pc);
                assert(cands[base + 2 * (i - 1)] == sat_add(active, i as int));
                assert(cands[base + 2 * (i - 1) + 1] == sat_sub(active, i as int));
            }
            let ghost p0 = pages@;
            let next = active.saturating_add(i);
            if add_page(&mut pages, next, count, pc) {
                proof { lemma_choose_pages_full(cands, base + 2 * (i - 1) + 1, count, pc); }
                break;
            }
            let ghost p1 = pages@;
            proof {
                assert forall|x: usize| p0.contains(x) implies p1.contains(x) by {
                    if p1 != p0 { assert(p1 == p0.push(next)); let k = choose|k: int| 0 <= k < p0.len() && p0[k] == x; assert(p1[k] == x); }
                }
                if p1 != p0 { assert(p1[p0.len() as int] == next); }
            }
            let prev = active.saturating_sub(i);
            if add_page(&mut pages, prev, count, pc) {
                proof { lemma_choose_pages_full(cands, base + 2 * (i - 1) + 2, count, pc); }
                break;
            }
            proof {
                let p2 = pages@;
                assert forall|x: usize| p1.contains(x) implies p2.contains(x) by {
                    if p2 != p1 { assert(p2 == p1.push(prev)); let k = choose|k: int| 0 <= k < p1.len() && p1[k] == x; assert(p2[k] == x); }
                }
                if p2 != p1 { assert(p2[p1.len() as int] == prev); }
                lemma_choose_pages_facts(cands.take(base + 2 * i), count, pc);
                if i >= pc {
                    assert forall|p: usize| p < pc implies pages@.contains(p) by {
                        if p > active {
                            assert(p == sat_add(active, p - active));
                        } else if p < active {
                            assert(p == sat_sub(active, active - p));
                        }
                    }
                    lemma_covering_len(pages@, pc);
                    assert(false);
                }
            }
            i += 1;
        }

        // Make sure the chosen page indices are in ascending order.
        proof { lemma_choose_pages_facts(cands, count, pc); }
        sort_pages(&pages)
    }

    /// The buttons and requests are those of a synchronization of `old_buttons`
    /// (with requests `old_requests`) with the pages that get a button under the
    /// current settings.
    pub open spec fn sync_effect(&self, old_buttons: Seq<PageButton>, old_requests: Seq<Request>) -> bool {
        exists|pages: Seq<usize>| {
            &&& self.button_pages_spec(pages)
            &&& synced(old_buttons, self.buttons@, pages, self.buttons_total, self.active_page)
            &&& self.requests@ == old_requests + sync_requests(old_buttons.len(), pages.len(), self.buttons_total)
        }
    }

    /// Synchronizes the page buttons with the pages that get a button.
    #[verifier::spinoff_prover]
    #[verifier::rlimit(50)]
    pub fn sync_buttons(&mut self)
        requires
            old(self).labels_wf(),
        ensures
            final(self).wf(),
            final(self).page_count == old(self).page_count,
            final(self).active_page == old(self).active_page,
            final(self).buttons_start == old(self).buttons_start,
            final(self).buttons_end == old(self).buttons_end,
            final(self).buttons_total == old(self).buttons_total,
            final(self).sync_effect(old(self).buttons@, old(self).requests@),
    {
        let ghost old_buttons = self.buttons@;
        let ghost old_requests = self.requests@;
        let pages = self.derive_button_pages();
        proof {
            let cands = page_candidates(self.page_count, self.active_page, self.buttons_start, self.buttons_end);
            let count = button_count(self.page_count, self.buttons_total);
            lemma_choose_pages_facts(cands, count, self.page_count);
            assert(pages@.to_set() == choose_pages(cands, count, self.page_count).to_set());
            assert forall|i: int| 0 <= i < pages@.len() implies pages@[i] < self.page_count by {
                assert(pages@.to_set().contains(pages@[i]));
                let c = choose_pages(cands, count, self.page_count);
                assert(c.contains(pages@[i]));
            }
        }
        let total = self.buttons_total as usize;
        let active = self.active_page;

        // Remove any excess buttons that were created before the total limit was reduced.
        let mut rest: Vec<PageButton> = Vec::new();
        std::mem::swap(&mut rest, &mut self.buttons);
        while rest.len() > total
            invariant
                rest@.len() <= old_buttons.len(),
                rest@.len() == old_buttons.len() || rest@.len() >= total,
                total == old(self).buttons_total as usize,
                self.page_count == old(self).page_count,
                self.active_page == old(self).active_page,
                self.buttons_start == old(self).buttons_start,
                self.buttons_end == old(self).buttons_end,
                self.buttons_total == old(self).buttons_total,
                rest@ == old_buttons.take(rest@.len() as int),
                self.requests@ == old_requests + Seq::new((old_buttons.len() - rest@.len()) as nat, |i: int| Request::RemoveChild),
            decreases rest.len(),
        {
            let _ = rest.pop();
            self.requests.push(Request::RemoveChild);
            proof {
                assert(self.requests@ == old_requests + Seq::new((old_buttons.len() - rest@.len()) as nat, |i: int| Request::RemoveChild));
            }
        }
        let kept = rest.len();
        let ghost kept_buttons = rest@;
        proof {
            assert forall|j: int| 0 <= j < kept implies #[trigger] kept_buttons[j] == old_buttons[j] by {}
            lemma_labeled_prefix(old_buttons, kept as int);
        }

        // Reuse the kept buttons in order.
        let mut buttons: Vec<PageButton> = Vec::new();
        let mut i: usize = 0;
        while i < kept
            invariant
                kept == kept_buttons.len(),
                i <= kept,
                rest@ == kept_buttons.skip(i as int),
                buttons@.len() == i,
                buttons_labeled(kept_buttons),
                forall|j: int| 0 <= j < pages@.len() ==> #[trigger] pages@[j] < usize::MAX,
                forall|j: int| 0 <= j < i && j < pages@.len() ==> {
                    &&& (#[trigger] buttons@[j]).page_idx == pages@[j]
                    &&& buttons@[j].disabled == (pages@[j] == active)
                    &&& !buttons@[j].stashed
                    &&& buttons@[j].widget.widget.child.widget.text@ == page_label(pages@[j])
                    &&& buttons@[j].widget.id == kept_buttons[j].widget.id
                },
                forall|j: int| pages@.len() <= j < i ==> {
                    &&& (#[trigger] buttons@[j]).stashed
                    &&& buttons@[j].page_idx == kept_buttons[j].page_idx
                    &&& buttons@[j].disabled == kept_buttons[j].disabled
                    &&& buttons@[j].widget == kept_buttons[j].widget
                },
            decreases kept - i,
        {
            let mut button = rest.remove(0);
            assert(button == kept_buttons[i as int]);
            assert(button_labeled(kept_buttons[i as int]));
            if i < pages.len() {
                reuse_button(&mut button, pages[i], active);
            } else {
                button.stashed = true;
            }
            buttons.push(button);
            proof { assert(rest@ == kept_buttons.skip(i + 1)); }
            i += 1;
        }

        // Create any missing buttons.
        let mut created = false;
        while i < pages.len()
            invariant
                kept <= i <= pages@.len() || (i == kept && pages@.len() <= kept),
                kept == kept_buttons.len(),
                buttons@.len() == i,
                forall|j: int| 0 <= j < pages@.len() ==> #[trigger] pages@[j] < usize::MAX,
                created == (i > kept),
                forall|j: int| 0 <= j < i && j < pages@.len() ==> {
                    &&& (#[trigger] buttons@[j]).page_idx == pages@[j]
                    &&& buttons@[j].disabled == (pages@[j] == active)
                    &&& !buttons@[j].stashed
                    &&& buttons@[j].widget.widget.child.widget.text@ == page_label(pages@[j])
                    &&& j < kept ==> buttons@[j].widget.id == kept_buttons[j].widget.id
                    &&& j >= kept ==> buttons@[j].widget.id.is_none()
                },
                forall|j: int| pages@.len() <= j < i ==> {
                    &&& (#[trigger] buttons@[j]).stashed
                    &&& buttons@[j].page_idx == kept_buttons[j].page_idx
                    &&& buttons@[j].disabled == kept_buttons[j].disabled
                    &&& buttons@[j].widget == kept_buttons[j].widget
                },
            decreases pages.len() - i,
        {
            let page_idx = pages[i];
            let text = to_decimal((page_idx + 1) as u64);
            let disabled = page_idx == active;
            let button = Button::with_text(text.as_str());
            buttons.push(PageButton {
                widget: WidgetPod::new(button),
                disabled,
                stashed: false,
                page_idx,
            });
            created = true;
            i += 1;
        }
        if created {
            self.requests.push(Request::ChildrenChanged);
        }
        self.buttons = buttons;
        proof {
            assert(kept_buttons == old_buttons.take(kept as int));
            assert forall|j: int| 0 <= j < kept implies #[trigger] kept_buttons[j] == old_buttons[j] by {}
            let pg = pages@;
            let nb = self.buttons@;
            let k2 = if old_buttons.len() < self.buttons_total { old_buttons.len() as int } else { self.buttons_total as int };
            assert(k2 == kept);
            assert(nb.len() == if k2 < pg.len() { pg.len() as int } else { k2 });
            assert forall|j: int| 0 <= j < pg.len() implies {
                &&& (#[trigger] nb[j]).page_idx == pg[j]
                &&& nb[j].disabled == (pg[j] == active)
                &&& !nb[j].stashed
                &&& nb[j].widget.widget.child.widget.text@ == page_label(pg[j])
                &&& j < k2 ==> nb[j].widget.id == old_buttons[j].widget.id
                &&& j >= k2 ==> nb[j].widget.id.is_none()
            } by {
                if j < k2 { assert(kept_buttons[j] == old_buttons[j]); }
            }
            assert forall|j: int| pg.len() <= j < k2 implies {
                &&& (#[trigger] nb[j]).stashed
                &&& nb[j].page_idx == old_buttons[j].page_idx
                &&& nb[j].disabled == old_buttons[j].disabled
                &&& nb[j].widget == old_buttons[j].widget
            } by {
                assert(kept_buttons[j] == old_buttons[j]);
            }
            assert(synced(old_buttons, self.buttons@, pg, self.buttons_total, active));
            assert(self.button_pages_spec(pg));
            assert forall|j: int| 0 <= j < nb.len() implies #[trigger] button_labeled(nb[j]) by {
                if j < pg.len() {
                } else {
                    assert(nb[j].widget == kept_buttons[j].widget);
                    assert(button_labeled(kept_buttons[j]));
                }
            }
            assert(self.requests@ == old_requests + sync_requests(old_buttons.len(), pg.len(), self.buttons_total));
        }
    }
}

impl Pagination {
    /// Sets the total page count; the active page is clamped to it. Synchronizes the buttons.
    pub fn set_page_count(this: &mut Pagination, page_count: usize)
        requires
            old(this).wf(),
        ensures
            final(this).wf(),
            final(this).page_count == page_count,
            final(this).active_page == clamp_page(old(this).active_page, page_count),
            final(this).buttons_start == old(this).buttons_start,
            final(this).buttons_end == old(this).buttons_end,
            final(this).buttons_total == old(this).buttons_total,
            final(this).sync_effect(old(this).buttons@, old(this).requests@),
    {
        this.page_count = page_count;
        this.active_page = if page_count == 0 {
            0
        } else if this.active_page < page_count - 1 {
            this.active_page
        } else {
            page_count - 1
        };
        assert(buttons_labeled(this.buttons@));
        this.sync_buttons();
    }

    /// Sets the currently active page, clamped to the page count. Synchronizes the buttons.
    pub fn set_active_page(this: &mut Pagination, active_page: usize)
        requires
            old(this).wf(),
        ensures
            final(this).wf(),
            final(this).page_count == old(this).page_count,
            final(this).active_page == clamp_page(active_page, old(this).page_count),
            final(this).buttons_start == old(this).buttons_start,
            final(this).buttons_end == old(this).buttons_end,
            final(this).buttons_total == old(this).buttons_total,
            final(this).sync_effect(old(this).buttons@, old(this).requests@),
    {
        this.active_page = if this.page_count == 0 {
            0
        } else if active_page < this.page_count - 1 {
            active_page
        } else {
            this.page_count - 1
        };
        this.sync_buttons();
    }

    /// Sets the maximum number of buttons for the first pages. Synchronizes the buttons.
    pub fn set_buttons_start(this: &mut Pagination, buttons_start: u8)
        requires
            old(this).wf(),
        ensures
            final(this).wf(),
            final(this).page_count == old(this).page_count,
            final(this).active_page == old(this).active_page,
            final(this).buttons_start == buttons_start,
            final(this).buttons_end == old(this).buttons_end,
            final(this).buttons_total == old(this).buttons_total,
            final(this).sync_effect(old(this).buttons@, old(this).requests@),
    {
        this.buttons_start = buttons_start;
        this.sync_buttons();
    }

    /// Sets the maximum number of buttons for the last pages. Synchronizes the buttons.
    pub fn set_buttons_end(this: &mut Pagination, buttons_end: u8)
        requires
            old(this).wf(),
        ensures
            final(this).wf(),
            final(this).page_count == old(this).page_count,
            final(this).active_page == old(this).active_page,
            final(this).buttons_start == old(this).buttons_start,
            final(this).buttons_end == buttons_end,
            final(this).buttons_total == old(this).buttons_total,
            final(this).sync_effect(old(this).buttons@, old(this).requests@),
    {
        this.buttons_end = buttons_end;
        this.sync_buttons();
    }

    /// Sets the maximum number of buttons in total. Synchronizes the buttons.
    pub fn set_buttons_total(this: &mut Pagination, buttons_total: u8)
        requires
            old(this).wf(),
        ensures
            final(this).wf(),
            final(this).page_count == old(this).page_count,
            final(this).active_page == old(this).active_page,
            final(this).buttons_start == old(this).buttons_start,
            final(this).buttons_end == old(this).buttons_end,
            final(this).buttons_total == buttons_total,
            final(this).sync_effect(old(this).buttons@, old(this).requests@),
    {
        this.buttons_total = buttons_total;
        this.sync_buttons();
    }

    /// The position of the first button whose identifier is `source`.
    fn find_button(&self, source: WidgetId) -> (pos: Option<usize>)
        ensures
            match pos {
                Some(i) => {
                    &&& i < self.buttons@.len()
                    &&& self.buttons@[i as int].widget.id == Some(source)
                    &&& forall|j: int| 0 <= j < i ==> (#[trigger] self.buttons@[j]).widget.id != Some(source)
                },
                None => forall|j: int| 0 <= j < self.buttons@.len() ==> (#[trigger] self.buttons@[j]).widget.id != Some(source),
            },
    {
        let mut i: usize = 0;
        while i < self.buttons.len()
            invariant
                i <= self.buttons@.len(),
                forall|j: int| 0 <= j < i ==> (#[trigger] self.buttons@[j]).widget.id != Some(source),
            decreases self.buttons.len() - i,
        {
            if self.buttons[i].widget.id == Some(source) {
                return Some(i);
            }
            i += 1;
        }
        None
    }

    /// The button the action from `source` comes from: the first button with
    /// that identifier, when it is shown (a stashed button takes no part in
    /// the tree's events, so an action said to come from it is ignored).
    pub open spec fn pressed_button(&self, source: WidgetId, j: int) -> bool {
        &&& 0 <= j < self.buttons@.len()
        &&& self.buttons@[j].widget.id == Some(source)
        &&& forall|k: int| 0 <= k < j ==> (#[trigger] self.buttons@[k]).widget.id != Some(source)
        &&& !self.buttons@[j].stashed
    }

    /// A press of one of the shown page buttons makes its page active,
    /// synchronizes the buttons, submits the page change and marks the
    /// action as handled. Other actions, and actions from other widgets, are
    /// ignored.
    pub fn on_action(&mut self, ctx: &mut EventCtx<PageChanged>, is_button_press: bool, source: WidgetId)
        requires
            old(self).wf(),
        ensures
            final(self).wf(),
            final(self).page_count == old(self).page_count,
            final(self).buttons_start == old(self).buttons_start,
            final(self).buttons_end == old(self).buttons_end,
            final(self).buttons_total == old(self).buttons_total,
            final(ctx).pointer_captured == old(ctx).pointer_captured,
            if is_button_press && exists|j: int| #[trigger] old(self).pressed_button(source, j) {
                &&& exists|j: int| #[trigger] old(self).pressed_button(source, j)
                    && final(self).active_page == old(self).buttons@[j].page_idx
                &&& final(self).sync_effect(old(self).buttons@, old(self).requests@)
                &&& final(ctx).actions@ == old(ctx).actions@.push(PageChanged(final(self).active_page))
                &&& final(ctx).handled
            } else {
                &&& *final(self) == *old(self)
                &&& final(ctx).actions == old(ctx).actions
                &&& final(ctx).handled == old(ctx).handled
            },
    {
        if is_button_press {
            match self.find_button(source) {
                Some(i) => {
                    if self.buttons[i].stashed {
                        proof {
                            assert forall|j: int| !old(self).pressed_button(source, j) by {
                                if old(self).pressed_button(source, j) {
                                    if j < i {
                                    } else if j > i {
                                        assert(old(self).buttons@[i as int].widget.id != Some(source));
                                    }
                                }
                            }
                        }
                    } else {
                        let page_idx = self.buttons[i].page_idx;
                        assert(old(self).pressed_button(source, i as int));
                        self.active_page = page_idx;
                        self.sync_buttons();
                        ctx.submit_action(PageChanged(self.active_page));
                        ctx.set_handled();
                    }
                },
                None => {
                    assert forall|j: int| !old(self).pressed_button(source, j) by {
                        if 0 <= j < old(self).buttons@.len() {
                            assert(old(self).buttons@[j].widget.id != Some(source));
                        }
                    }
                },
            }
        }
    }

    /// When the widget is added to the tree, the buttons are created.
    pub fn update(&mut self, event: UpdateEvent)
        requires
            old(self).wf(),
        ensures
            final(self).wf(),
            final(self).page_count == old(self).page_count,
            final(self).active_page == old(self).active_page,
            final(self).buttons_start == old(self).buttons_start,
            final(self).buttons_end == old(self).buttons_end,
            final(self).buttons_total == old(self).buttons_total,
            event == UpdateEvent::WidgetAdded ==> final(self).sync_effect(old(self).buttons@, old(self).requests@),
            event != UpdateEvent::WidgetAdded ==> *final(self) == *old(self),
    {
        match event {
            UpdateEvent::WidgetAdded => self.sync_buttons(),
            _ => {},
        }
    }

    /// The identifiers of the page buttons, in order.
    pub fn children_ids(&self) -> (ids: Vec<Option<WidgetId>>)
        ensures
            ids@.len() == self.buttons@.len(),
            forall|i: int| 0 <= i < ids@.len() ==> ids@[i] == #[trigger] self.buttons@[i].widget.id,
    {
        let mut ids = Vec::new();
        let mut i: usize = 0;
        while i < self.buttons.len()
            invariant
                i <= self.buttons@.len(),
                ids@.len() == i,
                forall|j: int| 0 <= j < i ==> ids@[j] == #[trigger] self.buttons@[j].widget.id,
            decreases self.buttons.len() - i,
        {
            ids.push(self.buttons[i].widget.id);
            i += 1;
        }
        ids
    }
}

impl Pagination {
    /// The role the widget reports to accessibility.
    pub fn accessibility_role(&self) -> (role: AccessRole)
        ensures
            role == AccessRole::Navigation,
    {
        AccessRole::Navigation
    }
}

} // verus!
