//! Merging the per-product counts of a user's clicks, views and purchases
//! into one entry per product, and cutting a page out of the result.
use vstd::prelude::*;
use crate::analytics::response::{EventCounts, ProductActivity};
use crate::clickhouse_rows::TopProductRow;

verus! {

/// The product of each row, in order.
pub open spec fn row_ids(rows: Seq<TopProductRow>) -> Seq<u128> {
    rows.map_values(|r: TopProductRow| r.product_id)
}

/// The count of the last row for `id`, or 0 when no row names it (a later
/// row for the same product overrides an earlier one).
pub open spec fn last_count(rows: Seq<TopProductRow>, id: u128) -> u64
    decreases rows.len(),
{
    if rows.len() == 0 {
        0
    } else if rows.last().product_id == id {
        rows.last().count
    } else {
        last_count(rows.drop_last(), id)
    }
}

/// `acc` followed by each element of `ids` that is not already there, in
/// the order of first appearance.
pub open spec fn add_unseen(acc: Seq<u128>, ids: Seq<u128>) -> Seq<u128>
    decreases ids.len(),
{
    if ids.len() == 0 {
        acc
    } else {
        let prev = add_unseen(acc, ids.drop_last());
        if prev.contains(ids.last()) {
            prev
        } else {
            prev.push(ids.last())
        }
    }
}

/// Every product with at least one row, once each: first those with clicks,
/// then those with views only, then those with purchases only, each group in
/// the order the rows came in.
pub open spec fn activity_products(
    clicks: Seq<TopProductRow>,
    views: Seq<TopProductRow>,
    purchases: Seq<TopProductRow>,
) -> Seq<u128> {
    add_unseen(add_unseen(add_unseen(Seq::empty(), row_ids(clicks)), row_ids(views)), row_ids(purchases))
}

/// The counts of one product across the three lists.
pub open spec fn activity_of(
    clicks: Seq<TopProductRow>,
    views: Seq<TopProductRow>,
    purchases: Seq<TopProductRow>,
    id: u128,
) -> ProductActivity {
    ProductActivity {
        product_id: id,
        event_counts: EventCounts {
            clicks: last_count(clicks, id),
            views: last_count(views, id),
            purchases: last_count(purchases, id),
        },
    }
}

/// One entry per product that has any activity.
pub open spec fn merged_activity(
    clicks: Seq<TopProductRow>,
    views: Seq<TopProductRow>,
    purchases: Seq<TopProductRow>,
) -> Seq<ProductActivity> {
    activity_products(clicks, views, purchases).map_values(
        |id: u128| activity_of(clicks, views, purchases, id),
    )
}

/// The elements of `s` left after skipping `offset` and keeping at most
/// `limit`.
pub open spec fn page<T>(s: Seq<T>, offset: nat, limit: nat) -> Seq<T> {
    let start: nat = if offset <= s.len() { offset } else { s.len() };
    let end: nat = if start + limit <= s.len() { start + limit } else { s.len() };
    s.subrange(start as int, end as int)
}

/// The count kept for a product is that of its last row: when some row names
/// the product, the result is the count of a row that names it and that no
/// later row names again; when none does, it is 0.
pub proof fn law_last_row_wins(rows: Seq<TopProductRow>, id: u128)
    ensures
        (forall|k: int| 0 <= k < rows.len() ==> rows[k].product_id != id) ==> last_count(rows, id) == 0,
        (exists|k: int| 0 <= k < rows.len() && rows[k].product_id == id) ==> exists|k: int|
            0 <= k < rows.len() && rows[k].product_id == id && last_count(rows, id) == rows[k].count && (forall|
                j: int,
            | k < j < rows.len() ==> rows[j].product_id != id),
    decreases rows.len(),
{
    if rows.len() > 0 {
        let prev = rows.drop_last();
        law_last_row_wins(prev, id);
        let n: int = rows.len() - 1;
        if rows[n].product_id == id {
            assert(rows[n].product_id == id && last_count(rows, id) == rows[n].count);
        } else {
            assert forall|k: int| 0 <= k < prev.len() implies prev[k] == rows[k] by {}
            if exists|k: int| 0 <= k < rows.len() && rows[k].product_id == id {
                let k0: int = choose|k: int| 0 <= k < rows.len() && rows[k].product_id == id;
                assert(k0 < n);
                assert(prev[k0].product_id == id);
                let k: int = choose|k: int|
                    0 <= k < prev.len() && prev[k].product_id == id && last_count(prev, id) == prev[k].count
                        && (forall|j: int| k < j < prev.len() ==> prev[j].product_id != id);
                assert(rows[k].product_id == id && last_count(rows, id) == rows[k].count);
                assert forall|j: int| k < j < rows.len() implies rows[j].product_id != id by {
                    if j < n {
                        assert(prev[j] == rows[j]);
                    }
                }
            } else {
                assert forall|k: int| 0 <= k < prev.len() implies prev[k].product_id != id by {
                    assert(prev[k] == rows[k]);
                }
            }
        }
    }
}

/// No value occurs twice in `s`.
pub open spec fn no_duplicates(s: Seq<u128>) -> bool {
    forall|i: int, j: int| 0 <= i < j < s.len() ==> s[i] != s[j]
}

proof fn lemma_add_unseen(acc: Seq<u128>, ids: Seq<u128>)
    requires
        no_duplicates(acc),
    ensures
        no_duplicates(add_unseen(acc, ids)),
        forall|x: u128| #[trigger] add_unseen(acc, ids).contains(x) <==> (acc.contains(x) || ids.contains(x)),
    decreases ids.len(),
{
    if ids.len() > 0 {
        lemma_add_unseen(acc, ids.drop_last());
        let prev = add_unseen(acc, ids.drop_last());
        assert forall|x: u128| #[trigger] add_unseen(acc, ids).contains(x) <==> (acc.contains(x) || ids.contains(x)) by {
            if ids.contains(x) && !ids.drop_last().contains(x) {
                let k: int = choose|k: int| 0 <= k < ids.len() && ids[k] == x;
                if k < ids.len() - 1 {
                    assert(ids.drop_last()[k] == x);
                }
                assert(x == ids.last());
            }
            if ids.drop_last().contains(x) {
                let k: int = choose|k: int| 0 <= k < ids.drop_last().len() && ids.drop_last()[k] == x;
                assert(ids[k] == x);
            }
            if !prev.contains(ids.last()) {
                assert(prev.push(ids.last()).last() == ids.last());
                if prev.contains(x) {
                    let k: int = choose|k: int| 0 <= k < prev.len() && prev[k] == x;
                    assert(prev.push(ids.last())[k] == x);
                }
                if prev.push(ids.last()).contains(x) && x != ids.last() {
                    let k: int = choose|k: int| 0 <= k < prev.len() + 1 && prev.push(ids.last())[k] == x;
                    assert(prev[k] == x);
                }
            }
        }
    }
}

/// The merged activity holds exactly one entry for each product that has a
/// click, view or purchase row, and the counts of each entry are those of
/// the last row for that product in each list (0 where it has none).
pub proof fn law_merged_activity_one_entry_per_product(
    clicks: Seq<TopProductRow>,
    views: Seq<TopProductRow>,
    purchases: Seq<TopProductRow>,
)
    ensures
        ({
            let m = merged_activity(clicks, views, purchases);
            &&& forall|i: int, j: int|
                0 <= i < j < m.len() ==> m[i].product_id != m[j].product_id
            &&& forall|id: u128|
                (exists|i: int| 0 <= i < m.len() && m[i].product_id == id) <==> (row_ids(clicks).contains(id)
                    || row_ids(views).contains(id) || row_ids(purchases).contains(id))
            &&& forall|i: int|
                0 <= i < m.len() ==> m[i] == activity_of(clicks, views, purchases, m[i].product_id)
            &&& forall|i: int|
                0 <= i < m.len() ==> {
                    &&& #[trigger] m[i].event_counts.clicks == last_count(clicks, m[i].product_id)
                    &&& m[i].event_counts.views == last_count(views, m[i].product_id)
                    &&& m[i].event_counts.purchases == last_count(purchases, m[i].product_id)
                }
        }),
{
    let a0: Seq<u128> = Seq::empty();
    let a1 = add_unseen(a0, row_ids(clicks));
    let a2 = add_unseen(a1, row_ids(views));
    lemma_add_unseen(a0, row_ids(clicks));
    lemma_add_unseen(a1, row_ids(views));
    lemma_add_unseen(a2, row_ids(purchases));
    let ids = activity_products(clicks, views, purchases);
    let m = merged_activity(clicks, views, purchases);
    assert forall|i: int| 0 <= i < m.len() implies m[i].product_id == ids[i] by {}
    assert forall|id: u128|
        (exists|i: int| 0 <= i < m.len() && m[i].product_id == id) <==> (row_ids(clicks).contains(id)
            || row_ids(views).contains(id) || row_ids(purchases).contains(id)) by {
        if exists|i: int| 0 <= i < m.len() && m[i].product_id == id {
            let i: int = choose|i: int| 0 <= i < m.len() && m[i].product_id == id;
            assert(ids.contains(id));
        }
        if ids.contains(id) {
            let i: int = choose|i: int| 0 <= i < ids.len() && ids[i] == id;
            assert(m[i].product_id == id);
        }
    }
}

/// A page never holds more than `limit` elements, and it is the run of
/// consecutive elements that starts at `offset` (or is empty past the end).
pub proof fn law_page_bounds<T>(s: Seq<T>, offset: nat, limit: nat)
    ensures
        page(s, offset, limit).len() <= limit,
        offset <= s.len() ==> forall|i: int|
            0 <= i < page(s, offset, limit).len() ==> page(s, offset, limit)[i] == s[offset + i],
        offset >= s.len() ==> page(s, offset, limit).len() == 0,
        offset + limit <= s.len() ==> page(s, offset, limit).len() == limit,
        offset <= s.len() && s.len() < offset + limit ==> page(s, offset, limit).len() == s.len() - offset,
{
}

/// A page is what is left after skipping `offset` elements and keeping the
/// first `limit` of the rest: every element from `offset` on is on the page
/// until `limit` of them are, and nothing else is.
pub proof fn law_page_is_skip_then_take<T>(s: Seq<T>, offset: nat, limit: nat)
    ensures
        offset <= s.len() ==> {
            &&& page(s, offset, limit).len() == (if s.len() - offset < limit {
                s.len() - offset
            } else {
                limit as int
            })
            &&& forall|i: int|
                0 <= i < page(s, offset, limit).len() ==> #[trigger] page(s, offset, limit)[i] == s[offset + i]
        },
        offset > s.len() ==> page(s, offset, limit).len() == 0,
{
}

fn contains_id(ids: &Vec<u128>, id: u128) -> (r: bool)
    ensures
        r == ids@.contains(id),
{
    let mut i: usize = 0;
    while i < ids.len()
        invariant
            i <= ids.len(),
            forall|j: int| 0 <= j < i ==> ids@[j] != id,
        decreases ids.len() - i,
    {
        if ids[i] == id {
            assert(ids@[i as int] == id);
            return true;
        }
        i = i + 1;
    }
    false
}

/// Appends to `acc` the product of each row that `acc` does not hold yet.
fn push_unseen(acc: &mut Vec<u128>, rows: &Vec<TopProductRow>)
    ensures
        final(acc)@ == add_unseen(old(acc)@, row_ids(rows@)),
{
    let ghost start = acc@;
    let mut i: usize = 0;
    while i < rows.len()
        invariant
            i <= rows.len(),
            acc@ == add_unseen(start, row_ids(rows@).take(i as int)),
        decreases rows.len() - i,
    {
        let id: u128 = rows[i].product_id;
        proof {
            let ids = row_ids(rows@);
            assert(ids.take(i + 1).drop_last() =~= ids.take(i as int));
            assert(ids.take(i + 1).last() == id);
        }
        if !contains_id(acc, id) {
            acc.push(id);
        }
        i = i + 1;
    }
    assert(row_ids(rows@).take(rows@.len() as int) =~= row_ids(rows@));
}

/// The count of the last row for `id`, or 0.
fn last_count_of(rows: &Vec<TopProductRow>, id: u128) -> (r: u64)
    ensures
        r == last_count(rows@, id),
{
    let mut c: u64 = 0;
    let mut i: usize = 0;
    while i < rows.len()
        invariant
            i <= rows.len(),
            c == last_count(rows@.take(i as int), id),
        decreases rows.len() - i,
    {
        assert(rows@.take(i + 1).drop_last() =~= rows@.take(i as int));
        if rows[i].product_id == id {
            c = rows[i].count;
        }
        i = i + 1;
    }
    assert(rows@.take(rows@.len() as int) =~= rows@);
    c
}

/// Merges the per-product counts of clicks, views and purchases into one
/// entry per product.
pub fn merge_product_activity(
    clicks: &Vec<TopProductRow>,
    views: &Vec<TopProductRow>,
    purchases: &Vec<TopProductRow>,
) -> (r: Vec<ProductActivity>)
    ensures
        r@ == merged_activity(clicks@, views@, purchases@),
{
    let mut ids: Vec<u128> = Vec::new();
    push_unseen(&mut ids, clicks);
    push_unseen(&mut ids, views);
    push_unseen(&mut ids, purchases);
    assert(ids@ == activity_products(clicks@, views@, purchases@));
    let mut out: Vec<ProductActivity> = Vec::new();
    let mut k: usize = 0;
    while k < ids.len()
        invariant
            k <= ids.len(),
            ids@ == activity_products(clicks@, views@, purchases@),
            out@ =~= ids@.take(k as int).map_values(
                |id: u128| activity_of(clicks@, views@, purchases@, id),
            ),
        decreases ids.len() - k,
    {
        let id: u128 = ids[k];
        let entry = ProductActivity {
            product_id: id,
            event_counts: EventCounts {
                clicks: last_count_of(clicks, id),
                views: last_count_of(views, id),
                purchases: last_count_of(purchases, id),
            },
        };
        out.push(entry);
        k = k + 1;
    }
    assert(ids@.take(ids@.len() as int) =~= ids@);
    out
}

/// Skips `offset` entries and keeps at most `limit` of the rest.
pub fn page_of(items: &Vec<ProductActivity>, offset: usize, limit: usize) -> (r: Vec<ProductActivity>)
    ensures
        r@ == page(items@, offset as nat, limit as nat),
        offset <= items.len() ==> r.len() == (if items.len() - offset < limit {
            items.len() - offset
        } else {
            limit as int
        }),
        offset > items.len() ==> r.len() == 0,
        forall|i: int| 0 <= i < r.len() ==> #[trigger] r@[i] == items@[offset + i],
{
    let len: usize = items.len();
    let start: usize = if offset <= len { offset } else { len };
    let end: usize = if limit <= len - start { start + limit } else { len };
    let mut out: Vec<ProductActivity> = Vec::new();
    let mut i: usize = start;
    while i < end
        invariant
            start <= i <= end <= len == items@.len(),
            out@ =~= items@.subrange(start as int, i as int),
        decreases end - i,
    {
        out.push(items[i]);
        i = i + 1;
    }
    out
}

} // verus!
