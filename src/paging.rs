use vstd::prelude::*;

use crate::warning::WarningView;

verus! {

/// Whether `w` is visible under the reporter restriction `user_id`:
/// everything when there is none, else the warnings that reporter filed.
pub open spec fn in_scope(w: WarningView, user_id: Option<i32>) -> bool {
    match user_id {
        Some(u) => w.user_id == Some(u),
        None => true,
    }
}

/// The records of `rows` visible under `user_id`, in their stored order.
pub open spec fn scoped(rows: Seq<WarningView>, user_id: Option<i32>) -> Seq<WarningView>
    decreases rows.len(),
{
    if rows.len() == 0 {
        Seq::empty()
    } else {
        let rest = scoped(rows.drop_last(), user_id);
        if in_scope(rows.last(), user_id) {
            rest.push(rows.last())
        } else {
            rest
        }
    }
}

/// At most `limit` elements of `s` starting at position `offset`.
pub open spec fn window(s: Seq<WarningView>, offset: int, limit: int) -> Seq<WarningView> {
    let lo = if offset < s.len() { offset } else { s.len() as int };
    let hi = if offset + limit < s.len() { offset + limit } else { s.len() as int };
    s.subrange(lo, hi)
}

/// Page number `page` of the records visible under `user_id`, with pages
/// of `limit` records.
pub open spec fn page_of(
    rows: Seq<WarningView>,
    page: int,
    limit: int,
    user_id: Option<i32>,
) -> Seq<WarningView> {
    window(scoped(rows, user_id), page * limit, limit)
}

/// The number of records visible under `user_id`.
pub open spec fn count_of(rows: Seq<WarningView>, user_id: Option<i32>) -> int {
    scoped(rows, user_id).len() as int
}

/// A page number is accepted when it is not negative and its offset
/// `page * limit` fits in an `i64`.
pub open spec fn valid_page(page: int, limit: int) -> bool {
    0 <= page && page * limit <= i64::MAX
}

/// The pages from `page` on, one after another, up to the first empty one.
pub open spec fn pages_from(
    rows: Seq<WarningView>,
    limit: int,
    user_id: Option<i32>,
    page: int,
) -> Seq<WarningView>
    decreases count_of(rows, user_id) + limit - page * limit,
{
    if limit <= 0 || page < 0 || page_of(rows, page, limit, user_id).len() == 0 {
        Seq::empty()
    } else {
        proof {
            assert(page * limit < count_of(rows, user_id));
            assert((page + 1) * limit == page * limit + limit) by (nonlinear_arith);
        }
        page_of(rows, page, limit, user_id) + pages_from(rows, limit, user_id, page + 1)
    }
}

/// Every visible record is in scope and stored in `rows`, and there are no
/// more of them than of `rows`.
pub proof fn lemma_scoped_members(rows: Seq<WarningView>, user_id: Option<i32>)
    ensures
        scoped(rows, user_id).len() <= rows.len(),
        forall|i: int|
            0 <= i < scoped(rows, user_id).len() ==> in_scope(
                #[trigger] scoped(rows, user_id)[i],
                user_id,
            ) && rows.contains(scoped(rows, user_id)[i]),
    decreases rows.len(),
{
    if rows.len() > 0 {
        let init = rows.drop_last();
        lemma_scoped_members(init, user_id);
        let s = scoped(rows, user_id);
        assert forall|i: int| 0 <= i < s.len() implies in_scope(#[trigger] s[i], user_id)
            && rows.contains(s[i]) by {
            if i < scoped(init, user_id).len() {
                let k = choose|k: int| 0 <= k < init.len() && init[k] == scoped(init, user_id)[i];
                assert(rows[k] == s[i]);
            } else {
                assert(rows[rows.len() - 1] == s[i]);
            }
        }
    }
}

/// Without a restriction every record is visible.
pub proof fn lemma_scoped_all(rows: Seq<WarningView>)
    ensures
        scoped(rows, None) == rows,
    decreases rows.len(),
{
    if rows.len() > 0 {
        lemma_scoped_all(rows.drop_last());
        assert(rows.drop_last().push(rows.last()) =~= rows);
    }
}

/// A record out of scope makes the visible part strictly smaller.
pub proof fn lemma_scoped_shrinks(rows: Seq<WarningView>, user_id: Option<i32>, i: int)
    requires
        0 <= i < rows.len(),
        !in_scope(rows[i], user_id),
    ensures
        scoped(rows, user_id).len() < rows.len(),
    decreases rows.len(),
{
    let init = rows.drop_last();
    lemma_scoped_members(init, user_id);
    if i < rows.len() - 1 {
        assert(init[i] == rows[i]);
        lemma_scoped_shrinks(init, user_id, i);
    }
}

/// A window holds at most `limit` elements of `s`, taken in order from `offset`.
pub proof fn lemma_window_bounds(s: Seq<WarningView>, offset: int, limit: int)
    requires
        0 <= offset,
        0 <= limit,
    ensures
        window(s, offset, limit).len() <= limit,
        forall|j: int|
            0 <= j < window(s, offset, limit).len() ==> #[trigger] window(s, offset, limit)[j]
                == s[offset + j],
{
}

/// The pages from `page` on are the visible records from its offset on.
pub proof fn lemma_pages_from(
    rows: Seq<WarningView>,
    limit: int,
    user_id: Option<i32>,
    page: int,
)
    requires
        0 < limit,
        0 <= page,
        page * limit <= count_of(rows, user_id),
    ensures
        pages_from(rows, limit, user_id, page) == scoped(rows, user_id).subrange(
            page * limit,
            count_of(rows, user_id),
        ),
    decreases count_of(rows, user_id) - page * limit,
{
    let s = scoped(rows, user_id);
    let n = count_of(rows, user_id);
    assert((page + 1) * limit == page * limit + limit) by (nonlinear_arith);
    if page * limit == n {
        assert(s.subrange(n, n) =~= Seq::<WarningView>::empty());
    } else {
        let p = page_of(rows, page, limit, user_id);
        assert(p.len() > 0);
        if (page + 1) * limit <= n {
            lemma_pages_from(rows, limit, user_id, page + 1);
            assert(p + s.subrange((page + 1) * limit, n) =~= s.subrange(page * limit, n));
        } else {
            let q = page_of(rows, page + 1, limit, user_id);
            assert(q.len() == 0);
            assert(pages_from(rows, limit, user_id, page + 1) == Seq::<WarningView>::empty());
            assert(p + Seq::<WarningView>::empty() =~= s.subrange(page * limit, n));
        }
    }
}

/// Appending one element to `s` adds it to a window exactly when its
/// position falls inside that window.
pub proof fn lemma_window_push(s: Seq<WarningView>, x: WarningView, offset: int, limit: int)
    requires
        0 <= offset,
        0 <= limit,
    ensures
        window(s.push(x), offset, limit) == if offset <= s.len() < offset + limit {
            window(s, offset, limit).push(x)
        } else {
            window(s, offset, limit)
        },
{
    if offset <= s.len() < offset + limit {
        assert(window(s.push(x), offset, limit) =~= window(s, offset, limit).push(x));
    } else {
        assert(window(s.push(x), offset, limit) =~= window(s, offset, limit));
    }
}

} // verus!
