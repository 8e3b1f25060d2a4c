use vstd::prelude::*;

use crate::paging::{
    count_of,
    in_scope,
    lemma_pages_from,
    lemma_scoped_all,
    lemma_scoped_members,
    lemma_scoped_shrinks,
    lemma_window_bounds,
    page_of,
    pages_from,
    scoped,
};
use crate::timestamp::Timestamp;
use crate::warning::WarningView;

verus! {

/// A newly filed warning, once stored under whatever identifier, is open,
/// carries no operator note, and was last updated at its creation instant.
pub proof fn law_created_warning_is_open(
    user_id: i32,
    model_id: i32,
    note: Seq<char>,
    now: Timestamp,
    id: i32,
)
    ensures
        WarningView::filed(user_id, model_id, note, now).with_id(id).resolved_by is None,
        WarningView::filed(user_id, model_id, note, now).with_id(id).admin_note.len() == 0,
        WarningView::filed(user_id, model_id, note, now).with_id(id).created == WarningView::filed(
            user_id,
            model_id,
            note,
            now,
        ).with_id(id).updated,
{
}

/// No page holds more than the page size.
pub proof fn law_page_bounded(
    rows: Seq<WarningView>,
    page: int,
    limit: int,
    user_id: Option<i32>,
)
    requires
        0 <= page,
        0 < limit,
    ensures
        page_of(rows, page, limit, user_id).len() <= limit,
{
    assert(0 <= page * limit) by (nonlinear_arith)
        requires
            0 <= page,
            0 < limit,
    ;
    lemma_window_bounds(scoped(rows, user_id), page * limit, limit);
}

/// Reading the pages from the first up to the first empty one gives back
/// every visible record, in order; so their lengths add up to the count.
pub proof fn law_paging_reconstructs(rows: Seq<WarningView>, limit: int, user_id: Option<i32>)
    requires
        0 < limit,
    ensures
        pages_from(rows, limit, user_id, 0) == scoped(rows, user_id),
        pages_from(rows, limit, user_id, 0).len() == count_of(rows, user_id),
{
    assert(0 * limit == 0) by (nonlinear_arith);
    lemma_pages_from(rows, limit, user_id, 0);
    assert(scoped(rows, user_id).subrange(0, count_of(rows, user_id)) =~= scoped(rows, user_id));
}

/// A page listed for reporter `u` holds only warnings that `u` filed, each
/// of them a stored record.
pub proof fn law_restricted_page(rows: Seq<WarningView>, page: int, limit: int, u: i32)
    requires
        0 <= page,
        0 < limit,
    ensures
        forall|j: int|
            0 <= j < page_of(rows, page, limit, Some(u)).len() ==> (#[trigger] page_of(
                rows,
                page,
                limit,
                Some(u),
            )[j]).user_id == Some(u) && rows.contains(page_of(rows, page, limit, Some(u))[j]),
{
    assert(0 <= page * limit) by (nonlinear_arith)
        requires
            0 <= page,
            0 < limit,
    ;
    let s = scoped(rows, Some(u));
    lemma_scoped_members(rows, Some(u));
    lemma_window_bounds(s, page * limit, limit);
    assert forall|j: int| 0 <= j < page_of(rows, page, limit, Some(u)).len() implies (
    #[trigger] page_of(rows, page, limit, Some(u))[j]).user_id == Some(u) && rows.contains(
        page_of(rows, page, limit, Some(u))[j],
    ) by {
        assert(page_of(rows, page, limit, Some(u))[j] == s[page * limit + j]);
        assert(in_scope(s[page * limit + j], Some(u)));
    }
}

/// Without a restriction every stored record is visible; and once two
/// reporters have filed, each reporter sees strictly fewer records than an
/// operator does.
pub proof fn law_unrestricted_superset(rows: Seq<WarningView>, i: int, k: int)
    requires
        0 <= i < rows.len(),
        0 <= k < rows.len(),
        rows[i].user_id != rows[k].user_id,
    ensures
        scoped(rows, None) == rows,
        forall|u: i32|
            #[trigger] count_of(rows, Some(u)) < count_of(rows, None),
{
    lemma_scoped_all(rows);
    assert forall|u: i32| #[trigger] count_of(rows, Some(u)) < count_of(rows, None) by {
        if rows[i].user_id != Some(u) {
            lemma_scoped_shrinks(rows, Some(u), i);
        } else {
            lemma_scoped_shrinks(rows, Some(u), k);
        }
    }
}

/// The count depends on the stored records alone: with no write between
/// them, two counts agree.
pub proof fn law_count_stable(before: Seq<WarningView>, after: Seq<WarningView>, user_id: Option<i32>)
    requires
        before == after,
    ensures
        count_of(before, user_id) == count_of(after, user_id),
{
}

} // verus!
