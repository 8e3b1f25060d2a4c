use vstd::prelude::*;

use crate::error::AccessError;
use crate::paging::{scoped, valid_page, window};
use crate::warning::WarningView;

verus! {

/// One page of the ledger as a store is asked for it: the records whose
/// reporter is `user_id` (all records when it is absent), skipping `offset`
/// of them and keeping at most `limit`, in ascending order of `id`.
#[derive(Clone, Copy, Debug, PartialEq, Eq, Structural)]
pub struct ListQuery {
    pub user_id: Option<i32>,
    pub limit: i64,
    pub offset: i64,
}

impl ListQuery {
    /// What a store holding `rows`, in ascending order of `id`, answers.
    pub open spec fn answer(self, rows: Seq<WarningView>) -> Seq<WarningView> {
        window(scoped(rows, self.user_id), self.offset as int, self.limit as int)
    }

    /// The query for page number `page`, with pages of `page_limit` records.
    /// A negative page, or one whose offset overflows, is refused.
    pub fn for_page(page: i64, user_id: Option<i32>, page_limit: i64) -> (r: Result<
        ListQuery,
        AccessError,
    >)
        requires
            page_limit > 0,
        ensures
            r is Ok <==> valid_page(page as int, page_limit as int),
            r is Err ==> r == Err::<ListQuery, AccessError>(AccessError::InvalidPage),
            r matches Ok(q) ==> q.user_id == user_id && q.limit == page_limit && q.offset
                == page * page_limit,
    {
        if page < 0 || page > i64::MAX / page_limit {
            proof {
                if page >= 0 {
                    lemma_offset_fits(page as int, page_limit as int);
                }
            }
            Err(AccessError::InvalidPage)
        } else {
            proof {
                lemma_offset_fits(page as int, page_limit as int);
            }
            Ok(ListQuery { user_id, limit: page_limit, offset: page * page_limit })
        }
    }
}

/// `page * limit` fits in an `i64` exactly when `page` is at most
/// `i64::MAX / limit`.
proof fn lemma_offset_fits(page: int, limit: int)
    requires
        0 <= page,
        0 < limit,
    ensures
        page * limit <= i64::MAX <==> page <= (i64::MAX as int) / limit,
{
    let m = i64::MAX as int;
    let d = m / limit;
    assert(d * limit <= m && m < (d + 1) * limit) by (nonlinear_arith)
        requires
            d == m / limit,
            0 < limit,
    ;
    if page <= d {
        assert(page * limit <= d * limit) by (nonlinear_arith)
            requires
                page <= d,
                0 < limit,
        ;
    } else {
        assert(page * limit >= (d + 1) * limit) by (nonlinear_arith)
            requires
                page >= d + 1,
                0 < limit,
        ;
    }
}

} // verus!
