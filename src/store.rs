use vstd::prelude::*;

use crate::error::AccessError;
use crate::paging::{count_of, in_scope, lemma_window_push, page_of, scoped, valid_page, window};
use crate::query::ListQuery;
use crate::warning::{views, Warning, WarningView};

verus! {

/// An in-memory warning ledger: the records in ascending order of `id`,
/// where the record at position `i` has identifier `i + 1`, and the
/// configured page size.
pub struct WarningStore {
    rows: Vec<Warning>,
    page_limit: i64,
}

impl View for WarningStore {
    type V = Seq<WarningView>;

    closed spec fn view(&self) -> Seq<WarningView> {
        views(self.rows@)
    }
}

impl WarningStore {
    #[verifier::type_invariant]
    spec fn inv(self) -> bool {
        &&& self.page_limit > 0
        &&& self.rows.len() <= i32::MAX
        &&& forall|i: int| 0 <= i < self.rows.len() ==> #[trigger] self.rows[i].id == i + 1
    }

    /// The configured page size.
    pub closed spec fn limit(&self) -> int {
        self.page_limit as int
    }

    /// An empty ledger with pages of `page_limit` records.
    pub fn new(page_limit: i64) -> (r: WarningStore)
        requires
            page_limit > 0,
        ensures
            r@ == Seq::<WarningView>::empty(),
            r.limit() == page_limit,
    {
        let r = WarningStore { rows: Vec::new(), page_limit };
        assert(r@ =~= Seq::<WarningView>::empty());
        r
    }

    /// The configured page size.
    pub fn page_limit(&self) -> (r: i64)
        ensures
            r == self.limit(),
            r > 0,
    {
        proof {
            use_type_invariant(self);
        }
        self.page_limit
    }

    /// What this ledger answers to `q`.
    pub fn select(&self, q: &ListQuery) -> (r: Vec<Warning>)
        requires
            q.offset >= 0,
            q.limit >= 0,
        ensures
            views(r@) == q.answer(self@),
    {
        proof {
            use_type_invariant(self);
        }
        let ghost all = self@;
        let n = self.rows.len();
        let mut out: Vec<Warning> = Vec::new();
        let mut seen: usize = 0;
        let mut i: usize = 0;
        while i < n
            invariant
                n == self.rows.len(),
                n <= i32::MAX,
                all == self@,
                i <= n,
                seen == scoped(all.take(i as int), q.user_id).len(),
                seen <= i,
                q.offset >= 0,
                q.limit >= 0,
                views(out@) == window(
                    scoped(all.take(i as int), q.user_id),
                    q.offset as int,
                    q.limit as int,
                ),
            decreases n - i,
        {
            let w = &self.rows[i];
            let ghost before = scoped(all.take(i as int), q.user_id);
            assert(all.take(i + 1).drop_last() =~= all.take(i as int));
            assert(all.take(i + 1).last() == w@);
            if matches_scope(w, q.user_id) {
                proof {
                    lemma_window_push(before, w@, q.offset as int, q.limit as int);
                }
                let pos = seen as i64;
                if q.offset <= pos && pos - q.offset < q.limit {
                    let ghost prev = out@;
                    out.push(w.duplicate());
                    assert(views(out@) =~= views(prev).push(w@));
                }
                seen = seen + 1;
            }
            i = i + 1;
        }
        assert(all.take(n as int) =~= all);
        out
    }

    /// How many records are visible under `user_id`.
    pub fn tally(&self, user_id: Option<i32>) -> (r: i64)
        ensures
            r == count_of(self@, user_id),
    {
        proof {
            use_type_invariant(self);
        }
        let ghost all = self@;
        let n = self.rows.len();
        let mut seen: usize = 0;
        let mut i: usize = 0;
        while i < n
            invariant
                n == self.rows.len(),
                n <= i32::MAX,
                all == self@,
                i <= n,
                seen == scoped(all.take(i as int), user_id).len(),
                seen <= i,
            decreases n - i,
        {
            let w = &self.rows[i];
            assert(all.take(i + 1).drop_last() =~= all.take(i as int));
            assert(all.take(i + 1).last() == w@);
            if matches_scope(w, user_id) {
                seen = seen + 1;
            }
            i = i + 1;
        }
        assert(all.take(n as int) =~= all);
        seen as i64
    }

    /// Stores `w` under the next identifier and returns the stored record.
    pub fn insert(&mut self, w: Warning) -> (r: Result<Warning, AccessError>)
        ensures
            r is Ok <==> old(self)@.len() < i32::MAX,
            final(self).limit() == old(self).limit(),
            r matches Ok(s) ==> s@ == w@.with_id((old(self)@.len() + 1) as i32) && final(self)@
                == old(self)@.push(s@),
            r is Err ==> r == Err::<Warning, AccessError>(AccessError::StoreFull) && final(self)@
                == old(self)@,
    {
        proof {
            use_type_invariant(&*self);
        }
        if self.rows.len() >= i32::MAX as usize {
            return Err(AccessError::StoreFull);
        }
        let mut stored = w;
        stored.id = self.rows.len() as i32 + 1;
        let mut rows: Vec<Warning> = Vec::new();
        std::mem::swap(&mut self.rows, &mut rows);
        let ghost prev = rows@;
        rows.push(stored.duplicate());
        assert(views(rows@) =~= views(prev).push(stored@));
        std::mem::swap(&mut self.rows, &mut rows);
        Ok(stored)
    }
}

/// Whether `w` is visible under `user_id`.
fn matches_scope(w: &Warning, user_id: Option<i32>) -> (r: bool)
    ensures
        r == in_scope(w@, user_id),
{
    match user_id {
        Some(u) => match w.user_id {
            Some(v) => v == u,
            None => false,
        },
        None => true,
    }
}

impl Warning {
    /// Page number `page` of the warnings visible under `user_id`: those
    /// that reporter filed when it is given, all of them when it is not.
    /// Pages hold `store.page_limit()` records in ascending order of `id`.
    pub fn list(store: &WarningStore, page: i64, user_id: Option<i32>) -> (r: Result<
        Vec<Warning>,
        AccessError,
    >)
        ensures
            r is Ok <==> valid_page(page as int, store.limit()),
            r is Err ==> r == Err::<Vec<Warning>, AccessError>(AccessError::InvalidPage),
            r matches Ok(ws) ==> views(ws@) == page_of(store@, page as int, store.limit(), user_id),
    {
        match ListQuery::for_page(page, user_id, store.page_limit()) {
            Ok(q) => Ok(store.select(&q)),
            Err(e) => Err(e),
        }
    }

    /// The number of warnings visible under `user_id`.
    pub fn count(store: &WarningStore, user_id: Option<i32>) -> (r: i64)
        ensures
            r == count_of(store@, user_id),
    {
        store.tally(user_id)
    }

    /// Persists `warning` under an identifier assigned by the store and
    /// returns the stored record.
    pub fn create(store: &mut WarningStore, warning: Warning) -> (r: Result<Warning, AccessError>)
        ensures
            r is Ok <==> old(store)@.len() < i32::MAX,
            final(store).limit() == old(store).limit(),
            r matches Ok(s) ==> s@ == warning@.with_id((old(store)@.len() + 1) as i32)
                && final(store)@ == old(store)@.push(s@),
            r matches Ok(s) ==> (warning@.is_fresh() ==> s@.is_fresh()),
            r is Err ==> r == Err::<Warning, AccessError>(AccessError::StoreFull) && final(store)@
                == old(store)@,
    {
        store.insert(warning)
    }
}

} // verus!
