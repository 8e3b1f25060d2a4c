use warning_ledger::{AccessError, ListQuery, Timestamp, Warning, WarningCreate, WarningStore};

fn at(secs: i64) -> Timestamp {
    Timestamp { secs, nanos: 0 }
}

fn filed(store: &mut WarningStore, user_id: i32, model_id: i32, note: &str) -> Warning {
    Warning::create(store, Warning::new_at(user_id, model_id, note.to_string(), at(100))).unwrap()
}

#[test]
fn new_warning_is_open() {
    let w = Warning::new(7, 42, "spam".to_string());
    assert_eq!(w.id, 0);
    assert_eq!(w.user_id, Some(7));
    assert_eq!(w.model_id, Some(42));
    assert_eq!(w.resolved_by, None);
    assert_eq!(w.note, "spam");
    assert_eq!(w.admin_note, "");
    assert_eq!(w.created, w.updated);
}

#[test]
fn clock_reads_a_recent_instant() {
    let w = Warning::new(1, 1, String::new());
    // 2020-01-01T00:00:00Z
    assert!(w.created.secs > 1_577_836_800);
    assert!(w.created.nanos < 2_000_000_000);
}

#[test]
fn created_warning_keeps_fields_and_gets_id() {
    let mut store = WarningStore::new(10);
    let a = filed(&mut store, 1, 10, "spam");
    let b = filed(&mut store, 2, 11, "abuse");
    assert_eq!(a.id, 1);
    assert_eq!(b.id, 2);
    assert_eq!(a.user_id, Some(1));
    assert_eq!(a.model_id, Some(10));
    assert_eq!(a.note, "spam");
    assert_eq!(a.resolved_by, None);
    assert_eq!(a.admin_note, "");
    assert_eq!(a.created, at(100));
    assert_eq!(a.updated, at(100));
}

#[test]
fn payload_becomes_warning() {
    let payload = WarningCreate { model_id: 5, note: "rude".to_string() };
    let w = Warning::new_at(3, payload.model_id, payload.note, at(9));
    assert_eq!(w.model_id, Some(5));
    assert_eq!(w.user_id, Some(3));
    assert_eq!(w.note, "rude");
    assert_eq!(w.created, at(9));
}

#[test]
fn two_reporters_scoped_views() {
    let mut store = WarningStore::new(10);
    filed(&mut store, 1, 10, "spam");
    filed(&mut store, 2, 11, "abuse");
    let mine = Warning::list(&store, 0, Some(1)).unwrap();
    assert_eq!(mine.len(), 1);
    assert_eq!(mine[0].user_id, Some(1));
    assert_eq!(mine[0].model_id, Some(10));
    assert_eq!(mine[0].note, "spam");
    assert_eq!(Warning::count(&store, Some(1)), 1);
    let all = Warning::list(&store, 0, None).unwrap();
    assert_eq!(all.len(), 2);
    assert_eq!(all[0].note, "spam");
    assert_eq!(all[1].note, "abuse");
    assert_eq!(Warning::count(&store, None), 2);
}

#[test]
fn five_warnings_in_pages_of_two() {
    let mut store = WarningStore::new(2);
    for i in 0..5 {
        filed(&mut store, 4, 20 + i, "dup");
    }
    let first = Warning::list(&store, 0, Some(4)).unwrap();
    assert_eq!(first.len(), 2);
    assert_eq!(first[0].id, 1);
    assert_eq!(first[1].id, 2);
    let second = Warning::list(&store, 1, Some(4)).unwrap();
    assert_eq!(second.len(), 2);
    assert_eq!(second[0].id, 3);
    assert_eq!(Warning::list(&store, 2, Some(4)).unwrap().len(), 1);
    assert_eq!(Warning::list(&store, 3, Some(4)).unwrap().len(), 0);
    assert_eq!(Warning::count(&store, Some(4)), 5);
}

#[test]
fn pages_never_exceed_limit() {
    let mut store = WarningStore::new(3);
    for i in 0..8 {
        filed(&mut store, i % 2, i, "n");
    }
    for page in 0..5 {
        for r in [None, Some(0), Some(1), Some(9)] {
            assert!(Warning::list(&store, page, r).unwrap().len() <= 3);
        }
    }
}

#[test]
fn paging_adds_up_to_count() {
    let mut store = WarningStore::new(3);
    for i in 0..8 {
        filed(&mut store, i % 3, i, "n");
    }
    for r in [None, Some(0), Some(1), Some(2), Some(7)] {
        let mut total: i64 = 0;
        let mut ids = Vec::new();
        let mut page = 0;
        loop {
            let rows = Warning::list(&store, page, r).unwrap();
            if rows.is_empty() {
                break;
            }
            total += rows.len() as i64;
            ids.extend(rows.iter().map(|w| w.id));
            page += 1;
        }
        assert_eq!(total, Warning::count(&store, r));
        let mut sorted = ids.clone();
        sorted.sort();
        sorted.dedup();
        assert_eq!(sorted, ids);
    }
}

#[test]
fn restricted_listing_only_own_records() {
    let mut store = WarningStore::new(10);
    filed(&mut store, 1, 1, "a");
    filed(&mut store, 2, 2, "b");
    filed(&mut store, 1, 3, "c");
    let mine = Warning::list(&store, 0, Some(1)).unwrap();
    assert_eq!(mine.len(), 2);
    assert!(mine.iter().all(|w| w.user_id == Some(1)));
    let theirs = Warning::list(&store, 0, Some(2)).unwrap();
    assert_eq!(theirs.len(), 1);
    assert!(Warning::list(&store, 0, None).unwrap().len() > mine.len());
    assert!(Warning::list(&store, 0, None).unwrap().len() > theirs.len());
    assert!(Warning::list(&store, 0, Some(99)).unwrap().is_empty());
}

#[test]
fn count_twice_agrees() {
    let mut store = WarningStore::new(2);
    filed(&mut store, 1, 1, "a");
    filed(&mut store, 1, 2, "b");
    filed(&mut store, 2, 3, "c");
    assert_eq!(Warning::count(&store, Some(1)), Warning::count(&store, Some(1)));
    assert_eq!(Warning::count(&store, None), Warning::count(&store, None));
    assert_eq!(Warning::count(&store, None), 3);
}

#[test]
fn empty_store_lists_nothing() {
    let store = WarningStore::new(5);
    assert!(Warning::list(&store, 0, None).unwrap().is_empty());
    assert_eq!(Warning::count(&store, None), 0);
    assert_eq!(Warning::count(&store, Some(1)), 0);
    assert_eq!(store.page_limit(), 5);
}

#[test]
fn negative_page_is_refused() {
    let store = WarningStore::new(5);
    assert_eq!(Warning::list(&store, -1, None).unwrap_err(), AccessError::InvalidPage);
    assert_eq!(ListQuery::for_page(-3, Some(1), 5), Err(AccessError::InvalidPage));
}

#[test]
fn overflowing_offset_is_refused() {
    let store = WarningStore::new(2);
    assert_eq!(Warning::list(&store, i64::MAX / 2 + 1, None).unwrap_err(), AccessError::InvalidPage);
    assert!(Warning::list(&store, i64::MAX / 2, None).unwrap().is_empty());
    assert_eq!(ListQuery::for_page(i64::MAX, None, 1).unwrap().offset, i64::MAX);
}

#[test]
fn query_offset_is_page_times_limit() {
    let q = ListQuery::for_page(3, Some(8), 25).unwrap();
    assert_eq!(q, ListQuery { user_id: Some(8), limit: 25, offset: 75 });
    let q0 = ListQuery::for_page(0, None, 25).unwrap();
    assert_eq!(q0.offset, 0);
    assert_eq!(q0.user_id, None);
}

#[test]
fn select_answers_query() {
    let mut store = WarningStore::new(2);
    for i in 0..6 {
        filed(&mut store, 1, i, "x");
    }
    let q = ListQuery { user_id: Some(1), limit: 3, offset: 4 };
    let rows = store.select(&q);
    assert_eq!(rows.iter().map(|w| w.id).collect::<Vec<_>>(), vec![5, 6]);
}

#[test]
fn duplicate_copies_every_field() {
    let w = Warning::new_at(1, 2, "n".to_string(), at(3));
    let d = w.duplicate();
    assert_eq!(d.note, w.note);
    assert_eq!(d.user_id, w.user_id);
    assert_eq!(d.created, w.created);
}
