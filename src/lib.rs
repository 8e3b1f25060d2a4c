//! A moderation warning ledger: warnings filed by reporters against a
//! tracked subject, with role-scoped, paginated listing and counting.
//!
//! An ordinary user lists and counts the warnings they filed; an operator
//! lists and counts all of them. Pages are cut from the visible records in
//! ascending order of `id`. A negative page number, or one whose offset does
//! not fit in an `i64`, is refused with [`AccessError::InvalidPage`].
//!
//! Listing is planned as a [`ListQuery`], which the in-memory
//! [`WarningStore`] of this crate answers, and which a relational store can
//! run as `SELECT ... WHERE user_id = $1 ORDER BY id LIMIT $2 OFFSET $3`.

mod error;
mod laws;
mod paging;
mod query;
mod store;
mod timestamp;
mod warning;

pub use error::AccessError;
pub use laws::{
    law_count_stable,
    law_created_warning_is_open,
    law_page_bounded,
    law_paging_reconstructs,
    law_restricted_page,
    law_unrestricted_superset,
};
pub use paging::{count_of, in_scope, page_of, pages_from, scoped, valid_page, window};
pub use query::ListQuery;
pub use store::WarningStore;
pub use timestamp::Timestamp;
pub use warning::{views, Warning, WarningCreate, WarningView};
