use vstd::prelude::*;

use crate::timestamp::{now_utc, Timestamp};

verus! {

/// A complaint filed by a reporter against a subject.
///
/// `resolved_by` is absent while the warning is open; its presence marks
/// the warning as resolved. `admin_note` is an operator-only annotation.
#[derive(Debug)]
pub struct Warning {
    pub id: i32,
    pub user_id: Option<i32>,
    pub model_id: Option<i32>,
    pub resolved_by: Option<i32>,
    pub note: String,
    pub admin_note: String,
    pub created: Timestamp,
    pub updated: Timestamp,
}

/// The mathematical value of a [`Warning`].
pub struct WarningView {
    pub id: i32,
    pub user_id: Option<i32>,
    pub model_id: Option<i32>,
    pub resolved_by: Option<i32>,
    pub note: Seq<char>,
    pub admin_note: Seq<char>,
    pub created: Timestamp,
    pub updated: Timestamp,
}

/// What a reporter submits to file a warning.
#[derive(Debug)]
pub struct WarningCreate {
    pub model_id: i32,
    pub note: String,
}

impl View for Warning {
    type V = WarningView;

    open spec fn view(&self) -> WarningView {
        WarningView {
            id: self.id,
            user_id: self.user_id,
            model_id: self.model_id,
            resolved_by: self.resolved_by,
            note: self.note@,
            admin_note: self.admin_note@,
            created: self.created,
            updated: self.updated,
        }
    }
}

/// The values of a sequence of warnings.
pub open spec fn views(ws: Seq<Warning>) -> Seq<WarningView> {
    ws.map_values(|w: Warning| w@)
}

impl WarningView {
    /// Open: no operator has resolved it yet.
    pub open spec fn is_open(self) -> bool {
        self.resolved_by is None
    }

    /// The state in which a warning is created: open, with no operator
    /// note, and not touched since its creation instant.
    pub open spec fn is_fresh(self) -> bool {
        &&& self.is_open()
        &&& self.admin_note.len() == 0
        &&& self.created == self.updated
    }

    /// The warning that `user_id` files against `model_id` with `note` at
    /// `now`, before the store gives it an identifier.
    pub open spec fn filed(user_id: i32, model_id: i32, note: Seq<char>, now: Timestamp) -> WarningView {
        WarningView {
            id: 0,
            user_id: Some(user_id),
            model_id: Some(model_id),
            resolved_by: None,
            note,
            admin_note: Seq::empty(),
            created: now,
            updated: now,
        }
    }

    /// The same record under the identifier `id`.
    pub open spec fn with_id(self, id: i32) -> WarningView {
        WarningView { id, ..self }
    }
}

impl Warning {
    /// A new open warning by `user_id` against `model_id`, created at the
    /// current instant (UTC).
    pub fn new(user_id: i32, model_id: i32, note: String) -> (r: Warning)
        ensures
            r@ == WarningView::filed(user_id, model_id, note@, r.created),
    {
        Warning::new_at(user_id, model_id, note, now_utc())
    }

    /// A new open warning by `user_id` against `model_id`, created at `now`.
    /// The identifier is left at zero: the store assigns it.
    pub fn new_at(user_id: i32, model_id: i32, note: String, now: Timestamp) -> (r: Warning)
        ensures
            r@ == WarningView::filed(user_id, model_id, note@, now),
            r@.is_fresh(),
    {
        Warning {
            id: 0,
            user_id: Some(user_id),
            model_id: Some(model_id),
            resolved_by: None,
            note,
            admin_note: String::new(),
            created: now,
            updated: now,
        }
    }

    /// A copy of this warning.
    pub fn duplicate(&self) -> (r: Warning)
        ensures
            r@ == self@,
    {
        Warning {
            id: self.id,
            user_id: self.user_id,
            model_id: self.model_id,
            resolved_by: self.resolved_by,
            note: self.note.clone(),
            admin_note: self.admin_note.clone(),
            created: self.created,
            updated: self.updated,
        }
    }
}

} // verus!
