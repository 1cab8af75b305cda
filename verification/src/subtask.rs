//! The subtask record and its request and response shapes.
//!
//! A subtask always belongs to one parent todo and carries an
//! `order_index` that defines its position among its siblings.

use vstd::prelude::*;

use crate::text::{blank, clone_opt_string, is_blank, str_eq};
use crate::todo::{spec_priority_from, spec_status_from};

verus! {

/// A stored subtask row.
#[derive(Debug, Clone, PartialEq)]
pub struct Subtask {
    /// Primary key; absent until the store assigns one.
    pub id: Option<i64>,
    /// The owning todo; a subtask never exists without one.
    pub parent_todo_id: i64,
    pub title: String,
    pub description: Option<String>,
    pub status: String,
    pub priority: String,
    pub due_date: Option<i64>,
    /// Position among the siblings under the same parent.
    pub order_index: i64,
    pub created_at: Option<i64>,
    pub updated_at: Option<i64>,
}

/// Body of a subtask creation request.
#[derive(Debug, Clone, PartialEq)]
pub struct CreateSubtaskRequest {
    pub parent_todo_id: i64,
    pub title: String,
    pub description: Option<String>,
    pub priority: Option<String>,
    pub due_date: Option<i64>,
    pub order_index: Option<i64>,
}

/// Body of a partial subtask update; absent fields are left untouched.
#[derive(Debug, Clone, PartialEq)]
pub struct UpdateSubtaskRequest {
    pub title: Option<String>,
    pub description: Option<String>,
    pub status: Option<String>,
    pub priority: Option<String>,
    pub due_date: Option<i64>,
    pub order_index: Option<i64>,
}

/// The response shape of a subtask row.
#[derive(Debug, Clone, PartialEq)]
pub struct SubtaskResponse {
    pub id: i64,
    pub parent_todo_id: i64,
    pub title: String,
    pub description: Option<String>,
    pub status: String,
    pub priority: String,
    pub due_date: Option<i64>,
    pub order_index: i64,
    pub created_at: i64,
    pub updated_at: i64,
}

/// A todo together with its subtasks.
#[derive(Debug, Clone, PartialEq)]
pub struct TodoWithSubtasksResponse {
    pub id: i64,
    pub title: String,
    pub description: Option<String>,
    pub status: String,
    pub priority: String,
    pub due_date: Option<i64>,
    pub created_at: i64,
    pub updated_at: i64,
    pub subtasks: Vec<SubtaskResponse>,
}

/// Batch of partial subtask updates.
#[derive(Debug, Clone, PartialEq)]
pub struct BatchUpdateSubtasksRequest {
    pub subtasks: Vec<UpdateSubtaskRequest>,
}

/// The ordered id list of a reorder request.
#[derive(Debug, Clone, PartialEq)]
pub struct ReorderSubtasksRequest {
    pub subtask_ids: Vec<i64>,
}

/// Whether a response is the faithful image of a row; `now` stands in
/// for timestamps the row lacks and 0 for a missing id.
pub open spec fn subtask_response_matches(r: SubtaskResponse, s: Subtask, now: i64) -> bool {
    &&& r.id == s.id.unwrap_or(0)
    &&& r.parent_todo_id == s.parent_todo_id
    &&& r.title@ == s.title@
    &&& match (r.description, s.description) {
        (Some(a), Some(b)) => a@ == b@,
        (None, None) => true,
        _ => false,
    }
    &&& r.status@ == s.status@
    &&& r.priority@ == s.priority@
    &&& r.due_date == s.due_date
    &&& r.order_index == s.order_index
    &&& r.created_at == s.created_at.unwrap_or(now)
    &&& r.updated_at == s.updated_at.unwrap_or(now)
}

impl SubtaskResponse {
    /// Response view of a row.
    pub fn from_subtask(s: &Subtask, now: i64) -> (r: SubtaskResponse)
        ensures
            subtask_response_matches(r, *s, now),
    {
        SubtaskResponse {
            id: s.id.unwrap_or(0),
            parent_todo_id: s.parent_todo_id,
            title: s.title.clone(),
            description: clone_opt_string(&s.description),
            status: s.status.clone(),
            priority: s.priority.clone(),
            due_date: s.due_date,
            order_index: s.order_index,
            created_at: s.created_at.unwrap_or(now),
            updated_at: s.updated_at.unwrap_or(now),
        }
    }
}

impl Subtask {
    /// A fresh row, not yet stored: status starts pending, the priority
    /// defaults to medium, the order index to 0.
    pub fn new(
        parent_todo_id: i64,
        title: String,
        description: Option<String>,
        priority: Option<String>,
        due_date: Option<i64>,
        order_index: Option<i32>,
        now: i64,
    ) -> (s: Subtask)
        ensures
            s.id is None,
            s.parent_todo_id == parent_todo_id,
            s.title == title,
            s.description == description,
            s.status@ == "pending"@,
            match priority {
                Some(p) => s.priority == p,
                None => s.priority@ == "medium"@,
            },
            s.due_date == due_date,
            s.order_index == order_index.unwrap_or(0) as i64,
            s.created_at == Some(now),
            s.updated_at == Some(now),
    {
        Subtask {
            id: None,
            parent_todo_id,
            title,
            description,
            status: "pending".to_owned(),
            priority: match priority {
                Some(p) => p,
                None => "medium".to_owned(),
            },
            due_date,
            order_index: order_index.unwrap_or(0) as i64,
            created_at: Some(now),
            updated_at: Some(now),
        }
    }

    /// Apply a partial update. A status or priority outside its closed
    /// value set is ignored rather than stored; every other present field
    /// replaces the row's, and the update stamp becomes `now`.
    pub fn update(&mut self, update: UpdateSubtaskRequest, now: i64)
        ensures
            final(self).id == old(self).id,
            final(self).parent_todo_id == old(self).parent_todo_id,
            final(self).created_at == old(self).created_at,
            final(self).updated_at == Some(now),
            match update.title {
                Some(t) => final(self).title == t,
                None => final(self).title == old(self).title,
            },
            match update.description {
                Some(d) => final(self).description == Some(d),
                None => final(self).description == old(self).description,
            },
            match update.status {
                Some(st) => if spec_status_from(st@) is Some {
                    final(self).status == st
                } else {
                    final(self).status == old(self).status
                },
                None => final(self).status == old(self).status,
            },
            match update.priority {
                Some(p) => if spec_priority_from(p@) is Some {
                    final(self).priority == p
                } else {
                    final(self).priority == old(self).priority
                },
                None => final(self).priority == old(self).priority,
            },
            match update.due_date {
                Some(d) => final(self).due_date == Some(d),
                None => final(self).due_date == old(self).due_date,
            },
            match update.order_index {
                Some(o) => final(self).order_index == o,
                None => final(self).order_index == old(self).order_index,
            },
    {
        if let Some(title) = update.title {
            self.title = title;
        }
        if let Some(description) = update.description {
            self.description = Some(description);
        }
        if let Some(status) = update.status {
            if str_eq(status.as_str(), "pending") || str_eq(status.as_str(), "in_progress")
                || str_eq(status.as_str(), "completed") {
                self.status = status;
            }
        }
        if let Some(priority) = update.priority {
            if str_eq(priority.as_str(), "low") || str_eq(priority.as_str(), "medium") || str_eq(
                priority.as_str(),
                "high",
            ) {
                self.priority = priority;
            }
        }
        if let Some(due_date) = update.due_date {
            self.due_date = Some(due_date);
        }
        if let Some(order_index) = update.order_index {
            self.order_index = order_index;
        }
        self.updated_at = Some(now);
    }

    /// Whether the row's status is the completed one.
    pub fn is_completed(&self) -> (r: bool)
        ensures
            r == (self.status@ == "completed"@),
    {
        str_eq(self.status.as_str(), "completed")
    }

    /// Whether the row is past its due date at time `now` and not
    /// completed.
    pub fn is_overdue(&self, now: i64) -> (r: bool)
        ensures
            r == spec_overdue_subtask(*self, now),
    {
        match self.due_date {
            Some(due) => due < now && !self.is_completed(),
            None => false,
        }
    }

    /// Assign consecutive order indices starting at `start_index`, in the
    /// rows' current order; nothing else changes.
    pub fn reorder_subtasks(subtasks: &mut Vec<Subtask>, start_index: i64)
        requires
            old(subtasks)@.len() <= i64::MAX,
            start_index + old(subtasks)@.len() <= i64::MAX,
        ensures
            final(subtasks)@.len() == old(subtasks)@.len(),
            forall|i: int|
                0 <= i < old(subtasks)@.len() ==> final(subtasks)@[i] == with_order(
                    old(subtasks)@[i],
                    (start_index + i) as i64,
                ),
    {
        let n = subtasks.len();
        let mut i: usize = 0;
        while i < n
            invariant
                0 <= i <= n,
                n == subtasks@.len(),
                n == old(subtasks)@.len(),
                n <= i64::MAX,
                start_index + n <= i64::MAX,
                forall|j: int| i <= j < n ==> subtasks@[j] == old(subtasks)@[j],
                forall|j: int|
                    0 <= j < i ==> subtasks@[j] == with_order(
                        old(subtasks)@[j],
                        (start_index + j) as i64,
                    ),
            decreases n - i,
        {
            let ghost prev = subtasks@;
            let mut row = subtasks.remove(i);
            row.order_index = start_index + (i as i64);
            let ghost newrow = row;
            subtasks.insert(i, row);
            proof {
                assert(subtasks@ =~= prev.update(i as int, newrow));
            }
            i += 1;
        }
    }
}

/// The same row with its order index replaced.
pub open spec fn with_order(s: Subtask, order_index: i64) -> Subtask {
    Subtask { order_index, ..s }
}

/// Whether a row is overdue at time `now`.
pub open spec fn spec_overdue_subtask(s: Subtask, now: i64) -> bool {
    match s.due_date {
        Some(due) => due < now && s.status@ != "completed"@,
        None => false,
    }
}

/// Whether a sequence of ids has no duplicates.
pub open spec fn distinct_ids(ids: Seq<i64>) -> bool {
    forall|i: int, j: int| 0 <= i < j < ids.len() ==> ids[i] != ids[j]
}

impl CreateSubtaskRequest {
    /// A creation request is valid when its title is not blank and a
    /// priority, if given, is in the closed value set.
    pub fn validate(&self) -> (r: Result<(), String>)
        ensures
            r is Ok <==> !blank(self.title@) && (self.priority matches Some(p) ==>
                spec_priority_from(p@) is Some),
    {
        if is_blank(self.title.as_str()) {
            return Err("Title cannot be empty".to_owned());
        }
        if let Some(priority) = &self.priority {
            if !(str_eq(priority.as_str(), "low") || str_eq(priority.as_str(), "medium") || str_eq(
                priority.as_str(),
                "high",
            )) {
                return Err("Priority must be 'low', 'medium', or 'high'".to_owned());
            }
        }
        Ok(())
    }
}

impl UpdateSubtaskRequest {
    /// An update request is valid when each present enumerated field is
    /// in its closed value set and a present title is not blank.
    pub fn validate(&self) -> (r: Result<(), String>)
        ensures
            r is Ok <==> {
                &&& self.status matches Some(st) ==> spec_status_from(st@) is Some
                &&& self.priority matches Some(p) ==> spec_priority_from(p@) is Some
                &&& self.title matches Some(t) ==> !blank(t@)
            },
    {
        if let Some(status) = &self.status {
            if !(str_eq(status.as_str(), "pending") || str_eq(status.as_str(), "in_progress")
                || str_eq(status.as_str(), "completed")) {
                return Err("Status must be 'pending', 'in_progress', or 'completed'".to_owned());
            }
        }
        if let Some(priority) = &self.priority {
            if !(str_eq(priority.as_str(), "low") || str_eq(priority.as_str(), "medium") || str_eq(
                priority.as_str(),
                "high",
            )) {
                return Err("Priority must be 'low', 'medium', or 'high'".to_owned());
            }
        }
        if let Some(title) = &self.title {
            if is_blank(title.as_str()) {
                return Err("Title cannot be empty".to_owned());
            }
        }
        Ok(())
    }

    /// Whether the request carries no recognized field.
    pub fn is_empty(&self) -> (r: bool)
        ensures
            r == (self.title is None && self.description is None && self.status is None
                && self.priority is None && self.due_date is None && self.order_index is None),
    {
        self.title.is_none() && self.description.is_none() && self.status.is_none()
            && self.priority.is_none() && self.due_date.is_none() && self.order_index.is_none()
    }
}

impl ReorderSubtasksRequest {
    /// A reorder request is valid when its id list is non-empty and free
    /// of duplicates; this is checked before any write happens.
    pub fn validate(&self) -> (r: Result<(), String>)
        ensures
            r is Ok <==> self.subtask_ids@.len() > 0 && distinct_ids(self.subtask_ids@),
    {
        let n = self.subtask_ids.len();
        if n == 0 {
            return Err("Subtask IDs list cannot be empty".to_owned());
        }
        let mut i: usize = 0;
        while i < n
            invariant
                0 <= i <= n,
                n == self.subtask_ids@.len(),
                forall|a: int, b: int|
                    0 <= a < b < n && a < i ==> self.subtask_ids@[a] != self.subtask_ids@[b],
            decreases n - i,
        {
            let mut j: usize = i + 1;
            while j < n
                invariant
                    0 <= i < j <= n,
                    n == self.subtask_ids@.len(),
                    forall|b: int| i < b < j ==> self.subtask_ids@[i as int] != self.subtask_ids@[b],
                decreases n - j,
            {
                if self.subtask_ids[i] == self.subtask_ids[j] {
                    return Err("Duplicate subtask IDs are not allowed".to_owned());
                }
                j += 1;
            }
            i += 1;
        }
        Ok(())
    }
}

} // verus!
