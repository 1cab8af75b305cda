//! The todo record and its request and response shapes.
//!
//! A row's `status` and `priority` are stored as strings drawn from
//! closed value sets; timestamps and due dates are seconds since the
//! Unix epoch, supplied by the caller.

use vstd::prelude::*;

use crate::text::{blank, clone_opt_string, is_blank, str_eq};

verus! {

/// Priority of a todo or subtask.
#[derive(Clone, Copy, Debug, PartialEq, Eq, Structural)]
pub enum Priority {
    Low,
    Medium,
    High,
}

/// The storage spelling of each priority.
pub open spec fn spec_priority_str(p: Priority) -> Seq<char> {
    match p {
        Priority::Low => "low"@,
        Priority::Medium => "medium"@,
        Priority::High => "high"@,
    }
}

/// The priority a storage spelling denotes, if any.
pub open spec fn spec_priority_from(s: Seq<char>) -> Option<Priority> {
    if s == "low"@ {
        Some(Priority::Low)
    } else if s == "medium"@ {
        Some(Priority::Medium)
    } else if s == "high"@ {
        Some(Priority::High)
    } else {
        None
    }
}

impl Priority {
    /// The storage spelling of this priority.
    pub fn as_str(&self) -> (s: &'static str)
        ensures
            s@ == spec_priority_str(*self),
    {
        match self {
            Priority::Low => "low",
            Priority::Medium => "medium",
            Priority::High => "high",
        }
    }

    /// Parse a storage spelling; anything outside the closed set is
    /// rejected.
    pub fn from_str(s: &str) -> (p: Option<Priority>)
        ensures
            p == spec_priority_from(s@),
    {
        if str_eq(s, "low") {
            Some(Priority::Low)
        } else if str_eq(s, "medium") {
            Some(Priority::Medium)
        } else if str_eq(s, "high") {
            Some(Priority::High)
        } else {
            None
        }
    }
}

/// Law: every priority's spelling parses back to that priority, so the
/// closed value set round-trips.
pub proof fn lemma_priority_round_trip(p: Priority)
    ensures
        spec_priority_from(spec_priority_str(p)) == Some(p),
{
    reveal_strlit("low");
    reveal_strlit("medium");
    reveal_strlit("high");
    assert("low"@.len() == 3);
    assert("medium"@.len() == 6);
    assert("high"@.len() == 4);
}

/// Status of a todo or subtask.
#[derive(Clone, Copy, Debug, PartialEq, Eq, Structural)]
pub enum Status {
    Pending,
    InProgress,
    Completed,
}

/// The storage spelling of each status.
pub open spec fn spec_status_str(st: Status) -> Seq<char> {
    match st {
        Status::Pending => "pending"@,
        Status::InProgress => "in_progress"@,
        Status::Completed => "completed"@,
    }
}

/// The status a storage spelling denotes, if any.
pub open spec fn spec_status_from(s: Seq<char>) -> Option<Status> {
    if s == "pending"@ {
        Some(Status::Pending)
    } else if s == "in_progress"@ {
        Some(Status::InProgress)
    } else if s == "completed"@ {
        Some(Status::Completed)
    } else {
        None
    }
}

impl Status {
    /// The storage spelling of this status.
    pub fn as_str(&self) -> (s: &'static str)
        ensures
            s@ == spec_status_str(*self),
    {
        match self {
            Status::Pending => "pending",
            Status::InProgress => "in_progress",
            Status::Completed => "completed",
        }
    }

    /// Parse a storage spelling; anything outside the closed set is
    /// rejected.
    pub fn from_str(s: &str) -> (st: Option<Status>)
        ensures
            st == spec_status_from(s@),
    {
        if str_eq(s, "pending") {
            Some(Status::Pending)
        } else if str_eq(s, "in_progress") {
            Some(Status::InProgress)
        } else if str_eq(s, "completed") {
            Some(Status::Completed)
        } else {
            None
        }
    }
}

/// Law: every status's spelling parses back to that status.
pub proof fn lemma_status_round_trip(st: Status)
    ensures
        spec_status_from(spec_status_str(st)) == Some(st),
{
    reveal_strlit("pending");
    reveal_strlit("in_progress");
    reveal_strlit("completed");
    assert("pending"@.len() == 7);
    assert("in_progress"@.len() == 11);
    assert("completed"@.len() == 9);
}

/// A stored todo row.
#[derive(Debug, Clone, PartialEq)]
pub struct Todo {
    /// Primary key; absent until the store assigns one.
    pub id: Option<i64>,
    pub title: String,
    pub description: Option<String>,
    pub status: String,
    pub priority: String,
    pub due_date: Option<i64>,
    pub created_at: Option<i64>,
    pub updated_at: Option<i64>,
}

/// Body of a todo creation request.
#[derive(Debug, Clone, PartialEq)]
pub struct CreateTodoRequest {
    pub title: String,
    pub description: Option<String>,
    pub priority: Option<Priority>,
    pub status: Option<Status>,
    pub due_date: Option<i64>,
}

/// Body of a partial todo update; absent fields are left untouched.
#[derive(Debug, Clone, PartialEq)]
pub struct UpdateTodoRequest {
    pub title: Option<String>,
    pub description: Option<String>,
    pub status: Option<Status>,
    pub priority: Option<Priority>,
    pub due_date: Option<i64>,
}

impl UpdateTodoRequest {
    /// Whether the request carries no recognized field, so an update
    /// would be a no-op.
    pub fn is_empty(&self) -> (r: bool)
        ensures
            r == (self.title is None && self.description is None && self.status is None
                && self.priority is None && self.due_date is None),
    {
        self.title.is_none() && self.description.is_none() && self.status.is_none()
            && self.priority.is_none() && self.due_date.is_none()
    }
}

/// The response shape of a todo row.
#[derive(Debug, Clone, PartialEq)]
pub struct TodoResponse {
    pub id: i64,
    pub title: String,
    pub description: Option<String>,
    pub status: String,
    pub priority: String,
    pub due_date: Option<i64>,
    pub created_at: i64,
    pub updated_at: i64,
}

/// Whether a response is the faithful image of a row; `now` stands in
/// for timestamps the row lacks and 0 for a missing id, as the transport
/// mapping did.
pub open spec fn todo_response_matches(r: TodoResponse, t: Todo, now: i64) -> bool {
    &&& r.id == t.id.unwrap_or(0)
    &&& r.title@ == t.title@
    &&& match (r.description, t.description) {
        (Some(a), Some(b)) => a@ == b@,
        (None, None) => true,
        _ => false,
    }
    &&& r.status@ == t.status@
    &&& r.priority@ == t.priority@
    &&& r.due_date == t.due_date
    &&& r.created_at == t.created_at.unwrap_or(now)
    &&& r.updated_at == t.updated_at.unwrap_or(now)
}

impl TodoResponse {
    /// Response view of a row.
    pub fn from_todo(t: &Todo, now: i64) -> (r: TodoResponse)
        ensures
            todo_response_matches(r, *t, now),
    {
        TodoResponse {
            id: t.id.unwrap_or(0),
            title: t.title.clone(),
            description: clone_opt_string(&t.description),
            status: t.status.clone(),
            priority: t.priority.clone(),
            due_date: t.due_date,
            created_at: t.created_at.unwrap_or(now),
            updated_at: t.updated_at.unwrap_or(now),
        }
    }
}

impl Todo {
    /// A fresh row, not yet stored (no id); both timestamps are `now`.
    pub fn new(
        title: String,
        description: Option<String>,
        priority: Priority,
        status: Status,
        due_date: Option<i64>,
        now: i64,
    ) -> (t: Todo)
        ensures
            t.id is None,
            t.title == title,
            t.description == description,
            t.status@ == spec_status_str(status),
            t.priority@ == spec_priority_str(priority),
            t.due_date == due_date,
            t.created_at == Some(now),
            t.updated_at == Some(now),
    {
        Todo {
            id: None,
            title,
            description,
            status: status.as_str().to_owned(),
            priority: priority.as_str().to_owned(),
            due_date,
            created_at: Some(now),
            updated_at: Some(now),
        }
    }

    /// Apply a partial update: fields present in the request replace the
    /// row's, the rest are untouched, and the update stamp becomes `now`.
    pub fn update(&mut self, update: UpdateTodoRequest, now: i64)
        ensures
            final(self).id == old(self).id,
            final(self).created_at == old(self).created_at,
            final(self).updated_at == Some(now),
            match update.title {
                Some(t) => final(self).title == t,
                None => final(self).title == old(self).title,
            },
            match update.description {
                Some(d) => final(self).description == Some(d),
                None => final(self).description == old(self).description,
            },
            match update.status {
                Some(st) => final(self).status@ == spec_status_str(st),
                None => final(self).status == old(self).status,
            },
            match update.priority {
                Some(p) => final(self).priority@ == spec_priority_str(p),
                None => final(self).priority == old(self).priority,
            },
            match update.due_date {
                Some(d) => final(self).due_date == Some(d),
                None => final(self).due_date == old(self).due_date,
            },
    {
        if let Some(title) = update.title {
            self.title = title;
        }
        if let Some(description) = update.description {
            self.description = Some(description);
        }
        if let Some(status) = update.status {
            self.status = status.as_str().to_owned();
        }
        if let Some(priority) = update.priority {
            self.priority = priority.as_str().to_owned();
        }
        if let Some(due_date) = update.due_date {
            self.due_date = Some(due_date);
        }
        self.updated_at = Some(now);
    }

    /// Whether the row's status is the completed one.
    pub fn is_completed(&self) -> (r: bool)
        ensures
            r == (self.status@ == "completed"@),
    {
        str_eq(self.status.as_str(), "completed")
    }

    /// The row's priority, if its spelling is in the closed set.
    pub fn get_priority(&self) -> (p: Option<Priority>)
        ensures
            p == spec_priority_from(self.priority@),
    {
        Priority::from_str(self.priority.as_str())
    }

    /// The row's status, if its spelling is in the closed set.
    pub fn get_status(&self) -> (st: Option<Status>)
        ensures
            st == spec_status_from(self.status@),
    {
        Status::from_str(self.status.as_str())
    }

    /// Whether the row is past its due date at time `now` and not
    /// completed. A row without a due date is never overdue.
    pub fn is_overdue(&self, now: i64) -> (r: bool)
        ensures
            r == spec_overdue_todo(*self, now),
    {
        match self.due_date {
            Some(due) => due < now && !self.is_completed(),
            None => false,
        }
    }

    /// Whether the row is due within `days` days of `now` (inclusive),
    /// not yet due before `now`, and not completed.
    pub fn is_due_soon(&self, days: i64, now: i64) -> (r: bool)
        requires
            i64::MIN <= days * 86400 <= i64::MAX,
            i64::MIN <= now + days * 86400 <= i64::MAX,
        ensures
            r == (match self.due_date {
                Some(due) => now <= due <= now + days * 86400 && self.status@ != "completed"@,
                None => false,
            }),
    {
        match self.due_date {
            Some(due) => {
                let threshold = now + days * 86400;
                due <= threshold && due >= now && !self.is_completed()
            },
            None => false,
        }
    }
}

/// Whether a row is overdue at time `now`.
pub open spec fn spec_overdue_todo(t: Todo, now: i64) -> bool {
    match t.due_date {
        Some(due) => due < now && t.status@ != "completed"@,
        None => false,
    }
}

} // verus!
