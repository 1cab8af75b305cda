//! The todo service: an in-memory table of todo rows with the resource's
//! validation, lookup, partial-update and filter logic. Listings come
//! newest first; due-date queries are ordered by due date ascending.

use vstd::prelude::*;

use crate::error::ServiceError;
use crate::text::{blank, is_blank};
use crate::todo::{
    spec_priority_str, spec_status_str, todo_response_matches, CreateTodoRequest, Priority, Status,
    Todo, TodoResponse, UpdateTodoRequest,
};

verus! {

/// Whether a row is a valid stored row under a key bound: it has a key
/// and the key is positive and below the bound.
pub open spec fn valid_todo_row(t: Todo, next_id: i64) -> bool {
    t.id matches Some(id) && 0 < id < next_id
}

/// Whether some row carries the id.
pub open spec fn has_todo(todos: Seq<Todo>, id: i64) -> bool {
    exists|i: int| 0 <= i < todos.len() && todos[i].id == Some(id)
}

/// Index of the row carrying the id (unique in a well-formed table).
pub open spec fn todo_index(todos: Seq<Todo>, id: i64) -> int {
    choose|i: int| 0 <= i < todos.len() && todos[i].id == Some(id)
}

/// Whether a response list is the image of a row list, element by
/// element.
pub open spec fn responses_match_todos(rs: Seq<TodoResponse>, rows: Seq<Todo>, now: i64) -> bool {
    &&& rs.len() == rows.len()
    &&& forall|i: int| 0 <= i < rs.len() ==> todo_response_matches(#[trigger] rs[i], rows[i], now)
}

/// Whether a fresh row is what a creation request asked for, with the
/// given key and both timestamps at `now`; a missing status defaults to
/// pending and a missing priority to medium.
pub open spec fn todo_created_from(t: Todo, request: CreateTodoRequest, id: i64, now: i64) -> bool {
    &&& t.id == Some(id)
    &&& t.title == request.title
    &&& t.description == request.description
    &&& t.status@ == spec_status_str(request.status.unwrap_or(Status::Pending))
    &&& t.priority@ == spec_priority_str(request.priority.unwrap_or(Priority::Medium))
    &&& t.due_date == request.due_date
    &&& t.created_at == Some(now)
    &&& t.updated_at == Some(now)
}

/// Whether an update request carries no recognized field.
pub open spec fn todo_update_empty(request: UpdateTodoRequest) -> bool {
    &&& request.title is None
    &&& request.description is None
    &&& request.status is None
    &&& request.priority is None
    &&& request.due_date is None
}

/// Whether `t1` is `t0` with a partial update applied: present fields
/// replace the row's, the rest stay, and the update stamp moves to `now`
/// exactly when at least one recognized field was present.
pub open spec fn todo_update_applied(t0: Todo, t1: Todo, request: UpdateTodoRequest, now: i64) -> bool {
    &&& t1.id == t0.id
    &&& t1.created_at == t0.created_at
    &&& (match request.title {
        Some(x) => t1.title == x,
        None => t1.title == t0.title,
    })
    &&& (match request.description {
        Some(d) => t1.description == Some(d),
        None => t1.description == t0.description,
    })
    &&& (match request.status {
        Some(st) => t1.status@ == spec_status_str(st),
        None => t1.status == t0.status,
    })
    &&& (match request.priority {
        Some(p) => t1.priority@ == spec_priority_str(p),
        None => t1.priority == t0.priority,
    })
    &&& (match request.due_date {
        Some(d) => t1.due_date == Some(d),
        None => t1.due_date == t0.due_date,
    })
    &&& t1.updated_at == if todo_update_empty(request) {
        t0.updated_at
    } else {
        Some(now)
    }
}

/// The rows whose status has the given spelling, newest first.
pub open spec fn rev_todos_by_status(todos: Seq<Todo>, status: Status) -> Seq<Todo>
    decreases todos.len(),
{
    if todos.len() == 0 {
        Seq::empty()
    } else if todos.last().status@ == spec_status_str(status) {
        seq![todos.last()] + rev_todos_by_status(todos.drop_last(), status)
    } else {
        rev_todos_by_status(todos.drop_last(), status)
    }
}

/// The rows whose priority has the given spelling, newest first.
pub open spec fn rev_todos_by_priority(todos: Seq<Todo>, priority: Priority) -> Seq<Todo>
    decreases todos.len(),
{
    if todos.len() == 0 {
        Seq::empty()
    } else if todos.last().priority@ == spec_priority_str(priority) {
        seq![todos.last()] + rev_todos_by_priority(todos.drop_last(), priority)
    } else {
        rev_todos_by_priority(todos.drop_last(), priority)
    }
}

/// The rows that are overdue at `now`: due before `now` and not
/// completed.
pub open spec fn overdue_todos(todos: Seq<Todo>, now: i64) -> Seq<Todo>
    decreases todos.len(),
{
    if todos.len() == 0 {
        Seq::empty()
    } else if crate::todo::spec_overdue_todo(todos.last(), now) {
        overdue_todos(todos.drop_last(), now).push(todos.last())
    } else {
        overdue_todos(todos.drop_last(), now)
    }
}

/// Whether a row is due in the window `now ..= now + days*86400` and not
/// completed.
pub open spec fn spec_upcoming_todo(t: Todo, now: i64, days: i64) -> bool {
    match t.due_date {
        Some(due) => now <= due <= now + days * 86400 && t.status@ != "completed"@,
        None => false,
    }
}

/// The rows due within the window.
pub open spec fn upcoming_todos(todos: Seq<Todo>, now: i64, days: i64) -> Seq<Todo>
    decreases todos.len(),
{
    if todos.len() == 0 {
        Seq::empty()
    } else if spec_upcoming_todo(todos.last(), now, days) {
        upcoming_todos(todos.drop_last(), now, days).push(todos.last())
    } else {
        upcoming_todos(todos.drop_last(), now, days)
    }
}

/// Sort key for due-date listings; rows without a due date sort last.
pub open spec fn todo_due_key(t: Todo) -> int {
    match t.due_date {
        Some(d) => d as int,
        None => i64::MAX as int,
    }
}

/// Whether a row list is ordered by due date ascending.
pub open spec fn todos_sorted_by_due(rows: Seq<Todo>) -> bool {
    forall|i: int, j: int| 0 <= i < j < rows.len() ==> todo_due_key(#[trigger] rows[i]) <= todo_due_key(#[trigger] rows[j])
}

/// Sort rows by due date ascending; the result is a permutation of the
/// input.
fn sort_todos_by_due(v: Vec<Todo>) -> (r: Vec<Todo>)
    ensures
        r@.to_multiset() == v@.to_multiset(),
        todos_sorted_by_due(r@),
{
    broadcast use vstd::seq_lib::group_to_multiset_ensures;
    broadcast use vstd::multiset::group_multiset_axioms;

    let mut rest = v;
    let mut out: Vec<Todo> = Vec::new();
    while rest.len() > 0
        invariant
            out@.to_multiset().add(rest@.to_multiset()) == v@.to_multiset(),
            todos_sorted_by_due(out@),
            forall|i: int, j: int|
                0 <= i < out@.len() && 0 <= j < rest@.len() ==> todo_due_key(#[trigger] out@[i])
                    <= todo_due_key(#[trigger] rest@[j]),
        decreases rest@.len(),
    {
        let mut m: usize = 0;
        let mut k: usize = 1;
        while k < rest.len()
            invariant
                0 < rest@.len(),
                0 <= m < k <= rest@.len(),
                forall|j: int| 0 <= j < k ==> todo_due_key(rest@[m as int]) <= todo_due_key(#[trigger] rest@[j]),
            decreases rest@.len() - k,
        {
            let a = match rest[k].due_date {
                Some(d) => d,
                None => i64::MAX,
            };
            let b = match rest[m].due_date {
                Some(d) => d,
                None => i64::MAX,
            };
            if a < b {
                m = k;
            }
            k += 1;
        }
        let ghost prev_out = out@;
        let ghost prev_rest = rest@;
        let row = rest.remove(m);
        out.push(row);
        proof {
            prev_rest.to_multiset_ensures();
            prev_out.to_multiset_ensures();
            assert(prev_rest.contains(prev_rest[m as int]));
            assert(prev_rest.to_multiset().count(prev_rest[m as int]) > 0);
            assert(rest@ == prev_rest.remove(m as int));
            assert(rest@.to_multiset() == prev_rest.to_multiset().remove(prev_rest[m as int]));
            assert(out@.to_multiset() == prev_out.to_multiset().insert(prev_rest[m as int]));
            assert(out@.to_multiset().add(rest@.to_multiset()) =~= prev_out.to_multiset().add(
                prev_rest.to_multiset(),
            ));
        }
    }
    out
}

/// The todo service: the stored rows, in creation order, and the next
/// primary key. All methods state their effect on the stored rows.
pub struct TodoService {
    /// Stored rows, in creation order.
    pub todos: Vec<Todo>,
    /// The key the next created row receives.
    pub next_id: i64,
}

impl TodoService {
    /// Well-formedness: every row has a positive key below `next_id`, and
    /// keys are unique. Constructors establish it and methods keep it.
    pub open spec fn wf(self) -> bool {
        &&& 1 <= self.next_id
        &&& forall|i: int|
            0 <= i < self.todos@.len() ==> valid_todo_row(#[trigger] self.todos@[i], self.next_id)
        &&& forall|i: int, j: int|
            0 <= i < j < self.todos@.len() ==> self.todos@[i].id != self.todos@[j].id
    }

    /// An empty table.
    pub fn new() -> (s: TodoService)
        ensures
            s.wf(),
            s.todos@.len() == 0,
            s.next_id == 1,
    {
        TodoService { todos: Vec::new(), next_id: 1 }
    }

    /// Index of the row carrying the id, if any.
    fn find(&self, id: i64) -> (r: Option<usize>)
        ensures
            match r {
                Some(i) => i < self.todos@.len() && self.todos@[i as int].id == Some(id),
                None => !has_todo(self.todos@, id),
            },
    {
        let n = self.todos.len();
        let mut i: usize = 0;
        while i < n
            invariant
                0 <= i <= n,
                n == self.todos@.len(),
                forall|j: int| 0 <= j < i ==> self.todos@[j].id != Some(id),
            decreases n - i,
        {
            let found = match self.todos[i].id {
                Some(k) => k == id,
                None => false,
            };
            if found {
                return Some(i);
            }
            i += 1;
        }
        None
    }

    /// Whether a row with the key exists.
    pub fn contains(&self, id: i64) -> (r: bool)
        ensures
            r == has_todo(self.todos@, id),
    {
        match self.find(id) {
            Some(_) => true,
            None => false,
        }
    }

    /// Create a row from a request: a blank title is rejected and nothing
    /// changes; otherwise the row is appended with the next key and
    /// returned as a response.
    pub fn create(&mut self, request: CreateTodoRequest, now: i64) -> (r: Result<
        TodoResponse,
        ServiceError,
    >)
        requires
            old(self).wf(),
            old(self).next_id < i64::MAX,
        ensures
            final(self).wf(),
            blank(request.title@) ==> (r matches Err(e) && e is Validation && *final(self)
                == *old(self)),
            !blank(request.title@) ==> {
                &&& final(self).next_id == old(self).next_id + 1
                &&& final(self).todos@.len() == old(self).todos@.len() + 1
                &&& final(self).todos@.drop_last() == old(self).todos@
                &&& todo_created_from(
                    final(self).todos@.last(),
                    request,
                    old(self).next_id,
                    now,
                )
                &&& r matches Ok(resp) && todo_response_matches(
                    resp,
                    final(self).todos@.last(),
                    now,
                )
            },
    {
        if is_blank(request.title.as_str()) {
            return Err(ServiceError::validation("Title cannot be empty"));
        }
        let status = request.status.unwrap_or(Status::Pending);
        let priority = request.priority.unwrap_or(Priority::Medium);
        let mut row = Todo::new(
            request.title,
            request.description,
            priority,
            status,
            request.due_date,
            now,
        );
        row.id = Some(self.next_id);
        self.next_id = self.next_id + 1;
        self.todos.push(row);
        proof {
            assert(self.todos@.drop_last() =~= old(self).todos@);
        }
        let idx = self.todos.len() - 1;
        Ok(TodoResponse::from_todo(&self.todos[idx], now))
    }

    /// Look a row up by key.
    pub fn get_by_id(&self, id: i64, now: i64) -> (r: Result<TodoResponse, ServiceError>)
        requires
            self.wf(),
        ensures
            match r {
                Ok(resp) => has_todo(self.todos@, id) && todo_response_matches(
                    resp,
                    self.todos@[todo_index(self.todos@, id)],
                    now,
                ),
                Err(e) => e is NotFound && !has_todo(self.todos@, id),
            },
    {
        match self.find(id) {
            Some(i) => {
                proof {
                    let k = todo_index(self.todos@, id);
                    assert(self.todos@[i as int].id == Some(id));
                    assert(0 <= k < self.todos@.len() && self.todos@[k].id == Some(id));
                    assert(k == i);
                }
                Ok(TodoResponse::from_todo(&self.todos[i], now))
            },
            None => Err(ServiceError::not_found("Todo")),
        }
    }

    /// All rows, newest first.
    pub fn list(&self, now: i64) -> (r: Vec<TodoResponse>)
        ensures
            r@.len() == self.todos@.len(),
            forall|i: int|
                0 <= i < r@.len() ==> todo_response_matches(
                    #[trigger] r@[i],
                    self.todos@[self.todos@.len() - 1 - i],
                    now,
                ),
    {
        let n = self.todos.len();
        let mut result: Vec<TodoResponse> = Vec::new();
        let mut i: usize = n;
        while i > 0
            invariant
                0 <= i <= n,
                n == self.todos@.len(),
                result@.len() == n - i,
                forall|j: int|
                    0 <= j < result@.len() ==> todo_response_matches(
                        #[trigger] result@[j],
                        self.todos@[n - 1 - j],
                        now,
                    ),
            decreases i,
        {
            i -= 1;
            result.push(TodoResponse::from_todo(&self.todos[i], now));
        }
        result
    }

    /// Apply a partial update to the row carrying the id. An absent row
    /// is not-found; a present but blank title is rejected; a request
    /// with no recognized field returns the row unchanged without
    /// touching its update stamp. In every failure nothing changes.
    pub fn update(&mut self, id: i64, request: UpdateTodoRequest, now: i64) -> (r: Result<
        TodoResponse,
        ServiceError,
    >)
        requires
            old(self).wf(),
        ensures
            final(self).wf(),
            final(self).next_id == old(self).next_id,
            !has_todo(old(self).todos@, id) ==> (r matches Err(e) && e is NotFound && *final(self) == *old(self)),
            has_todo(old(self).todos@, id) && (request.title matches Some(t) && blank(t@)) ==> (r
                matches Err(e) && e is Validation && *final(self) == *old(self)),
            has_todo(old(self).todos@, id) && !(request.title matches Some(t) && blank(t@)) ==> {
                let k = todo_index(old(self).todos@, id);
                &&& final(self).todos@.len() == old(self).todos@.len()
                &&& forall|j: int|
                    0 <= j < old(self).todos@.len() && j != k ==> final(self).todos@[j] == old(self).todos@[j]
                &&& todo_update_applied(old(self).todos@[k], final(self).todos@[k], request, now)
                &&& r matches Ok(resp) && todo_response_matches(resp, final(self).todos@[k], now)
            },
    {
        let idx = match self.find(id) {
            Some(i) => i,
            None => {
                return Err(ServiceError::not_found("Todo"));
            },
        };
        proof {
            let k = todo_index(self.todos@, id);
            assert(self.todos@[idx as int].id == Some(id));
            assert(0 <= k < self.todos@.len() && self.todos@[k].id == Some(id));
            assert(k == idx);
        }
        if let Some(title) = &request.title {
            if is_blank(title.as_str()) {
                return Err(ServiceError::validation("Title cannot be empty"));
            }
        }
        if request.is_empty() {
            return Ok(TodoResponse::from_todo(&self.todos[idx], now));
        }
        let ghost prev = self.todos@;
        let mut row = self.todos.remove(idx);
        row.update(request, now);
        let ghost newrow = row;
        self.todos.insert(idx, row);
        proof {
            assert(self.todos@ =~= prev.update(idx as int, newrow));
        }
        Ok(TodoResponse::from_todo(&self.todos[idx], now))
    }

    /// Hard-delete the row carrying the id; absent rows are not-found and
    /// nothing changes.
    pub fn delete(&mut self, id: i64) -> (r: Result<(), ServiceError>)
        requires
            old(self).wf(),
        ensures
            final(self).wf(),
            final(self).next_id == old(self).next_id,
            !has_todo(old(self).todos@, id) ==> (r matches Err(e) && e is NotFound && *final(self) == *old(self)),
            has_todo(old(self).todos@, id) ==> r is Ok && final(self).todos@ == old(self).todos@.remove(todo_index(old(self).todos@, id)),
    {
        match self.find(id) {
            Some(i) => {
                proof {
                    let k = todo_index(self.todos@, id);
                    assert(self.todos@[i as int].id == Some(id));
                    assert(0 <= k < self.todos@.len() && self.todos@[k].id == Some(id));
                    assert(k == i);
                }
                self.todos.remove(i);
                Ok(())
            },
            None => Err(ServiceError::not_found("Todo")),
        }
    }

    /// Rows with the given status, newest first.
    pub fn get_by_status(&self, status: Status, now: i64) -> (r: Vec<TodoResponse>)
        ensures
            responses_match_todos(r@, rev_todos_by_status(self.todos@, status), now),
    {
        let n = self.todos.len();
        let mut result: Vec<TodoResponse> = Vec::new();
        let ghost mut done: Seq<Todo> = Seq::empty();
        let mut i: usize = n;
        proof {
            assert(self.todos@.subrange(0, n as int) =~= self.todos@);
            assert(done + rev_todos_by_status(self.todos@.subrange(0, i as int), status)
                =~= rev_todos_by_status(self.todos@, status));
        }
        while i > 0
            invariant
                0 <= i <= n,
                n == self.todos@.len(),
                responses_match_todos(result@, done, now),
                done + rev_todos_by_status(self.todos@.subrange(0, i as int), status)
                    == rev_todos_by_status(self.todos@, status),
            decreases i,
        {
            let ghost pre = self.todos@.subrange(0, i as int);
            proof {
                assert(pre.last() == self.todos@[i - 1]);
                assert(pre.drop_last() =~= self.todos@.subrange(0, i - 1));
            }
            i -= 1;
            let row = &self.todos[i];
            if crate::text::str_eq(row.status.as_str(), status.as_str()) {
                result.push(TodoResponse::from_todo(row, now));
                proof {
                    done = done.push(self.todos@[i as int]);
                    assert(done + rev_todos_by_status(self.todos@.subrange(0, i as int), status)
                        =~= done.drop_last() + (seq![self.todos@[i as int]] + rev_todos_by_status(
                        self.todos@.subrange(0, i as int),
                        status,
                    )));
                }
            }
        }
        proof {
            assert(self.todos@.subrange(0, 0) =~= Seq::<Todo>::empty());
            assert(done + rev_todos_by_status(Seq::empty(), status) =~= done);
        }
        result
    }

    /// Rows with the given priority, newest first.
    pub fn get_by_priority(&self, priority: Priority, now: i64) -> (r: Vec<TodoResponse>)
        ensures
            responses_match_todos(r@, rev_todos_by_priority(self.todos@, priority), now),
    {
        let n = self.todos.len();
        let mut result: Vec<TodoResponse> = Vec::new();
        let ghost mut done: Seq<Todo> = Seq::empty();
        let mut i: usize = n;
        proof {
            assert(self.todos@.subrange(0, n as int) =~= self.todos@);
            assert(done + rev_todos_by_priority(self.todos@.subrange(0, i as int), priority)
                =~= rev_todos_by_priority(self.todos@, priority));
        }
        while i > 0
            invariant
                0 <= i <= n,
                n == self.todos@.len(),
                responses_match_todos(result@, done, now),
                done + rev_todos_by_priority(self.todos@.subrange(0, i as int), priority)
                    == rev_todos_by_priority(self.todos@, priority),
            decreases i,
        {
            let ghost pre = self.todos@.subrange(0, i as int);
            proof {
                assert(pre.last() == self.todos@[i - 1]);
                assert(pre.drop_last() =~= self.todos@.subrange(0, i - 1));
            }
            i -= 1;
            let row = &self.todos[i];
            if crate::text::str_eq(row.priority.as_str(), priority.as_str()) {
                result.push(TodoResponse::from_todo(row, now));
                proof {
                    done = done.push(self.todos@[i as int]);
                    assert(done + rev_todos_by_priority(self.todos@.subrange(0, i as int), priority)
                        =~= done.drop_last() + (seq![self.todos@[i as int]]
                        + rev_todos_by_priority(self.todos@.subrange(0, i as int), priority)));
                }
            }
        }
        proof {
            assert(self.todos@.subrange(0, 0) =~= Seq::<Todo>::empty());
            assert(done + rev_todos_by_priority(Seq::empty(), priority) =~= done);
        }
        result
    }

    /// Rows overdue at `now`, ordered by due date ascending.
    pub fn get_overdue(&self, now: i64) -> (r: Vec<TodoResponse>)
        ensures
            exists|rows: Seq<Todo>|
                {
                    &&& #[trigger] rows.to_multiset() == overdue_todos(self.todos@, now).to_multiset()
                    &&& todos_sorted_by_due(rows)
                    &&& responses_match_todos(r@, rows, now)
                },
    {
        let n = self.todos.len();
        let mut matching: Vec<Todo> = Vec::new();
        let mut i: usize = 0;
        proof {
            assert(self.todos@.subrange(0, 0) =~= Seq::<Todo>::empty());
        }
        while i < n
            invariant
                0 <= i <= n,
                n == self.todos@.len(),
                matching@ == overdue_todos(self.todos@.subrange(0, i as int), now),
            decreases n - i,
        {
            let ghost pre = self.todos@.subrange(0, i + 1);
            proof {
                assert(pre.last() == self.todos@[i as int]);
                assert(pre.drop_last() =~= self.todos@.subrange(0, i as int));
            }
            let row = &self.todos[i];
            if row.is_overdue(now) {
                matching.push(clone_todo(row));
            }
            i += 1;
        }
        proof {
            assert(self.todos@.subrange(0, n as int) =~= self.todos@);
        }
        let sorted = sort_todos_by_due(matching);
        let ghost rows = sorted@;
        let mut result: Vec<TodoResponse> = Vec::new();
        let m = sorted.len();
        let mut j: usize = 0;
        while j < m
            invariant
                0 <= j <= m,
                m == sorted@.len(),
                sorted@ == rows,
                result@.len() == j,
                forall|k: int|
                    0 <= k < j ==> todo_response_matches(#[trigger] result@[k], rows[k], now),
            decreases m - j,
        {
            result.push(TodoResponse::from_todo(&sorted[j], now));
            j += 1;
        }
        result
    }

    /// Rows due between `now` and `now + days*86400`, not completed,
    /// ordered by due date ascending.
    pub fn get_upcoming(&self, days: i64, now: i64) -> (r: Vec<TodoResponse>)
        requires
            i64::MIN <= days * 86400 <= i64::MAX,
            i64::MIN <= now + days * 86400 <= i64::MAX,
        ensures
            exists|rows: Seq<Todo>|
                {
                    &&& #[trigger] rows.to_multiset() == upcoming_todos(
                        self.todos@,
                        now,
                        days,
                    ).to_multiset()
                    &&& todos_sorted_by_due(rows)
                    &&& responses_match_todos(r@, rows, now)
                },
    {
        let n = self.todos.len();
        let mut matching: Vec<Todo> = Vec::new();
        let mut i: usize = 0;
        proof {
            assert(self.todos@.subrange(0, 0) =~= Seq::<Todo>::empty());
        }
        while i < n
            invariant
                0 <= i <= n,
                n == self.todos@.len(),
                i64::MIN <= days * 86400 <= i64::MAX,
                i64::MIN <= now + days * 86400 <= i64::MAX,
                matching@ == upcoming_todos(self.todos@.subrange(0, i as int), now, days),
            decreases n - i,
        {
            let ghost pre = self.todos@.subrange(0, i + 1);
            proof {
                assert(pre.last() == self.todos@[i as int]);
                assert(pre.drop_last() =~= self.todos@.subrange(0, i as int));
            }
            let row = &self.todos[i];
            if row.is_due_soon(days, now) {
                matching.push(clone_todo(row));
            }
            i += 1;
        }
        proof {
            assert(self.todos@.subrange(0, n as int) =~= self.todos@);
        }
        let sorted = sort_todos_by_due(matching);
        let ghost rows = sorted@;
        let mut result: Vec<TodoResponse> = Vec::new();
        let m = sorted.len();
        let mut j: usize = 0;
        while j < m
            invariant
                0 <= j <= m,
                m == sorted@.len(),
                sorted@ == rows,
                result@.len() == j,
                forall|k: int|
                    0 <= k < j ==> todo_response_matches(#[trigger] result@[k], rows[k], now),
            decreases m - j,
        {
            result.push(TodoResponse::from_todo(&sorted[j], now));
            j += 1;
        }
        result
    }
}

/// Field-for-field copy of a row.
fn clone_todo(t: &Todo) -> (r: Todo)
    ensures
        r == *t,
{
    Todo {
        id: t.id,
        title: t.title.clone(),
        description: crate::text::clone_opt_string(&t.description),
        status: t.status.clone(),
        priority: t.priority.clone(),
        due_date: t.due_date,
        created_at: t.created_at,
        updated_at: t.updated_at,
    }
}

} // verus!
