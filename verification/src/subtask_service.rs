//! The subtask service: an in-memory table of subtask rows with the
//! resource's validation, lookup, partial-update and filter logic, and
//! the one multi-row atomic operation, reordering the subtasks of a
//! parent todo. Sibling listings come ordered by order index; due-date
//! queries by due date ascending.

use vstd::prelude::*;

use crate::error::ServiceError;
use crate::subtask::{
    distinct_ids, spec_overdue_subtask, subtask_response_matches, with_order, CreateSubtaskRequest,
    Subtask, SubtaskResponse, UpdateSubtaskRequest,
};
use crate::text::{blank, str_eq};
use crate::todo::{spec_priority_from, spec_status_from};
use crate::todo_service::{has_todo, TodoService};

verus! {

/// Whether a row is a valid stored row under a key bound.
pub open spec fn valid_subtask_row(s: Subtask, next_id: i64) -> bool {
    s.id matches Some(id) && 0 < id < next_id
}

/// Whether some row carries the id.
pub open spec fn has_subtask(subtasks: Seq<Subtask>, id: i64) -> bool {
    exists|i: int| 0 <= i < subtasks.len() && subtasks[i].id == Some(id)
}

/// Index of the row carrying the id (unique in a well-formed table).
pub open spec fn subtask_index(subtasks: Seq<Subtask>, id: i64) -> int {
    choose|i: int| 0 <= i < subtasks.len() && subtasks[i].id == Some(id)
}

/// Whether some row carries the id and belongs to the parent.
pub open spec fn has_sibling(subtasks: Seq<Subtask>, id: i64, parent: i64) -> bool {
    exists|i: int|
        0 <= i < subtasks.len() && subtasks[i].id == Some(id) && subtasks[i].parent_todo_id
            == parent
}

/// Whether a response list is the image of a row list, element by
/// element.
pub open spec fn responses_match_subtasks(
    rs: Seq<SubtaskResponse>,
    rows: Seq<Subtask>,
    now: i64,
) -> bool {
    &&& rs.len() == rows.len()
    &&& forall|i: int|
        0 <= i < rs.len() ==> subtask_response_matches(#[trigger] rs[i], rows[i], now)
}

/// The largest order index among the parent's rows, or -1 with none.
pub open spec fn max_sibling_order(subtasks: Seq<Subtask>, parent: i64) -> int
    decreases subtasks.len(),
{
    if subtasks.len() == 0 {
        -1
    } else {
        let rest = max_sibling_order(subtasks.drop_last(), parent);
        if subtasks.last().parent_todo_id == parent && subtasks.last().order_index > rest {
            subtasks.last().order_index as int
        } else {
            rest
        }
    }
}

/// The order index a created row receives when the request names none:
/// one past the largest sibling index, saturating at the type's bound.
pub open spec fn spec_next_order(subtasks: Seq<Subtask>, parent: i64) -> int {
    let m = max_sibling_order(subtasks, parent);
    if m < i64::MAX {
        m + 1
    } else {
        i64::MAX as int
    }
}

/// Whether a fresh row is what a creation request asked for: status
/// starts pending, a missing priority defaults to medium, a missing
/// order index to one past the largest sibling index.
pub open spec fn subtask_created_from(
    s: Subtask,
    request: CreateSubtaskRequest,
    id: i64,
    default_order: int,
    now: i64,
) -> bool {
    &&& s.id == Some(id)
    &&& s.parent_todo_id == request.parent_todo_id
    &&& s.title == request.title
    &&& s.description == request.description
    &&& s.status@ == "pending"@
    &&& (match request.priority {
        Some(p) => s.priority == p,
        None => s.priority@ == "medium"@,
    })
    &&& s.due_date == request.due_date
    &&& s.order_index == match request.order_index {
        Some(o) => o as int,
        None => default_order,
    }
    &&& s.created_at == Some(now)
    &&& s.updated_at == Some(now)
}

/// Whether an update request carries no recognized field.
pub open spec fn subtask_update_empty(request: UpdateSubtaskRequest) -> bool {
    &&& request.title is None
    &&& request.description is None
    &&& request.status is None
    &&& request.priority is None
    &&& request.due_date is None
    &&& request.order_index is None
}

/// Whether `s1` is `s0` with a valid partial update applied; the update
/// stamp moves to `now` exactly when a recognized field was present.
pub open spec fn subtask_update_applied(
    s0: Subtask,
    s1: Subtask,
    request: UpdateSubtaskRequest,
    now: i64,
) -> bool {
    &&& s1.id == s0.id
    &&& s1.parent_todo_id == s0.parent_todo_id
    &&& s1.created_at == s0.created_at
    &&& (match request.title {
        Some(t) => s1.title == t,
        None => s1.title == s0.title,
    })
    &&& (match request.description {
        Some(d) => s1.description == Some(d),
        None => s1.description == s0.description,
    })
    &&& (match request.status {
        Some(st) => s1.status == st,
        None => s1.status == s0.status,
    })
    &&& (match request.priority {
        Some(p) => s1.priority == p,
        None => s1.priority == s0.priority,
    })
    &&& (match request.due_date {
        Some(d) => s1.due_date == Some(d),
        None => s1.due_date == s0.due_date,
    })
    &&& (match request.order_index {
        Some(o) => s1.order_index == o,
        None => s1.order_index == s0.order_index,
    })
    &&& s1.updated_at == if subtask_update_empty(request) {
        s0.updated_at
    } else {
        Some(now)
    }
}

/// Whether an id is among the requested ids.
pub open spec fn in_ids(ids: Seq<i64>, id: Option<i64>) -> bool {
    id matches Some(v) && exists|k: int| 0 <= k < ids.len() && ids[k] == v
}

/// Position of an id in the requested list.
pub open spec fn id_pos(ids: Seq<i64>, id: i64) -> int {
    choose|k: int| 0 <= k < ids.len() && ids[k] == id
}

/// Whether every requested id names a row of the parent.
pub open spec fn all_ids_belong(subtasks: Seq<Subtask>, ids: Seq<i64>, parent: i64) -> bool {
    forall|k: int| 0 <= k < ids.len() ==> has_sibling(subtasks, #[trigger] ids[k], parent)
}

/// Whether `s1` is `s0` with the reorder applied: the row carrying the
/// id at position `k` of the list has order index `k`, every other row
/// is untouched.
pub open spec fn reorder_applied(s0: Seq<Subtask>, s1: Seq<Subtask>, ids: Seq<i64>) -> bool {
    &&& s1.len() == s0.len()
    &&& forall|j: int|
        0 <= j < s0.len() ==> #[trigger] s1[j] == if in_ids(ids, s0[j].id) {
            with_order(s0[j], id_pos(ids, s0[j].id.unwrap_or(0)) as i64)
        } else {
            s0[j]
        }
}

/// Law: reordering is idempotent. Applying the same id list to the
/// result of a reorder changes nothing: the second pass assigns every
/// touched row the order index it already has.
pub proof fn lemma_reorder_idempotent(
    s0: Seq<Subtask>,
    s1: Seq<Subtask>,
    s2: Seq<Subtask>,
    ids: Seq<i64>,
)
    requires
        reorder_applied(s0, s1, ids),
        reorder_applied(s1, s2, ids),
    ensures
        s2 =~= s1,
{
    assert forall|j: int| 0 <= j < s1.len() implies s2[j] == s1[j] by {
        assert(s1[j] == if in_ids(ids, s0[j].id) {
            with_order(s0[j], id_pos(ids, s0[j].id.unwrap_or(0)) as i64)
        } else {
            s0[j]
        });
        assert(s1[j].id == s0[j].id);
    }
}

/// Sort key for due-date listings; rows without a due date sort last.
pub open spec fn subtask_due_key(s: Subtask) -> int {
    match s.due_date {
        Some(d) => d as int,
        None => i64::MAX as int,
    }
}

/// Whether a row list is ordered by due date ascending.
pub open spec fn subtasks_sorted_by_due(rows: Seq<Subtask>) -> bool {
    forall|i: int, j: int|
        0 <= i < j < rows.len() ==> subtask_due_key(#[trigger] rows[i]) <= subtask_due_key(
            #[trigger] rows[j],
        )
}

/// Sibling order: by order index, then by creation time.
pub open spec fn position_le(a: Subtask, b: Subtask) -> bool {
    ||| a.order_index < b.order_index
    ||| (a.order_index == b.order_index && a.created_at.unwrap_or(0) <= b.created_at.unwrap_or(0))
}

/// Whether a row list is in sibling order.
pub open spec fn subtasks_sorted_by_position(rows: Seq<Subtask>) -> bool {
    forall|i: int, j: int| 0 <= i < j < rows.len() ==> position_le(#[trigger] rows[i], #[trigger] rows[j])
}

/// Sort rows by due date ascending; the result is a permutation of the
/// input.
fn sort_subtasks_by_due(v: Vec<Subtask>) -> (r: Vec<Subtask>)
    ensures
        r@.to_multiset() == v@.to_multiset(),
        subtasks_sorted_by_due(r@),
{
    broadcast use vstd::seq_lib::group_to_multiset_ensures;
    broadcast use vstd::multiset::group_multiset_axioms;

    let mut rest = v;
    let mut out: Vec<Subtask> = Vec::new();
    while rest.len() > 0
        invariant
            out@.to_multiset().add(rest@.to_multiset()) == v@.to_multiset(),
            subtasks_sorted_by_due(out@),
            forall|i: int, j: int|
                0 <= i < out@.len() && 0 <= j < rest@.len() ==> subtask_due_key(#[trigger] out@[i])
                    <= subtask_due_key(#[trigger] rest@[j]),
        decreases rest@.len(),
    {
        let mut m: usize = 0;
        let mut k: usize = 1;
        while k < rest.len()
            invariant
                0 < rest@.len(),
                0 <= m < k <= rest@.len(),
                forall|j: int|
                    0 <= j < k ==> subtask_due_key(rest@[m as int]) <= subtask_due_key(
                        #[trigger] rest@[j],
                    ),
            decreases rest@.len() - k,
        {
            let a = match rest[k].due_date {
                Some(d) => d,
                None => i64::MAX,
            };
            let b = match rest[m].due_date {
                Some(d) => d,
                None => i64::MAX,
            };
            if a < b {
                m = k;
            }
            k += 1;
        }
        let ghost prev_out = out@;
        let ghost prev_rest = rest@;
        let row = rest.remove(m);
        out.push(row);
        proof {
            prev_rest.to_multiset_ensures();
            prev_out.to_multiset_ensures();
            assert(prev_rest.contains(prev_rest[m as int]));
            assert(out@.to_multiset().add(rest@.to_multiset()) =~= prev_out.to_multiset().add(
                prev_rest.to_multiset(),
            ));
        }
    }
    out
}

/// Sort rows into sibling order; the result is a permutation of the
/// input.
fn sort_subtasks_by_position(v: Vec<Subtask>) -> (r: Vec<Subtask>)
    ensures
        r@.to_multiset() == v@.to_multiset(),
        subtasks_sorted_by_position(r@),
{
    broadcast use vstd::seq_lib::group_to_multiset_ensures;
    broadcast use vstd::multiset::group_multiset_axioms;

    let mut rest = v;
    let mut out: Vec<Subtask> = Vec::new();
    while rest.len() > 0
        invariant
            out@.to_multiset().add(rest@.to_multiset()) == v@.to_multiset(),
            subtasks_sorted_by_position(out@),
            forall|i: int, j: int|
                0 <= i < out@.len() && 0 <= j < rest@.len() ==> position_le(
                    #[trigger] out@[i],
                    #[trigger] rest@[j],
                ),
        decreases rest@.len(),
    {
        let mut m: usize = 0;
        let mut k: usize = 1;
        while k < rest.len()
            invariant
                0 < rest@.len(),
                0 <= m < k <= rest@.len(),
                forall|j: int| 0 <= j < k ==> position_le(rest@[m as int], #[trigger] rest@[j]),
            decreases rest@.len() - k,
        {
            let lt = rest[k].order_index < rest[m].order_index || (rest[k].order_index
                == rest[m].order_index && {
                let a = match rest[k].created_at {
                    Some(t) => t,
                    None => 0,
                };
                let b = match rest[m].created_at {
                    Some(t) => t,
                    None => 0,
                };
                a < b
            });
            if lt {
                m = k;
            }
            k += 1;
        }
        let ghost prev_out = out@;
        let ghost prev_rest = rest@;
        let row = rest.remove(m);
        out.push(row);
        proof {
            prev_rest.to_multiset_ensures();
            prev_out.to_multiset_ensures();
            assert(prev_rest.contains(prev_rest[m as int]));
            assert(out@.to_multiset().add(rest@.to_multiset()) =~= prev_out.to_multiset().add(
                prev_rest.to_multiset(),
            ));
        }
    }
    out
}

/// The parent's rows, in storage order.
pub open spec fn siblings(subtasks: Seq<Subtask>, parent: i64) -> Seq<Subtask>
    decreases subtasks.len(),
{
    if subtasks.len() == 0 {
        Seq::empty()
    } else if subtasks.last().parent_todo_id == parent {
        siblings(subtasks.drop_last(), parent).push(subtasks.last())
    } else {
        siblings(subtasks.drop_last(), parent)
    }
}

/// The parent's rows with the given status spelling, in storage order.
pub open spec fn siblings_by_status(subtasks: Seq<Subtask>, parent: i64, status: Seq<char>) -> Seq<
    Subtask,
>
    decreases subtasks.len(),
{
    if subtasks.len() == 0 {
        Seq::empty()
    } else if subtasks.last().parent_todo_id == parent && subtasks.last().status@ == status {
        siblings_by_status(subtasks.drop_last(), parent, status).push(subtasks.last())
    } else {
        siblings_by_status(subtasks.drop_last(), parent, status)
    }
}

/// The rows overdue at `now`, in storage order.
pub open spec fn overdue_subtasks(subtasks: Seq<Subtask>, now: i64) -> Seq<Subtask>
    decreases subtasks.len(),
{
    if subtasks.len() == 0 {
        Seq::empty()
    } else if spec_overdue_subtask(subtasks.last(), now) {
        overdue_subtasks(subtasks.drop_last(), now).push(subtasks.last())
    } else {
        overdue_subtasks(subtasks.drop_last(), now)
    }
}

/// The parent's rows overdue at `now`, in storage order.
pub open spec fn overdue_siblings(subtasks: Seq<Subtask>, parent: i64, now: i64) -> Seq<Subtask>
    decreases subtasks.len(),
{
    if subtasks.len() == 0 {
        Seq::empty()
    } else if subtasks.last().parent_todo_id == parent && spec_overdue_subtask(
        subtasks.last(),
        now,
    ) {
        overdue_siblings(subtasks.drop_last(), parent, now).push(subtasks.last())
    } else {
        overdue_siblings(subtasks.drop_last(), parent, now)
    }
}

/// The subtask service: the stored rows, in creation order, and the next
/// primary key.
pub struct SubtaskService {
    /// Stored rows, in creation order.
    pub subtasks: Vec<Subtask>,
    /// The key the next created row receives.
    pub next_id: i64,
}

impl SubtaskService {
    /// Well-formedness: every row has a positive key below `next_id`, and
    /// keys are unique.
    pub open spec fn wf(self) -> bool {
        &&& 1 <= self.next_id
        &&& forall|i: int|
            0 <= i < self.subtasks@.len() ==> valid_subtask_row(
                #[trigger] self.subtasks@[i],
                self.next_id,
            )
        &&& forall|i: int, j: int|
            0 <= i < j < self.subtasks@.len() ==> self.subtasks@[i].id != self.subtasks@[j].id
    }

    /// An empty table.
    pub fn new() -> (s: SubtaskService)
        ensures
            s.wf(),
            s.subtasks@.len() == 0,
            s.next_id == 1,
    {
        SubtaskService { subtasks: Vec::new(), next_id: 1 }
    }

    /// Index of the row carrying the id, if any.
    fn find(&self, id: i64) -> (r: Option<usize>)
        ensures
            match r {
                Some(i) => i < self.subtasks@.len() && self.subtasks@[i as int].id == Some(id),
                None => !has_subtask(self.subtasks@, id),
            },
    {
        let n = self.subtasks.len();
        let mut i: usize = 0;
        while i < n
            invariant
                0 <= i <= n,
                n == self.subtasks@.len(),
                forall|j: int| 0 <= j < i ==> self.subtasks@[j].id != Some(id),
            decreases n - i,
        {
            let found = match self.subtasks[i].id {
                Some(k) => k == id,
                None => false,
            };
            if found {
                return Some(i);
            }
            i += 1;
        }
        None
    }

    /// Index of the row carrying the id under the parent, if any.
    fn find_sibling(&self, id: i64, parent: i64) -> (r: Option<usize>)
        ensures
            match r {
                Some(i) => i < self.subtasks@.len() && self.subtasks@[i as int].id == Some(id)
                    && self.subtasks@[i as int].parent_todo_id == parent,
                None => !has_sibling(self.subtasks@, id, parent),
            },
    {
        let n = self.subtasks.len();
        let mut i: usize = 0;
        while i < n
            invariant
                0 <= i <= n,
                n == self.subtasks@.len(),
                forall|j: int|
                    0 <= j < i ==> !(self.subtasks@[j].id == Some(id)
                        && self.subtasks@[j].parent_todo_id == parent),
            decreases n - i,
        {
            let found = match self.subtasks[i].id {
                Some(k) => k == id,
                None => false,
            };
            if found && self.subtasks[i].parent_todo_id == parent {
                return Some(i);
            }
            i += 1;
        }
        None
    }

    /// One past the largest order index among the parent's rows (or 0
    /// with none), saturating at the type's bound.
    fn next_order(&self, parent: i64) -> (r: i64)
        ensures
            r as int == spec_next_order(self.subtasks@, parent),
    {
        let n = self.subtasks.len();
        let mut max: i64 = -1;
        let mut i: usize = 0;
        proof {
            assert(self.subtasks@.subrange(0, 0) =~= Seq::<Subtask>::empty());
        }
        while i < n
            invariant
                0 <= i <= n,
                n == self.subtasks@.len(),
                max as int == max_sibling_order(self.subtasks@.subrange(0, i as int), parent),
            decreases n - i,
        {
            let ghost pre = self.subtasks@.subrange(0, i + 1);
            proof {
                assert(pre.last() == self.subtasks@[i as int]);
                assert(pre.drop_last() =~= self.subtasks@.subrange(0, i as int));
            }
            let row = &self.subtasks[i];
            if row.parent_todo_id == parent && row.order_index > max {
                max = row.order_index;
            }
            i += 1;
        }
        proof {
            assert(self.subtasks@.subrange(0, n as int) =~= self.subtasks@);
        }
        if max < i64::MAX {
            max + 1
        } else {
            i64::MAX
        }
    }

    /// Create a row from a request. The request must be valid and the
    /// parent todo must exist; the row is appended with the next key,
    /// status pending, and an order index one past its largest sibling's
    /// when the request names none.
    pub fn create(&mut self, todos: &TodoService, request: CreateSubtaskRequest, now: i64) -> (r:
        Result<SubtaskResponse, ServiceError>)
        requires
            old(self).wf(),
            old(self).next_id < i64::MAX,
        ensures
            final(self).wf(),
            blank(request.title@) ==> (r matches Err(e) && e is Validation && *final(self) == *old(
                self,
            )),
            !blank(request.title@) && (request.priority matches Some(p) && spec_priority_from(p@)
                is None) ==> (r matches Err(e) && e is Validation && *final(self) == *old(self)),
            !blank(request.title@) && !(request.priority matches Some(p) && spec_priority_from(p@)
                is None) && !has_todo(todos.todos@, request.parent_todo_id) ==> (r matches Err(e)
                && e is NotFound && *final(self) == *old(self)),
            !blank(request.title@) && !(request.priority matches Some(p) && spec_priority_from(p@)
                is None) && has_todo(todos.todos@, request.parent_todo_id) ==> {
                &&& final(self).next_id == old(self).next_id + 1
                &&& final(self).subtasks@.len() == old(self).subtasks@.len() + 1
                &&& final(self).subtasks@.drop_last() == old(self).subtasks@
                &&& subtask_created_from(
                    final(self).subtasks@.last(),
                    request,
                    old(self).next_id,
                    spec_next_order(old(self).subtasks@, request.parent_todo_id),
                    now,
                )
                &&& r matches Ok(resp) && subtask_response_matches(
                    resp,
                    final(self).subtasks@.last(),
                    now,
                )
            },
    {
        if let Err(_) = request.validate() {
            return Err(ServiceError::validation("Invalid subtask request"));
        }
        if !todos.contains(request.parent_todo_id) {
            return Err(ServiceError::not_found("Parent todo"));
        }
        let order_index = match request.order_index {
            Some(o) => o,
            None => self.next_order(request.parent_todo_id),
        };
        let mut row = Subtask::new(
            request.parent_todo_id,
            request.title,
            request.description,
            request.priority,
            request.due_date,
            None,
            now,
        );
        row.order_index = order_index;
        row.id = Some(self.next_id);
        self.next_id = self.next_id + 1;
        self.subtasks.push(row);
        proof {
            assert(self.subtasks@.drop_last() =~= old(self).subtasks@);
        }
        let idx = self.subtasks.len() - 1;
        Ok(SubtaskResponse::from_subtask(&self.subtasks[idx], now))
    }

    /// Look a row up by key.
    pub fn get_by_id(&self, id: i64, now: i64) -> (r: Result<SubtaskResponse, ServiceError>)
        requires
            self.wf(),
        ensures
            match r {
                Ok(resp) => has_subtask(self.subtasks@, id) && subtask_response_matches(
                    resp,
                    self.subtasks@[subtask_index(self.subtasks@, id)],
                    now,
                ),
                Err(e) => e is NotFound && !has_subtask(self.subtasks@, id),
            },
    {
        match self.find(id) {
            Some(i) => {
                proof {
                    let k = subtask_index(self.subtasks@, id);
                    assert(self.subtasks@[i as int].id == Some(id));
                    assert(0 <= k < self.subtasks@.len() && self.subtasks@[k].id == Some(id));
                    assert(k == i);
                }
                Ok(SubtaskResponse::from_subtask(&self.subtasks[i], now))
            },
            None => Err(ServiceError::not_found("Subtask")),
        }
    }

    /// All rows, newest first.
    pub fn list(&self, now: i64) -> (r: Vec<SubtaskResponse>)
        ensures
            r@.len() == self.subtasks@.len(),
            forall|i: int|
                0 <= i < r@.len() ==> subtask_response_matches(
                    #[trigger] r@[i],
                    self.subtasks@[self.subtasks@.len() - 1 - i],
                    now,
                ),
    {
        let n = self.subtasks.len();
        let mut result: Vec<SubtaskResponse> = Vec::new();
        let mut i: usize = n;
        while i > 0
            invariant
                0 <= i <= n,
                n == self.subtasks@.len(),
                result@.len() == n - i,
                forall|j: int|
                    0 <= j < result@.len() ==> subtask_response_matches(
                        #[trigger] result@[j],
                        self.subtasks@[n - 1 - j],
                        now,
                    ),
            decreases i,
        {
            i -= 1;
            result.push(SubtaskResponse::from_subtask(&self.subtasks[i], now));
        }
        result
    }

    /// The parent's rows in sibling order; an absent parent is
    /// not-found.
    pub fn get_by_parent_todo_id(&self, todos: &TodoService, parent_todo_id: i64, now: i64) -> (r:
        Result<Vec<SubtaskResponse>, ServiceError>)
        ensures
            match r {
                Ok(resps) => has_todo(todos.todos@, parent_todo_id) && exists|rows: Seq<Subtask>|
                    {
                        &&& #[trigger] rows.to_multiset() == siblings(
                            self.subtasks@,
                            parent_todo_id,
                        ).to_multiset()
                        &&& subtasks_sorted_by_position(rows)
                        &&& responses_match_subtasks(resps@, rows, now)
                    },
                Err(e) => e is NotFound && !has_todo(todos.todos@, parent_todo_id),
            },
    {
        if !todos.contains(parent_todo_id) {
            return Err(ServiceError::not_found("Todo"));
        }
        Ok(self.siblings_sorted(parent_todo_id, now))
    }

    /// The parent's rows in sibling order (no existence check).
    pub fn siblings_sorted(&self, parent_todo_id: i64, now: i64) -> (r: Vec<SubtaskResponse>)
        ensures
            exists|rows: Seq<Subtask>|
                {
                    &&& #[trigger] rows.to_multiset() == siblings(
                        self.subtasks@,
                        parent_todo_id,
                    ).to_multiset()
                    &&& subtasks_sorted_by_position(rows)
                    &&& responses_match_subtasks(r@, rows, now)
                },
    {
        let n = self.subtasks.len();
        let mut matching: Vec<Subtask> = Vec::new();
        let mut i: usize = 0;
        proof {
            assert(self.subtasks@.subrange(0, 0) =~= Seq::<Subtask>::empty());
        }
        while i < n
            invariant
                0 <= i <= n,
                n == self.subtasks@.len(),
                matching@ == siblings(self.subtasks@.subrange(0, i as int), parent_todo_id),
            decreases n - i,
        {
            let ghost pre = self.subtasks@.subrange(0, i + 1);
            proof {
                assert(pre.last() == self.subtasks@[i as int]);
                assert(pre.drop_last() =~= self.subtasks@.subrange(0, i as int));
            }
            let row = &self.subtasks[i];
            if row.parent_todo_id == parent_todo_id {
                matching.push(clone_subtask(row));
            }
            i += 1;
        }
        proof {
            assert(self.subtasks@.subrange(0, n as int) =~= self.subtasks@);
        }
        let sorted = sort_subtasks_by_position(matching);
        responses_of(&sorted, now)
    }

    /// Apply a partial update to the row carrying the id. An invalid
    /// request is rejected; an absent row is not-found; a request with
    /// no recognized field returns the row unchanged without touching
    /// its update stamp. In every failure nothing changes.
    pub fn update(&mut self, id: i64, request: UpdateSubtaskRequest, now: i64) -> (r: Result<
        SubtaskResponse,
        ServiceError,
    >)
        requires
            old(self).wf(),
        ensures
            final(self).wf(),
            final(self).next_id == old(self).next_id,
            !subtask_request_valid(request) ==> (r matches Err(e) && e is Validation && *final(self) == *old(self)),
            subtask_request_valid(request) && !has_subtask(old(self).subtasks@, id) ==> (r matches
                Err(e) && e is NotFound && *final(self) == *old(self)),
            subtask_request_valid(request) && has_subtask(old(self).subtasks@, id) ==> {
                let k = subtask_index(old(self).subtasks@, id);
                &&& final(self).subtasks@.len() == old(self).subtasks@.len()
                &&& forall|j: int|
                    0 <= j < old(self).subtasks@.len() && j != k ==> final(self).subtasks@[j]
                        == old(self).subtasks@[j]
                &&& subtask_update_applied(
                    old(self).subtasks@[k],
                    final(self).subtasks@[k],
                    request,
                    now,
                )
                &&& r matches Ok(resp) && subtask_response_matches(
                    resp,
                    final(self).subtasks@[k],
                    now,
                )
            },
    {
        if let Err(_) = request.validate() {
            return Err(ServiceError::validation("Invalid subtask request"));
        }
        let idx = match self.find(id) {
            Some(i) => i,
            None => {
                return Err(ServiceError::not_found("Subtask"));
            },
        };
        proof {
            let k = subtask_index(self.subtasks@, id);
            assert(self.subtasks@[idx as int].id == Some(id));
            assert(0 <= k < self.subtasks@.len() && self.subtasks@[k].id == Some(id));
            assert(k == idx);
        }
        if request.is_empty() {
            return Ok(SubtaskResponse::from_subtask(&self.subtasks[idx], now));
        }
        let ghost prev = self.subtasks@;
        let mut row = self.subtasks.remove(idx);
        row.update(request, now);
        let ghost newrow = row;
        self.subtasks.insert(idx, row);
        proof {
            assert(self.subtasks@ =~= prev.update(idx as int, newrow));
        }
        Ok(SubtaskResponse::from_subtask(&self.subtasks[idx], now))
    }

    /// Hard-delete the row carrying the id; absent rows are not-found
    /// and nothing changes.
    pub fn delete(&mut self, id: i64) -> (r: Result<(), ServiceError>)
        requires
            old(self).wf(),
        ensures
            final(self).wf(),
            final(self).next_id == old(self).next_id,
            !has_subtask(old(self).subtasks@, id) ==> (r matches Err(e) && e is NotFound && *final(self) == *old(self)),
            has_subtask(old(self).subtasks@, id) ==> r is Ok && final(self).subtasks@ == old(
                self,
            ).subtasks@.remove(subtask_index(old(self).subtasks@, id)),
    {
        match self.find(id) {
            Some(i) => {
                proof {
                    let k = subtask_index(self.subtasks@, id);
                    assert(self.subtasks@[i as int].id == Some(id));
                    assert(0 <= k < self.subtasks@.len() && self.subtasks@[k].id == Some(id));
                    assert(k == i);
                }
                self.subtasks.remove(i);
                Ok(())
            },
            None => Err(ServiceError::not_found("Subtask")),
        }
    }

    /// Reorder the parent's rows: the row named by the id at position
    /// `k` receives order index `k`. If any id does not name a row of
    /// the parent, nothing at all changes and that id's absence is
    /// reported; no partial reorder is ever kept.
    pub fn reorder(&mut self, parent_todo_id: i64, ids: &Vec<i64>) -> (r: Result<(), ServiceError>)
        requires
            old(self).wf(),
            ids@.len() <= i64::MAX,
            distinct_ids(ids@),
        ensures
            final(self).wf(),
            final(self).next_id == old(self).next_id,
            r is Ok <==> all_ids_belong(old(self).subtasks@, ids@, parent_todo_id),
            r is Ok ==> reorder_applied(old(self).subtasks@, final(self).subtasks@, ids@),
            r is Err ==> *final(self) == *old(self) && (r matches Err(e) && e is NotFound),
    {
        let n = ids.len();
        let mut k: usize = 0;
        while k < n
            invariant
                0 <= k <= n,
                n == ids@.len(),
                old(self).wf(),
                *self == *old(self),
                forall|a: int| 0 <= a < k ==> has_sibling(self.subtasks@, #[trigger] ids@[a], parent_todo_id),
            decreases n - k,
        {
            if self.find_sibling(ids[k], parent_todo_id).is_none() {
                return Err(ServiceError::not_found("Subtask"));
            }
            k += 1;
        }
        let ghost s0 = self.subtasks@;
        let mut k: usize = 0;
        while k < n
            invariant
                0 <= k <= n,
                n == ids@.len(),
                n <= i64::MAX,
                self.wf(),
                self.next_id == old(self).next_id,
                s0 == old(self).subtasks@,
                distinct_ids(ids@),
                all_ids_belong(s0, ids@, parent_todo_id),
                self.subtasks@.len() == s0.len(),
                forall|j: int|
                    0 <= j < s0.len() ==> #[trigger] self.subtasks@[j] == if in_ids(
                        ids@.subrange(0, k as int),
                        s0[j].id,
                    ) {
                        with_order(s0[j], id_pos(ids@, s0[j].id.unwrap_or(0)) as i64)
                    } else {
                        s0[j]
                    },
            decreases n - k,
        {
            let ghost prev = self.subtasks@;
            let id = ids[k];
            proof {
                assert(has_sibling(s0, ids@[k as int], parent_todo_id));
            }
            let idx = match self.find_sibling(id, parent_todo_id) {
                Some(i) => i,
                None => {
                    proof {
                        let w = choose|i: int|
                            0 <= i < s0.len() && s0[i].id == Some(id) && s0[i].parent_todo_id
                                == parent_todo_id;
                        assert(self.subtasks@[w].id == s0[w].id && self.subtasks@[w].parent_todo_id
                            == s0[w].parent_todo_id);
                        assert(has_sibling(self.subtasks@, id, parent_todo_id));
                        assert(false);
                    }
                    return Err(ServiceError::not_found("Subtask"));
                },
            };
            let mut row = self.subtasks.remove(idx);
            row.order_index = k as i64;
            let ghost newrow = row;
            self.subtasks.insert(idx, row);
            proof {
                let subk = ids@.subrange(0, k as int);
                let subk1 = ids@.subrange(0, k + 1);
                assert(self.subtasks@ =~= prev.update(idx as int, newrow));
                assert(prev[idx as int].id == s0[idx as int].id && prev[idx as int].parent_todo_id
                    == s0[idx as int].parent_todo_id);
                assert(s0[idx as int].id == Some(id));
                // The id at position k occurs nowhere before it, the ids
                // being distinct, so the row touched now was untouched.
                assert(!in_ids(subk, s0[idx as int].id)) by {
                    if in_ids(subk, s0[idx as int].id) {
                        let a = choose|a: int| 0 <= a < subk.len() && #[trigger] subk[a] == id;
                        assert(ids@[a] == id);
                        assert(ids@[k as int] == id);
                        assert(false);
                    }
                }
                assert(prev[idx as int] == s0[idx as int]);
                assert(ids@[k as int] == id);
                let p = id_pos(ids@, id);
                assert(0 <= p < ids@.len() && ids@[p] == id) by {
                    assert(0 <= (k as int) < ids@.len() && ids@[k as int] == id);
                }
                assert(p == k as int);
                assert(self.subtasks@[idx as int] == with_order(s0[idx as int], k as i64));
                assert forall|j: int| 0 <= j < s0.len() implies #[trigger] self.subtasks@[j] == if
                    in_ids(subk1, s0[j].id) {
                    with_order(s0[j], id_pos(ids@, s0[j].id.unwrap_or(0)) as i64)
                } else {
                    s0[j]
                } by {
                    if j == idx {
                        assert(subk1[k as int] == id);
                        assert(in_ids(subk1, s0[j].id));
                    } else {
                        if in_ids(subk1, s0[j].id) && !in_ids(subk, s0[j].id) {
                            // Then s0[j] carries the id at position k; but
                            // that id names a unique row, which is idx.
                            let v = s0[j].id.unwrap_or(0);
                            let w = choose|a: int| 0 <= a < subk1.len() && #[trigger] subk1[a] == v;
                            assert(0 <= w < k + 1 && subk1[w] == v);
                            if w < k {
                                assert(subk[w] == v);
                                assert(in_ids(subk, s0[j].id));
                            }
                            assert(w == k as int);
                            assert(v == id);
                            assert(s0[j].id == Some(id));
                            assert(s0[j].id == s0[idx as int].id);
                            assert(false);
                        }
                        if in_ids(subk1, s0[j].id) {
                            assert(in_ids(subk, s0[j].id));
                        } else {
                            assert(!in_ids(subk, s0[j].id)) by {
                                if in_ids(subk, s0[j].id) {
                                    let v = s0[j].id.unwrap_or(0);
                                    let w2 = choose|a: int|
                                        0 <= a < subk.len() && #[trigger] subk[a] == v;
                                    assert(subk1[w2] == v);
                                    assert(in_ids(subk1, s0[j].id));
                                }
                            }
                        }
                    }
                }
                assert forall|i: int|
                    0 <= i < self.subtasks@.len() implies #[trigger] self.subtasks@[i].id
                        == prev[i].id by {}
            }
            k += 1;
        }
        proof {
            assert(ids@.subrange(0, n as int) =~= ids@);
        }
        Ok(())
    }

    /// The parent's rows with the given status, in sibling order; a
    /// status outside the closed set is rejected.
    pub fn get_by_status(&self, parent_todo_id: i64, status: &str, now: i64) -> (r: Result<
        Vec<SubtaskResponse>,
        ServiceError,
    >)
        ensures
            match r {
                Ok(resps) => spec_status_from(status@) is Some && exists|rows: Seq<Subtask>|
                    {
                        &&& #[trigger] rows.to_multiset() == siblings_by_status(
                            self.subtasks@,
                            parent_todo_id,
                            status@,
                        ).to_multiset()
                        &&& subtasks_sorted_by_position(rows)
                        &&& responses_match_subtasks(resps@, rows, now)
                    },
                Err(e) => e is Validation && spec_status_from(status@) is None,
            },
    {
        if !(str_eq(status, "pending") || str_eq(status, "in_progress") || str_eq(
            status,
            "completed",
        )) {
            return Err(ServiceError::validation("Invalid status"));
        }
        let n = self.subtasks.len();
        let mut matching: Vec<Subtask> = Vec::new();
        let mut i: usize = 0;
        proof {
            assert(self.subtasks@.subrange(0, 0) =~= Seq::<Subtask>::empty());
        }
        while i < n
            invariant
                0 <= i <= n,
                n == self.subtasks@.len(),
                matching@ == siblings_by_status(
                    self.subtasks@.subrange(0, i as int),
                    parent_todo_id,
                    status@,
                ),
            decreases n - i,
        {
            let ghost pre = self.subtasks@.subrange(0, i + 1);
            proof {
                assert(pre.last() == self.subtasks@[i as int]);
                assert(pre.drop_last() =~= self.subtasks@.subrange(0, i as int));
            }
            let row = &self.subtasks[i];
            if row.parent_todo_id == parent_todo_id && str_eq(row.status.as_str(), status) {
                matching.push(clone_subtask(row));
            }
            i += 1;
        }
        proof {
            assert(self.subtasks@.subrange(0, n as int) =~= self.subtasks@);
        }
        let sorted = sort_subtasks_by_position(matching);
        Ok(responses_of(&sorted, now))
    }

    /// All rows overdue at `now`, ordered by due date ascending.
    pub fn get_overdue(&self, now: i64) -> (r: Vec<SubtaskResponse>)
        ensures
            exists|rows: Seq<Subtask>|
                {
                    &&& #[trigger] rows.to_multiset() == overdue_subtasks(
                        self.subtasks@,
                        now,
                    ).to_multiset()
                    &&& subtasks_sorted_by_due(rows)
                    &&& responses_match_subtasks(r@, rows, now)
                },
    {
        let n = self.subtasks.len();
        let mut matching: Vec<Subtask> = Vec::new();
        let mut i: usize = 0;
        proof {
            assert(self.subtasks@.subrange(0, 0) =~= Seq::<Subtask>::empty());
        }
        while i < n
            invariant
                0 <= i <= n,
                n == self.subtasks@.len(),
                matching@ == overdue_subtasks(self.subtasks@.subrange(0, i as int), now),
            decreases n - i,
        {
            let ghost pre = self.subtasks@.subrange(0, i + 1);
            proof {
                assert(pre.last() == self.subtasks@[i as int]);
                assert(pre.drop_last() =~= self.subtasks@.subrange(0, i as int));
            }
            let row = &self.subtasks[i];
            if row.is_overdue(now) {
                matching.push(clone_subtask(row));
            }
            i += 1;
        }
        proof {
            assert(self.subtasks@.subrange(0, n as int) =~= self.subtasks@);
        }
        let sorted = sort_subtasks_by_due(matching);
        responses_of(&sorted, now)
    }

    /// The parent's rows overdue at `now`, ordered by due date
    /// ascending; an absent parent is not-found.
    pub fn get_overdue_for_todo(&self, todos: &TodoService, parent_todo_id: i64, now: i64) -> (r:
        Result<Vec<SubtaskResponse>, ServiceError>)
        ensures
            match r {
                Ok(resps) => has_todo(todos.todos@, parent_todo_id) && exists|rows: Seq<Subtask>|
                    {
                        &&& #[trigger] rows.to_multiset() == overdue_siblings(
                            self.subtasks@,
                            parent_todo_id,
                            now,
                        ).to_multiset()
                        &&& subtasks_sorted_by_due(rows)
                        &&& responses_match_subtasks(resps@, rows, now)
                    },
                Err(e) => e is NotFound && !has_todo(todos.todos@, parent_todo_id),
            },
    {
        if !todos.contains(parent_todo_id) {
            return Err(ServiceError::not_found("Todo"));
        }
        let n = self.subtasks.len();
        let mut matching: Vec<Subtask> = Vec::new();
        let mut i: usize = 0;
        proof {
            assert(self.subtasks@.subrange(0, 0) =~= Seq::<Subtask>::empty());
        }
        while i < n
            invariant
                0 <= i <= n,
                n == self.subtasks@.len(),
                matching@ == overdue_siblings(
                    self.subtasks@.subrange(0, i as int),
                    parent_todo_id,
                    now,
                ),
            decreases n - i,
        {
            let ghost pre = self.subtasks@.subrange(0, i + 1);
            proof {
                assert(pre.last() == self.subtasks@[i as int]);
                assert(pre.drop_last() =~= self.subtasks@.subrange(0, i as int));
            }
            let row = &self.subtasks[i];
            if row.parent_todo_id == parent_todo_id && row.is_overdue(now) {
                matching.push(clone_subtask(row));
            }
            i += 1;
        }
        proof {
            assert(self.subtasks@.subrange(0, n as int) =~= self.subtasks@);
        }
        let sorted = sort_subtasks_by_due(matching);
        Ok(responses_of(&sorted, now))
    }
}

/// Whether an update request passes validation.
pub open spec fn subtask_request_valid(request: UpdateSubtaskRequest) -> bool {
    &&& request.status matches Some(st) ==> spec_status_from(st@) is Some
    &&& request.priority matches Some(p) ==> spec_priority_from(p@) is Some
    &&& request.title matches Some(t) ==> !blank(t@)
}

/// Responses of a row list, element by element.
fn responses_of(rows: &Vec<Subtask>, now: i64) -> (r: Vec<SubtaskResponse>)
    ensures
        responses_match_subtasks(r@, rows@, now),
{
    let m = rows.len();
    let mut result: Vec<SubtaskResponse> = Vec::new();
    let mut j: usize = 0;
    while j < m
        invariant
            0 <= j <= m,
            m == rows@.len(),
            result@.len() == j,
            forall|k: int|
                0 <= k < j ==> subtask_response_matches(#[trigger] result@[k], rows@[k], now),
        decreases m - j,
    {
        result.push(SubtaskResponse::from_subtask(&rows[j], now));
        j += 1;
    }
    result
}

/// Field-for-field copy of a row.
fn clone_subtask(s: &Subtask) -> (r: Subtask)
    ensures
        r == *s,
{
    Subtask {
        id: s.id,
        parent_todo_id: s.parent_todo_id,
        title: s.title.clone(),
        description: crate::text::clone_opt_string(&s.description),
        status: s.status.clone(),
        priority: s.priority.clone(),
        due_date: s.due_date,
        order_index: s.order_index,
        created_at: s.created_at,
        updated_at: s.updated_at,
    }
}

} // verus!
