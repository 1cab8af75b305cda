//! The tag service: an in-memory table of tag rows and of todo-tag
//! associations, with the resource's validation, uniqueness, lookup and
//! partial-update logic. Creating a tag whose name is already taken is a
//! conflict and adds no row; associating the same pair twice is a no-op
//! success. Tag listings of a todo come ordered by name.

use vstd::prelude::*;

use crate::error::ServiceError;
use crate::tag::{
    tag_response_matches, AddTagRequest, CreateTagRequest, Tag, TagResponse, TodoTag,
    UpdateTagRequest,
};
use crate::text::{blank, is_blank, lemma_lex_le_trans, lex_le, str_eq, str_le};
use crate::todo_service::{has_todo, TodoService};

verus! {

/// Whether a row is a valid stored row under a key bound.
pub open spec fn valid_tag_row(t: Tag, next_id: i64) -> bool {
    t.id matches Some(id) && 0 < id < next_id
}

/// Whether some row carries the id.
pub open spec fn has_tag(tags: Seq<Tag>, id: i64) -> bool {
    exists|i: int| 0 <= i < tags.len() && tags[i].id == Some(id)
}

/// Index of the row carrying the id (unique in a well-formed table).
pub open spec fn tag_index(tags: Seq<Tag>, id: i64) -> int {
    choose|i: int| 0 <= i < tags.len() && tags[i].id == Some(id)
}

/// Whether some row carries the name.
pub open spec fn has_tag_name(tags: Seq<Tag>, name: Seq<char>) -> bool {
    exists|i: int| 0 <= i < tags.len() && tags[i].name@ == name
}

/// Whether an association row links the pair.
pub open spec fn links(a: TodoTag, todo_id: i64, tag_id: i64) -> bool {
    a.todo_id == todo_id && a.tag_id == tag_id
}

/// Whether some association links the pair.
pub open spec fn has_assoc(assocs: Seq<TodoTag>, todo_id: i64, tag_id: i64) -> bool {
    exists|i: int| 0 <= i < assocs.len() && links(#[trigger] assocs[i], todo_id, tag_id)
}

/// Index of the association linking the pair (unique in a well-formed
/// table).
pub open spec fn assoc_index(assocs: Seq<TodoTag>, todo_id: i64, tag_id: i64) -> int {
    choose|i: int| 0 <= i < assocs.len() && links(#[trigger] assocs[i], todo_id, tag_id)
}

/// Whether a response list is the image of a row list, element by
/// element.
pub open spec fn responses_match_tags(rs: Seq<TagResponse>, rows: Seq<Tag>, now: i64) -> bool {
    &&& rs.len() == rows.len()
    &&& forall|i: int| 0 <= i < rs.len() ==> tag_response_matches(#[trigger] rs[i], rows[i], now)
}

/// Whether a fresh row is what a creation request asked for; a missing
/// color becomes the fixed default.
pub open spec fn tag_created_from(t: Tag, request: CreateTagRequest, id: i64, now: i64) -> bool {
    &&& t.id == Some(id)
    &&& t.name == request.name
    &&& (match request.color {
        Some(c) => t.color == c,
        None => t.color@ == crate::tag::spec_default_color(),
    })
    &&& t.description == request.description
    &&& t.created_at == Some(now)
    &&& t.updated_at == Some(now)
}

/// Whether an update request carries no recognized field.
pub open spec fn tag_update_empty(request: UpdateTagRequest) -> bool {
    &&& request.name is None
    &&& request.color is None
    &&& request.description is None
}

/// Whether `t1` is `t0` with a partial update applied; the update stamp
/// moves to `now` exactly when a recognized field was present.
pub open spec fn tag_update_applied(t0: Tag, t1: Tag, request: UpdateTagRequest, now: i64) -> bool {
    &&& t1.id == t0.id
    &&& t1.created_at == t0.created_at
    &&& (match request.name {
        Some(n) => t1.name == n,
        None => t1.name == t0.name,
    })
    &&& (match request.color {
        Some(c) => t1.color == c,
        None => t1.color == t0.color,
    })
    &&& (match request.description {
        Some(d) => t1.description == Some(d),
        None => t1.description == t0.description,
    })
    &&& t1.updated_at == if tag_update_empty(request) {
        t0.updated_at
    } else {
        Some(now)
    }
}

/// Whether a row list is ordered by name.
pub open spec fn tags_sorted_by_name(rows: Seq<Tag>) -> bool {
    forall|i: int, j: int| 0 <= i < j < rows.len() ==> lex_le(#[trigger] rows[i].name@, #[trigger] rows[j].name@)
}

/// The tags linked to a todo, in storage order.
pub open spec fn linked_tags(tags: Seq<Tag>, assocs: Seq<TodoTag>, todo_id: i64) -> Seq<Tag>
    decreases tags.len(),
{
    if tags.len() == 0 {
        Seq::empty()
    } else if tags.last().id matches Some(tid) && has_assoc(assocs, todo_id, tid) {
        linked_tags(tags.drop_last(), assocs, todo_id).push(tags.last())
    } else {
        linked_tags(tags.drop_last(), assocs, todo_id)
    }
}

/// The todos linked to a tag, newest first.
pub open spec fn rev_linked_todos(
    todos: Seq<crate::todo::Todo>,
    assocs: Seq<TodoTag>,
    tag_id: i64,
) -> Seq<crate::todo::Todo>
    decreases todos.len(),
{
    if todos.len() == 0 {
        Seq::empty()
    } else if todos.last().id matches Some(tid) && has_assoc(assocs, tid, tag_id) {
        seq![todos.last()] + rev_linked_todos(todos.drop_last(), assocs, tag_id)
    } else {
        rev_linked_todos(todos.drop_last(), assocs, tag_id)
    }
}

/// Sort rows by name; the result is a permutation of the input.
fn sort_tags_by_name(v: Vec<Tag>) -> (r: Vec<Tag>)
    ensures
        r@.to_multiset() == v@.to_multiset(),
        tags_sorted_by_name(r@),
{
    broadcast use vstd::seq_lib::group_to_multiset_ensures;
    broadcast use vstd::multiset::group_multiset_axioms;

    let mut rest = v;
    let mut out: Vec<Tag> = Vec::new();
    while rest.len() > 0
        invariant
            out@.to_multiset().add(rest@.to_multiset()) == v@.to_multiset(),
            tags_sorted_by_name(out@),
            forall|i: int, j: int|
                0 <= i < out@.len() && 0 <= j < rest@.len() ==> lex_le(
                    #[trigger] out@[i].name@,
                    #[trigger] rest@[j].name@,
                ),
        decreases rest@.len(),
    {
        let mut m: usize = 0;
        let mut k: usize = 1;
        proof {
            crate::text::lemma_lex_le_total(rest@[0].name@, rest@[0].name@);
        }
        while k < rest.len()
            invariant
                0 < rest@.len(),
                0 <= m < k <= rest@.len(),
                forall|j: int| 0 <= j < k ==> lex_le(rest@[m as int].name@, #[trigger] rest@[j].name@),
            decreases rest@.len() - k,
        {
            if str_le(rest[k].name.as_str(), rest[m].name.as_str()) {
                proof {
                    let old_m = m as int;
                    assert forall|j: int| 0 <= j < k + 1 implies lex_le(
                        rest@[k as int].name@,
                        #[trigger] rest@[j].name@,
                    ) by {
                        if j < k {
                            lemma_lex_le_trans(
                                rest@[k as int].name@,
                                rest@[old_m].name@,
                                rest@[j].name@,
                            );
                        } else {
                            crate::text::lemma_lex_le_total(
                                rest@[k as int].name@,
                                rest@[k as int].name@,
                            );
                        }
                    }
                }
                m = k;
            } else {
                proof {
                    crate::text::lemma_lex_le_total(rest@[m as int].name@, rest@[k as int].name@);
                }
            }
            k += 1;
        }
        let ghost prev_out = out@;
        let ghost prev_rest = rest@;
        let row = rest.remove(m);
        out.push(row);
        proof {
            prev_rest.to_multiset_ensures();
            prev_out.to_multiset_ensures();
            assert(prev_rest.contains(prev_rest[m as int]));
            assert(out@.to_multiset().add(rest@.to_multiset()) =~= prev_out.to_multiset().add(
                prev_rest.to_multiset(),
            ));
        }
    }
    out
}

/// The tag service: the stored tag rows and the todo-tag association
/// rows, each in creation order, with their next primary keys.
pub struct TagService {
    /// Stored tag rows, in creation order.
    pub tags: Vec<Tag>,
    /// Stored association rows, in creation order; at most one per pair.
    pub todo_tags: Vec<TodoTag>,
    /// The key the next created tag receives.
    pub next_id: i64,
    /// The key the next created association receives.
    pub next_assoc_id: i64,
}

impl TagService {
    /// Well-formedness: tag keys are positive, below `next_id` and
    /// unique; association keys likewise under `next_assoc_id`; and no
    /// pair is linked twice.
    pub open spec fn wf(self) -> bool {
        &&& 1 <= self.next_id
        &&& 1 <= self.next_assoc_id
        &&& forall|i: int|
            0 <= i < self.tags@.len() ==> valid_tag_row(#[trigger] self.tags@[i], self.next_id)
        &&& forall|i: int, j: int|
            0 <= i < j < self.tags@.len() ==> self.tags@[i].id != self.tags@[j].id
        &&& forall|i: int|
            0 <= i < self.todo_tags@.len() ==> (#[trigger] self.todo_tags@[i].id matches Some(id)
                && 0 < id < self.next_assoc_id)
        &&& forall|i: int, j: int|
            0 <= i < j < self.todo_tags@.len() ==> self.todo_tags@[i].id != self.todo_tags@[j].id
        &&& forall|i: int, j: int|
            0 <= i < j < self.todo_tags@.len() ==> !(self.todo_tags@[i].todo_id
                == self.todo_tags@[j].todo_id && self.todo_tags@[i].tag_id
                == self.todo_tags@[j].tag_id)
    }

    /// An empty table.
    pub fn new() -> (s: TagService)
        ensures
            s.wf(),
            s.tags@.len() == 0,
            s.todo_tags@.len() == 0,
            s.next_id == 1,
            s.next_assoc_id == 1,
    {
        TagService { tags: Vec::new(), todo_tags: Vec::new(), next_id: 1, next_assoc_id: 1 }
    }

    /// Index of the row carrying the id, if any.
    fn find(&self, id: i64) -> (r: Option<usize>)
        ensures
            match r {
                Some(i) => i < self.tags@.len() && self.tags@[i as int].id == Some(id),
                None => !has_tag(self.tags@, id),
            },
    {
        let n = self.tags.len();
        let mut i: usize = 0;
        while i < n
            invariant
                0 <= i <= n,
                n == self.tags@.len(),
                forall|j: int| 0 <= j < i ==> self.tags@[j].id != Some(id),
            decreases n - i,
        {
            let found = match self.tags[i].id {
                Some(k) => k == id,
                None => false,
            };
            if found {
                return Some(i);
            }
            i += 1;
        }
        None
    }

    /// Whether a row with the key exists.
    pub fn contains(&self, id: i64) -> (r: bool)
        ensures
            r == has_tag(self.tags@, id),
    {
        match self.find(id) {
            Some(_) => true,
            None => false,
        }
    }

    /// Whether a row with the name exists.
    fn name_taken(&self, name: &str) -> (r: bool)
        ensures
            r == has_tag_name(self.tags@, name@),
    {
        let n = self.tags.len();
        let mut i: usize = 0;
        while i < n
            invariant
                0 <= i <= n,
                n == self.tags@.len(),
                forall|j: int| 0 <= j < i ==> self.tags@[j].name@ != name@,
            decreases n - i,
        {
            if str_eq(self.tags[i].name.as_str(), name) {
                return true;
            }
            i += 1;
        }
        false
    }

    /// Index of the association linking the pair, if any.
    fn find_assoc(&self, todo_id: i64, tag_id: i64) -> (r: Option<usize>)
        ensures
            match r {
                Some(i) => i < self.todo_tags@.len() && links(
                    self.todo_tags@[i as int],
                    todo_id,
                    tag_id,
                ),
                None => !has_assoc(self.todo_tags@, todo_id, tag_id),
            },
    {
        let n = self.todo_tags.len();
        let mut i: usize = 0;
        while i < n
            invariant
                0 <= i <= n,
                n == self.todo_tags@.len(),
                forall|j: int| 0 <= j < i ==> !links(#[trigger] self.todo_tags@[j], todo_id, tag_id),
            decreases n - i,
        {
            if self.todo_tags[i].todo_id == todo_id && self.todo_tags[i].tag_id == tag_id {
                return Some(i);
            }
            i += 1;
        }
        None
    }

    /// Whether the pair is linked by some association row.
    pub fn has_link(&self, todo_id: i64, tag_id: i64) -> (r: bool)
        ensures
            r == has_assoc(self.todo_tags@, todo_id, tag_id),
    {
        match self.find_assoc(todo_id, tag_id) {
            Some(_) => true,
            None => false,
        }
    }

    /// Create a tag from a request. A blank name is rejected; a name that
    /// some row already carries is a conflict, and no second row is
    /// created. Only otherwise is the row appended.
    pub fn create(&mut self, request: CreateTagRequest, now: i64) -> (r: Result<
        TagResponse,
        ServiceError,
    >)
        requires
            old(self).wf(),
            old(self).next_id < i64::MAX,
        ensures
            final(self).wf(),
            final(self).todo_tags == old(self).todo_tags,
            blank(request.name@) ==> (r matches Err(e) && e is Validation && *final(self) == *old(
                self,
            )),
            !blank(request.name@) && has_tag_name(old(self).tags@, request.name@) ==> (r matches
                Err(e) && e is Conflict && *final(self) == *old(self)),
            !blank(request.name@) && !has_tag_name(old(self).tags@, request.name@) ==> {
                &&& final(self).next_id == old(self).next_id + 1
                &&& final(self).tags@.len() == old(self).tags@.len() + 1
                &&& final(self).tags@.drop_last() == old(self).tags@
                &&& tag_created_from(final(self).tags@.last(), request, old(self).next_id, now)
                &&& r matches Ok(resp) && tag_response_matches(resp, final(self).tags@.last(), now)
            },
    {
        if is_blank(request.name.as_str()) {
            return Err(ServiceError::validation("Tag name cannot be empty"));
        }
        if self.name_taken(request.name.as_str()) {
            return Err(ServiceError::conflict("Tag already exists"));
        }
        let mut row = Tag::new(request.name, request.color, request.description, now);
        row.id = Some(self.next_id);
        self.next_id = self.next_id + 1;
        self.tags.push(row);
        proof {
            assert(self.tags@.drop_last() =~= old(self).tags@);
        }
        let idx = self.tags.len() - 1;
        Ok(TagResponse::from_tag(&self.tags[idx], now))
    }

    /// Look a row up by key.
    pub fn get_by_id(&self, id: i64, now: i64) -> (r: Result<TagResponse, ServiceError>)
        requires
            self.wf(),
        ensures
            match r {
                Ok(resp) => has_tag(self.tags@, id) && tag_response_matches(
                    resp,
                    self.tags@[tag_index(self.tags@, id)],
                    now,
                ),
                Err(e) => e is NotFound && !has_tag(self.tags@, id),
            },
    {
        match self.find(id) {
            Some(i) => {
                proof {
                    let k = tag_index(self.tags@, id);
                    assert(self.tags@[i as int].id == Some(id));
                    assert(0 <= k < self.tags@.len() && self.tags@[k].id == Some(id));
                    assert(k == i);
                }
                Ok(TagResponse::from_tag(&self.tags[i], now))
            },
            None => Err(ServiceError::not_found("Tag")),
        }
    }

    /// All rows, newest first.
    pub fn list(&self, now: i64) -> (r: Vec<TagResponse>)
        ensures
            r@.len() == self.tags@.len(),
            forall|i: int|
                0 <= i < r@.len() ==> tag_response_matches(
                    #[trigger] r@[i],
                    self.tags@[self.tags@.len() - 1 - i],
                    now,
                ),
    {
        let n = self.tags.len();
        let mut result: Vec<TagResponse> = Vec::new();
        let mut i: usize = n;
        while i > 0
            invariant
                0 <= i <= n,
                n == self.tags@.len(),
                result@.len() == n - i,
                forall|j: int|
                    0 <= j < result@.len() ==> tag_response_matches(
                        #[trigger] result@[j],
                        self.tags@[n - 1 - j],
                        now,
                    ),
            decreases i,
        {
            i -= 1;
            result.push(TagResponse::from_tag(&self.tags[i], now));
        }
        result
    }

    /// Apply a partial update to the row carrying the id. An absent row
    /// is not-found; a present but blank name is rejected; a request with
    /// no recognized field returns the row unchanged without touching its
    /// update stamp. In every failure nothing changes.
    pub fn update(&mut self, id: i64, request: UpdateTagRequest, now: i64) -> (r: Result<
        TagResponse,
        ServiceError,
    >)
        requires
            old(self).wf(),
        ensures
            final(self).wf(),
            final(self).next_id == old(self).next_id,
            final(self).todo_tags == old(self).todo_tags,
            !has_tag(old(self).tags@, id) ==> (r matches Err(e) && e is NotFound && *final(self)
                == *old(self)),
            has_tag(old(self).tags@, id) && (request.name matches Some(nm) && blank(nm@)) ==> (r
                matches Err(e) && e is Validation && *final(self) == *old(self)),
            has_tag(old(self).tags@, id) && !(request.name matches Some(nm) && blank(nm@)) ==> {
                let k = tag_index(old(self).tags@, id);
                &&& final(self).tags@.len() == old(self).tags@.len()
                &&& forall|j: int|
                    0 <= j < old(self).tags@.len() && j != k ==> final(self).tags@[j] == old(
                        self,
                    ).tags@[j]
                &&& tag_update_applied(old(self).tags@[k], final(self).tags@[k], request, now)
                &&& r matches Ok(resp) && tag_response_matches(resp, final(self).tags@[k], now)
            },
    {
        let idx = match self.find(id) {
            Some(i) => i,
            None => {
                return Err(ServiceError::not_found("Tag"));
            },
        };
        proof {
            let k = tag_index(self.tags@, id);
            assert(self.tags@[idx as int].id == Some(id));
            assert(0 <= k < self.tags@.len() && self.tags@[k].id == Some(id));
            assert(k == idx);
        }
        if let Some(name) = &request.name {
            if is_blank(name.as_str()) {
                return Err(ServiceError::validation("Tag name cannot be empty"));
            }
        }
        if request.is_empty() {
            return Ok(TagResponse::from_tag(&self.tags[idx], now));
        }
        let ghost prev = self.tags@;
        let mut row = self.tags.remove(idx);
        row.update(request, now);
        let ghost newrow = row;
        self.tags.insert(idx, row);
        proof {
            assert(self.tags@ =~= prev.update(idx as int, newrow));
        }
        Ok(TagResponse::from_tag(&self.tags[idx], now))
    }

    /// Hard-delete the row carrying the id; absent rows are not-found and
    /// nothing changes.
    pub fn delete(&mut self, id: i64) -> (r: Result<(), ServiceError>)
        requires
            old(self).wf(),
        ensures
            final(self).wf(),
            final(self).next_id == old(self).next_id,
            final(self).todo_tags == old(self).todo_tags,
            !has_tag(old(self).tags@, id) ==> (r matches Err(e) && e is NotFound && *final(self)
                == *old(self)),
            has_tag(old(self).tags@, id) ==> r is Ok && final(self).tags@ == old(
                self,
            ).tags@.remove(tag_index(old(self).tags@, id)),
    {
        match self.find(id) {
            Some(i) => {
                proof {
                    let k = tag_index(self.tags@, id);
                    assert(self.tags@[i as int].id == Some(id));
                    assert(0 <= k < self.tags@.len() && self.tags@[k].id == Some(id));
                    assert(k == i);
                }
                self.tags.remove(i);
                Ok(())
            },
            None => Err(ServiceError::not_found("Tag")),
        }
    }

    /// Associate a tag with a todo. Both must exist; a pair already
    /// linked is a no-op success (`Ok(false)`), never a second row; a new
    /// link is appended (`Ok(true)`).
    pub fn add_tag_to_todo(&mut self, todos: &TodoService, request: &AddTagRequest, now: i64) -> (r:
        Result<bool, ServiceError>)
        requires
            old(self).wf(),
            old(self).next_assoc_id < i64::MAX,
        ensures
            final(self).wf(),
            final(self).tags == old(self).tags,
            final(self).next_id == old(self).next_id,
            !has_todo(todos.todos@, request.todo_id) ==> (r matches Err(e) && e is NotFound
                && *final(self) == *old(self)),
            has_todo(todos.todos@, request.todo_id) && !has_tag(old(self).tags@, request.tag_id)
                ==> (r matches Err(e) && e is NotFound && *final(self) == *old(self)),
            has_todo(todos.todos@, request.todo_id) && has_tag(old(self).tags@, request.tag_id)
                && has_assoc(old(self).todo_tags@, request.todo_id, request.tag_id) ==> r
                == Result::<bool, ServiceError>::Ok(false) && *final(self) == *old(self),
            has_todo(todos.todos@, request.todo_id) && has_tag(old(self).tags@, request.tag_id)
                && !has_assoc(old(self).todo_tags@, request.todo_id, request.tag_id) ==> {
                &&& r == Result::<bool, ServiceError>::Ok(true)
                &&& final(self).next_assoc_id == old(self).next_assoc_id + 1
                &&& final(self).todo_tags@.len() == old(self).todo_tags@.len() + 1
                &&& final(self).todo_tags@.drop_last() == old(self).todo_tags@
                &&& links(final(self).todo_tags@.last(), request.todo_id, request.tag_id)
                &&& final(self).todo_tags@.last().created_at == Some(now)
            },
    {
        if !todos.contains(request.todo_id) {
            return Err(ServiceError::not_found("Todo"));
        }
        if !self.contains(request.tag_id) {
            return Err(ServiceError::not_found("Tag"));
        }
        if self.find_assoc(request.todo_id, request.tag_id).is_some() {
            return Ok(false);
        }
        let row = TodoTag {
            id: Some(self.next_assoc_id),
            todo_id: request.todo_id,
            tag_id: request.tag_id,
            created_at: Some(now),
        };
        self.next_assoc_id = self.next_assoc_id + 1;
        self.todo_tags.push(row);
        proof {
            assert(self.todo_tags@.drop_last() =~= old(self).todo_tags@);
        }
        Ok(true)
    }

    /// Remove the association linking the pair; an unlinked pair is
    /// not-found and nothing changes.
    pub fn remove_tag_from_todo(&mut self, todo_id: i64, tag_id: i64) -> (r: Result<
        (),
        ServiceError,
    >)
        requires
            old(self).wf(),
        ensures
            final(self).wf(),
            final(self).tags == old(self).tags,
            final(self).next_id == old(self).next_id,
            final(self).next_assoc_id == old(self).next_assoc_id,
            !has_assoc(old(self).todo_tags@, todo_id, tag_id) ==> (r matches Err(e) && e
                is NotFound && *final(self) == *old(self)),
            has_assoc(old(self).todo_tags@, todo_id, tag_id) ==> r is Ok && final(self).todo_tags@
                == old(self).todo_tags@.remove(assoc_index(old(self).todo_tags@, todo_id, tag_id)),
    {
        match self.find_assoc(todo_id, tag_id) {
            Some(i) => {
                proof {
                    let k = assoc_index(self.todo_tags@, todo_id, tag_id);
                    assert(links(self.todo_tags@[i as int], todo_id, tag_id));
                    assert(0 <= k < self.todo_tags@.len() && links(
                        self.todo_tags@[k],
                        todo_id,
                        tag_id,
                    ));
                    assert(k == i);
                }
                self.todo_tags.remove(i);
                Ok(())
            },
            None => Err(ServiceError::not_found("Tag association")),
        }
    }

    /// The tags linked to a todo, ordered by name.
    pub fn get_todo_tags(&self, todo_id: i64, now: i64) -> (r: Vec<TagResponse>)
        ensures
            exists|rows: Seq<Tag>|
                {
                    &&& #[trigger] rows.to_multiset() == linked_tags(
                        self.tags@,
                        self.todo_tags@,
                        todo_id,
                    ).to_multiset()
                    &&& tags_sorted_by_name(rows)
                    &&& responses_match_tags(r@, rows, now)
                },
    {
        let n = self.tags.len();
        let mut matching: Vec<Tag> = Vec::new();
        let mut i: usize = 0;
        proof {
            assert(self.tags@.subrange(0, 0) =~= Seq::<Tag>::empty());
        }
        while i < n
            invariant
                0 <= i <= n,
                n == self.tags@.len(),
                matching@ == linked_tags(self.tags@.subrange(0, i as int), self.todo_tags@, todo_id),
            decreases n - i,
        {
            let ghost pre = self.tags@.subrange(0, i + 1);
            proof {
                assert(pre.last() == self.tags@[i as int]);
                assert(pre.drop_last() =~= self.tags@.subrange(0, i as int));
            }
            let linked = match self.tags[i].id {
                Some(tid) => self.find_assoc(todo_id, tid).is_some(),
                None => false,
            };
            if linked {
                matching.push(clone_tag(&self.tags[i]));
            }
            i += 1;
        }
        proof {
            assert(self.tags@.subrange(0, n as int) =~= self.tags@);
        }
        let sorted = sort_tags_by_name(matching);
        let ghost rows = sorted@;
        let mut result: Vec<TagResponse> = Vec::new();
        let m = sorted.len();
        let mut j: usize = 0;
        while j < m
            invariant
                0 <= j <= m,
                m == sorted@.len(),
                sorted@ == rows,
                result@.len() == j,
                forall|k: int| 0 <= k < j ==> tag_response_matches(#[trigger] result@[k], rows[k], now),
            decreases m - j,
        {
            result.push(TagResponse::from_tag(&sorted[j], now));
            j += 1;
        }
        result
    }

    /// The todos linked to a tag, newest first; an absent tag is
    /// not-found.
    pub fn get_todos_by_tag(&self, todos: &TodoService, tag_id: i64, now: i64) -> (r: Result<
        Vec<crate::todo::TodoResponse>,
        ServiceError,
    >)
        ensures
            match r {
                Ok(resps) => has_tag(self.tags@, tag_id)
                    && crate::todo_service::responses_match_todos(
                    resps@,
                    rev_linked_todos(todos.todos@, self.todo_tags@, tag_id),
                    now,
                ),
                Err(e) => e is NotFound && !has_tag(self.tags@, tag_id),
            },
    {
        if !self.contains(tag_id) {
            return Err(ServiceError::not_found("Tag"));
        }
        let n = todos.todos.len();
        let mut result: Vec<crate::todo::TodoResponse> = Vec::new();
        let ghost mut done: Seq<crate::todo::Todo> = Seq::empty();
        let mut i: usize = n;
        proof {
            assert(todos.todos@.subrange(0, n as int) =~= todos.todos@);
            assert(done + rev_linked_todos(
                todos.todos@.subrange(0, i as int),
                self.todo_tags@,
                tag_id,
            ) =~= rev_linked_todos(todos.todos@, self.todo_tags@, tag_id));
        }
        while i > 0
            invariant
                0 <= i <= n,
                n == todos.todos@.len(),
                crate::todo_service::responses_match_todos(result@, done, now),
                done + rev_linked_todos(
                    todos.todos@.subrange(0, i as int),
                    self.todo_tags@,
                    tag_id,
                ) == rev_linked_todos(todos.todos@, self.todo_tags@, tag_id),
            decreases i,
        {
            let ghost pre = todos.todos@.subrange(0, i as int);
            proof {
                assert(pre.last() == todos.todos@[i - 1]);
                assert(pre.drop_last() =~= todos.todos@.subrange(0, i - 1));
            }
            i -= 1;
            let row = &todos.todos[i];
            let linked = match row.id {
                Some(tid) => self.find_assoc(tid, tag_id).is_some(),
                None => false,
            };
            if linked {
                result.push(crate::todo::TodoResponse::from_todo(row, now));
                proof {
                    done = done.push(todos.todos@[i as int]);
                    assert(done + rev_linked_todos(
                        todos.todos@.subrange(0, i as int),
                        self.todo_tags@,
                        tag_id,
                    ) =~= done.drop_last() + (seq![todos.todos@[i as int]] + rev_linked_todos(
                        todos.todos@.subrange(0, i as int),
                        self.todo_tags@,
                        tag_id,
                    )));
                }
            }
        }
        proof {
            assert(todos.todos@.subrange(0, 0) =~= Seq::<crate::todo::Todo>::empty());
            assert(done + rev_linked_todos(
                Seq::empty(),
                self.todo_tags@,
                tag_id,
            ) =~= done);
        }
        Ok(result)
    }
}

/// Field-for-field copy of a row.
fn clone_tag(t: &Tag) -> (r: Tag)
    ensures
        r == *t,
{
    Tag {
        id: t.id,
        name: t.name.clone(),
        color: t.color.clone(),
        description: crate::text::clone_opt_string(&t.description),
        created_at: t.created_at,
        updated_at: t.updated_at,
    }
}

} // verus!
