//! Request-level operations that span more than one service: account
//! registration and login, the combined todo-with-subtasks view, the
//! subtask reorder endpoint, and the todos-of-a-tag view with each
//! todo's tags attached. Transport concerns (status codes, cookies,
//! JSON) live outside this crate.

use vstd::prelude::*;

use crate::error::ServiceError;
use crate::jwt::TOKEN_LIFETIME_SECONDS;
use crate::subtask::{
    distinct_ids, subtask_response_matches, ReorderSubtasksRequest, Subtask, SubtaskResponse,
    TodoWithSubtasksResponse,
};
use crate::subtask_service::{
    all_ids_belong, reorder_applied, responses_match_subtasks, siblings, subtasks_sorted_by_position,
    SubtaskService,
};
use crate::tag::TodoWithTagsResponse;
use crate::tag_service::{
    has_tag, linked_tags, responses_match_tags, rev_linked_todos, tags_sorted_by_name,
    TagService,
};
use crate::text::blank;
use crate::todo::Todo;
use crate::todo_service::{has_todo, todo_index, TodoService};
use crate::user::{CreateUserRequest, LoginRequest};
use crate::user_service::{
    auth_response_matches, user_conflict, user_created_from, AuthResponse, UserService,
};

verus! {

/// Register a user and hand back the public view together with a fresh
/// session token, as the registration endpoint does. Failures before the
/// row is stored leave the table unchanged; a signing failure after it is
/// internal, and the row stays.
pub fn register(
    users: &mut UserService,
    secret: &[u8],
    request: CreateUserRequest,
    now: i64,
) -> (r: Result<AuthResponse, ServiceError>)
    requires
        old(users).wf(),
        old(users).next_id < i64::MAX,
        0 <= now,
        now + TOKEN_LIFETIME_SECONDS <= usize::MAX,
    ensures
        final(users).wf(),
        (blank(request.username@) || blank(request.email@) || blank(request.password@)) ==> (r
            matches Err(e) && e is Validation && *final(users) == *old(users)),
        !(blank(request.username@) || blank(request.email@) || blank(request.password@))
            && user_conflict(old(users).users@, request.username@, request.email@) ==> (r matches
            Err(e) && e is Conflict && *final(users) == *old(users)),
        !(blank(request.username@) || blank(request.email@) || blank(request.password@))
            && !user_conflict(old(users).users@, request.username@, request.email@) ==> match r {
            Ok(auth) => {
                &&& final(users).next_id == old(users).next_id + 1
                &&& final(users).users@.len() == old(users).users@.len() + 1
                &&& final(users).users@.drop_last() == old(users).users@
                &&& user_created_from(
                    final(users).users@.last(),
                    request,
                    old(users).next_id,
                    now,
                )
                &&& auth_response_matches(
                    auth,
                    final(users).users@.last(),
                    secret@,
                    now as usize,
                )
            },
            Err(e) => e is Internal,
        },
{
    let user = match users.create(request, now) {
        Ok(u) => u,
        Err(e) => {
            return Err(e);
        },
    };
    let subject = crate::text::u64_to_dec(user.id as u64);
    let token = match crate::jwt::create_token(
        secret,
        subject.as_str(),
        user.email.as_str(),
        user.username.as_str(),
        now as usize,
    ) {
        Ok(t) => t,
        Err(e) => {
            return Err(e);
        },
    };
    Ok(AuthResponse { user, token })
}

/// Authenticate by email and password and issue a session token, as the
/// login endpoint does; setting the session cookie is the transport's
/// part.
pub fn login(users: &UserService, secret: &[u8], request: &LoginRequest, now: usize) -> (r: Result<
    AuthResponse,
    ServiceError,
>)
    requires
        users.wf(),
        now + TOKEN_LIFETIME_SECONDS <= usize::MAX,
    ensures
        !crate::user_service::has_email(users.users@, request.email@) ==> (r matches Err(e) && e
            is Unauthorized),
        crate::user_service::has_email(users.users@, request.email@) ==> {
            let u = users.users@[crate::user_service::email_index(users.users@, request.email@)];
            match crate::password::spec_verify(request.password@, u.password_hash@) {
                Some(true) => match r {
                    Ok(resp) => auth_response_matches(resp, u, secret@, now),
                    Err(e) => e is Internal,
                },
                Some(false) => r matches Err(e) && e is Unauthorized,
                None => r matches Err(e) && e is Internal,
            }
        },
{
    users.authenticate(secret, request, now)
}

/// Whether the scalar part of a combined response is the faithful image
/// of a todo row.
pub open spec fn todo_with_subtasks_matches(r: TodoWithSubtasksResponse, t: Todo, now: i64) -> bool {
    &&& r.id == t.id.unwrap_or(0)
    &&& r.title@ == t.title@
    &&& match (r.description, t.description) {
        (Some(a), Some(b)) => a@ == b@,
        (None, None) => true,
        _ => false,
    }
    &&& r.status@ == t.status@
    &&& r.priority@ == t.priority@
    &&& r.due_date == t.due_date
    &&& r.created_at == t.created_at.unwrap_or(now)
    &&& r.updated_at == t.updated_at.unwrap_or(now)
}

/// The combined view of a todo and its subtasks in sibling order; an
/// absent todo is not-found.
pub fn get_todo_with_subtasks(
    todos: &TodoService,
    subtasks: &SubtaskService,
    todo_id: i64,
    now: i64,
) -> (r: Result<TodoWithSubtasksResponse, ServiceError>)
    requires
        todos.wf(),
    ensures
        match r {
            Ok(resp) => {
                &&& has_todo(todos.todos@, todo_id)
                &&& todo_with_subtasks_matches(
                    resp,
                    todos.todos@[todo_index(todos.todos@, todo_id)],
                    now,
                )
                &&& exists|rows: Seq<Subtask>|
                    {
                        &&& #[trigger] rows.to_multiset() == siblings(
                            subtasks.subtasks@,
                            todo_id,
                        ).to_multiset()
                        &&& subtasks_sorted_by_position(rows)
                        &&& responses_match_subtasks(resp.subtasks@, rows, now)
                    }
            },
            Err(e) => e is NotFound && !has_todo(todos.todos@, todo_id),
        },
{
    let todo = match todos.get_by_id(todo_id, now) {
        Ok(t) => t,
        Err(_) => {
            return Err(ServiceError::not_found("Todo"));
        },
    };
    let subs = subtasks.siblings_sorted(todo_id, now);
    Ok(
        TodoWithSubtasksResponse {
            id: todo.id,
            title: todo.title,
            description: todo.description,
            status: todo.status,
            priority: todo.priority,
            due_date: todo.due_date,
            created_at: todo.created_at,
            updated_at: todo.updated_at,
            subtasks: subs,
        },
    )
}

/// Reorder the subtasks of a todo by an ordered id list and return them
/// freshly listed in their new order. The list is validated before any
/// write: an empty or duplicate-carrying list changes nothing; an absent
/// parent changes nothing; an id that does not name a subtask of the
/// parent aborts the whole reorder, and no partial assignment is ever
/// kept.
pub fn reorder_subtasks(
    todos: &TodoService,
    subtasks: &mut SubtaskService,
    parent_todo_id: i64,
    request: &ReorderSubtasksRequest,
    now: i64,
) -> (r: Result<Vec<SubtaskResponse>, ServiceError>)
    requires
        old(subtasks).wf(),
        request.subtask_ids@.len() <= i64::MAX,
    ensures
        final(subtasks).wf(),
        final(subtasks).next_id == old(subtasks).next_id,
        !(request.subtask_ids@.len() > 0 && distinct_ids(request.subtask_ids@)) ==> (r matches Err(
            e,
        ) && e is Validation && *final(subtasks) == *old(subtasks)),
        (request.subtask_ids@.len() > 0 && distinct_ids(request.subtask_ids@)) && !has_todo(
            todos.todos@,
            parent_todo_id,
        ) ==> (r matches Err(e) && e is NotFound && *final(subtasks) == *old(subtasks)),
        (request.subtask_ids@.len() > 0 && distinct_ids(request.subtask_ids@)) && has_todo(
            todos.todos@,
            parent_todo_id,
        ) && !all_ids_belong(old(subtasks).subtasks@, request.subtask_ids@, parent_todo_id) ==> (r
            matches Err(e) && e is NotFound && *final(subtasks) == *old(subtasks)),
        (request.subtask_ids@.len() > 0 && distinct_ids(request.subtask_ids@)) && has_todo(
            todos.todos@,
            parent_todo_id,
        ) && all_ids_belong(old(subtasks).subtasks@, request.subtask_ids@, parent_todo_id) ==> {
            &&& reorder_applied(
                old(subtasks).subtasks@,
                final(subtasks).subtasks@,
                request.subtask_ids@,
            )
            &&& r matches Ok(resps) && exists|rows: Seq<Subtask>|
                {
                    &&& #[trigger] rows.to_multiset() == siblings(
                        final(subtasks).subtasks@,
                        parent_todo_id,
                    ).to_multiset()
                    &&& subtasks_sorted_by_position(rows)
                    &&& responses_match_subtasks(resps@, rows, now)
                }
        },
{
    if let Err(message) = request.validate() {
        return Err(ServiceError::Validation(message));
    }
    if !todos.contains(parent_todo_id) {
        return Err(ServiceError::not_found("Parent todo"));
    }
    match subtasks.reorder(parent_todo_id, &request.subtask_ids) {
        Ok(()) => {},
        Err(e) => {
            return Err(e);
        },
    }
    Ok(subtasks.siblings_sorted(parent_todo_id, now))
}

/// The todos linked to a tag, newest first, each carrying its own tags
/// ordered by name; an absent tag is not-found.
pub fn get_todos_by_tag(
    todos: &TodoService,
    tags: &TagService,
    tag_id: i64,
    now: i64,
) -> (r: Result<Vec<TodoWithTagsResponse>, ServiceError>)
    ensures
        match r {
            Ok(resps) => {
                &&& has_tag(tags.tags@, tag_id)
                &&& resps@.len() == rev_linked_todos(
                    todos.todos@,
                    tags.todo_tags@,
                    tag_id,
                ).len()
                &&& forall|i: int|
                    0 <= i < resps@.len() ==> todo_with_tags_matches(
                        #[trigger] resps@[i],
                        rev_linked_todos(todos.todos@, tags.todo_tags@, tag_id)[i],
                        tags.tags@,
                        tags.todo_tags@,
                        now,
                    )
            },
            Err(e) => e is NotFound && !has_tag(tags.tags@, tag_id),
        },
{
    if !tags.contains(tag_id) {
        return Err(ServiceError::not_found("Tag"));
    }
    let n = todos.todos.len();
    let mut result: Vec<TodoWithTagsResponse> = Vec::new();
    let ghost mut done: Seq<Todo> = Seq::empty();
    let mut i: usize = n;
    proof {
        assert(todos.todos@.subrange(0, n as int) =~= todos.todos@);
        assert(done + rev_linked_todos(
            todos.todos@.subrange(0, i as int),
            tags.todo_tags@,
            tag_id,
        ) =~= rev_linked_todos(todos.todos@, tags.todo_tags@, tag_id));
    }
    while i > 0
        invariant
            0 <= i <= n,
            n == todos.todos@.len(),
            result@.len() == done.len(),
            forall|j: int|
                0 <= j < result@.len() ==> todo_with_tags_matches(
                    #[trigger] result@[j],
                    done[j],
                    tags.tags@,
                    tags.todo_tags@,
                    now,
                ),
            done + rev_linked_todos(
                todos.todos@.subrange(0, i as int),
                tags.todo_tags@,
                tag_id,
            ) == rev_linked_todos(todos.todos@, tags.todo_tags@, tag_id),
        decreases i,
    {
        let ghost pre = todos.todos@.subrange(0, i as int);
        proof {
            assert(pre.last() == todos.todos@[i - 1]);
            assert(pre.drop_last() =~= todos.todos@.subrange(0, i - 1));
        }
        i -= 1;
        let row = &todos.todos[i];
        let linked = match row.id {
            Some(tid) => tags.has_link(tid, tag_id),
            None => false,
        };
        if linked {
            let row_id = match row.id {
                Some(tid) => tid,
                None => 0,
            };
            let tag_list = tags.get_todo_tags(row_id, now);
            result.push(
                TodoWithTagsResponse {
                    id: row_id,
                    title: row.title.clone(),
                    description: crate::text::clone_opt_string(&row.description),
                    status: row.status.clone(),
                    priority: row.priority.clone(),
                    due_date: row.due_date,
                    created_at: match row.created_at {
                        Some(t) => t,
                        None => now,
                    },
                    updated_at: match row.updated_at {
                        Some(t) => t,
                        None => now,
                    },
                    tags: tag_list,
                },
            );
            proof {
                done = done.push(todos.todos@[i as int]);
                assert(done + rev_linked_todos(
                    todos.todos@.subrange(0, i as int),
                    tags.todo_tags@,
                    tag_id,
                ) =~= done.drop_last() + (seq![todos.todos@[i as int]] + rev_linked_todos(
                    todos.todos@.subrange(0, i as int),
                    tags.todo_tags@,
                    tag_id,
                )));
            }
        }
    }
    proof {
        assert(todos.todos@.subrange(0, 0) =~= Seq::<Todo>::empty());
        assert(done + rev_linked_todos(Seq::empty(), tags.todo_tags@, tag_id) =~= done);
    }
    Ok(result)
}

/// Whether a combined todo-with-tags entry is the faithful image of a
/// row, with its tag list ordered by name.
pub open spec fn todo_with_tags_matches(
    r: TodoWithTagsResponse,
    t: Todo,
    tag_rows: Seq<crate::tag::Tag>,
    assocs: Seq<crate::tag::TodoTag>,
    now: i64,
) -> bool {
    &&& r.id == t.id.unwrap_or(0)
    &&& r.title@ == t.title@
    &&& match (r.description, t.description) {
        (Some(a), Some(b)) => a@ == b@,
        (None, None) => true,
        _ => false,
    }
    &&& r.status@ == t.status@
    &&& r.priority@ == t.priority@
    &&& r.due_date == t.due_date
    &&& r.created_at == t.created_at.unwrap_or(now)
    &&& r.updated_at == t.updated_at.unwrap_or(now)
    &&& exists|rows: Seq<crate::tag::Tag>|
        {
            &&& #[trigger] rows.to_multiset() == linked_tags(
                tag_rows,
                assocs,
                t.id.unwrap_or(0),
            ).to_multiset()
            &&& tags_sorted_by_name(rows)
            &&& responses_match_tags(r.tags@, rows, now)
        }
}

} // verus!
