use todo_core::error::ServiceError;
use todo_core::handlers::{get_todo_with_subtasks, reorder_subtasks};
use todo_core::subtask::{CreateSubtaskRequest, ReorderSubtasksRequest, UpdateSubtaskRequest};
use todo_core::subtask_service::SubtaskService;
use todo_core::todo::CreateTodoRequest;
use todo_core::todo_service::TodoService;

fn todo_request(title: &str) -> CreateTodoRequest {
    CreateTodoRequest {
        title: title.to_string(),
        description: None,
        priority: None,
        status: None,
        due_date: None,
    }
}

fn subtask_request(parent: i64, title: &str) -> CreateSubtaskRequest {
    CreateSubtaskRequest {
        parent_todo_id: parent,
        title: title.to_string(),
        description: None,
        priority: None,
        due_date: None,
        order_index: None,
    }
}

fn board() -> (TodoService, SubtaskService) {
    let mut todos = TodoService::new();
    todos.create(todo_request("parent"), 100).unwrap();
    let subtasks = SubtaskService::new();
    (todos, subtasks)
}

#[test]
fn create_assigns_consecutive_default_order_indices() {
    let (todos, mut subtasks) = board();
    let a = subtasks.create(&todos, subtask_request(1, "one"), 110).unwrap();
    let b = subtasks.create(&todos, subtask_request(1, "two"), 120).unwrap();
    let c = subtasks.create(&todos, subtask_request(1, "three"), 130).unwrap();
    assert_eq!((a.order_index, b.order_index, c.order_index), (0, 1, 2));
    assert_eq!(a.status, "pending");
    assert_eq!(a.priority, "medium");
}

#[test]
fn create_without_parent_is_not_found() {
    let (todos, mut subtasks) = board();
    let r = subtasks.create(&todos, subtask_request(99, "orphan"), 110);
    assert!(matches!(r, Err(ServiceError::NotFound(_))));
    assert!(subtasks.subtasks.is_empty());
}

#[test]
fn create_validates_title_and_priority() {
    let (todos, mut subtasks) = board();
    let blank = subtasks.create(&todos, subtask_request(1, "  "), 110);
    assert!(matches!(blank, Err(ServiceError::Validation(_))));
    let mut bad = subtask_request(1, "fine");
    bad.priority = Some("urgent".to_string());
    let r = subtasks.create(&todos, bad, 110);
    assert!(matches!(r, Err(ServiceError::Validation(_))));
}

#[test]
fn request_validation_rejects_empty_and_duplicate_id_lists() {
    let empty = ReorderSubtasksRequest { subtask_ids: vec![] };
    assert!(empty.validate().is_err());
    let dup = ReorderSubtasksRequest { subtask_ids: vec![3, 1, 3] };
    assert!(dup.validate().is_err());
    let ok = ReorderSubtasksRequest { subtask_ids: vec![3, 1, 2] };
    assert!(ok.validate().is_ok());
}

#[test]
fn reorder_reversed_yields_reversed_listing() {
    // Create a todo, three subtasks with default order 0,1,2, reorder in
    // reverse: the listing comes back reversed with order 0,1,2.
    let (todos, mut subtasks) = board();
    subtasks.create(&todos, subtask_request(1, "one"), 110).unwrap();
    subtasks.create(&todos, subtask_request(1, "two"), 120).unwrap();
    subtasks.create(&todos, subtask_request(1, "three"), 130).unwrap();

    let request = ReorderSubtasksRequest { subtask_ids: vec![3, 2, 1] };
    let listed = reorder_subtasks(&todos, &mut subtasks, 1, &request, 200).unwrap();
    let titles: Vec<&str> = listed.iter().map(|s| s.title.as_str()).collect();
    assert_eq!(titles, vec!["three", "two", "one"]);
    let orders: Vec<i64> = listed.iter().map(|s| s.order_index).collect();
    assert_eq!(orders, vec![0, 1, 2]);
}

#[test]
fn reorder_twice_gives_the_same_assignment() {
    let (todos, mut subtasks) = board();
    subtasks.create(&todos, subtask_request(1, "one"), 110).unwrap();
    subtasks.create(&todos, subtask_request(1, "two"), 120).unwrap();
    subtasks.create(&todos, subtask_request(1, "three"), 130).unwrap();

    let request = ReorderSubtasksRequest { subtask_ids: vec![2, 3, 1] };
    let first = reorder_subtasks(&todos, &mut subtasks, 1, &request, 200).unwrap();
    let second = reorder_subtasks(&todos, &mut subtasks, 1, &request, 300).unwrap();
    assert_eq!(first, second);
}

#[test]
fn reorder_with_a_foreign_id_changes_nothing() {
    let (mut todos, mut subtasks) = board();
    todos.create(todo_request("other parent"), 105).unwrap();
    subtasks.create(&todos, subtask_request(1, "one"), 110).unwrap();
    subtasks.create(&todos, subtask_request(1, "two"), 120).unwrap();
    subtasks.create(&todos, subtask_request(2, "foreign"), 130).unwrap();

    let snapshot = subtasks.list(500);
    let request = ReorderSubtasksRequest { subtask_ids: vec![2, 3, 1] }; // 3 belongs to todo 2
    let r = reorder_subtasks(&todos, &mut subtasks, 1, &request, 200);
    assert!(matches!(r, Err(ServiceError::NotFound(_))));
    assert_eq!(subtasks.list(500), snapshot); // no partial reorder persisted
}

#[test]
fn reorder_with_duplicates_is_rejected_before_any_write() {
    let (todos, mut subtasks) = board();
    subtasks.create(&todos, subtask_request(1, "one"), 110).unwrap();
    subtasks.create(&todos, subtask_request(1, "two"), 120).unwrap();

    let snapshot = subtasks.list(500);
    let request = ReorderSubtasksRequest { subtask_ids: vec![2, 2] };
    let r = reorder_subtasks(&todos, &mut subtasks, 1, &request, 200);
    assert!(matches!(r, Err(ServiceError::Validation(_))));
    assert_eq!(subtasks.list(500), snapshot);
}

#[test]
fn reorder_without_parent_is_not_found() {
    let (todos, mut subtasks) = board();
    let request = ReorderSubtasksRequest { subtask_ids: vec![1] };
    let r = reorder_subtasks(&todos, &mut subtasks, 42, &request, 200);
    assert!(matches!(r, Err(ServiceError::NotFound(_))));
}

#[test]
fn partial_update_and_empty_update() {
    let (todos, mut subtasks) = board();
    subtasks.create(&todos, subtask_request(1, "task"), 110).unwrap();

    let updated = subtasks
        .update(
            1,
            UpdateSubtaskRequest {
                title: None,
                description: Some("notes".to_string()),
                status: Some("completed".to_string()),
                priority: None,
                due_date: None,
                order_index: Some(5),
            },
            900,
        )
        .unwrap();
    assert_eq!(updated.title, "task");
    assert_eq!(updated.description.as_deref(), Some("notes"));
    assert_eq!(updated.status, "completed");
    assert_eq!(updated.order_index, 5);
    assert_eq!(updated.updated_at, 900);

    let before = subtasks.get_by_id(1, 500).unwrap();
    let empty = UpdateSubtaskRequest {
        title: None,
        description: None,
        status: None,
        priority: None,
        due_date: None,
        order_index: None,
    };
    let after = subtasks.update(1, empty, 950).unwrap();
    assert_eq!(after, before);
    assert_eq!(after.updated_at, 900); // the update stamp is not bumped
}

#[test]
fn update_rejects_an_unknown_status() {
    let (todos, mut subtasks) = board();
    subtasks.create(&todos, subtask_request(1, "task"), 110).unwrap();
    let r = subtasks.update(
        1,
        UpdateSubtaskRequest {
            title: None,
            description: None,
            status: Some("abandoned".to_string()),
            priority: None,
            due_date: None,
            order_index: None,
        },
        900,
    );
    assert!(matches!(r, Err(ServiceError::Validation(_))));
}

#[test]
fn delete_removes_the_subtask_once() {
    let (todos, mut subtasks) = board();
    subtasks.create(&todos, subtask_request(1, "doomed"), 110).unwrap();
    assert!(subtasks.delete(1).is_ok());
    assert!(matches!(subtasks.delete(1), Err(ServiceError::NotFound(_))));
}

#[test]
fn listing_by_parent_orders_by_order_index() {
    let (todos, mut subtasks) = board();
    let mut with_order = subtask_request(1, "last");
    with_order.order_index = Some(9);
    subtasks.create(&todos, with_order, 110).unwrap();
    let mut with_order = subtask_request(1, "first");
    with_order.order_index = Some(2);
    subtasks.create(&todos, with_order, 120).unwrap();

    let listed = subtasks.get_by_parent_todo_id(&todos, 1, 500).unwrap();
    let titles: Vec<&str> = listed.iter().map(|s| s.title.as_str()).collect();
    assert_eq!(titles, vec!["first", "last"]);

    let missing = subtasks.get_by_parent_todo_id(&todos, 42, 500);
    assert!(matches!(missing, Err(ServiceError::NotFound(_))));
}

#[test]
fn filter_by_status_and_overdue() {
    let (todos, mut subtasks) = board();
    let mut due = subtask_request(1, "late");
    due.due_date = Some(400);
    subtasks.create(&todos, due, 110).unwrap();
    let mut due = subtask_request(1, "later");
    due.due_date = Some(800);
    subtasks.create(&todos, due, 120).unwrap();
    subtasks
        .update(
            2,
            UpdateSubtaskRequest {
                title: None,
                description: None,
                status: Some("in_progress".to_string()),
                priority: None,
                due_date: None,
                order_index: None,
            },
            130,
        )
        .unwrap();

    let pending = subtasks.get_by_status(1, "pending", 500).unwrap();
    assert_eq!(pending.len(), 1);
    assert_eq!(pending[0].title, "late");
    assert!(matches!(
        subtasks.get_by_status(1, "bogus", 500),
        Err(ServiceError::Validation(_))
    ));

    let overdue = subtasks.get_overdue(1_000);
    let titles: Vec<&str> = overdue.iter().map(|s| s.title.as_str()).collect();
    assert_eq!(titles, vec!["late", "later"]); // due date ascending

    let for_todo = subtasks.get_overdue_for_todo(&todos, 1, 1_000).unwrap();
    assert_eq!(for_todo.len(), 2);
}

#[test]
fn combined_view_carries_the_ordered_subtasks() {
    let (todos, mut subtasks) = board();
    subtasks.create(&todos, subtask_request(1, "one"), 110).unwrap();
    subtasks.create(&todos, subtask_request(1, "two"), 120).unwrap();

    let view = get_todo_with_subtasks(&todos, &subtasks, 1, 500).unwrap();
    assert_eq!(view.id, 1);
    assert_eq!(view.title, "parent");
    assert_eq!(view.subtasks.len(), 2);
    assert_eq!(view.subtasks[0].title, "one");
    assert_eq!(view.subtasks[1].title, "two");

    let missing = get_todo_with_subtasks(&todos, &subtasks, 9, 500);
    assert!(matches!(missing, Err(ServiceError::NotFound(_))));
}
