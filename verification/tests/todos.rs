use todo_core::error::ServiceError;
use todo_core::todo::{CreateTodoRequest, Priority, Status, UpdateTodoRequest};
use todo_core::todo_service::TodoService;

fn create_request(title: &str) -> CreateTodoRequest {
    CreateTodoRequest {
        title: title.to_string(),
        description: None,
        priority: None,
        status: None,
        due_date: None,
    }
}

fn empty_update() -> UpdateTodoRequest {
    UpdateTodoRequest { title: None, description: None, status: None, priority: None, due_date: None }
}

#[test]
fn priority_spellings_round_trip() {
    assert_eq!(Priority::Low.as_str(), "low");
    assert_eq!(Priority::Medium.as_str(), "medium");
    assert_eq!(Priority::High.as_str(), "high");
    assert!(matches!(Priority::from_str("low"), Some(Priority::Low)));
    assert!(matches!(Priority::from_str("medium"), Some(Priority::Medium)));
    assert!(matches!(Priority::from_str("high"), Some(Priority::High)));
    assert!(Priority::from_str("urgent").is_none());
}

#[test]
fn status_spellings_round_trip() {
    assert_eq!(Status::Pending.as_str(), "pending");
    assert_eq!(Status::InProgress.as_str(), "in_progress");
    assert_eq!(Status::Completed.as_str(), "completed");
    assert!(matches!(Status::from_str("pending"), Some(Status::Pending)));
    assert!(matches!(Status::from_str("in_progress"), Some(Status::InProgress)));
    assert!(matches!(Status::from_str("completed"), Some(Status::Completed)));
    assert!(Status::from_str("done").is_none());
}

#[test]
fn create_defaults_and_assigns_ids() {
    let mut todos = TodoService::new();
    let a = todos.create(create_request("first"), 100).unwrap();
    let b = todos.create(create_request("second"), 200).unwrap();
    assert_eq!(a.id, 1);
    assert_eq!(b.id, 2);
    assert_eq!(a.status, "pending");
    assert_eq!(a.priority, "medium");
    assert_eq!(a.created_at, 100);
    assert_eq!(a.updated_at, 100);
}

#[test]
fn create_rejects_a_blank_title() {
    let mut todos = TodoService::new();
    let r = todos.create(create_request("   \t"), 100);
    assert!(matches!(r, Err(ServiceError::Validation(_))));
    assert!(todos.todos.is_empty());
}

#[test]
fn get_by_id_finds_and_misses() {
    let mut todos = TodoService::new();
    todos.create(create_request("first"), 100).unwrap();
    assert_eq!(todos.get_by_id(1, 500).unwrap().title, "first");
    assert!(matches!(todos.get_by_id(9, 500), Err(ServiceError::NotFound(_))));
}

#[test]
fn todos_list_newest_first() {
    let mut todos = TodoService::new();
    todos.create(create_request("oldest"), 100).unwrap();
    todos.create(create_request("middle"), 200).unwrap();
    todos.create(create_request("newest"), 300).unwrap();
    let listed = todos.list(500);
    let titles: Vec<&str> = listed.iter().map(|t| t.title.as_str()).collect();
    assert_eq!(titles, vec!["newest", "middle", "oldest"]);
}

#[test]
fn partial_update_touches_only_present_fields() {
    let mut todos = TodoService::new();
    todos.create(create_request("before"), 100).unwrap();
    let updated = todos
        .update(
            1,
            UpdateTodoRequest {
                title: Some("after".to_string()),
                description: None,
                status: Some(Status::Completed),
                priority: None,
                due_date: None,
            },
            900,
        )
        .unwrap();
    assert_eq!(updated.title, "after");
    assert_eq!(updated.status, "completed");
    assert_eq!(updated.priority, "medium");
    assert_eq!(updated.created_at, 100);
    assert_eq!(updated.updated_at, 900);
}

#[test]
fn empty_update_returns_the_resource_unchanged() {
    let mut todos = TodoService::new();
    todos.create(create_request("unchanged"), 100).unwrap();
    let before = todos.get_by_id(1, 500).unwrap();
    let after = todos.update(1, empty_update(), 900).unwrap();
    assert_eq!(after, before);
    assert_eq!(after.updated_at, 100); // the update stamp is not bumped
}

#[test]
fn update_missing_todo_is_not_found() {
    let mut todos = TodoService::new();
    let r = todos.update(5, empty_update(), 900);
    assert!(matches!(r, Err(ServiceError::NotFound(_))));
}

#[test]
fn update_rejects_a_blank_title() {
    let mut todos = TodoService::new();
    todos.create(create_request("keep"), 100).unwrap();
    let r = todos.update(
        1,
        UpdateTodoRequest {
            title: Some("  ".to_string()),
            description: None,
            status: None,
            priority: None,
            due_date: None,
        },
        900,
    );
    assert!(matches!(r, Err(ServiceError::Validation(_))));
    assert_eq!(todos.get_by_id(1, 500).unwrap().title, "keep");
}

#[test]
fn delete_removes_the_todo_once() {
    let mut todos = TodoService::new();
    todos.create(create_request("doomed"), 100).unwrap();
    assert!(todos.delete(1).is_ok());
    assert!(matches!(todos.delete(1), Err(ServiceError::NotFound(_))));
    assert!(todos.todos.is_empty());
}

#[test]
fn filters_by_status_and_priority() {
    let mut todos = TodoService::new();
    todos
        .create(
            CreateTodoRequest {
                title: "a".to_string(),
                description: None,
                priority: Some(Priority::High),
                status: Some(Status::Pending),
                due_date: None,
            },
            100,
        )
        .unwrap();
    todos
        .create(
            CreateTodoRequest {
                title: "b".to_string(),
                description: None,
                priority: Some(Priority::Low),
                status: Some(Status::Completed),
                due_date: None,
            },
            200,
        )
        .unwrap();
    todos
        .create(
            CreateTodoRequest {
                title: "c".to_string(),
                description: None,
                priority: Some(Priority::High),
                status: Some(Status::Pending),
                due_date: None,
            },
            300,
        )
        .unwrap();

    let pending = todos.get_by_status(Status::Pending, 500);
    let titles: Vec<&str> = pending.iter().map(|t| t.title.as_str()).collect();
    assert_eq!(titles, vec!["c", "a"]); // newest first

    let high = todos.get_by_priority(Priority::High, 500);
    let titles: Vec<&str> = high.iter().map(|t| t.title.as_str()).collect();
    assert_eq!(titles, vec!["c", "a"]);

    let completed = todos.get_by_status(Status::Completed, 500);
    assert_eq!(completed.len(), 1);
    assert_eq!(completed[0].title, "b");
}

#[test]
fn overdue_lists_by_due_date_ascending() {
    let mut todos = TodoService::new();
    for (title, due, status) in [
        ("late-b", 800, Status::Pending),
        ("late-a", 400, Status::Pending),
        ("done-late", 300, Status::Completed),
        ("future", 5_000, Status::Pending),
    ] {
        todos
            .create(
                CreateTodoRequest {
                    title: title.to_string(),
                    description: None,
                    priority: None,
                    status: Some(status),
                    due_date: Some(due),
                },
                100,
            )
            .unwrap();
    }
    let overdue = todos.get_overdue(1_000);
    let titles: Vec<&str> = overdue.iter().map(|t| t.title.as_str()).collect();
    assert_eq!(titles, vec!["late-a", "late-b"]);
}

#[test]
fn upcoming_lists_the_window_by_due_date() {
    let mut todos = TodoService::new();
    for (title, due) in [("soon-b", 1_000 + 86_400), ("soon-a", 1_500), ("past", 500), ("far", 1_000 + 20 * 86_400)] {
        todos
            .create(
                CreateTodoRequest {
                    title: title.to_string(),
                    description: None,
                    priority: None,
                    status: None,
                    due_date: Some(due),
                },
                100,
            )
            .unwrap();
    }
    let upcoming = todos.get_upcoming(7, 1_000);
    let titles: Vec<&str> = upcoming.iter().map(|t| t.title.as_str()).collect();
    assert_eq!(titles, vec!["soon-a", "soon-b"]);
}

#[test]
fn row_predicates_read_the_clock_they_are_given() {
    let mut todos = TodoService::new();
    todos
        .create(
            CreateTodoRequest {
                title: "due".to_string(),
                description: None,
                priority: None,
                status: None,
                due_date: Some(1_000),
            },
            100,
        )
        .unwrap();
    let row = &todos.todos[0];
    assert!(row.is_overdue(2_000));
    assert!(!row.is_overdue(500));
    assert!(row.is_due_soon(1, 999));
    assert!(!row.is_due_soon(1, 2_000));
    assert!(!row.is_completed());
    assert!(matches!(row.get_status(), Some(Status::Pending)));
    assert!(matches!(row.get_priority(), Some(Priority::Medium)));
}
