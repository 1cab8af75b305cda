use todo_core::error::ServiceError;
use todo_core::handlers::get_todos_by_tag;
use todo_core::tag::{AddTagRequest, CreateTagRequest, Tag, UpdateTagRequest};
use todo_core::tag_service::TagService;
use todo_core::todo::CreateTodoRequest;
use todo_core::todo_service::TodoService;

fn tag_request(name: &str) -> CreateTagRequest {
    CreateTagRequest { name: name.to_string(), color: None, description: None }
}

fn todo_request(title: &str) -> CreateTodoRequest {
    CreateTodoRequest {
        title: title.to_string(),
        description: None,
        priority: None,
        status: None,
        due_date: None,
    }
}

#[test]
fn create_defaults_the_color() {
    let mut tags = TagService::new();
    let t = tags.create(tag_request("work"), 100).unwrap();
    assert_eq!(t.id, 1);
    assert_eq!(t.color, "#007bff");
}

#[test]
fn creating_a_taken_name_is_a_conflict_and_adds_no_row() {
    let mut tags = TagService::new();
    tags.create(tag_request("work"), 100).unwrap();
    let again = tags.create(tag_request("work"), 200);
    assert!(matches!(again, Err(ServiceError::Conflict(_))));
    assert_eq!(tags.tags.len(), 1);
}

#[test]
fn create_rejects_a_blank_name() {
    let mut tags = TagService::new();
    let r = tags.create(tag_request("  "), 100);
    assert!(matches!(r, Err(ServiceError::Validation(_))));
}

#[test]
fn get_update_and_delete() {
    let mut tags = TagService::new();
    tags.create(tag_request("home"), 100).unwrap();

    let fetched = tags.get_by_id(1, 500).unwrap();
    assert_eq!(fetched.name, "home");

    let updated = tags
        .update(
            1,
            UpdateTagRequest {
                name: None,
                color: Some("#112233".to_string()),
                description: Some("chores".to_string()),
            },
            900,
        )
        .unwrap();
    assert_eq!(updated.name, "home");
    assert_eq!(updated.color, "#112233");
    assert_eq!(updated.description.as_deref(), Some("chores"));
    assert_eq!(updated.updated_at, 900);

    let before = tags.get_by_id(1, 500).unwrap();
    let empty = UpdateTagRequest { name: None, color: None, description: None };
    let after = tags.update(1, empty, 950).unwrap();
    assert_eq!(after, before); // empty update is a no-op success

    assert!(tags.delete(1).is_ok());
    assert!(matches!(tags.delete(1), Err(ServiceError::NotFound(_))));
}

#[test]
fn tags_list_newest_first() {
    let mut tags = TagService::new();
    tags.create(tag_request("older"), 100).unwrap();
    tags.create(tag_request("newer"), 200).unwrap();
    let listed = tags.list(500);
    let names: Vec<&str> = listed.iter().map(|t| t.name.as_str()).collect();
    assert_eq!(names, vec!["newer", "older"]);
}

#[test]
fn associating_twice_is_a_no_op_success() {
    let mut todos = TodoService::new();
    todos.create(todo_request("todo"), 100).unwrap();
    let mut tags = TagService::new();
    tags.create(tag_request("work"), 100).unwrap();

    let first = tags
        .add_tag_to_todo(&todos, &AddTagRequest { todo_id: 1, tag_id: 1 }, 150)
        .unwrap();
    assert!(first); // newly created
    let second = tags
        .add_tag_to_todo(&todos, &AddTagRequest { todo_id: 1, tag_id: 1 }, 160)
        .unwrap();
    assert!(!second); // already linked, no second row
    assert_eq!(tags.todo_tags.len(), 1);

    let missing_todo = tags.add_tag_to_todo(&todos, &AddTagRequest { todo_id: 9, tag_id: 1 }, 170);
    assert!(matches!(missing_todo, Err(ServiceError::NotFound(_))));
    let missing_tag = tags.add_tag_to_todo(&todos, &AddTagRequest { todo_id: 1, tag_id: 9 }, 170);
    assert!(matches!(missing_tag, Err(ServiceError::NotFound(_))));
}

#[test]
fn removing_an_association() {
    let mut todos = TodoService::new();
    todos.create(todo_request("todo"), 100).unwrap();
    let mut tags = TagService::new();
    tags.create(tag_request("work"), 100).unwrap();
    tags.add_tag_to_todo(&todos, &AddTagRequest { todo_id: 1, tag_id: 1 }, 150).unwrap();

    assert!(tags.remove_tag_from_todo(1, 1).is_ok());
    assert!(tags.todo_tags.is_empty());
    assert!(matches!(tags.remove_tag_from_todo(1, 1), Err(ServiceError::NotFound(_))));
}

#[test]
fn todo_tags_come_ordered_by_name() {
    let mut todos = TodoService::new();
    todos.create(todo_request("todo"), 100).unwrap();
    let mut tags = TagService::new();
    tags.create(tag_request("zeta"), 100).unwrap();
    tags.create(tag_request("alpha"), 110).unwrap();
    tags.create(tag_request("mid"), 120).unwrap();
    for tag_id in [1, 2, 3] {
        tags.add_tag_to_todo(&todos, &AddTagRequest { todo_id: 1, tag_id }, 150).unwrap();
    }

    let listed = tags.get_todo_tags(1, 500);
    let names: Vec<&str> = listed.iter().map(|t| t.name.as_str()).collect();
    assert_eq!(names, vec!["alpha", "mid", "zeta"]);
}

#[test]
fn todos_of_a_tag_newest_first_with_their_tags() {
    let mut todos = TodoService::new();
    todos.create(todo_request("older todo"), 100).unwrap();
    todos.create(todo_request("newer todo"), 200).unwrap();
    todos.create(todo_request("untagged"), 300).unwrap();
    let mut tags = TagService::new();
    tags.create(tag_request("work"), 100).unwrap();
    tags.create(tag_request("extra"), 110).unwrap();
    tags.add_tag_to_todo(&todos, &AddTagRequest { todo_id: 1, tag_id: 1 }, 150).unwrap();
    tags.add_tag_to_todo(&todos, &AddTagRequest { todo_id: 2, tag_id: 1 }, 160).unwrap();
    tags.add_tag_to_todo(&todos, &AddTagRequest { todo_id: 2, tag_id: 2 }, 170).unwrap();

    let plain = tags.get_todos_by_tag(&todos, 1, 500).unwrap();
    let titles: Vec<&str> = plain.iter().map(|t| t.title.as_str()).collect();
    assert_eq!(titles, vec!["newer todo", "older todo"]);

    let with_tags = get_todos_by_tag(&todos, &tags, 1, 500).unwrap();
    assert_eq!(with_tags.len(), 2);
    assert_eq!(with_tags[0].title, "newer todo");
    let names: Vec<&str> = with_tags[0].tags.iter().map(|t| t.name.as_str()).collect();
    assert_eq!(names, vec!["extra", "work"]);
    let names: Vec<&str> = with_tags[1].tags.iter().map(|t| t.name.as_str()).collect();
    assert_eq!(names, vec!["work"]);

    assert!(matches!(
        tags.get_todos_by_tag(&todos, 9, 500),
        Err(ServiceError::NotFound(_))
    ));
}

#[test]
fn stock_color_choice_stays_in_the_table() {
    let stock = [
        "#007bff", "#28a745", "#dc3545", "#ffc107", "#6f42c1", "#fd7e14", "#20c997", "#6c757d",
        "#e83e8c", "#17a2b8",
    ];
    for seed in 0..25usize {
        let c = Tag::color_from_seed(seed);
        assert!(stock.contains(&c.as_str()));
    }
    assert_eq!(Tag::color_from_seed(0), "#007bff");
    assert_eq!(Tag::color_from_seed(13), "#ffc107");
}
