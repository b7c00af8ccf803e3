use todo_dag::{is_zero, Timestamp, TodoList, TodoStatus};

#[test]
fn a_new_list_is_empty() {
    let list = TodoList::new();
    assert!(list.items().is_empty());
    assert!(list.has_room());
    assert_eq!(list.completion_percentage(), 0);
    assert_eq!(list.in_progress_id(), None);
    assert!(list.is_all_terminal());
}

#[test]
fn a_default_list_counts_from_zero() {
    let mut list = TodoList::default();
    assert_eq!(list.add("a".into(), TodoStatus::Pending).id, 0);
    assert_eq!(list.add_dag_item("b".into(), vec![0]), Ok(1));
    list.clear();
    assert_eq!(list.add("c".into(), TodoStatus::Pending).id, 1);
}

#[test]
fn adding_gives_the_item_back() {
    let mut list = TodoList::new();
    let at = Timestamp { seconds: 12, nanos: 34 };
    let item = list.add_at("write".into(), TodoStatus::Completed, at);
    assert_eq!(item.id, 1);
    assert_eq!(item.content, "write");
    assert_eq!(item.status, TodoStatus::Completed);
    assert!(item.depends_on.is_empty());
    assert_eq!(item.created_at, Some(at));
    assert_eq!(item.started_at, None);
    assert_eq!(item.completed_at, None);
    assert_eq!(item.heartbeat, None);
    assert_eq!(item.result, None);
    assert_eq!(item.error, None);
    assert_eq!(item.restart_count, 0);
    assert_eq!(list.add("next".into(), TodoStatus::Ready).id, 2);
}

#[test]
fn adding_in_progress_ends_the_progress_of_others() {
    let mut list = TodoList::new();
    list.add("a".into(), TodoStatus::InProgress);
    list.add("b".into(), TodoStatus::Completed);
    list.add("c".into(), TodoStatus::InProgress);
    let statuses: Vec<TodoStatus> = list.items().iter().map(|i| i.status).collect();
    assert_eq!(
        statuses,
        vec![TodoStatus::Pending, TodoStatus::Completed, TodoStatus::InProgress]
    );
    assert_eq!(list.in_progress_id(), Some(3));
}

#[test]
fn updating_to_in_progress_ends_the_progress_of_others() {
    let mut list = TodoList::new();
    list.add("a".into(), TodoStatus::InProgress);
    list.add("b".into(), TodoStatus::Pending);
    let updated = list.update_status(2, TodoStatus::InProgress).unwrap();
    assert_eq!(updated.id, 2);
    assert_eq!(updated.status, TodoStatus::InProgress);
    assert_eq!(list.items()[0].status, TodoStatus::Pending);
    assert_eq!(list.in_progress_id(), Some(2));
    // The one in progress may be set so again.
    list.update_status(2, TodoStatus::InProgress).unwrap();
    assert_eq!(list.in_progress_id(), Some(2));
    // An unknown id ends all progress.
    assert!(list.update_status(7, TodoStatus::InProgress).is_none());
    assert_eq!(list.in_progress_id(), None);
}

#[test]
fn a_flat_update_touches_the_status_alone() {
    let mut list = TodoList::new();
    list.add_dag_item("a".into(), vec![]).unwrap();
    list.add_dag_item("b".into(), vec![1]).unwrap();
    list.update_status(1, TodoStatus::Completed).unwrap();
    assert_eq!(list.items()[0].completed_at, None);
    assert_eq!(list.items()[0].heartbeat, None);
    assert_eq!(list.items()[1].status, TodoStatus::Pending);
}

#[test]
fn percentages_round_half_up() {
    let mut list = TodoList::new();
    list.add("a".into(), TodoStatus::Completed);
    list.add("b".into(), TodoStatus::Pending);
    list.add("c".into(), TodoStatus::Failed);
    assert_eq!(list.completion_percentage(), 33);
    list.update_status(2, TodoStatus::Completed);
    assert_eq!(list.completion_percentage(), 67);
    list.update_status(3, TodoStatus::Completed);
    assert_eq!(list.completion_percentage(), 100);
    list.clear();
    for i in 0..8 {
        let status = if i == 0 { TodoStatus::Completed } else { TodoStatus::Skipped };
        list.add("x".into(), status);
    }
    // 12.5 percent
    assert_eq!(list.completion_percentage(), 13);
}

#[test]
fn snapshots_show_the_list() {
    let mut list = TodoList::new();
    list.add("a".into(), TodoStatus::Completed);
    list.add("b".into(), TodoStatus::InProgress);
    list.update_dag_status(1, TodoStatus::Completed, Some("fine".into()), None);
    let snapshot = list.snapshot();
    list.clear();
    assert_eq!(snapshot.items.len(), 2);
    assert_eq!(snapshot.items[0].content, "a");
    assert_eq!(snapshot.items[0].result.as_deref(), Some("fine"));
    assert_eq!(snapshot.items[1].status, TodoStatus::InProgress);
    assert_eq!(snapshot.completion_pct, 50);
    assert_eq!(snapshot.in_progress_id, Some(2));
    assert_eq!(snapshot.clone().items[0].id, 1);
}

#[test]
fn a_clone_is_a_list_of_its_own() {
    let mut list = TodoList::new();
    list.add_dag_item("a".into(), vec![]).unwrap();
    list.add_dag_item("b".into(), vec![1]).unwrap();
    let copy = list.clone();
    list.update_dag_status(1, TodoStatus::Failed, None, None);
    assert_eq!(copy.items()[0].status, TodoStatus::Ready);
    assert_eq!(copy.items()[1].depends_on, vec![1]);
    assert_eq!(list.items()[1].status, TodoStatus::Skipped);
}

#[test]
fn clearing_starts_anew() {
    let mut list = TodoList::new();
    list.add("a".into(), TodoStatus::Pending);
    list.add("b".into(), TodoStatus::Pending);
    list.clear();
    assert!(list.items().is_empty());
    assert_eq!(list.add("c".into(), TodoStatus::Pending).id, 1);
}

#[test]
fn zero_is_zero() {
    assert!(is_zero(&0));
    assert!(!is_zero(&1));
}
