use todo_dag::{Timestamp, TodoList, TodoStatus};

fn at(seconds: i64) -> Timestamp {
    Timestamp { seconds, nanos: 0 }
}

fn ready_ids(list: &TodoList) -> Vec<u32> {
    list.get_ready_items().iter().map(|i| i.id).collect()
}

#[test]
fn dag_item_without_deps_is_ready() {
    let mut list = TodoList::new();
    let id = list.add_dag_item("task A".into(), vec![]).unwrap();
    assert_eq!(id, 1);
    assert_eq!(list.items()[0].status, TodoStatus::Ready);
    assert!(list.items()[0].depends_on.is_empty());
    assert!(list.items()[0].created_at.is_some());
}

#[test]
fn dag_item_with_deps_starts_pending() {
    let mut list = TodoList::new();
    let a_id = list.add_dag_item("task A".into(), vec![]).unwrap();
    let b_id = list.add_dag_item("task B".into(), vec![a_id]).unwrap();
    assert_eq!(b_id, 2);
    assert_eq!(list.items()[1].status, TodoStatus::Pending);
    assert_eq!(list.items()[1].depends_on, vec![a_id]);
}

#[test]
fn dag_missing_dep_returns_error() {
    let mut list = TodoList::new();
    let err = list.add_dag_item("task".into(), vec![42]).unwrap_err();
    assert!(err.contains("42"));
}

#[test]
fn dag_self_dep_returns_error() {
    let mut list = TodoList::new();
    // The item's own id does not exist yet, so a self-dependency is caught as a
    // missing dependency.
    let err = list.add_dag_item("X".into(), vec![0]).unwrap_err();
    assert!(err.contains("0"));
}

#[test]
fn dag_get_ready_returns_pending_with_all_deps_done() {
    let mut list = TodoList::new();
    let a = list.add_dag_item("A".into(), vec![]).unwrap();
    let b = list.add_dag_item("B".into(), vec![a]).unwrap();

    // Before A completes: B should not be ready.
    let ready_ids: Vec<u32> = list.get_ready_items().iter().map(|i| i.id).collect();
    assert_eq!(ready_ids, vec![a], "only A should be ready initially");

    // Complete A.
    list.update_dag_status(a, TodoStatus::Completed, Some("done".into()), None);

    // Now B should be ready.
    let ready = list.get_ready_items();
    assert_eq!(ready.len(), 1, "B should be ready after A completes");
    assert_eq!(ready[0].id, b);
}

#[test]
fn dag_failed_dep_causes_skipped_downstream() {
    let mut list = TodoList::new();
    let a = list.add_dag_item("A".into(), vec![]).unwrap();
    let _b = list.add_dag_item("B".into(), vec![a]).unwrap();
    list.update_dag_status(a, TodoStatus::Failed, None, Some("boom".into()));

    // B should be Skipped.
    assert_eq!(list.items()[1].status, TodoStatus::Skipped);
    assert!(
        list.items()[1].error.as_deref().unwrap().contains("Skipped"),
        "error should mention skipped: {:?}",
        list.items()[1].error
    );
}

#[test]
fn dag_is_all_terminal_works() {
    let mut list = TodoList::new();
    let a = list.add_dag_item("A".into(), vec![]).unwrap();
    let b = list.add_dag_item("B".into(), vec![a]).unwrap();

    assert!(!list.is_all_terminal());

    list.update_dag_status(a, TodoStatus::Completed, None, None);
    assert!(!list.is_all_terminal());

    list.update_dag_status(b, TodoStatus::Completed, None, None);
    assert!(list.is_all_terminal());
}

#[test]
fn dag_heartbeat_and_restart() {
    let mut list = TodoList::new();
    let a = list.add_dag_item("A".into(), vec![]).unwrap();

    list.update_heartbeat(a);
    assert!(list.items()[0].heartbeat.is_some());

    assert_eq!(list.items()[0].restart_count, 0);
    list.increment_restart(a);
    assert_eq!(list.items()[0].restart_count, 1);
}

#[test]
fn dag_multiple_deps_only_ready_when_all_complete() {
    let mut list = TodoList::new();
    let a = list.add_dag_item("A".into(), vec![]).unwrap();
    let b = list.add_dag_item("B".into(), vec![]).unwrap();
    let c = list.add_dag_item("C".into(), vec![a, b]).unwrap();

    // A and B have no deps, both immediately Ready. C is Pending.
    let ready: Vec<u32> = list.get_ready_items().iter().map(|i| i.id).collect();
    assert_eq!(ready, vec![a, b]);

    // Only complete A.
    list.update_dag_status(a, TodoStatus::Completed, None, None);
    let ready: Vec<u32> = list.get_ready_items().iter().map(|i| i.id).collect();
    assert_eq!(ready, vec![b], "C needs both A and B done");

    // Now complete B.
    list.update_dag_status(b, TodoStatus::Completed, None, None);
    let ready: Vec<u32> = list.get_ready_items().iter().map(|i| i.id).collect();
    assert_eq!(ready, vec![c], "C should now be ready");
}

#[test]
fn error_messages_are_exact() {
    let mut list = TodoList::new();
    list.add_dag_item("A".into(), vec![]).unwrap();
    let err = list.add_dag_item("B".into(), vec![1, 17, 18]).unwrap_err();
    assert_eq!(err, "Dependency item #17 does not exist");
    // A refused item leaves the list as it was.
    assert_eq!(list.items().len(), 1);
    assert_eq!(list.add_dag_item("B".into(), vec![1]), Ok(2));
    list.update_dag_status(1, TodoStatus::Failed, None, Some("boom".into()));
    assert_eq!(list.items()[0].error.as_deref(), Some("boom"));
    assert_eq!(list.items()[1].error.as_deref(), Some("Skipped: dependency #1 failed"));
}

#[test]
fn check_dependencies_agrees_with_adding() {
    let mut list = TodoList::new();
    assert_eq!(list.check_dependencies(&vec![]), Ok(()));
    assert_eq!(
        list.check_dependencies(&vec![1]),
        Err("Dependency item #1 does not exist".to_string())
    );
    list.add_dag_item("A".into(), vec![]).unwrap();
    assert_eq!(list.check_dependencies(&vec![1, 1]), Ok(()));
}

#[test]
fn cycles_are_found_over_several_steps() {
    let mut list = TodoList::new();
    list.add_dag_item("A".into(), vec![]).unwrap();
    list.add_dag_item("B".into(), vec![1]).unwrap();
    list.add_dag_item("C".into(), vec![2]).unwrap();
    list.add_dag_item("D".into(), vec![1]).unwrap();
    assert!(list.would_create_cycle(1, &vec![3]));
    assert!(list.would_create_cycle(2, &vec![4, 3]));
    assert!(list.would_create_cycle(7, &vec![7]));
    assert!(!list.would_create_cycle(2, &vec![4]));
    assert!(!list.would_create_cycle(5, &vec![1, 2, 3, 4]));
    assert!(!list.would_create_cycle(9, &vec![8]));
    assert!(!list.would_create_cycle(1, &vec![]));
}

#[test]
fn completion_goes_one_step_and_waits_for_all() {
    let mut list = TodoList::new();
    list.add_dag_item("A".into(), vec![]).unwrap();
    list.add_dag_item("B".into(), vec![1]).unwrap();
    list.add_dag_item("C".into(), vec![2]).unwrap();
    list.add_dag_item("D".into(), vec![1, 2]).unwrap();
    list.update_dag_status(1, TodoStatus::Completed, Some("r".into()), Some("e".into()));
    let statuses: Vec<TodoStatus> = list.items().iter().map(|i| i.status).collect();
    assert_eq!(
        statuses,
        vec![
            TodoStatus::Completed,
            TodoStatus::Ready,
            TodoStatus::Pending,
            TodoStatus::Pending
        ]
    );
    // A completed item keeps its result and takes no error.
    assert_eq!(list.items()[0].result.as_deref(), Some("r"));
    assert_eq!(list.items()[0].error, None);
    list.update_dag_status(2, TodoStatus::Completed, None, None);
    assert_eq!(ready_ids(&list), vec![3, 4]);
}

#[test]
fn failure_skips_direct_dependents_only() {
    let mut list = TodoList::new();
    list.add_dag_item("A".into(), vec![]).unwrap();
    list.add_dag_item("B".into(), vec![1]).unwrap();
    list.add_dag_item("C".into(), vec![2]).unwrap();
    list.update_dag_status(1, TodoStatus::Failed, Some("r".into()), Some("e".into()));
    assert_eq!(list.items()[0].result, None);
    assert_eq!(list.items()[1].status, TodoStatus::Skipped);
    assert!(list.items()[1].completed_at.is_some());
    assert_eq!(list.items()[2].status, TodoStatus::Pending);
    assert!(!list.is_all_terminal());
}

#[test]
fn times_go_where_they_belong() {
    let mut list = TodoList::new();
    list.add_dag_item_at("A".into(), vec![], at(1)).unwrap();
    list.add_dag_item_at("B".into(), vec![1], at(2)).unwrap();
    assert_eq!(list.items()[0].created_at, Some(at(1)));
    assert_eq!(list.items()[1].created_at, Some(at(2)));

    list.update_dag_status_at(1, TodoStatus::InProgress, None, None, at(3), at(4), &vec![]);
    assert_eq!(list.items()[0].heartbeat, Some(at(3)));
    assert_eq!(list.items()[0].started_at, Some(at(4)));
    assert_eq!(list.items()[0].completed_at, None);

    list.update_heartbeat_at(1, at(5));
    assert_eq!(list.items()[0].heartbeat, Some(at(5)));

    let skips = vec![at(8), at(9)];
    list.update_dag_status_at(1, TodoStatus::Failed, None, None, at(6), at(7), &skips);
    assert_eq!(list.items()[0].heartbeat, Some(at(6)));
    assert_eq!(list.items()[0].started_at, Some(at(4)));
    assert_eq!(list.items()[0].completed_at, Some(at(7)));
    assert_eq!(list.items()[1].completed_at, Some(at(9)));
    assert_eq!(list.items()[1].heartbeat, None);
}

#[test]
fn the_clock_gives_the_present() {
    let mut list = TodoList::new();
    list.add_dag_item("A".into(), vec![]).unwrap();
    let before = chrono::Utc::now().timestamp();
    list.update_dag_status(1, TodoStatus::Completed, None, None);
    let after = chrono::Utc::now().timestamp();
    let item = &list.items()[0];
    for time in [item.heartbeat.unwrap(), item.completed_at.unwrap()] {
        assert!(before <= time.seconds && time.seconds <= after);
        assert!(time.nanos < 2_000_000_000);
    }
}

#[test]
fn ready_items_have_their_dependencies_completed() {
    let mut list = TodoList::new();
    list.add_dag_item("A".into(), vec![]).unwrap();
    list.add_dag_item("B".into(), vec![1]).unwrap();
    list.update_status(2, TodoStatus::Ready);
    assert_eq!(ready_ids(&list), vec![1]);
    list.update_dag_status(1, TodoStatus::Completed, None, None);
    assert_eq!(ready_ids(&list), vec![2]);
}

#[test]
fn an_item_added_after_its_dependencies_are_done_stays_pending() {
    let mut list = TodoList::new();
    list.add_dag_item("A".into(), vec![]).unwrap();
    list.update_dag_status(1, TodoStatus::Completed, None, None);
    list.add_dag_item("B".into(), vec![1]).unwrap();
    assert_eq!(list.items()[1].status, TodoStatus::Pending);
}

#[test]
fn unknown_ids_change_nothing() {
    let mut list = TodoList::new();
    list.add_dag_item("A".into(), vec![]).unwrap();
    list.update_dag_status(9, TodoStatus::Failed, None, None);
    list.update_heartbeat(9);
    list.increment_restart(9);
    assert!(list.update_status(9, TodoStatus::Completed).is_none());
    let item = &list.items()[0];
    assert_eq!(item.status, TodoStatus::Ready);
    assert_eq!(item.heartbeat, None);
    assert_eq!(item.restart_count, 0);
}

#[test]
fn running_items_can_be_several() {
    let mut list = TodoList::new();
    list.add_dag_item("A".into(), vec![]).unwrap();
    list.add_dag_item("B".into(), vec![]).unwrap();
    list.add_dag_item("C".into(), vec![]).unwrap();
    list.update_dag_status(3, TodoStatus::InProgress, None, None);
    list.update_dag_status(2, TodoStatus::InProgress, None, None);
    let running: Vec<u32> = list.get_running_items().iter().map(|i| i.id).collect();
    assert_eq!(running, vec![2, 3]);
    assert_eq!(list.in_progress_id(), Some(2));
}

#[test]
fn an_unfinished_list_without_failures_has_work() {
    let mut list = TodoList::new();
    for i in 0..6u32 {
        let deps = (1..=i).filter(|d| d % 2 == i % 2).collect();
        list.add_dag_item(format!("task {}", i), deps).unwrap();
    }
    let mut rounds = 0;
    while !list.is_all_terminal() {
        let ready = ready_ids(&list);
        assert!(!ready.is_empty());
        list.update_dag_status(ready[0], TodoStatus::InProgress, None, None);
        list.update_dag_status(ready[0], TodoStatus::Completed, None, None);
        rounds += 1;
    }
    assert_eq!(rounds, 6);
    assert!(ready_ids(&list).is_empty());
    assert!(list.get_running_items().is_empty());
    assert_eq!(list.completion_percentage(), 100);
}

#[test]
fn skipping_ends_an_item() {
    let mut list = TodoList::new();
    list.add_dag_item("A".into(), vec![]).unwrap();
    list.add_dag_item("B".into(), vec![1]).unwrap();
    list.update_dag_status(1, TodoStatus::Skipped, Some("r".into()), None);
    assert_eq!(list.items()[0].status, TodoStatus::Skipped);
    assert!(list.items()[0].completed_at.is_some());
    assert_eq!(list.items()[0].result, None);
    assert_eq!(list.items()[0].error, None);
    assert_eq!(list.items()[1].status, TodoStatus::Pending);

    list.update_dag_status(1, TodoStatus::Skipped, None, Some("not needed".into()));
    assert_eq!(list.items()[0].error.as_deref(), Some("not needed"));
    list.update_dag_status(1, TodoStatus::Skipped, None, None);
    assert_eq!(list.items()[0].error.as_deref(), Some("not needed"));
}

#[test]
fn progress_is_kept_with_its_time() {
    let mut list = TodoList::new();
    list.add_dag_item("A".into(), vec![]).unwrap();
    list.increment_restart(1);
    list.record_progress_at(1, &Some("half".into()), at(5));
    assert_eq!(list.items()[0].heartbeat, Some(at(5)));
    assert_eq!(list.items()[0].result.as_deref(), Some("[progress] half"));
    assert_eq!(list.items()[0].status, TodoStatus::Ready);
    list.record_progress_at(1, &None, at(6));
    assert_eq!(list.items()[0].heartbeat, Some(at(6)));
    assert_eq!(list.items()[0].result.as_deref(), Some("[progress] half"));
    list.update_heartbeat_at(1, at(7));
    list.update_dag_status(1, TodoStatus::InProgress, None, None);
    list.update_status(1, TodoStatus::Ready);
    assert_eq!(list.items()[0].restart_count, 1);
}

#[test]
fn reports_stamp_what_they_end() {
    for status in [TodoStatus::Completed, TodoStatus::Failed, TodoStatus::Skipped] {
        let mut list = TodoList::new();
        list.add_dag_item("A".into(), vec![]).unwrap();
        list.add_dag_item("B".into(), vec![1]).unwrap();
        list.update_dag_status_at(1, status, None, None, at(1), at(2), &vec![at(3), at(4)]);
        assert_eq!(list.items()[0].completed_at, Some(at(2)));
        let skipped = status == TodoStatus::Failed;
        assert_eq!(list.items()[1].completed_at, if skipped { Some(at(4)) } else { None });
    }
}
