use autodl::config::Config;
use autodl::registry::Registry;
use autodl::task::Task;

fn task_with_id(id: &str) -> Task {
    Task::new_update(&Config::default(), id.to_string())
}

#[test]
fn round_trip_insert_snapshot_remove() {
    let mut registry = Registry::new();
    assert_eq!(registry.len(), 0);
    assert!(registry.insert(task_with_id("a")));
    assert_eq!(registry.len(), 1);
    assert!(registry.contains("a"));
    let snap = registry.snapshot();
    assert_eq!(snap.len(), 1);
    assert_eq!(snap[0].id, "a");
    assert!(registry.remove_by_id("a"));
    assert_eq!(registry.len(), 0);
    assert!(!registry.contains("a"));
    assert!(registry.snapshot().is_empty());
}

#[test]
fn duplicate_id_is_refused() {
    let mut registry = Registry::new();
    assert!(registry.insert(task_with_id("a")));
    assert!(!registry.insert(task_with_id("a")));
    assert_eq!(registry.len(), 1);
}

#[test]
fn removing_an_absent_id_changes_nothing() {
    let mut registry = Registry::new();
    assert!(registry.insert(task_with_id("a")));
    assert!(!registry.remove_by_id("b"));
    assert_eq!(registry.len(), 1);
    assert!(registry.contains("a"));
}

#[test]
fn each_task_is_removed_independently_and_the_registry_drains() {
    let mut registry = Registry::new();
    let ids = vec!["t1", "t2", "t3", "t4", "t5"];
    for id in &ids {
        assert!(registry.insert(task_with_id(id)));
    }
    assert_eq!(registry.len(), ids.len());
    // log files of distinct ids never collide
    let snap = registry.snapshot();
    for i in 0..snap.len() {
        for j in 0..snap.len() {
            if i != j {
                assert_ne!(snap[i].log_file_path, snap[j].log_file_path);
            }
        }
    }
    // removal in an order unlike insertion order, as concurrent completion
    // would produce
    for id in vec!["t3", "t1", "t5", "t2", "t4"] {
        assert!(registry.remove_by_id(id));
        assert!(!registry.contains(id));
    }
    assert_eq!(registry.len(), 0);
}

#[test]
fn removal_keeps_the_other_tasks() {
    let mut registry = Registry::new();
    assert!(registry.insert(task_with_id("a")));
    assert!(registry.insert(task_with_id("b")));
    assert!(registry.remove_by_id("a"));
    assert!(registry.contains("b"));
    let snap = registry.snapshot();
    assert_eq!(snap.len(), 1);
    assert_eq!(snap[0].id, "b");
}
