use dock_control::invoker::RuntimeError;
use dock_control::state::{get_stats, ContainerStore, ImageStore};

#[test]
fn created_containers_get_distinct_identifiers() {
    let mut store = ContainerStore::new();
    let a = store.create_container("web".to_string(), "nginx".to_string()).unwrap();
    let b = store.create_container("web".to_string(), "nginx".to_string()).unwrap();
    let c = store.create_container("db".to_string(), "postgres".to_string()).unwrap();
    assert_ne!(a.id, b.id);
    assert_ne!(b.id, c.id);
    assert_ne!(a.id, c.id);
    assert_eq!(a.status, "created");
    assert_eq!(c.image, "postgres");
    let listed = store.list();
    assert_eq!(listed.len(), 3);
    assert_eq!(listed[2].id, c.id);
    assert_eq!(listed[2].name, "db");
}

#[test]
fn start_then_stop_leaves_stopped() {
    let mut store = ContainerStore::new();
    let a = store.create_container("web".to_string(), "nginx".to_string()).unwrap();
    assert_eq!(store.start_container(&a.id).unwrap(), "Container started");
    assert_eq!(store.list()[0].status, "running");
    assert_eq!(store.stop_container(&a.id).unwrap(), "Container stopped");
    assert_eq!(store.list()[0].status, "stopped");
    store.start_container(&a.id).unwrap();
    assert_eq!(store.list()[0].status, "running");
}

#[test]
fn unknown_identifier_is_not_found_and_changes_nothing() {
    let mut store = ContainerStore::new();
    let a = store.create_container("web".to_string(), "nginx".to_string()).unwrap();
    match store.start_container("nope") {
        Err(RuntimeError::NotFound(id)) => assert_eq!(id, "nope"),
        other => panic!("unexpected {:?}", other),
    }
    assert!(matches!(store.stop_container("nope"), Err(RuntimeError::NotFound(_))));
    assert!(matches!(store.remove_container("nope"), Err(RuntimeError::NotFound(_))));
    let listed = store.list();
    assert_eq!(listed.len(), 1);
    assert_eq!(listed[0].id, a.id);
    assert_eq!(listed[0].status, "created");
}

#[test]
fn removing_a_container_keeps_the_others() {
    let mut store = ContainerStore::new();
    let a = store.create_container("a".to_string(), "x".to_string()).unwrap();
    let b = store.create_container("b".to_string(), "y".to_string()).unwrap();
    assert_eq!(store.remove_container(&a.id).unwrap(), "Container removed");
    let listed = store.list();
    assert_eq!(listed.len(), 1);
    assert_eq!(listed[0].id, b.id);
    let c = store.create_container("c".to_string(), "z".to_string()).unwrap();
    assert_ne!(c.id, a.id);
    assert_ne!(c.id, b.id);
}

#[test]
fn pulled_images_are_recorded() {
    let mut images = ImageStore::new();
    let m = images.pull_image("nginx".to_string(), "latest".to_string()).unwrap();
    let n = images.pull_image("redis".to_string(), "7".to_string()).unwrap();
    assert_ne!(m.id, n.id);
    assert_eq!(m.name, "nginx");
    assert_eq!(m.tag, "latest");
    assert_eq!(m.size, "");
    assert_eq!(images.len(), 2);
    assert_eq!(images.remove_image(&m.id).unwrap(), "Image removed");
    assert!(matches!(images.remove_image(&m.id), Err(RuntimeError::NotFound(_))));
    assert_eq!(images.list()[0].name, "redis");
}

#[test]
fn store_stats_count_running_containers() {
    let mut containers = ContainerStore::new();
    let mut images = ImageStore::new();
    let a = containers.create_container("a".to_string(), "x".to_string()).unwrap();
    let b = containers.create_container("b".to_string(), "y".to_string()).unwrap();
    let c = containers.create_container("c".to_string(), "z".to_string()).unwrap();
    containers.start_container(&a.id).unwrap();
    containers.start_container(&b.id).unwrap();
    containers.start_container(&c.id).unwrap();
    containers.stop_container(&c.id).unwrap();
    images.pull_image("nginx".to_string(), "latest".to_string()).unwrap();
    images.pull_image("redis".to_string(), "7".to_string()).unwrap();
    let st = get_stats(&containers, &images);
    assert_eq!(st.total_containers, 3);
    assert_eq!(st.running_containers, 2);
    assert_eq!(st.total_images, 2);
}

#[test]
fn empty_store_stats_are_zero() {
    let st = get_stats(&ContainerStore::new(), &ImageStore::new());
    assert_eq!(st.total_containers, 0);
    assert_eq!(st.running_containers, 0);
    assert_eq!(st.total_images, 0);
}
