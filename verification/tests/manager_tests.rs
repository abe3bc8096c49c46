use kawakaze_backend::bootstrap::{BootstrapProgress, BootstrapStatus};
use kawakaze_backend::container::{ContainerConfig, ContainerState, RestartPolicy};
use kawakaze_backend::image::{Image, ImageState};
use kawakaze_backend::jail::{Host, JailError, JailState};
use kawakaze_backend::manager::StoreOp;
use kawakaze_backend::networking::ContainerNetwork;
use kawakaze_backend::restart::SeenJail;
use kawakaze_backend::store::{JailRow, StoreError};
use kawakaze_backend::zfs::ZfsError;
use kawakaze_backend::JailManager;

fn host() -> Host {
    Host { is_root: true, is_freebsd: true }
}

fn available_image(name: &str) -> Image {
    Image::new(name.to_string(), vec![])
        .with_snapshot(format!("zroot/kawakaze/images/{}@{}-1", name, name))
        .with_state(ImageState::Available)
}

fn config_for(image: &Image, name: Option<&str>) -> ContainerConfig {
    ContainerConfig {
        image_id: image.id.clone(),
        name: name.map(|n| n.to_string()),
        ports: vec![],
        volumes: vec![],
        restart_policy: RestartPolicy::No,
    }
}

#[test]
fn test_manager_create() {
    let manager = JailManager::new("/tmp/test.sock");
    assert!(!manager.is_running());
    assert_eq!(manager.socket_path(), "/tmp/test.sock");
    assert_eq!(manager.jail_count(), 0);
}

#[test]
fn test_manager_default() {
    let manager = JailManager::with_default_socket();
    assert_eq!(manager.socket_path(), "/var/run/kawakaze.sock");
}

#[test]
fn test_manager_start() {
    let mut manager = JailManager::new("/tmp/test.sock");
    assert!(!manager.is_running());

    let result = manager.start();
    assert!(result.is_ok());
    assert!(manager.is_running());
}

#[test]
fn test_manager_start_already_running() {
    let mut manager = JailManager::new("/tmp/test.sock");
    manager.start().unwrap();

    let result = manager.start();
    assert!(result.is_err());
    assert!(result.unwrap_err().to_string().contains("already running"));
}

#[test]
fn test_manager_stop() {
    let mut manager = JailManager::new("/tmp/test.sock");
    manager.start().unwrap();

    let result = manager.stop(&host());
    assert!(result.is_ok());
    assert!(!manager.is_running());
}

#[test]
fn test_manager_stop_not_running() {
    let mut manager = JailManager::new("/tmp/test.sock");

    let result = manager.stop(&host());
    assert!(result.is_err());
    assert!(result.unwrap_err().to_string().contains("not running"));
}

#[test]
fn test_add_jail() {
    let mut manager = JailManager::new("/tmp/test.sock");

    let result = manager.add_jail("test_jail");
    assert!(result.is_ok());
    assert_eq!(manager.jail_count(), 1);
    assert!(manager.jail_names().contains(&"test_jail".to_string()));
}

#[test]
fn test_add_duplicate_jail() {
    let mut manager = JailManager::new("/tmp/test.sock");
    manager.add_jail("test_jail").unwrap();

    let result = manager.add_jail("test_jail");
    assert!(result.is_err());

    match result {
        Err(JailError::CreationFailed(msg)) => {
            assert!(msg.contains("already exists"));
        }
        _ => panic!("Expected CreationFailed error"),
    }
}

#[test]
fn lib_test_get_jail() {
    let mut manager = JailManager::new("/tmp/test.sock");
    manager.add_jail("test_jail").unwrap();

    let jail = manager.get_jail("test_jail");
    assert!(jail.is_some());
    assert_eq!(jail.unwrap().name(), "test_jail");
}

#[test]
fn lib_test_get_jail_not_found() {
    let manager = JailManager::new("/tmp/test.sock");

    let jail = manager.get_jail("nonexistent");
    assert!(jail.is_none());
}

#[test]
fn test_start_jail() {
    let mut manager = JailManager::new("/tmp/test.sock");
    manager.add_jail("test_jail").unwrap();

    let plan = manager.start_jail("test_jail", &host());
    assert!(plan.is_ok());
    let result = manager.jail_started("test_jail", Ok(17));
    assert!(result.is_ok());

    let jail = manager.get_jail("test_jail").unwrap();
    assert!(jail.is_running());
    assert_eq!(jail.jid(), 17);
}

#[test]
fn lib_test_start_jail_not_found() {
    let mut manager = JailManager::new("/tmp/test.sock");

    let result = manager.start_jail("nonexistent", &host());
    assert!(result.is_err());

    match result {
        Err(JailError::StartFailed(msg)) => {
            assert!(msg.contains("not found"));
        }
        _ => panic!("Expected StartFailed error"),
    }
    assert!(matches!(manager.jail_started("nonexistent", Ok(1)), Err(JailError::StartFailed(_))));
}

#[test]
fn test_stop_jail() {
    let mut manager = JailManager::new("/tmp/test.sock");
    manager.add_jail("test_jail").unwrap();
    manager.jail_started("test_jail", Ok(17)).unwrap();

    let plan = manager.stop_jail("test_jail", &host()).unwrap();
    assert_eq!(plan.jid, 17);
    let result = manager.jail_stopped("test_jail", Ok(()));
    assert!(result.is_ok());

    let jail = manager.get_jail("test_jail").unwrap();
    assert!(!jail.is_running());
    assert_eq!(jail.state(), JailState::Stopped);
}

#[test]
fn lib_test_stop_jail_not_found() {
    let mut manager = JailManager::new("/tmp/test.sock");

    let result = manager.stop_jail("nonexistent", &host());
    assert!(result.is_err());

    match result {
        Err(JailError::StopFailed(msg)) => {
            assert!(msg.contains("not found"));
        }
        _ => panic!("Expected StopFailed error"),
    }
    assert!(matches!(manager.jail_stopped("nonexistent", Ok(())), Err(JailError::StopFailed(_))));
}

#[test]
fn test_remove_jail() {
    let mut manager = JailManager::new("/tmp/test.sock");
    manager.add_jail("test_jail").unwrap();

    let result = manager.remove_jail("test_jail", &host());
    assert!(result.is_ok());
    assert_eq!(manager.jail_count(), 0);
}

#[test]
fn test_remove_jail_not_found() {
    let mut manager = JailManager::new("/tmp/test.sock");

    let result = manager.remove_jail("nonexistent", &host());
    assert!(result.is_err());

    match result {
        Err(JailError::DestroyFailed(msg)) => {
            assert!(msg.contains("not found"));
        }
        _ => panic!("Expected DestroyFailed error"),
    }
}

#[test]
fn test_multiple_jails() {
    let mut manager = JailManager::new("/tmp/test.sock");

    manager.add_jail("jail1").unwrap();
    manager.add_jail("jail2").unwrap();
    manager.add_jail("jail3").unwrap();

    assert_eq!(manager.jail_count(), 3);

    let names = manager.jail_names();
    assert_eq!(names.len(), 3);
    assert!(names.contains(&"jail1".to_string()));
    assert!(names.contains(&"jail2".to_string()));
    assert!(names.contains(&"jail3".to_string()));
}

#[test]
fn test_manager_stops_jails_on_shutdown() {
    let mut manager = JailManager::new("/tmp/test.sock");
    manager.add_jail("jail1").unwrap();
    manager.add_jail("jail2").unwrap();
    manager.add_jail("idle").unwrap();
    manager.start().unwrap();
    manager.jail_started("jail1", Ok(1)).unwrap();
    manager.jail_started("jail2", Ok(2)).unwrap();

    assert!(manager.get_jail("jail1").unwrap().is_running());
    assert!(manager.get_jail("jail2").unwrap().is_running());

    let plans = manager.stop(&host()).unwrap();
    let names: Vec<&str> = plans.iter().map(|p| p.0.as_str()).collect();
    assert_eq!(names, vec!["jail1", "jail2"]);
    for (name, _) in &plans {
        manager.jail_stopped(name, Ok(())).unwrap();
    }

    assert!(!manager.get_jail("jail1").unwrap().is_running());
    assert!(!manager.get_jail("jail2").unwrap().is_running());
}

#[test]
fn test_jail_names() {
    let mut manager = JailManager::new("/tmp/test.sock");
    manager.add_jail("alpha").unwrap();
    manager.add_jail("beta").unwrap();

    let names = manager.jail_names();
    assert_eq!(names.len(), 2);
    assert_eq!(names[0], "alpha");
    assert_eq!(names[1], "beta");
}

#[test]
fn added_jails_are_listed_and_removed_jails_are_not() {
    let mut manager = JailManager::new("/tmp/test.sock");
    let row = manager.add_jail("a").unwrap();
    assert_eq!(row, JailRow { name: "a".into(), path: None, ip: None, state: "created".into(), jid: -1 });
    manager.add_jail("b").unwrap();
    assert!(manager.jail_names().contains(&"a".to_string()));
    assert_eq!(manager.remove_jail("a", &host()), Ok(None));
    assert!(!manager.jail_names().contains(&"a".to_string()));
    assert_eq!(manager.jail_names(), vec!["b"]);
    assert!(manager.add_jail("bad name").is_err());
    assert_eq!(manager.jail_count(), 1);
}

#[test]
fn running_jail_leaves_the_kernel_before_it_is_removed() {
    let mut manager = JailManager::new("/tmp/test.sock");
    manager.add_jail("a").unwrap();
    manager.jail_started("a", Ok(9)).unwrap();
    let plan = manager.remove_jail("a", &host()).unwrap().unwrap();
    assert_eq!(plan.jid, 9);
    assert_eq!(manager.jail_count(), 1);
    assert!(manager.jail_removed("a", Err(JailError::StopFailed("busy".into()))).is_err());
    assert_eq!(manager.jail_count(), 1);
    manager.jail_removed("a", Ok(())).unwrap();
    assert_eq!(manager.jail_count(), 0);
    manager.add_jail("b").unwrap();
    manager.jail_started("b", Ok(9)).unwrap();
    let plain = Host { is_root: false, is_freebsd: true };
    assert!(matches!(manager.remove_jail("b", &plain), Err(JailError::StopFailed(_))));
    assert_eq!(manager.jail_count(), 1);
}

#[test]
fn restart_reconciles_jails_with_the_kernel() {
    let mut manager = JailManager::with_database("/tmp/k.db").unwrap();
    let rows = vec![
        (JailRow { name: "gone".into(), path: None, ip: None, state: "running".into(), jid: 5 }, None),
        (JailRow { name: "alive".into(), path: None, ip: None, state: "stopped".into(), jid: -1 }, Some(31)),
        (JailRow { name: "fresh".into(), path: Some("/j".into()), ip: None, state: "created".into(), jid: -1 }, None),
        (JailRow { name: "idle".into(), path: None, ip: None, state: "stopped".into(), jid: 77 }, None),
    ];
    for (row, live) in rows {
        assert!(manager.load_jail(row, live));
    }
    // A row that cannot be read, or that comes twice, is left out.
    assert!(!manager.load_jail(JailRow { name: "odd".into(), path: None, ip: None, state: "???".into(), jid: 1 }, None));
    assert!(!manager.load_jail(JailRow { name: "gone".into(), path: None, ip: None, state: "created".into(), jid: -1 }, None));
    assert_eq!(manager.jail_names(), vec!["gone", "alive", "fresh", "idle"]);
    let state = |m: &JailManager, n: &str| {
        let j = m.get_jail(n).unwrap();
        (j.state(), j.jid())
    };
    assert_eq!(state(&manager, "gone"), (JailState::Stopped, -1));
    assert_eq!(state(&manager, "alive"), (JailState::Running, 31));
    assert_eq!(state(&manager, "fresh"), (JailState::Created, -1));
    assert_eq!(state(&manager, "idle"), (JailState::Stopped, -1));
    assert_eq!(manager.get_jail("fresh").unwrap().info().path, Some("/j".to_string()));
}

#[test]
fn images_are_found_by_id_name_and_prefix() {
    let mut manager = JailManager::new("/tmp/test.sock");
    let first = available_image("web");
    let second = available_image("db");
    let (id1, id2) = (first.id.clone(), second.id.clone());
    manager.add_image(first).unwrap();
    manager.add_image(second).unwrap();
    assert_eq!(manager.list_images().len(), 2);
    assert_eq!(manager.get_image(&id1).unwrap().name, "web");
    assert!(manager.get_image("web").is_none());
    assert_eq!(manager.get_image_by_name("db").unwrap().id, id2);
    assert_eq!(manager.get_image_by_prefix(&id2[..8]).unwrap().id, id2);
    assert_eq!(manager.find_image(&id1).unwrap().id, id1);
    assert_eq!(manager.find_image("web").unwrap().id, id1);
    assert_eq!(manager.find_image(&id2[..12]).unwrap().id, id2);
    assert!(manager.find_image("nothing like it").is_none());
    // A name wins over the beginning of an identifier.
    let named_like_prefix = available_image(&id1[..4]);
    let id3 = named_like_prefix.id.clone();
    manager.add_image(named_like_prefix).unwrap();
    assert_eq!(manager.find_image(&id1[..4]).unwrap().id, id3);
    // An image of a known identifier is replaced.
    let mut again = available_image("web2");
    again.id = id1.clone();
    manager.add_image(again).unwrap();
    assert_eq!(manager.list_images().len(), 3);
    assert_eq!(manager.get_image(&id1).unwrap().name, "web2");
    let removal = manager.remove_image(&id1).unwrap();
    assert_eq!(removal.id, id1);
    assert!(removal.destroy.is_none());
    assert!(manager.get_image(&id1).is_none());
    assert!(manager.remove_image(&id1).is_ok());
    assert!(!manager.load_image(available_image_with_id("x", &id2)));
    assert!(manager.load_image(available_image("y")));
}

fn available_image_with_id(name: &str, id: &str) -> Image {
    let mut i = available_image(name);
    i.id = id.to_string();
    i
}

#[test]
fn container_has_one_jail_and_takes_it_along() {
    let mut manager = JailManager::new("/tmp/test.sock");
    let image = available_image("web");
    manager.add_image(image.clone()).unwrap();
    manager.add_jail("standalone").unwrap();

    let draft = manager.create_container(config_for(&image, Some("c1"))).unwrap();
    assert!(draft.clone_from.is_none());
    let id = draft.container.id.clone();
    assert_eq!(draft.container.jail_name, format!("kawakaze-{}", &id[..8]));
    assert_eq!(draft.container.dataset, format!("zroot/kawakaze/containers/{}", &id[..8]));
    assert_eq!(draft.container.name, Some("c1".to_string()));
    assert_eq!(manager.list_containers().len(), 0);
    let (container, row) = manager.container_created(draft, Ok(()), Some("/mnt/c1")).unwrap();
    assert_eq!(container.state, ContainerState::Created);
    let jail_name = container.jail_name.clone();
    // The row of the container's jail comes back, to be stored.
    assert_eq!(
        (row.name.as_str(), row.path.as_deref(), row.state.as_str(), row.jid),
        (jail_name.as_str(), Some("/mnt/c1"), "created", -1)
    );

    assert_eq!(manager.list_containers().len(), 1);
    let jails: Vec<String> = manager.jail_names().into_iter().filter(|n| *n == jail_name).collect();
    assert_eq!(jails.len(), 1);
    assert_eq!(manager.get_jail(&jail_name).unwrap().info().path, Some("/mnt/c1".to_string()));
    // The jail of a container cannot be removed by itself.
    assert_eq!(
        manager.remove_jail(&jail_name, &host()),
        Err(JailError::DestroyFailed(format!("Jail '{}' belongs to a container", jail_name)))
    );
    // The image of a container stays.
    assert_eq!(
        manager.remove_image(&image.id),
        Err(StoreError::DatabaseError(format!("Image '{}' is used by a container", image.id)))
    );

    // Start with a network, stop, and start again.
    let network = ContainerNetwork {
        ip: "10.11.0.2".into(),
        bridge: "bridge0".into(),
        epair_host: "epair0a".into(),
        epair_jail: "epair0b".into(),
        gateway: "10.11.0.1".into(),
    };
    let plan = manager.start_container(&id, &host(), Some(&network)).unwrap();
    assert_eq!(plan.root, "/mnt/c1");
    match plan.creation {
        kawakaze_backend::jail::JailCreation::Command(c) => {
            assert!(c.args.contains(&"vnet".to_string()));
            assert!(c.args.contains(&"vnet.interface=epair0b".to_string()));
            assert!(c.args.contains(&format!("name={}", jail_name)));
        }
        _ => panic!("expected the jail command"),
    }
    let row = manager.container_started(&id, Ok(21)).unwrap();
    assert_eq!((row.name.as_str(), row.state.as_str(), row.jid), (jail_name.as_str(), "running", 21));
    let c = manager.get_container(&id).unwrap();
    assert_eq!((c.state, c.ip.clone()), (ContainerState::Running, Some("10.11.0.2".to_string())));
    let started_at = c.started_at;
    assert!(started_at.is_some());
    assert_eq!(manager.get_jail(&jail_name).unwrap().jid(), 21);
    // A running container stays.
    assert_eq!(
        manager.remove_container(&id, &host()),
        Err(StoreError::SerializationError(format!("Container {} is running", id)))
    );
    assert_eq!(manager.stop_container(&id, &host()).unwrap().jid, 21);
    let row = manager.container_stopped(&id, Ok(())).unwrap();
    assert_eq!((row.name.as_str(), row.state.as_str(), row.jid), (jail_name.as_str(), "stopped", -1));
    let c = manager.get_container(&id).unwrap();
    assert_eq!((c.state, c.started_at), (ContainerState::Stopped, started_at));
    manager.start_container(&id, &host(), None).unwrap();
    assert!(manager.container_started(&id, Err(JailError::CreationFailed("no".into()))).is_err());
    assert_eq!(manager.get_container(&id).unwrap().state, ContainerState::Stopped);

    // Removing the container removes its jail, and nothing else.
    let removal = manager.remove_container(&id, &host()).unwrap();
    assert_eq!(removal.id, id);
    assert_eq!(removal.jail_name, jail_name);
    assert!(removal.stop.is_none());
    assert!(removal.destroy.is_none());
    assert!(manager.get_container(&id).is_none());
    assert!(manager.get_jail(&jail_name).is_none());
    assert_eq!(manager.jail_names(), vec!["standalone"]);
    assert!(manager.remove_image(&image.id).is_ok());
}

#[test]
fn container_creation_failures() {
    let mut manager = JailManager::new("/tmp/test.sock");
    let image = available_image("web");
    assert_eq!(
        manager.create_container(config_for(&image, None)),
        Err(StoreError::SerializationError(format!("Image {} not found", image.id)))
    );
    let building = Image::new("b".to_string(), vec![]);
    manager.add_image(building.clone()).unwrap();
    assert_eq!(
        manager.create_container(config_for(&building, None)),
        Err(StoreError::SerializationError(format!("Image {} is not available", building.id)))
    );
    manager.add_image(image.clone()).unwrap();
    let draft = manager.create_container(config_for(&image, None)).unwrap();
    assert_eq!(draft.container.name, Some(draft.container.id.clone()));
    assert_eq!(
        manager.container_created(draft, Err(ZfsError::SnapshotNotFound("s".into())), None),
        Err(StoreError::SerializationError("ZFS error: Snapshot not found: s".into()))
    );
    assert_eq!(manager.list_containers().len(), 0);
    assert_eq!(manager.jail_count(), 0);
    assert_eq!(
        manager.start_container("nope", &host(), None),
        Err(StoreError::SerializationError("Container nope not found".into()))
    );
    assert!(manager.stop_container("nope", &host()).is_err());
    assert!(manager.container_started("nope", Ok(1)).is_err());
    assert!(manager.container_stopped("nope", Ok(())).is_err());
    assert!(manager.remove_container("nope", &host()).is_err());
}

#[test]
fn containers_are_found_by_id_name_and_prefix() {
    let mut manager = JailManager::new("/tmp/test.sock");
    let image = available_image("web");
    manager.add_image(image.clone()).unwrap();
    let draft = manager.create_container(config_for(&image, Some("front"))).unwrap();
    let (a, _) = manager.container_created(draft, Ok(()), None).unwrap();
    let draft = manager.create_container(config_for(&image, Some("back"))).unwrap();
    let (b, _) = manager.container_created(draft, Ok(()), None).unwrap();
    assert_eq!(manager.find_container(&a.id).unwrap().id, a.id);
    assert_eq!(manager.find_container("back").unwrap().id, b.id);
    assert_eq!(manager.find_container(&b.id[..10]).unwrap().id, b.id);
    assert!(manager.find_container("middle").is_none());
    assert_eq!(manager.get_container_by_name("front").unwrap().id, a.id);
    assert_eq!(manager.get_container_by_prefix(&a.id[..3]).map(|c| c.id[..3].to_string()), Some(a.id[..3].to_string()));
    assert!(manager.load_container(kawakaze_backend::container::Container::new(
        image.id.clone(),
        "kawakaze-loaded".to_string(),
        "ds".to_string()
    )));
    assert!(manager.get_jail("kawakaze-loaded").is_some());
    assert!(!manager.load_container(a.clone()));
    assert_eq!(manager.list_containers().len(), 3);
}

#[test]
fn progress_is_tracked() {
    let mut manager = JailManager::new("/tmp/test.sock");
    assert!(manager.get_bootstrap_progress("j").is_none());
    manager.register_bootstrap_tracker("j".to_string());
    let p = manager.get_bootstrap_progress("j").unwrap();
    assert_eq!((&p.status, p.progress, p.current_step.as_str()), (&BootstrapStatus::Initializing, 0, "Bootstrap starting..."));
    let next = BootstrapProgress {
        status: BootstrapStatus::Downloading,
        progress: 20,
        current_step: "x".into(),
        version: "v".into(),
        architecture: "a".into(),
    };
    assert!(manager.update_bootstrap_progress("j", next));
    assert_eq!(manager.get_bootstrap_progress("j").unwrap().progress, 20);
    let other = BootstrapProgress {
        status: BootstrapStatus::Complete,
        progress: 100,
        current_step: "x".into(),
        version: "v".into(),
        architecture: "a".into(),
    };
    assert!(!manager.update_bootstrap_progress("unknown", other));
    manager.remove_bootstrap_tracker("j");
    assert!(manager.get_bootstrap_progress("j").is_none());
    assert!(manager.get_build_progress("b").is_none());
    assert!(!manager.update_build_progress(
        "b",
        kawakaze_backend::image_builder::ImageBuildProgress {
            image_id: "b".into(),
            step: 1,
            total_steps: 2,
            current_instruction: "RUN x".into(),
            status: kawakaze_backend::image_builder::BuildStatus::Building,
        }
    ));
    manager.set_build_progress(
        "b".to_string(),
        kawakaze_backend::image_builder::ImageBuildProgress {
            image_id: "b".into(),
            step: 1,
            total_steps: 2,
            current_instruction: "RUN x".into(),
            status: kawakaze_backend::image_builder::BuildStatus::Building,
        },
    );
    assert_eq!(manager.get_build_progress("b").unwrap().step, 1);
    assert!(manager.get_build_progress("c").is_none());
}

#[test]
fn tracker_keeps_the_latest_report_of_each_name() {
    let mut t: kawakaze_backend::tracker::Tracker<u32> = kawakaze_backend::tracker::Tracker::new();
    assert_eq!(t.get("a"), None);
    t.set("a".to_string(), 1);
    t.set("b".to_string(), 2);
    t.set("a".to_string(), 3);
    assert_eq!(t.get("a"), Some(&3));
    assert_eq!(t.get("b"), Some(&2));
    assert!(t.update("b", 5));
    assert!(!t.update("c", 6));
    assert_eq!(t.get("b"), Some(&5));
    assert_eq!(t.get("c"), None);
    t.remove("a");
    t.remove("zzz");
    assert_eq!(t.get("a"), None);
    assert_eq!(t.get("b"), Some(&5));
}

#[test]
fn managers_are_made_as_asked() {
    let m = JailManager::with_paths("/tmp/s.sock", "/tmp/d.db").unwrap();
    assert_eq!(m.socket_path(), "/tmp/s.sock");
    assert_eq!(m.store().unwrap().db_path(), "/tmp/d.db");
    assert!(m.zfs().is_none());
    assert_eq!(m.config().zfs_pool, "zroot/kawakaze");
    let m = JailManager::with_default_database().unwrap();
    assert_eq!(m.store().unwrap().db_path(), "/var/db/kawakaze.db");
    assert_eq!(m.socket_path(), "/var/run/kawakaze.sock");
    assert!(JailManager::new("/x").store().is_none());
}

#[test]
fn shutdown_leaves_out_what_may_not_stop() {
    let mut manager = JailManager::new("/tmp/test.sock");
    manager.add_jail("a").unwrap();
    manager.jail_started("a", Ok(3)).unwrap();
    manager.start().unwrap();
    let plain = Host { is_root: false, is_freebsd: true };
    assert_eq!(manager.stop(&plain).unwrap().len(), 0);
    assert!(!manager.is_running());
    assert!(manager.get_jail("a").unwrap().is_running());
}

#[test]
fn store_ops_are_plain_values() {
    let op = StoreOp::DeleteJail("a".to_string());
    assert_eq!(op, StoreOp::DeleteJail("a".to_string()));
    assert_ne!(op, StoreOp::DeleteImage("a".to_string()));
}

#[test]
fn names_of_images_and_containers_are_unique() {
    let mut manager = JailManager::new("/tmp/test.sock");
    let image = available_image("web");
    manager.add_image(image.clone()).unwrap();
    assert_eq!(
        manager.add_image(available_image("web")),
        Err(StoreError::DatabaseError("Image 'web' already exists".into()))
    );
    assert!(!manager.load_image(available_image("web")));
    assert_eq!(manager.list_images().len(), 1);
    // The same image may be added again.
    assert!(manager.add_image(image.clone()).is_ok());
    assert_eq!(manager.list_images().len(), 1);

    let draft = manager.create_container(config_for(&image, Some("c1"))).unwrap();
    manager.container_created(draft, Ok(()), None).unwrap();
    assert_eq!(
        manager.create_container(config_for(&image, Some("c1"))),
        Err(StoreError::SerializationError("Container 'c1' already exists".into()))
    );
    let mut copy = kawakaze_backend::container::Container::new(
        image.id.clone(),
        "kawakaze-other".to_string(),
        "ds".to_string(),
    );
    copy.name = Some("c1".to_string());
    assert!(!manager.load_container(copy));
    assert_eq!(manager.list_containers().len(), 1);
    assert_eq!(manager.jail_count(), 1);
}

#[test]
fn a_restart_restores_what_was_written() {
    let mut first = JailManager::new("/tmp/test.sock");
    let image = available_image("web");
    first.add_image(image.clone()).unwrap();
    first.add_jail("alone").unwrap();
    first.add_jail("busy").unwrap();
    first.jail_started("busy", Ok(5)).unwrap();
    let draft = first.create_container(config_for(&image, Some("c1"))).unwrap();
    let (container, row) = first.container_created(draft, Ok(()), Some("/mnt/c1")).unwrap();
    let started = first.container_started(&container.id, Ok(9)).unwrap();
    assert_eq!(started.name, row.name);

    // What was written: a row for each jail, the image, the container.
    let rows: Vec<JailRow> = first
        .jail_names()
        .iter()
        .map(|n| first.get_jail(n).unwrap().to_db_row())
        .collect();
    assert_eq!(rows.len(), 3);
    // The kernel knows one of the jails only, the container's, under a new JID.
    let seen: Vec<SeenJail> = rows
        .into_iter()
        .map(|row| {
            let live = if row.name == started.name { Some(12) } else { None };
            SeenJail { row, live }
        })
        .collect();

    let mut second = JailManager::new("/tmp/test.sock");
    assert_eq!(second.load_jails(seen), vec![true, true, true]);
    assert_eq!(second.load_images(vec![image.clone()]), vec![true]);
    let stored = first.get_container(&container.id).unwrap();
    let copy = stored.clone();
    assert_eq!(second.load_containers(vec![copy]), vec![true]);

    assert_eq!(second.jail_names(), first.jail_names());
    assert_eq!(second.jail_count(), 3);
    assert_eq!(second.list_images().len(), 1);
    assert_eq!(second.list_containers().len(), 1);
    assert_eq!(second.get_container(&container.id).unwrap().jail_name, started.name);
    let jail = second.get_jail("alone").unwrap();
    assert_eq!((jail.state(), jail.jid()), (JailState::Created, -1));
    let jail = second.get_jail("busy").unwrap();
    assert_eq!((jail.state(), jail.jid()), (JailState::Stopped, -1));
    let jail = second.get_jail(&started.name).unwrap();
    assert_eq!((jail.state(), jail.jid()), (JailState::Running, 12));
    assert_eq!(jail.info().path, Some("/mnt/c1".to_string()));
}

#[test]
fn rows_that_cannot_be_taken_in_are_passed_over() {
    let row = |name: &str, state: &str| JailRow {
        name: name.into(),
        path: None,
        ip: None,
        state: state.into(),
        jid: -1,
    };
    let seen = vec![
        SeenJail { row: row("a", "running"), live: Some(3) },
        SeenJail { row: row("b", "sleeping"), live: None },
        SeenJail { row: row("a", "created"), live: None },
        SeenJail { row: row("c", "running"), live: Some(0) },
    ];
    let mut manager = JailManager::new("/tmp/test.sock");
    assert_eq!(manager.load_jails(seen), vec![true, false, false, true]);
    assert_eq!(manager.jail_names(), vec!["a", "c"]);
    assert_eq!(manager.get_jail("a").unwrap().jid(), 3);
    assert_eq!(manager.get_jail("c").unwrap().state(), JailState::Stopped);
    let image = available_image("web");
    assert_eq!(
        manager.load_images(vec![image.clone(), available_image("web"), image.clone()]),
        vec![true, false, false]
    );
    assert_eq!(manager.load_containers(vec![]), Vec::<bool>::new());
}
