use kawakaze_backend::container::{
    Container, ContainerState, Mount, MountType, PortMapping, PortProtocol, RestartPolicy,
};

#[test]
fn test_container_state_display() {
    assert_eq!(ContainerState::Created.as_str(), "created");
    assert_eq!(ContainerState::Running.as_str(), "running");
    assert_eq!(ContainerState::Stopped.as_str(), "stopped");
    assert_eq!(ContainerState::Paused.as_str(), "paused");
    assert_eq!(ContainerState::Removing.as_str(), "removing");
}

#[test]
fn test_container_state_from_str() {
    assert_eq!(
        "created".parse::<ContainerState>().unwrap(),
        ContainerState::Created
    );
    assert_eq!(
        "RUNNING".parse::<ContainerState>().unwrap(),
        ContainerState::Running
    );
    assert_eq!(
        "Stopped".parse::<ContainerState>().unwrap(),
        ContainerState::Stopped
    );
}

#[test]
fn test_container_state_invalid() {
    assert!("invalid".parse::<ContainerState>().is_err());
}

#[test]
fn test_restart_policy_display() {
    assert_eq!(RestartPolicy::No.as_str(), "no");
    assert_eq!(RestartPolicy::OnRestart.as_str(), "on-restart");
    assert_eq!(RestartPolicy::OnFailure.as_str(), "on-failure");
    assert_eq!(RestartPolicy::Always.as_str(), "always");
}

#[test]
fn test_restart_policy_from_str() {
    assert_eq!("no".parse::<RestartPolicy>().unwrap(), RestartPolicy::No);
    assert_eq!(
        "ON-RESTART".parse::<RestartPolicy>().unwrap(),
        RestartPolicy::OnRestart
    );
    assert_eq!(
        "On-Failure".parse::<RestartPolicy>().unwrap(),
        RestartPolicy::OnFailure
    );
    assert_eq!(
        "always".parse::<RestartPolicy>().unwrap(),
        RestartPolicy::Always
    );
}

#[test]
fn test_restart_policy_default() {
    assert_eq!(RestartPolicy::default(), RestartPolicy::No);
}

#[test]
fn test_restart_policy_invalid() {
    assert!("invalid".parse::<RestartPolicy>().is_err());
}

#[test]
fn test_port_protocol_display() {
    assert_eq!(PortProtocol::Tcp.as_str(), "tcp");
    assert_eq!(PortProtocol::Udp.as_str(), "udp");
}

#[test]
fn test_port_protocol_from_str() {
    assert_eq!("tcp".parse::<PortProtocol>().unwrap(), PortProtocol::Tcp);
    assert_eq!("UDP".parse::<PortProtocol>().unwrap(), PortProtocol::Udp);
}

#[test]
fn test_port_protocol_default() {
    assert_eq!(PortProtocol::default(), PortProtocol::Tcp);
}

#[test]
fn test_port_protocol_invalid() {
    assert!("invalid".parse::<PortProtocol>().is_err());
}

#[test]
fn test_mount_type_display() {
    assert_eq!(MountType::Zfs.as_str(), "zfs");
    assert_eq!(MountType::Nullfs.as_str(), "nullfs");
}

#[test]
fn test_mount_type_from_str() {
    assert_eq!("zfs".parse::<MountType>().unwrap(), MountType::Zfs);
    assert_eq!("NULLFS".parse::<MountType>().unwrap(), MountType::Nullfs);
}

#[test]
fn test_mount_type_default() {
    assert_eq!(MountType::default(), MountType::Nullfs);
}

#[test]
fn test_mount_type_invalid() {
    assert!("invalid".parse::<MountType>().is_err());
}

#[test]
fn test_container_creation() {
    let container = Container::new(
        "image-123".to_string(),
        "jail-test".to_string(),
        "zroot/jails/test".to_string(),
    );

    assert_eq!(container.image_id, "image-123");
    assert_eq!(container.jail_name, "jail-test");
    assert_eq!(container.dataset, "zroot/jails/test");
    assert_eq!(container.state, ContainerState::Created);
    assert_eq!(container.restart_policy, RestartPolicy::No);
    assert!(container.mounts.is_empty());
    assert!(container.port_mappings.is_empty());
    assert!(container.ip.is_none());
    assert!(container.started_at.is_none());
    assert!(!container.id.is_empty());
}

#[test]
fn test_container_with_name() {
    let container = Container::new(
        "image-123".to_string(),
        "jail-test".to_string(),
        "zroot/jails/test".to_string(),
    )
    .with_name("my-container".to_string());

    assert_eq!(container.name, Some("my-container".to_string()));
}

#[test]
fn test_container_with_ip() {
    let container = Container::new(
        "image-123".to_string(),
        "jail-test".to_string(),
        "zroot/jails/test".to_string(),
    )
    .with_ip("10.11.0.2".to_string());

    assert_eq!(container.ip, Some("10.11.0.2".to_string()));
}

#[test]
fn test_container_with_restart_policy() {
    let container = Container::new(
        "image-123".to_string(),
        "jail-test".to_string(),
        "zroot/jails/test".to_string(),
    )
    .with_restart_policy(RestartPolicy::Always);

    assert_eq!(container.restart_policy, RestartPolicy::Always);
}

#[test]
fn test_container_with_mount() {
    let mount = Mount::new(
        "/host/path".to_string(),
        "/container/path".to_string(),
        MountType::Nullfs,
        false,
    );

    let container = Container::new(
        "image-123".to_string(),
        "jail-test".to_string(),
        "zroot/jails/test".to_string(),
    )
    .with_mount(mount);

    assert_eq!(container.mounts.len(), 1);
    assert_eq!(container.mounts[0].source, "/host/path");
    assert_eq!(container.mounts[0].destination, "/container/path");
}

#[test]
fn test_container_with_port_mapping() {
    let port_mapping = PortMapping::new(8080, 80, PortProtocol::Tcp);

    let container = Container::new(
        "image-123".to_string(),
        "jail-test".to_string(),
        "zroot/jails/test".to_string(),
    )
    .with_port_mapping(port_mapping);

    assert_eq!(container.port_mappings.len(), 1);
    assert_eq!(container.port_mappings[0].host_port, 8080);
    assert_eq!(container.port_mappings[0].container_port, 80);
}

#[test]
fn test_container_set_state() {
    let mut container = Container::new(
        "image-123".to_string(),
        "jail-test".to_string(),
        "zroot/jails/test".to_string(),
    );

    assert_eq!(container.state, ContainerState::Created);
    assert!(!container.is_running());

    container.set_state(ContainerState::Running);
    assert_eq!(container.state, ContainerState::Running);
    assert!(container.is_running());
    assert!(container.started_at.is_some());

    container.set_state(ContainerState::Stopped);
    assert_eq!(container.state, ContainerState::Stopped);
    assert!(container.is_stopped());
}

#[test]
fn test_container_display_name() {
    let container = Container::new(
        "image-123".to_string(),
        "jail-test".to_string(),
        "zroot/jails/test".to_string(),
    );

    // Without name, should display ID
    assert_eq!(container.display_name(), container.id);

    let container = container.with_name("my-container".to_string());

    // With name, should display name
    assert_eq!(container.display_name(), "my-container");
}

#[test]
fn test_container_id_unique() {
    let id1 = Container::generate_id();
    let id2 = Container::generate_id();

    assert_ne!(id1, id2);
}

#[test]
fn test_port_mapping_new() {
    let mapping = PortMapping::new(8080, 80, PortProtocol::Tcp);

    assert_eq!(mapping.host_port, 8080);
    assert_eq!(mapping.container_port, 80);
    assert_eq!(mapping.protocol, PortProtocol::Tcp);
}

#[test]
fn test_mount_new() {
    let mount = Mount::new(
        "/host/path".to_string(),
        "/container/path".to_string(),
        MountType::Zfs,
        true,
    );

    assert_eq!(mount.source, "/host/path");
    assert_eq!(mount.destination, "/container/path");
    assert_eq!(mount.mount_type, MountType::Zfs);
    assert!(mount.read_only);
}

#[test]
fn container_state_names_ignore_case_only() {
    assert_eq!("PAUSED".parse::<ContainerState>().unwrap(), ContainerState::Paused);
    assert_eq!("Removing".parse::<ContainerState>().unwrap(), ContainerState::Removing);
    assert_eq!(
        "run ning".parse::<ContainerState>(),
        Err("Invalid container state: run ning".to_string())
    );
    assert_eq!(ContainerState::parse(""), Err("Invalid container state: ".to_string()));
    assert_eq!(RestartPolicy::parse("on-fail"), Err("Invalid restart policy: on-fail".to_string()));
    assert_eq!(PortProtocol::parse("sctp"), Err("Invalid port protocol: sctp".to_string()));
    assert_eq!(MountType::parse("ufs"), Err("Invalid mount type: ufs".to_string()));
    assert_eq!(ContainerState::Running.to_string(), "running");
    assert_eq!(RestartPolicy::OnFailure.to_string(), "on-failure");
    assert_eq!(PortProtocol::Udp.to_string(), "udp");
    assert_eq!(MountType::Zfs.to_string(), "zfs");
}

#[test]
fn container_started_at_is_kept() {
    let mut container = Container::new_with_existing_data(
        "id-1".to_string(),
        None,
        "img".to_string(),
        "jail".to_string(),
        "ds".to_string(),
        ContainerState::Stopped,
        RestartPolicy::Always,
        vec![],
        vec![PortMapping::new(1, 2, PortProtocol::Udp)],
        Some("10.11.0.9".to_string()),
        100,
        Some(250),
    );
    assert_eq!(container.display_name(), "id-1");
    container.set_state(ContainerState::Running);
    assert_eq!(container.started_at, Some(250));
    container.set_state(ContainerState::Stopped);
    assert_eq!(container.started_at, Some(250));
    container.set_state(ContainerState::Paused);
    assert_eq!(container.state, ContainerState::Paused);
    let copy = container.clone();
    assert_eq!(copy, container);
}

#[test]
fn container_ids_have_uuid_shape() {
    let id = Container::generate_id();
    assert_eq!(id.len(), 36);
    for (i, c) in id.chars().enumerate() {
        if i == 8 || i == 13 || i == 18 || i == 23 {
            assert_eq!(c, '-');
        } else {
            assert!(c.is_ascii_digit() || ('a'..='f').contains(&c));
        }
    }
}

