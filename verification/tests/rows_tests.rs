use kawakaze_backend::container::{
    Container, ContainerState, Mount, MountType, PortMapping, PortProtocol, RestartPolicy,
};
use kawakaze_backend::image::{DockerfileInstruction, Image, ImageConfig, ImageState};
use kawakaze_backend::rows::{
    container_row, container_state_to_store, image_row, load_container_from_store_row,
    load_image_from_store_row,
};
use kawakaze_backend::store;

#[test]
fn image_goes_to_a_row_and_back() {
    let image = Image::new("web".to_string(), vec![DockerfileInstruction::Run("echo hi".into())])
        .with_parent("base-id".to_string())
        .with_snapshot("zroot/kawakaze/images/web@web-1".to_string())
        .with_size(1234)
        .with_state(ImageState::Building);
    let row = image_row(&image, "[dockerfile]".to_string(), "{config}".to_string());
    assert_eq!(row.id, image.id);
    assert_eq!(row.name, "web");
    assert_eq!(row.parent_id, Some("base-id".to_string()));
    assert_eq!(row.snapshot, "zroot/kawakaze/images/web@web-1");
    assert_eq!(row.dockerfile, "[dockerfile]");
    assert_eq!(row.config, "{config}");
    assert_eq!(row.size_bytes, 1234);
    // A row is written when the image is added: as available.
    assert_eq!(row.state, store::ImageState::Available);
    assert_eq!(row.created_at, image.created_at);

    let back = load_image_from_store_row(
        row,
        vec![DockerfileInstruction::Run("echo hi".into())],
        ImageConfig::default(),
    );
    assert_eq!(back.id, image.id);
    assert_eq!(back.parent_id, image.parent_id);
    assert_eq!(back.dockerfile, image.dockerfile);
    assert_eq!(back.size_bytes, 1234);
    assert_eq!(back.state, ImageState::Available);
    assert_eq!(back.created_at, image.created_at);
}

#[test]
fn container_goes_to_a_row_and_back() {
    let mounts = vec![Mount::new("/h".into(), "/c".into(), MountType::Nullfs, true)];
    let ports = vec![PortMapping::new(8080, 80, PortProtocol::Tcp)];
    let container = Container::new_with_existing_data(
        "id-1".into(),
        Some("web".into()),
        "image-1".into(),
        "kawakaze-id-1".into(),
        "zroot/kawakaze/containers/id-1".into(),
        ContainerState::Paused,
        RestartPolicy::OnFailure,
        vec![Mount::new("/h".into(), "/c".into(), MountType::Nullfs, true)],
        ports.clone(),
        Some("10.11.0.2".into()),
        17,
        Some(19),
    );
    let row = container_row(&container, "[mounts]".to_string(), "[ports]".to_string());
    assert_eq!(row.id, "id-1");
    assert_eq!(row.name, Some("web".to_string()));
    assert_eq!(row.state, store::ContainerState::Paused);
    assert_eq!(row.restart_policy, "on-failure");
    assert_eq!((row.mounts.as_str(), row.port_mappings.as_str()), ("[mounts]", "[ports]"));
    assert_eq!((row.created_at, row.started_at), (17, Some(19)));
    let back = load_container_from_store_row(row, mounts, ports).unwrap();
    assert_eq!(back, container);
}

#[test]
fn row_with_an_unknown_restart_policy_is_refused() {
    let row = store::Container {
        id: "id".into(),
        name: None,
        image_id: "i".into(),
        jail_name: "j".into(),
        dataset: "d".into(),
        state: store::ContainerState::Created,
        restart_policy: "sometimes".into(),
        mounts: "[]".into(),
        port_mappings: "[]".into(),
        ip: None,
        created_at: 0,
        started_at: None,
    };
    assert_eq!(
        load_container_from_store_row(row, vec![], vec![]),
        Err("Failed to parse restart_policy: Invalid restart policy: sometimes".to_string())
    );
}

#[test]
fn every_container_state_has_its_row_state() {
    let pairs = [
        (ContainerState::Created, store::ContainerState::Created),
        (ContainerState::Running, store::ContainerState::Running),
        (ContainerState::Stopped, store::ContainerState::Stopped),
        (ContainerState::Paused, store::ContainerState::Paused),
        (ContainerState::Removing, store::ContainerState::Removing),
    ];
    for (state, stored) in pairs {
        assert_eq!(container_state_to_store(state), stored);
    }
}
