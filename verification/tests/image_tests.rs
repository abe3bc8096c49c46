use kawakaze_backend::image::{DockerfileInstruction, Image, ImageConfig, ImageState};
use kawakaze_backend::strmap::StringMap;

#[test]
fn test_image_state_as_str() {
    assert_eq!(ImageState::Building.as_str(), "building");
    assert_eq!(ImageState::Available.as_str(), "available");
    assert_eq!(ImageState::Deleted.as_str(), "deleted");
}

#[test]
fn test_image_state_display() {
    assert_eq!(ImageState::Building.to_string(), "building");
    assert_eq!(ImageState::Available.to_string(), "available");
    assert_eq!(ImageState::Deleted.to_string(), "deleted");
}

#[test]
fn test_image_state_from_str() {
    assert_eq!("building".parse::<ImageState>().unwrap(), ImageState::Building);
    assert_eq!("available".parse::<ImageState>().unwrap(), ImageState::Available);
    assert_eq!("deleted".parse::<ImageState>().unwrap(), ImageState::Deleted);
    assert_eq!("BUILDING".parse::<ImageState>().unwrap(), ImageState::Building);
    assert_eq!("Available".parse::<ImageState>().unwrap(), ImageState::Available);
}

#[test]
fn test_image_state_from_str_invalid() {
    assert!("invalid".parse::<ImageState>().is_err());
    assert!("".parse::<ImageState>().is_err());
}

#[test]
fn test_image_new() {
    let dockerfile = vec![
        DockerfileInstruction::From("freebsd:15.0".to_string()),
        DockerfileInstruction::Run("pkg install -y nginx".to_string()),
    ];

    let image = Image::new("test-image".to_string(), dockerfile.clone());

    assert_eq!(image.name, "test-image");
    assert_eq!(image.dockerfile, dockerfile);
    assert_eq!(image.state, ImageState::Building);
    assert_eq!(image.parent_id, None);
    assert_eq!(image.snapshot, "");
    assert_eq!(image.size_bytes, 0);
    assert!(image.created_at > 0);
    assert!(!image.id.is_empty());
}

#[test]
fn test_image_generate_id() {
    let id1 = Image::generate_id();
    let id2 = Image::generate_id();

    assert_ne!(id1, id2);
    assert!(id1.len() > 0);
    assert!(id2.len() > 0);
}

#[test]
fn test_image_builder_methods() {
    let dockerfile = vec![
        DockerfileInstruction::From("freebsd:15.0".to_string()),
    ];

    let mut config = ImageConfig::default();
    config.env.insert("PATH".to_string(), "/usr/bin:/bin".to_string());

    let image = Image::new("test-image".to_string(), dockerfile)
        .with_parent("parent-123".to_string())
        .with_snapshot("zroot/kawakaze/images/test-image@snap1".to_string())
        .with_config(config.clone())
        .with_size(1024 * 1024 * 500)
        .with_state(ImageState::Available);

    assert_eq!(image.parent_id, Some("parent-123".to_string()));
    assert_eq!(image.snapshot, "zroot/kawakaze/images/test-image@snap1");
    assert_eq!(image.config.env, config.env);
    assert_eq!(image.size_bytes, 1024 * 1024 * 500);
    assert_eq!(image.state, ImageState::Available);
}

#[test]
fn test_image_state_checkers() {
    let mut image = Image::new("test".to_string(), vec![]);

    assert!(image.is_building());
    assert!(!image.is_available());
    assert!(!image.is_deleted());

    image.state = ImageState::Available;
    assert!(!image.is_building());
    assert!(image.is_available());
    assert!(!image.is_deleted());

    image.state = ImageState::Deleted;
    assert!(!image.is_building());
    assert!(!image.is_available());
    assert!(image.is_deleted());
}

#[test]
fn test_dockerfile_instruction_equality() {
    let from1 = DockerfileInstruction::From("freebsd:15.0".to_string());
    let from2 = DockerfileInstruction::From("freebsd:15.0".to_string());
    let from3 = DockerfileInstruction::From("freebsd:14.0".to_string());

    assert_eq!(from1, from2);
    assert_ne!(from1, from3);

    let env1 = DockerfileInstruction::Env({
        let mut map = StringMap::new();
        map.insert("PATH".to_string(), "/usr/bin".to_string());
        map
    });

    let env2 = DockerfileInstruction::Env({
        let mut map = StringMap::new();
        map.insert("PATH".to_string(), "/usr/bin".to_string());
        map
    });

    assert_eq!(env1, env2);
}

#[test]
fn test_image_config_default() {
    let config = ImageConfig::default();

    assert!(config.env.is_empty());
    assert!(config.workdir.is_none());
    assert!(config.user.is_none());
    assert!(config.exposed_ports.is_empty());
    assert!(config.volumes.is_empty());
    assert!(config.entrypoint.is_none());
    assert!(config.cmd.is_none());
    assert!(config.labels.is_empty());
}

#[test]
fn test_image_with_complex_config() {
    let mut config = ImageConfig::default();
    config.env.insert("RUST_LOG".to_string(), "info".to_string());
    config.workdir = Some("/app".to_string());
    config.user = Some("appuser".to_string());
    config.exposed_ports = vec![8080, 8443];
    config.volumes = vec!["/data".to_string(), "/logs".to_string()];
    config.cmd = Some(vec!["./app".to_string()]);
    config.entrypoint = Some(vec!["/bin/sh".to_string(), "-c".to_string()]);
    config.labels.insert("version".to_string(), "1.0.0".to_string());

    let dockerfile = vec![DockerfileInstruction::From("freebsd:15.0".to_string())];
    let image = Image::new("complex-image".to_string(), dockerfile)
        .with_config(config.clone());

    assert_eq!(image.config.env.get("RUST_LOG"), Some(&"info".to_string()));
    assert_eq!(image.config.workdir, Some("/app".to_string()));
    assert_eq!(image.config.user, Some("appuser".to_string()));
    assert_eq!(image.config.exposed_ports, vec![8080, 8443]);
    assert_eq!(image.config.volumes, vec!["/data".to_string(), "/logs".to_string()]);
    assert_eq!(image.config.cmd, Some(vec!["./app".to_string()]));
    assert_eq!(
        image.config.entrypoint,
        Some(vec!["/bin/sh".to_string(), "-c".to_string()])
    );
    assert_eq!(image.config.labels.get("version"), Some(&"1.0.0".to_string()));
}

#[test]
fn image_state_errors_and_copies() {
    assert_eq!(ImageState::parse("gone"), Err("Invalid ImageState: gone".to_string()));
    assert_eq!(ImageState::parse("DELETED"), Ok(ImageState::Deleted));
    let image = Image::new(
        "a".to_string(),
        vec![
            DockerfileInstruction::Bootstrap { version: Some("15.0-RELEASE".into()), architecture: None, mirror: None },
            DockerfileInstruction::Copy { from: None, src: "a".into(), dest: "b".into() },
            DockerfileInstruction::Expose(vec![80]),
        ],
    )
    .with_parent("p".to_string());
    let copy = image.clone();
    assert_eq!(copy, image);
    assert_eq!(copy.parent_id, Some("p".to_string()));
}
