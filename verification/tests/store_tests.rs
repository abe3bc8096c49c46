use kawakaze_backend::store::{
    Container, ContainerState, Image, ImageState, JailRow, JailStore, SqlValue, StoreError,
    CREATE_CONTAINERS, CREATE_IMAGES, CREATE_JAILS,
};
use kawakaze_backend::zfs::ZfsError;

fn store() -> JailStore {
    JailStore::new("/tmp/test_kawakaze.db").unwrap()
}

fn text(s: &str) -> SqlValue {
    SqlValue::Text(s.to_string())
}

#[test]
fn test_store_init() {
    let store = store();
    assert_eq!(store.db_path(), "/tmp/test_kawakaze.db");
    let schema = store.init_db();
    assert_eq!(schema.len(), 8);
    assert_eq!(schema[0], CREATE_JAILS);
    assert_eq!(schema[2], CREATE_IMAGES);
    assert_eq!(schema[5], CREATE_CONTAINERS);
    for statement in &schema {
        assert!(statement.starts_with("CREATE TABLE IF NOT EXISTS") || statement.starts_with("CREATE INDEX IF NOT EXISTS"));
    }
    assert!(CREATE_JAILS.contains("CHECK(state IN ('created', 'running', 'stopped'))"));
    assert!(CREATE_IMAGES.contains("FOREIGN KEY (parent_id) REFERENCES images(id) ON DELETE CASCADE"));
    assert!(CREATE_CONTAINERS.contains("FOREIGN KEY (image_id) REFERENCES images(id) ON DELETE RESTRICT"));
    assert!(schema.contains(&"CREATE INDEX IF NOT EXISTS idx_containers_image ON containers(image_id)".to_string()));
}

#[test]
fn test_insert_and_get_jail() {
    let store = store();
    let jail = JailRow {
        name: "test_jail".to_string(),
        path: Some("/tmp/test_jail".to_string()),
        ip: Some("192.168.1.100".to_string()),
        state: "created".to_string(),
        jid: -1,
    };
    let s = store.insert_jail(&jail);
    assert_eq!(s.sql, "INSERT INTO jails (name, path, ip, state, jid) VALUES (?1, ?2, ?3, ?4, ?5)");
    assert_eq!(
        s.params,
        vec![text("test_jail"), text("/tmp/test_jail"), text("192.168.1.100"), text("created"), SqlValue::Integer(-1)]
    );
    let s = store.get_jail("test_jail");
    assert_eq!(s.sql, "SELECT name, path, ip, state, jid FROM jails WHERE name = ?1");
    assert_eq!(s.params, vec![text("test_jail")]);
}

#[test]
fn test_update_jail() {
    let store = store();
    let jail = JailRow { name: "j".to_string(), path: None, ip: None, state: "running".to_string(), jid: 123 };
    let s = store.update_jail(&jail);
    assert_eq!(
        s.sql,
        "UPDATE jails SET path = ?1, ip = ?2, state = ?3, jid = ?4, updated_at = strftime('%s', 'now') WHERE name = ?5"
    );
    assert_eq!(s.params, vec![SqlValue::Null, SqlValue::Null, text("running"), SqlValue::Integer(123), text("j")]);
}

#[test]
fn store_test_delete_jail() {
    let s = store().delete_jail("gone");
    assert_eq!(s.sql, "DELETE FROM jails WHERE name = ?1");
    assert_eq!(s.params, vec![text("gone")]);
}

#[test]
fn test_get_all_jails() {
    let s = store().get_all_jails();
    assert_eq!(s.sql, "SELECT name, path, ip, state, jid FROM jails");
    assert!(s.params.is_empty());
}

#[test]
fn image_statements() {
    let store = store();
    let image = Image {
        id: "i1".into(),
        name: "web".into(),
        parent_id: None,
        snapshot: "t/web@s".into(),
        dockerfile: "[]".into(),
        config: "{}".into(),
        size_bytes: 42,
        state: ImageState::Available,
        created_at: 7,
    };
    let s = store.insert_image(&image);
    assert!(s.sql.starts_with("INSERT INTO images (id, name, parent_id, snapshot, dockerfile, config, size_bytes, state, created_at)"));
    assert_eq!(
        s.params,
        vec![
            text("i1"),
            text("web"),
            SqlValue::Null,
            text("t/web@s"),
            text("[]"),
            text("{}"),
            SqlValue::Integer(42),
            text("available"),
            SqlValue::Integer(7)
        ]
    );
    assert!(store.get_image("i1").sql.ends_with("FROM images WHERE id = ?1"));
    assert!(store.get_image_by_name("web").sql.ends_with("FROM images WHERE name = ?1"));
    assert!(store.list_images().sql.ends_with("FROM images"));
    let s = store.update_image("i1", ImageState::Deleted);
    assert_eq!((s.sql.as_str(), s.params), ("UPDATE images SET state = ?1 WHERE id = ?2", vec![text("deleted"), text("i1")]));
    assert_eq!(store.delete_image("i1").sql, "DELETE FROM images WHERE id = ?1");
}

#[test]
fn container_statements() {
    let store = store();
    let c = Container {
        id: "c1".into(),
        name: Some("web".into()),
        image_id: "i1".into(),
        jail_name: "kawakaze-c1".into(),
        dataset: "t/containers/c1".into(),
        state: ContainerState::Created,
        restart_policy: "no".into(),
        mounts: "[]".into(),
        port_mappings: "[]".into(),
        ip: None,
        created_at: 5,
        started_at: None,
    };
    let s = store.insert_container(&c);
    assert!(s.sql.contains("VALUES (?1, ?2, ?3, ?4, ?5, ?6, ?7, ?8, ?9, ?10, ?11, ?12)"));
    assert_eq!(s.params.len(), 12);
    assert_eq!(s.params[5], text("created"));
    assert_eq!(s.params[9], SqlValue::Null);
    assert_eq!(s.params[10], SqlValue::Integer(5));
    assert_eq!(s.params[11], SqlValue::Null);
    assert!(store.get_container("c1").sql.ends_with("FROM containers WHERE id = ?1"));
    assert!(store.get_container_by_name("web").sql.ends_with("FROM containers WHERE name = ?1"));
    assert!(store.list_containers().sql.ends_with("FROM containers"));
    let s = store.update_container("c1", ContainerState::Running);
    assert_eq!(s.params, vec![text("running"), text("c1")]);
    assert_eq!(store.delete_container("c1").sql, "DELETE FROM containers WHERE id = ?1");
}

#[test]
fn stored_states() {
    assert_eq!(ImageState::from_str("building"), Ok(ImageState::Building));
    assert_eq!(ImageState::from_str("available"), Ok(ImageState::Available));
    assert_eq!(ImageState::from_str("deleted"), Ok(ImageState::Deleted));
    assert_eq!(
        ImageState::from_str("Available"),
        Err(StoreError::InvalidState("Unknown image state: Available".into()))
    );
    assert_eq!(ImageState::Building.as_str(), "building");
    for (name, state) in [
        ("created", ContainerState::Created),
        ("running", ContainerState::Running),
        ("stopped", ContainerState::Stopped),
        ("paused", ContainerState::Paused),
        ("removing", ContainerState::Removing),
    ] {
        assert_eq!(ContainerState::from_str(name), Ok(state));
        assert_eq!(state.as_str(), name);
    }
    assert_eq!(
        ContainerState::from_str("gone"),
        Err(StoreError::InvalidState("Unknown container state: gone".into()))
    );
    assert_eq!(StoreError::DatabaseError("x".into()).to_string(), "Database error: x");
    assert_eq!(StoreError::InvalidState("x".into()).to_string(), "Invalid state: x");
    assert_eq!(StoreError::SerializationError("x".into()).to_string(), "Serialization error: x");
    assert_eq!(
        StoreError::from_zfs(&ZfsError::DatasetExists("t/a".into())),
        StoreError::SerializationError("ZFS error: Dataset already exists: t/a".into())
    );
}
