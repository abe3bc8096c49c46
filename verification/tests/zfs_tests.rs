use kawakaze_backend::command::CommandOutput;
use kawakaze_backend::zfs::{MountStep, Zfs, ZfsError};

fn ok(stdout: &str) -> CommandOutput {
    CommandOutput { success: true, code: Some(0), stdout: stdout.to_string(), stderr: String::new() }
}

fn failed(stderr: &str) -> CommandOutput {
    CommandOutput { success: false, code: Some(1), stdout: String::new(), stderr: stderr.to_string() }
}

fn tank() -> Zfs {
    Zfs::new("tank/kawakaze", &ok("zroot\ntank\n")).unwrap()
}

#[test]
fn test_zfs_new_invalid_pool() {
    let result = Zfs::new("nonexistent_pool_test_12345", &ok("zroot\ntank\n"));
    assert!(result.is_err());
    match result.unwrap_err() {
        ZfsError::DatasetNotFound(_) => {}
        _ => panic!("Expected DatasetNotFound error"),
    }
}

#[test]
fn zfs_new_reads_the_pool_list() {
    let zfs = tank();
    assert_eq!(zfs.pool(), "tank");
    assert_eq!(Zfs::new("zroot", &ok("zroot")).unwrap().pool(), "zroot");
    assert_eq!(
        Zfs::new("tan", &ok("zroot\ntank\n")),
        Err(ZfsError::DatasetNotFound("Pool 'tan' not found".into()))
    );
    assert_eq!(
        Zfs::new("/x", &ok("zroot\n")),
        Err(ZfsError::DatasetNotFound("Pool '' not found".into()))
    );
    assert_eq!(
        Zfs::new("tank", &failed("boom")),
        Err(ZfsError::CommandFailed("Failed to list ZFS pools".into()))
    );
    let c = Zfs::list_pools();
    assert_eq!((c.program.as_str(), c.args), ("zpool", vec!["list".to_string(), "-o".into(), "name".into(), "-H".into()]));
}

#[test]
fn zfs_commands() {
    let z = tank();
    assert_eq!(z.dataset_exists("t/a").args, vec!["list", "-o", "name", "-H", "t/a"]);
    assert_eq!(z.snapshot_exists("t/a@s").args, vec!["list", "-t", "snapshot", "-o", "name", "-H", "t/a@s"]);
    assert!(z.found(Some(&ok("t/a"))));
    assert!(!z.found(Some(&failed("no"))));
    assert!(!z.found(None));
    let c = z.create_dataset("t/a/b", false).unwrap();
    assert_eq!((c.program.as_str(), c.args), ("zfs", vec!["create".to_string(), "-p".into(), "-o".into(), "canmount=off".into(), "t/a/b".into()]));
    assert_eq!(z.create_dataset("t/a", true), Err(ZfsError::DatasetExists("t/a".into())));
    assert_eq!(z.create_snapshot("t/a", "s1", true).unwrap().args, vec!["snapshot", "t/a@s1"]);
    assert_eq!(z.create_snapshot("t/a", "s1", false), Err(ZfsError::DatasetNotFound("t/a".into())));
    assert_eq!(z.clone_snapshot("t/a@s", "t/b", true, false).unwrap().args, vec!["clone", "t/a@s", "t/b"]);
    assert_eq!(z.clone_snapshot("t/a@s", "t/b", false, false), Err(ZfsError::SnapshotNotFound("t/a@s".into())));
    assert_eq!(z.clone_snapshot("t/a@s", "t/b", true, true), Err(ZfsError::DatasetExists("t/b".into())));
    assert_eq!(z.destroy("t/a").args, vec!["destroy", "-r", "t/a"]);
    assert_eq!(z.get_mountpoint("t/a").args, vec!["list", "-o", "mountpoint", "-H", "t/a"]);
    assert_eq!(
        z.list_snapshots("t/a", true).unwrap().args,
        vec!["list", "-t", "snapshot", "-o", "name", "-H", "-s", "creation", "t/a@*"]
    );
    assert_eq!(z.set_property("t/a", "quota", "10G", true).unwrap().args, vec!["set", "quota=10G", "t/a"]);
    assert_eq!(z.get_property("t/a", "quota", true).unwrap().args, vec!["get", "-H", "-o", "value", "quota", "t/a"]);
    assert_eq!(z.list_datasets("t").args, vec!["list", "-o", "name", "-H", "-r", "t"]);
    assert_eq!(z.rollback("t/a", "s", true).unwrap().args, vec!["rollback", "-r", "t/a@s"]);
    assert_eq!(z.rollback("t/a", "s", false), Err(ZfsError::SnapshotNotFound("t/a@s".into())));
    assert_eq!(z.get_used_space("t/a", true).unwrap().args, vec!["list", "-o", "used", "-H", "-p", "t/a"]);
    assert_eq!(z.get_available_space("t/a", true).unwrap().args, vec!["list", "-o", "avail", "-H", "-p", "t/a"]);
    assert_eq!(z.promote("t/a", true).unwrap().args, vec!["promote", "t/a"]);
    assert_eq!(z.rename("t/a", "t/b", true, false).unwrap().args, vec!["rename", "t/a", "t/b"]);
    assert_eq!(z.rename("t/a", "t/b", false, false), Err(ZfsError::DatasetNotFound("t/a".into())));
    assert_eq!(z.rename("t/a", "t/b", true, true), Err(ZfsError::DatasetExists("t/b".into())));
    assert_eq!(z.is_dataset_mounted("t/a").args, vec!["list", "-H", "-o", "mounted", "t/a"]);
    for r in [
        z.list_snapshots("t/a", false),
        z.set_property("t/a", "p", "v", false),
        z.get_property("t/a", "p", false),
        z.get_used_space("t/a", false),
        z.get_available_space("t/a", false),
        z.promote("t/a", false),
    ] {
        assert_eq!(r, Err(ZfsError::DatasetNotFound("t/a".into())));
    }
}

#[test]
fn zfs_mounting() {
    let z = tank();
    let plan = z.mount_dataset("t/a", "/mnt/a");
    assert_eq!(plan.set_canmount.args, vec!["set", "canmount=noauto", "t/a"]);
    assert_eq!(plan.set_mountpoint.args, vec!["set", "mountpoint=/mnt/a", "t/a"]);
    assert_eq!(plan.directory, "/mnt/a");
    assert_eq!(plan.mount.args, vec!["mount", "t/a"]);
    let plan = z.unmount_dataset("t/a");
    assert_eq!(plan.unmount.args, vec!["unmount", "-f", "t/a"]);
    assert_eq!(plan.reset_mountpoint.args, vec!["set", "mountpoint=none", "t/a"]);
    assert_eq!(plan.reset_canmount.args, vec!["set", "canmount=off", "t/a"]);
    assert!(z.mount_step_done(MountStep::Mount, "t/a", &ok("")).is_ok());
    assert!(z.mount_step_done(MountStep::Mount, "t/a", &failed("filesystem already mounted")).is_ok());
    assert_eq!(
        z.mount_step_done(MountStep::Mount, "t/a", &failed("busy")),
        Err(ZfsError::CommandFailed("Failed to mount 't/a': busy".into()))
    );
    assert_eq!(
        z.mount_step_done(MountStep::Unmount, "t/a", &failed("already mounted")),
        Err(ZfsError::CommandFailed("Failed to unmount 't/a': already mounted".into()))
    );
    assert_eq!(
        z.mount_step_done(MountStep::SetCanmount, "t/a", &failed("x")),
        Err(ZfsError::CommandFailed("Failed to set canmount for 't/a': x".into()))
    );
    assert_eq!(
        z.mount_step_done(MountStep::SetMountpoint, "t/a", &failed("x")),
        Err(ZfsError::CommandFailed("Failed to set mountpoint for 't/a': x".into()))
    );
    assert_eq!(
        z.mount_step_done(MountStep::ResetMountpoint, "t/a", &failed("x")),
        Err(ZfsError::CommandFailed("Failed to reset mountpoint for 't/a': x".into()))
    );
    assert_eq!(
        z.mount_step_done(MountStep::ResetCanmount, "t/a", &failed("x")),
        Err(ZfsError::CommandFailed("Failed to reset canmount for 't/a': x".into()))
    );
    assert!(z.mounted(Some(&ok("yes\n"))));
    assert!(!z.mounted(Some(&ok("no\n"))));
    assert!(!z.mounted(Some(&failed("yes"))));
    assert!(!z.mounted(None));
}

#[test]
fn zfs_results() {
    let z = tank();
    assert!(z.dataset_created("t/a", &ok("")).is_ok());
    assert_eq!(
        z.dataset_created("t/a", &failed("no space")),
        Err(ZfsError::CommandFailed("Failed to create dataset 't/a': no space".into()))
    );
    assert_eq!(
        z.snapshot_created("t/a", "s", &failed("e")),
        Err(ZfsError::CommandFailed("Failed to create snapshot 't/a@s': e".into()))
    );
    assert_eq!(
        z.snapshot_cloned("t/a@s", "t/b", &failed("e")),
        Err(ZfsError::CommandFailed("Failed to clone snapshot 't/a@s' to 't/b': e".into()))
    );
    assert!(z.destroyed("t/a", &ok("")).is_ok());
    assert_eq!(
        z.destroyed("t/a", &failed("cannot open 't/a': dataset does not exist")),
        Err(ZfsError::DatasetNotFound("t/a".into()))
    );
    assert_eq!(
        z.destroyed("t/a", &failed("busy")),
        Err(ZfsError::CommandFailed("Failed to destroy 't/a': busy".into()))
    );
    assert_eq!(z.mountpoint_read("t/a", &ok("/mnt/a\n")).unwrap(), "/mnt/a");
    assert_eq!(
        z.mountpoint_read("t/a", &failed("e")),
        Err(ZfsError::CommandFailed("Failed to get mountpoint for 't/a': e".into()))
    );
    assert_eq!(
        z.snapshots_listed("t/a", &ok("t/a@first\n  t/a@second  \n\nother@third\nt/a@\n")).unwrap(),
        vec!["first", "second", "other@third"]
    );
    assert_eq!(
        z.snapshots_listed("t/a", &failed("e")),
        Err(ZfsError::CommandFailed("Failed to list snapshots for 't/a': e".into()))
    );
    assert_eq!(z.datasets_listed("t", &ok("t\n t/a \n\n")).unwrap(), vec!["t", "t/a"]);
    assert_eq!(
        z.datasets_listed("t", &failed("e")),
        Err(ZfsError::CommandFailed("Failed to list datasets under 't': e".into()))
    );
    assert_eq!(
        z.property_set("t/a", "quota", &failed("e")),
        Err(ZfsError::CommandFailed("Failed to set property 'quota' on 't/a': e".into()))
    );
    assert_eq!(z.property_read("t/a", "quota", &ok(" 10G\n")).unwrap(), "10G");
    assert_eq!(
        z.property_read("t/a", "quota", &failed("e")),
        Err(ZfsError::CommandFailed("Failed to get property 'quota' from 't/a': e".into()))
    );
    assert_eq!(
        z.rolled_back("t/a", "s", &failed("e")),
        Err(ZfsError::CommandFailed("Failed to rollback to snapshot 't/a@s': e".into()))
    );
    assert_eq!(z.space_read("used", "t/a", &ok("123456\n")), Ok(123456));
    assert_eq!(z.space_read("used", "t/a", &ok("18446744073709551615")), Ok(u64::MAX));
    assert_eq!(
        z.space_read("used", "t/a", &ok("18446744073709551616")),
        Err(ZfsError::CommandFailed("Failed to parse used space value: 18446744073709551616".into()))
    );
    assert_eq!(
        z.space_read("available", "t/a", &ok("1.5G\n")),
        Err(ZfsError::CommandFailed("Failed to parse available space value: 1.5G".into()))
    );
    assert_eq!(
        z.space_read("available", "t/a", &failed("e")),
        Err(ZfsError::CommandFailed("Failed to get available space for 't/a': e".into()))
    );
    assert_eq!(
        z.promoted("t/a", &failed("e")),
        Err(ZfsError::CommandFailed("Failed to promote dataset 't/a': e".into()))
    );
    assert_eq!(
        z.renamed("t/a", "t/b", &failed("e")),
        Err(ZfsError::CommandFailed("Failed to rename dataset from 't/a' to 't/b': e".into()))
    );
    assert_eq!(ZfsError::DatasetNotFound("x".into()).to_string(), "Dataset not found: x");
    assert_eq!(ZfsError::CommandFailed("x".into()).to_string(), "ZFS command failed: x");
    assert_eq!(ZfsError::DatasetExists("x".into()).to_string(), "Dataset already exists: x");
    assert_eq!(ZfsError::SnapshotNotFound("x".into()).to_string(), "Snapshot not found: x");
    assert_eq!(ZfsError::InvalidPath("x".into()).to_string(), "Invalid dataset path: x");
    assert_eq!(ZfsError::InvalidSnapshot("x".into()).to_string(), "Invalid snapshot name: x");
    assert_eq!(ZfsError::Io("x".into()).to_string(), "IO error: x");
    assert_eq!(ZfsError::Utf8Error("x".into()).to_string(), "UTF-8 conversion error: x");
}
