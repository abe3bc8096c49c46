use kawakaze_backend::command::CommandOutput;
use kawakaze_backend::jail::{
    check_jail_exists, dev_directory_failure, devfs_mounted, directory_failure, get_jid_by_name,
    jail_command_finished, jail_set_finished, live_jid, remove_freebsd_jail,
};
use kawakaze_backend::jail::{
    create_freebsd_jail, mount_devfs, retry_without_metadata, unmount_devfs, Host, Jail,
    JailCreation, JailError, JailParamValue, JailState,
};
use kawakaze_backend::store::JailRow;

fn root_host() -> Host {
    Host { is_root: true, is_freebsd: true }
}

fn plain_host() -> Host {
    Host { is_root: false, is_freebsd: true }
}

fn running(name: &str, jid: i32) -> Jail {
    let mut jail = Jail::create(name).unwrap();
    jail.complete_start(Ok(jid)).unwrap();
    jail
}

#[test]
fn test_jail_create() {
    let jail = Jail::create("test_jail");
    assert!(jail.is_ok());

    let jail = jail.unwrap();
    assert_eq!(jail.name(), "test_jail");
    assert_eq!(jail.state(), JailState::Created);
    assert!(!jail.is_running());
}

#[test]
fn test_jail_create_empty_name() {
    let jail = Jail::create("");
    assert!(jail.is_err());

    match jail {
        Err(JailError::CreationFailed(msg)) => {
            assert!(msg.contains("cannot be empty"));
        }
        _ => panic!("Expected CreationFailed error"),
    }
}

#[test]
fn test_jail_create_invalid_name() {
    let jail = Jail::create("invalid name!");
    assert!(jail.is_err());

    match jail {
        Err(JailError::CreationFailed(msg)) => {
            assert!(msg.contains("Invalid jail name"));
        }
        _ => panic!("Expected CreationFailed error"),
    }
}

#[test]
fn test_jail_with_path() {
    let jail = Jail::create("test_path").unwrap().with_path("/tmp/test_jail");
    assert!(jail.is_ok());

    let jail = jail.unwrap();
    assert_eq!(jail.info().path, Some("/tmp/test_jail".to_string()));
}

#[test]
fn test_jail_with_ip() {
    let jail = Jail::create("test_ip").unwrap().with_ip("192.168.1.100");
    assert!(jail.is_ok());

    let jail = jail.unwrap();
    assert_eq!(jail.to_db_row().ip, Some("192.168.1.100".to_string()));
}

#[test]
fn test_jail_start_not_root() {
    let jail = Jail::create("test_start").unwrap();
    let result = jail.start(&plain_host());

    assert!(result.is_err());

    match result {
        Err(JailError::StartFailed(msg)) => {
            assert!(msg.contains("root privileges") || msg.contains("FreeBSD"));
        }
        _ => panic!("Expected StartFailed error"),
    }
}

#[test]
fn test_jail_stop_not_root() {
    let jail = running("test_stop", 123);

    let result = jail.stop(&plain_host());

    assert!(result.is_err());

    match result {
        Err(JailError::StopFailed(msg)) => {
            assert!(msg.contains("root privileges") || msg.contains("FreeBSD"));
        }
        _ => panic!("Expected StopFailed error"),
    }
}

#[test]
fn test_jail_start_already_running() {
    let jail = running("test_double_start", 123);

    let result = jail.start(&root_host());
    assert!(result.is_err());

    match result {
        Err(JailError::StartFailed(msg)) => {
            assert!(msg.contains("already running"));
        }
        _ => panic!("Expected StartFailed error"),
    }
}

#[test]
fn test_jail_stop_not_running() {
    let jail = Jail::create("test_stop_not_running").unwrap();

    let result = jail.stop(&root_host());
    assert!(result.is_err());

    match result {
        Err(JailError::StopFailed(msg)) => {
            assert!(msg.contains("not running"));
        }
        _ => panic!("Expected StopFailed error"),
    }
}

#[test]
fn test_jail_destroy() {
    let jail = running("test_destroy", 123);
    let result = jail.destroy(&root_host());
    assert!(result.is_ok());
    let plan = result.unwrap().unwrap();
    assert_eq!(plan.jid, 123);

    let jail = Jail::create("test_destroy").unwrap();
    let result = jail.destroy(&plain_host());
    assert!(result.is_ok());
}

#[test]
fn test_jail_destroy_stopped() {
    let jail = Jail::create("test_destroy_stopped").unwrap();

    let result = jail.destroy(&plain_host());
    assert!(result.is_ok());
}

#[test]
fn test_jail_info() {
    let jail = Jail::create("test_info").unwrap();
    let info = jail.info();

    assert_eq!(info.name, "test_info");
    assert_eq!(info.state, JailState::Created);
    assert_eq!(info.jid, -1);
}

#[test]
fn test_jail_info_running() {
    let jail = running("test_info_running", 123);

    let info = jail.info();

    assert_eq!(info.name, "test_info_running");
    assert_eq!(info.state, JailState::Running);
    assert_eq!(info.jid, 123);
}

#[test]
fn test_jail_name_with_hyphen() {
    let jail = Jail::create("test-jail-123");
    assert!(jail.is_ok());

    let jail = jail.unwrap();
    assert_eq!(jail.name(), "test-jail-123");
}

#[test]
fn test_jail_name_with_underscore() {
    let jail = Jail::create("test_jail_456");
    assert!(jail.is_ok());

    let jail = jail.unwrap();
    assert_eq!(jail.name(), "test_jail_456");
}

#[test]
fn test_jail_info_with_path() {
    let jail = Jail::create("test_info_path").unwrap().with_path("/tmp/custom_path").unwrap();

    let info = jail.info();
    assert_eq!(info.path, Some("/tmp/custom_path".to_string()));
}

#[test]
fn test_jail_exec_nonexistent_jail() {
    let jail = Jail::create("test_exec_nonexistent").unwrap();

    let result = jail.exec("echo", &vec!["hello".to_string()], &root_host());
    assert!(result.is_err());

    match result {
        Err(JailError::StartFailed(msg)) => {
            assert!(msg.contains("not running") || msg.contains("failed"));
        }
        _ => panic!("Expected StartFailed error"),
    }
}

#[test]
fn test_jail_exec_empty_command() {
    let jail = Jail::create("test_exec_empty").unwrap();

    let result = jail.exec("", &vec![], &root_host());
    assert!(result.is_err());

    match result {
        Err(JailError::StartFailed(msg)) => {
            assert!(msg.contains("empty") || msg.contains("not running"));
        }
        _ => panic!("Expected StartFailed error"),
    }
}

#[test]
fn test_jail_exec_with_args() {
    let jail = Jail::create("test_exec_args").unwrap();

    let result = jail.exec("echo", &vec!["hello".to_string(), "world".to_string()], &root_host());
    assert!(result.is_err());
}

#[test]
fn jail_exec_in_running_jail_runs_jexec() {
    let jail = running("web", 7);
    let c = jail.exec("echo", &vec!["hello".to_string(), "world".to_string()], &root_host()).unwrap();
    assert_eq!(c.program, "jexec");
    assert_eq!(c.args, vec!["web", "echo", "hello", "world"]);
    assert_eq!(c.env.len(), 1);
    assert_eq!(c.env[0].0, "PATH");
    assert!(c.stdin.is_none());
    let off = Host { is_root: true, is_freebsd: false };
    assert!(jail.exec("echo", &vec![], &off).is_err());
}

#[test]
fn jail_name_boundaries() {
    assert!(Jail::create("").is_err());
    assert!(Jail::create("has space").is_err());
    assert!(Jail::create("bang!").is_err());
    assert!(Jail::create("dot.ted").is_err());
    assert!(Jail::create("ünïcode").is_err());
    let long: String = std::iter::repeat('a').take(255).collect();
    assert!(Jail::create(&long).is_ok());
    assert!(Jail::create("A-Z_a-z_0-9").is_ok());
}

#[test]
fn jail_running_exactly_with_a_jid() {
    let mut jail = Jail::create("j").unwrap();
    assert_eq!(jail.jid(), -1);
    assert_eq!(jail.state(), JailState::Created);
    assert!(jail.complete_start(Ok(0)).is_err());
    assert_eq!(jail.jid(), -1);
    assert_eq!(jail.state(), JailState::Created);
    assert!(jail.complete_start(Err(JailError::CreationFailed("no".into()))).is_err());
    assert_eq!(jail.state(), JailState::Created);
    jail.complete_start(Ok(5)).unwrap();
    assert_eq!((jail.state(), jail.jid()), (JailState::Running, 5));
    assert!(jail.complete_stop(Err(JailError::StopFailed("busy".into()))).is_err());
    assert_eq!((jail.state(), jail.jid()), (JailState::Running, 5));
    jail.complete_stop(Ok(())).unwrap();
    assert_eq!((jail.state(), jail.jid()), (JailState::Stopped, -1));
}

#[test]
fn jail_restart_ends_like_first_stop() {
    let mut once = Jail::create("cycle").unwrap();
    once.complete_start(Ok(3)).unwrap();
    once.complete_stop(Ok(())).unwrap();

    let mut twice = Jail::create("cycle").unwrap();
    twice.complete_start(Ok(3)).unwrap();
    twice.complete_stop(Ok(())).unwrap();
    twice.complete_start(Ok(9)).unwrap();
    twice.complete_stop(Ok(())).unwrap();

    assert_eq!(once.to_db_row(), twice.to_db_row());
    assert_eq!(twice.state(), JailState::Stopped);
    assert_eq!(twice.jid(), -1);
}

#[test]
fn jail_start_plan_without_network_uses_jail_set() {
    let jail = Jail::create("plain").unwrap();
    let plan = jail.start(&root_host()).unwrap();
    assert_eq!(plan.root, "/tmp/plain");
    assert_eq!(plan.mount.program, "mount");
    assert_eq!(plan.mount.args, vec!["-t", "devfs", "devfs", "/tmp/plain/dev"]);
    match plan.creation {
        JailCreation::Syscall(params) => {
            let names: Vec<&str> = params.iter().map(|p| p.name.as_str()).collect();
            assert_eq!(names, vec!["name", "path", "host.hostname", "persist", "meta.managed_by"]);
            assert_eq!(params[0].value, JailParamValue::Text("plain".to_string()));
            assert_eq!(params[1].value, JailParamValue::Text("/tmp/plain".to_string()));
            assert_eq!(params[3].value, JailParamValue::Number(1));
            assert_eq!(params[4].value, JailParamValue::Text("kawakaze".to_string()));
        }
        _ => panic!("expected a jail_set request"),
    }
}

#[test]
fn jail_start_plan_with_network_uses_jail_command() {
    let jail = Jail::create("net")
        .unwrap()
        .with_path("/jails/net")
        .unwrap()
        .with_ip("10.11.0.2")
        .unwrap()
        .with_vnet_interface("epair0b")
        .unwrap();
    let plan = jail.start(&root_host()).unwrap();
    match plan.creation {
        JailCreation::Command(c) => {
            assert_eq!(c.program, "jail");
            assert_eq!(
                c.args,
                vec![
                    "-c",
                    "name=net",
                    "path=/jails/net",
                    "host.hostname=net",
                    "persist",
                    "vnet",
                    "vnet.interface=epair0b"
                ]
            );
        }
        _ => panic!("expected the jail command"),
    }
}

#[test]
fn jail_set_is_retried_once_without_metadata() {
    let params = match create_freebsd_jail("a", None, Some("10.0.0.1"), None, false) {
        JailCreation::Syscall(p) => p,
        _ => panic!("expected a jail_set request"),
    };
    assert_eq!(params.len(), 6);
    assert_eq!(params[4].name, "ip4.addr");
    let again = retry_without_metadata(params, true, true).unwrap();
    assert_eq!(again.len(), 5);
    assert_eq!(again[4].name, "ip4.addr");
    assert!(retry_without_metadata(again, true, false).is_none());
    let params = match create_freebsd_jail("a", None, None, None, false) {
        JailCreation::Syscall(p) => p,
        _ => panic!("expected a jail_set request"),
    };
    assert!(retry_without_metadata(params, false, true).is_none());
}

#[test]
fn devfs_commands() {
    let m = mount_devfs("/tmp/x");
    assert_eq!((m.program.as_str(), m.args.len()), ("mount", 4));
    let u = unmount_devfs("/tmp/x");
    assert_eq!(u.program, "umount");
    assert_eq!(u.args, vec!["-f", "/tmp/x/dev"]);
}

#[test]
fn jail_state_names() {
    assert_eq!(JailState::Created.as_str(), "created");
    assert_eq!(JailState::Running.as_str(), "running");
    assert_eq!(JailState::Stopped.as_str(), "stopped");
    assert_eq!(JailState::from_str("running"), Ok(JailState::Running));
    assert_eq!(JailState::from_str("created"), Ok(JailState::Created));
    assert_eq!(JailState::from_str("stopped"), Ok(JailState::Stopped));
    assert_eq!(
        JailState::from_str("Running"),
        Err(JailError::InvalidState("Invalid jail state: Running".to_string()))
    );
}

#[test]
fn jail_error_texts() {
    assert_eq!(JailError::CreationFailed("x".into()).to_string(), "Failed to create jail: x");
    assert_eq!(JailError::StartFailed("x".into()).to_string(), "Failed to start jail: x");
    assert_eq!(JailError::StopFailed("x".into()).to_string(), "Failed to stop jail: x");
    assert_eq!(JailError::DestroyFailed("x".into()).to_string(), "Failed to destroy jail: x");
    assert_eq!(JailError::InvalidState("x".into()).to_string(), "Invalid jail state: x");
    assert_eq!(JailError::InvalidPath("x".into()).to_string(), "Invalid path: x");
}

#[test]
fn jail_row_round_trip_and_reconcile() {
    let row = JailRow {
        name: "db".to_string(),
        path: Some("/j/db".to_string()),
        ip: None,
        state: "running".to_string(),
        jid: 44,
    };
    let mut jail = Jail::from_db_row(row).unwrap();
    assert_eq!(jail.state(), JailState::Running);
    jail.reconcile(None);
    assert_eq!((jail.state(), jail.jid()), (JailState::Stopped, -1));
    jail.reconcile(Some(12));
    assert_eq!((jail.state(), jail.jid()), (JailState::Running, 12));
    jail.reconcile(Some(0));
    assert_eq!((jail.state(), jail.jid()), (JailState::Stopped, -1));
    let back = jail.to_db_row();
    assert_eq!(back.name, "db");
    assert_eq!(back.state, "stopped");
    assert_eq!(back.path, Some("/j/db".to_string()));

    let bad = JailRow { name: "x".into(), path: None, ip: None, state: "weird".into(), jid: -1 };
    assert!(matches!(Jail::from_db_row(bad), Err(JailError::InvalidState(_))));

    let created = JailRow { name: "c".into(), path: None, ip: None, state: "created".into(), jid: -1 };
    let mut jail = Jail::from_db_row(created).unwrap();
    jail.reconcile(None);
    assert_eq!(jail.state(), JailState::Created);
}

#[test]
fn answers_of_the_host_are_read() {
    let ok = CommandOutput { success: true, code: Some(0), stdout: "".into(), stderr: "".into() };
    let bad = CommandOutput { success: false, code: Some(1), stdout: "".into(), stderr: "no".into() };
    assert_eq!(
        directory_failure("/jails/a", "denied"),
        JailError::CreationFailed("Failed to create jail directory '/jails/a': denied".into())
    );
    assert_eq!(jail_command_finished(&Ok(ok)), Ok(()));
    assert_eq!(
        jail_command_finished(&Ok(bad)),
        Err(JailError::CreationFailed("jail command failed: no".into()))
    );
    assert_eq!(
        jail_command_finished(&Err("not there".into())),
        Err(JailError::CreationFailed("Failed to execute jail command: not there".into()))
    );
    assert_eq!(get_jid_by_name("a", 4, ""), Ok(4));
    assert_eq!(get_jid_by_name("a", 0, ""), Ok(0));
    assert_eq!(
        get_jid_by_name("a", -1, "No such process"),
        Err(JailError::CreationFailed("Failed to get JID for jail 'a': No such process".into()))
    );
    assert_eq!(jail_set_finished(9, ""), Ok(9));
    assert_eq!(
        jail_set_finished(-1, "Invalid argument"),
        Err(JailError::CreationFailed("jail_set failed: Invalid argument".into()))
    );
    assert_eq!(remove_freebsd_jail(0, ""), Ok(()));
    assert_eq!(
        remove_freebsd_jail(-1, "busy"),
        Err(JailError::StopFailed("jail_remove failed: busy".into()))
    );
    assert!(check_jail_exists(0));
    assert!(!check_jail_exists(-1));
    assert_eq!(live_jid(5), Some(5));
    assert_eq!(live_jid(0), None);
    assert_eq!(live_jid(-1), None);
    assert_eq!(
        dev_directory_failure("a", "denied"),
        JailError::CreationFailed("Failed to create /dev directory in jail 'a': denied".into())
    );
    let ok = CommandOutput { success: true, code: Some(0), stdout: "".into(), stderr: "".into() };
    let bad = CommandOutput { success: false, code: Some(1), stdout: "".into(), stderr: "no".into() };
    assert_eq!(devfs_mounted("a", &Ok(ok)), Ok(()));
    assert_eq!(
        devfs_mounted("a", &Ok(bad)),
        Err(JailError::CreationFailed("Failed to mount devfs in jail 'a': no".into()))
    );
    assert_eq!(
        devfs_mounted("a", &Err("gone".into())),
        Err(JailError::CreationFailed("Failed to execute mount command for jail 'a': gone".into()))
    );
    let freebsd = Host { is_root: true, is_freebsd: true };
    let other = Host { is_root: true, is_freebsd: false };
    assert!(Jail::exists_in_kernel(3, &freebsd));
    assert!(!Jail::exists_in_kernel(-1, &freebsd));
    assert!(!Jail::exists_in_kernel(3, &other));
}

#[test]
fn stored_rows_are_read_as_sound_jails() {
    let row = |state: &str, jid: i32| JailRow {
        name: "j".into(),
        path: Some("/j".into()),
        ip: Some("10.0.0.2".into()),
        state: state.into(),
        jid,
    };
    // Only a running jail has a JID.
    let jail = Jail::from_db_row(row("created", 5)).unwrap();
    assert_eq!((jail.state(), jail.jid(), jail.is_running()), (JailState::Created, -1, false));
    let jail = Jail::from_db_row(row("stopped", 9)).unwrap();
    assert_eq!((jail.state(), jail.jid()), (JailState::Stopped, -1));
    // A running row without a JID is the row of a stopped jail.
    let jail = Jail::from_db_row(row("running", 0)).unwrap();
    assert_eq!((jail.state(), jail.jid(), jail.is_running()), (JailState::Stopped, -1, false));
    let jail = Jail::from_db_row(row("running", -1)).unwrap();
    assert_eq!((jail.state(), jail.jid()), (JailState::Stopped, -1));
    let jail = Jail::from_db_row(row("running", 7)).unwrap();
    assert_eq!((jail.state(), jail.jid(), jail.is_running()), (JailState::Running, 7, true));
    assert_eq!(jail.info().path, Some("/j".to_string()));
    assert_eq!(jail.to_db_row(), row("running", 7));
    assert_eq!(
        Jail::from_db_row(row("Running", 7)).err(),
        Some(JailError::InvalidState("Invalid jail state: Running".into()))
    );
}
