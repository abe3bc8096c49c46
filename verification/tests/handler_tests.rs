use kawakaze_backend::api::status;
use kawakaze_backend::api::{
    BuildImageRequest, CreateContainerRequest, CreateJailRequest, Endpoint, ExecRequest, JailInfo,
    Method, Mount, Payload, PortMapping, Request, RequestBody, Response,
};
use kawakaze_backend::bootstrap::BootstrapConfig;
use kawakaze_backend::command::CommandOutput;
use kawakaze_backend::config::KawakazeConfig;
use kawakaze_backend::container::{ContainerState, MountType, PortProtocol};
use kawakaze_backend::handler::{
    body_kind, build_finished, create_jail, delete_jail, finish, get_jail, handle_request,
    list_jails, start_jail, stop_jail, BodyKind, Handled, Task, TaskOutcome,
};
use kawakaze_backend::image::{DockerfileInstruction, Image, ImageState};
use kawakaze_backend::image_builder::{BuildStatus, ImageError};
use kawakaze_backend::jail::{Host, JailError};
use kawakaze_backend::manager::StoreOp;
use kawakaze_backend::store::JailRow;
use kawakaze_backend::strmap::StringMap;
use kawakaze_backend::zfs::Zfs;
use kawakaze_backend::JailManager;

fn create_test_manager() -> JailManager {
    JailManager::new("/tmp/test-handler.sock")
}

fn manager_with_zfs() -> JailManager {
    let pools = CommandOutput { success: true, code: Some(0), stdout: "zroot\n".into(), stderr: "".into() };
    let zfs = Zfs::new("zroot/kawakaze", &pools).unwrap();
    JailManager::with_config(KawakazeConfig::default(), Some(zfs)).unwrap()
}

fn host() -> Host {
    Host { is_root: true, is_freebsd: true }
}

fn answer(h: Handled) -> Response {
    assert!(h.task.is_none());
    h.response.unwrap()
}

fn jail_request(name: &str) -> CreateJailRequest {
    CreateJailRequest { name: name.into(), path: None, ip: None, bootstrap: None }
}

fn post_jail(manager: &mut JailManager, name: &str) -> Response {
    let request = Request::post(Endpoint::Jails, RequestBody::CreateJail(jail_request(name)));
    answer(handle_request(manager, request, &host()))
}

fn get(manager: &mut JailManager, endpoint: Endpoint) -> Response {
    answer(handle_request(manager, Request::get(endpoint), &host()))
}

fn available_image(name: &str) -> Image {
    Image::new(name.to_string(), vec![DockerfileInstruction::Run("echo hi".into())])
        .with_snapshot(format!("zroot/kawakaze/images/{}@{}-1", name, name))
        .with_size(10)
        .with_state(ImageState::Available)
}

#[test]
fn test_handle_request_list_jails() {
    let mut manager = create_test_manager();
    manager.add_jail("jail1").unwrap();
    manager.add_jail("jail2").unwrap();

    let response = get(&mut manager, Endpoint::Jails);

    assert_eq!(response.status, status::OK);
    assert!(response.is_success());
    assert!(response.data.is_some());
}

#[test]
fn test_handle_request_get_jail() {
    let mut manager = create_test_manager();
    manager.add_jail("test_jail").unwrap();

    let response = get(&mut manager, Endpoint::Jail("test_jail".into()));

    assert_eq!(response.status, status::OK);
    assert!(response.is_success());
}

#[test]
fn test_handle_request_get_jail_not_found() {
    let mut manager = create_test_manager();

    let response = get(&mut manager, Endpoint::Jail("nonexistent".into()));

    assert_eq!(response.status, status::NOT_FOUND);
    assert!(!response.is_success());
}

#[test]
fn test_handle_request_create_jail() {
    let mut manager = create_test_manager();

    let create_req = CreateJailRequest {
        name: "new_jail".into(),
        path: Some("/tmp/new_jail".into()),
        ip: Some("192.168.1.100".into()),
        bootstrap: None,
    };

    let request = Request::post(Endpoint::Jails, RequestBody::CreateJail(create_req));
    let response = answer(handle_request(&mut manager, request, &host()));

    assert_eq!(response.status, status::CREATED);
    assert!(response.is_success());
    let row = manager.get_jail("new_jail").unwrap().to_db_row();
    assert_eq!(row.path, Some("/tmp/new_jail".to_string()));
    assert_eq!(row.ip, Some("192.168.1.100".to_string()));
}

#[test]
fn test_handle_request_create_jail_invalid_name() {
    let mut manager = create_test_manager();

    let response = post_jail(&mut manager, "invalid name!");

    assert_eq!(response.status, status::BAD_REQUEST);
    assert!(!response.is_success());
    assert_eq!(response.error.unwrap().code, "BAD_REQUEST");
}

#[test]
fn test_handle_request_create_jail_duplicate() {
    let mut manager = create_test_manager();
    manager.add_jail("existing_jail").unwrap();

    let response = post_jail(&mut manager, "existing_jail");

    assert_eq!(response.status, status::CONFLICT);
    assert!(!response.is_success());
}

#[test]
fn test_handle_request_invalid_endpoint() {
    let mut manager = create_test_manager();

    let request = Request { method: Method::Get, endpoint: "invalid/endpoint".to_string(), body: RequestBody::Empty };

    let response = answer(handle_request(&mut manager, request, &host()));

    assert_eq!(response.status, status::BAD_REQUEST);
    assert_eq!(response.error.unwrap().message, "Unknown endpoint: invalid/endpoint");
}

#[test]
fn test_handle_request_unsupported_method() {
    let mut manager = create_test_manager();

    // DELETE on /jails is not supported
    let request = Request::delete(Endpoint::Jails);
    let response = answer(handle_request(&mut manager, request, &host()));

    assert_eq!(response.status, status::BAD_REQUEST);
    assert_eq!(response.error.unwrap().message, "Method Delete not supported for endpoint jails");
}

#[test]
fn handler_test_list_jails_empty() {
    let manager = create_test_manager();
    let response = answer(list_jails(&manager));

    assert_eq!(response.status, status::OK);
    assert_eq!(response.data, Some(Payload::JailList(vec![])));
}

#[test]
fn test_get_jail_found() {
    let mut manager = create_test_manager();
    manager.add_jail("test_jail").unwrap();

    let response = answer(get_jail(&manager, "test_jail"));

    assert_eq!(response.status, status::OK);
    assert!(response.data.is_some());
}

#[test]
fn handler_test_get_jail_not_found() {
    let manager = create_test_manager();
    let response = answer(get_jail(&manager, "nonexistent"));

    assert_eq!(response.status, status::NOT_FOUND);
}

#[test]
fn test_create_jail_success() {
    let mut manager = create_test_manager();

    let create_req = CreateJailRequest {
        name: "new_jail".into(),
        path: Some("/tmp/new_jail".into()),
        ip: None,
        bootstrap: None,
    };

    let handled = create_jail(&mut manager, create_req);
    assert_eq!(
        handled.store,
        vec![StoreOp::InsertJail(JailRow {
            name: "new_jail".into(),
            path: Some("/tmp/new_jail".into()),
            ip: None,
            state: "created".into(),
            jid: -1
        })]
    );
    let response = answer(handled);

    assert_eq!(response.status, status::CREATED);
    assert!(response.data.is_some());
}

#[test]
fn test_create_jail_invalid_request() {
    let mut manager = create_test_manager();

    let response = answer(create_jail(&mut manager, jail_request("")));

    assert_eq!(response.status, status::BAD_REQUEST);
}

#[test]
fn test_start_jail_success() {
    let mut manager = create_test_manager();
    manager.add_jail("test_jail").unwrap();

    let handled = start_jail(&manager, "test_jail", &host());
    assert!(handled.response.is_none());
    let response = finish(&mut manager, handled.task.unwrap(), TaskOutcome::JailCreated(Ok(4))).response.unwrap();

    assert_eq!(response.status, status::OK);
    assert_eq!(
        response.data,
        Some(Payload::Jail(JailInfo { name: "test_jail".into(), jid: 4, state: "running".into(), path: None }))
    );
}

#[test]
fn handler_test_start_jail_not_found() {
    let manager = create_test_manager();
    let response = answer(start_jail(&manager, "nonexistent", &host()));

    assert_eq!(response.status, status::NOT_FOUND);
}

#[test]
fn test_stop_jail_success() {
    let mut manager = create_test_manager();
    manager.add_jail("test_jail").unwrap();
    manager.jail_started("test_jail", Ok(4)).unwrap();

    let handled = stop_jail(&manager, "test_jail", &host());
    let finished = finish(&mut manager, handled.task.unwrap(), TaskOutcome::JailRemoved(Ok(())));
    assert_eq!(finished.store.len(), 1);
    let response = finished.response.unwrap();

    assert_eq!(response.status, status::OK);
    assert_eq!(
        response.data,
        Some(Payload::Jail(JailInfo { name: "test_jail".into(), jid: -1, state: "stopped".into(), path: None }))
    );
}

#[test]
fn handler_test_stop_jail_not_found() {
    let manager = create_test_manager();
    let response = answer(stop_jail(&manager, "nonexistent", &host()));

    assert_eq!(response.status, status::NOT_FOUND);
}

#[test]
fn test_delete_jail_success() {
    let mut manager = create_test_manager();
    manager.add_jail("test_jail").unwrap();

    let handled = delete_jail(&mut manager, "test_jail", &host());
    assert_eq!(handled.store, vec![StoreOp::DeleteJail("test_jail".into())]);
    let response = answer(handled);

    assert_eq!(response.status, status::OK);
    assert_eq!(response.data, Some(Payload::Message("Jail 'test_jail' deleted".into())));
    assert!(manager.get_jail("test_jail").is_none());
}

#[test]
fn test_delete_jail_not_found() {
    let mut manager = create_test_manager();
    let response = answer(delete_jail(&mut manager, "nonexistent", &host()));

    assert_eq!(response.status, status::NOT_FOUND);
}

#[test]
fn test_exec_container_not_found() {
    let mut manager = create_test_manager();

    let exec_req = ExecRequest { command: vec!["ls".to_string()], env: StringMap::new(), workdir: None };
    let request = Request::post(Endpoint::ContainerExec("nonexistent".into()), RequestBody::Exec(exec_req));
    let response = answer(handle_request(&mut manager, request, &host()));

    assert_eq!(response.status, status::NOT_FOUND);
}

#[test]
fn test_exec_container_invalid_request_body() {
    let mut manager = create_test_manager();

    let request = Request::post(
        Endpoint::ContainerExec("test".into()),
        RequestBody::Invalid("missing field `command`".to_string()),
    );
    let response = answer(handle_request(&mut manager, request, &host()));

    assert_eq!(response.status, status::BAD_REQUEST);
    assert_eq!(response.error.unwrap().message, "Invalid request body: missing field `command`");
}

#[test]
fn test_exec_request_valid() {
    let exec_req = ExecRequest {
        command: vec!["echo".to_string(), "hello".to_string()],
        env: StringMap::new(),
        workdir: Some("/tmp".to_string()),
    };
    assert_eq!(exec_req.command.len(), 2);
    assert_eq!(exec_req.workdir, Some("/tmp".to_string()));
}

#[test]
fn jail_life_over_the_api() {
    let mut manager = create_test_manager();
    assert_eq!(post_jail(&mut manager, "a").status, 201);
    assert_eq!(post_jail(&mut manager, "a").status, 409);
    let response = get(&mut manager, Endpoint::Jail("a".into()));
    assert_eq!(response.status, 200);
    assert_eq!(
        response.data,
        Some(Payload::Jail(JailInfo { name: "a".into(), jid: -1, state: "created".into(), path: None }))
    );
    let response = answer(handle_request(&mut manager, Request::delete(Endpoint::Jail("a".into())), &host()));
    assert_eq!(response.status, 200);
    assert_eq!(get(&mut manager, Endpoint::Jail("a".into())).status, 404);
}

#[test]
fn jail_name_boundaries_over_the_api() {
    let mut manager = create_test_manager();
    for name in ["", "has space", "bang!", "dot.ted", "invalid name!"] {
        let response = post_jail(&mut manager, name);
        assert_eq!(response.status, 400, "{:?}", name);
        assert_eq!(response.error.unwrap().code, "BAD_REQUEST");
    }
    let long: String = std::iter::repeat('x').take(1000).collect();
    assert_eq!(post_jail(&mut manager, &long).status, 201);
    assert_eq!(manager.jail_count(), 1);
}

#[test]
fn restart_with_a_stale_running_jail() {
    let mut manager = create_test_manager();
    let row = JailRow { name: "old".into(), path: None, ip: None, state: "running".into(), jid: 12 };
    assert!(manager.load_jail(row, None));
    manager.start().unwrap();
    let response = get(&mut manager, Endpoint::Jail("old".into()));
    assert_eq!(
        response.data,
        Some(Payload::Jail(JailInfo { name: "old".into(), jid: -1, state: "stopped".into(), path: None }))
    );
}

#[test]
fn jail_tasks_that_fail() {
    let mut manager = create_test_manager();
    manager.add_jail("a").unwrap();
    let task = start_jail(&manager, "a", &host()).task.unwrap();
    let response = finish(&mut manager, task, TaskOutcome::JailCreated(Err(JailError::CreationFailed("jail_set failed".into()))))
        .response
        .unwrap();
    assert_eq!((response.status, response.error.unwrap().code), (400, "BAD_REQUEST".to_string()));
    assert!(!manager.get_jail("a").unwrap().is_running());
    // Not root.
    let plain = Host { is_root: false, is_freebsd: true };
    let response = answer(start_jail(&manager, "a", &plain));
    assert_eq!((response.status, response.error.unwrap().code), (500, "START_FAILED".to_string()));
    // Stopping a jail that is not running.
    let response = answer(stop_jail(&manager, "a", &host()));
    assert_eq!((response.status, response.error.unwrap().code), (500, "STOP_FAILED".to_string()));
    // A task and an outcome that do not belong together.
    let task = start_jail(&manager, "a", &host()).task.unwrap();
    let response = finish(&mut manager, task, TaskOutcome::Bootstrapped(true)).response.unwrap();
    assert_eq!(response.status, 500);
    // Deleting a running jail waits for the kernel.
    manager.jail_started("a", Ok(3)).unwrap();
    let handled = delete_jail(&mut manager, "a", &host());
    assert!(handled.response.is_none());
    let finished = finish(&mut manager, handled.task.unwrap(), TaskOutcome::JailRemoved(Ok(())));
    assert_eq!(finished.response.unwrap().status, 200);
    assert_eq!(finished.store, vec![StoreOp::DeleteJail("a".into())]);
    assert_eq!(manager.jail_count(), 0);
}

#[test]
fn bootstrap_over_the_api() {
    let mut manager = create_test_manager();
    let request = Request::post(Endpoint::BootstrapJail("a".into()), RequestBody::Bootstrap(BootstrapConfig::default()));
    assert_eq!(answer(handle_request(&mut manager, request, &host())).status, 404);
    assert_eq!(get(&mut manager, Endpoint::BootstrapStatus("a".into())).status, 404);
    manager.add_jail("a").unwrap();
    let request = Request::post(Endpoint::BootstrapJail("a".into()), RequestBody::Empty);
    assert_eq!(answer(handle_request(&mut manager, request, &host())).status, 400);

    let request = Request::post(Endpoint::BootstrapJail("a".into()), RequestBody::Bootstrap(BootstrapConfig::default()));
    let handled = handle_request(&mut manager, request, &host());
    assert!(handled.response.is_none());
    let task = handled.task.unwrap();
    match &task {
        Task::Bootstrap { name, jail_path, marker, .. } => {
            assert_eq!((name.as_str(), jail_path.as_str(), marker.as_str()), ("a", "/tmp/a", "/tmp/a/bin/sh"));
        }
        other => panic!("unexpected {:?}", other),
    }
    let finished = finish(&mut manager, task, TaskOutcome::Bootstrapped(false));
    let response = finished.response.unwrap();
    assert_eq!(response.status, 202);
    let error = response.error.unwrap();
    assert_eq!((error.code.as_str(), error.message.as_str()), ("BOOTSTRAP_STARTED", "Bootstrap started for jail 'a'"));
    assert!(matches!(finished.task, Some(Task::Bootstrap { .. })));
    let response = get(&mut manager, Endpoint::BootstrapStatus("a".into()));
    assert_eq!(response.status, 200);
    assert!(matches!(response.data, Some(Payload::Bootstrap(_))));

    let request = Request::post(Endpoint::BootstrapJail("a".into()), RequestBody::Bootstrap(BootstrapConfig::default()));
    let task = handle_request(&mut manager, request, &host()).task.unwrap();
    let finished = finish(&mut manager, task, TaskOutcome::Bootstrapped(true));
    let response = finished.response.unwrap();
    assert_eq!(response.status, 409);
    assert_eq!(response.error.unwrap().message, "Jail 'a' is already bootstrapped");
    assert!(finished.task.is_none());
}

fn build_request(name: &str, dockerfile: &str) -> Request {
    Request::post(
        Endpoint::ImageBuild,
        RequestBody::BuildImage(BuildImageRequest {
            name: name.into(),
            dockerfile: dockerfile.into(),
            build_args: StringMap::new(),
        }),
    )
}

#[test]
fn image_build_over_the_api() {
    let mut manager = manager_with_zfs();
    let check = |m: &mut JailManager, name: &str, text: &str, status: u16, message: &str| {
        let response = answer(handle_request(m, build_request(name, text), &host()));
        assert_eq!(response.status, status);
        assert_eq!(response.error.unwrap().message, message);
    };
    check(&mut manager, "", "FROM scratch", 400, "Image name cannot be empty");
    check(&mut manager, "web", "", 400, "Dockerfile cannot be empty");
    check(
        &mut manager,
        "web",
        "FROM nowhere\nRUN x",
        400,
        "Base image 'nowhere' not found. Ensure the base image exists or build it first.",
    );
    let mut bare = create_test_manager();
    check(&mut bare, "web", "FROM scratch", 500, "ZFS not configured");

    let handled = handle_request(&mut manager, build_request("web", "FROM scratch\nRUN echo hi"), &host());
    let response = handled.response.unwrap();
    assert_eq!(response.status, 202);
    let error = response.error.unwrap();
    assert_eq!(error.code, "BUILD_STARTED");
    let build_id = match handled.task.unwrap() {
        Task::BuildImage { build_id, name, dockerfile, base, .. } => {
            assert_eq!((name.as_str(), dockerfile.as_str()), ("web", "FROM scratch\nRUN echo hi"));
            assert!(base.is_none());
            build_id
        }
        other => panic!("unexpected {:?}", other),
    };
    assert_eq!(
        error.message,
        format!("Image build started for 'web'. ID: {}. Use GET /images/{}/history to track progress.", build_id, build_id)
    );
    let progress = manager.get_build_progress(&build_id).unwrap();
    assert_eq!((progress.status, progress.current_instruction.as_str()), (BuildStatus::Building, "Initializing..."));
    // Until the build is done the image is not there.
    assert_eq!(get(&mut manager, Endpoint::ImageHistory("web".into())).status, 404);

    let built = Image::new("web".to_string(), vec![DockerfileInstruction::Run("echo hi".into())])
        .with_snapshot("zroot/kawakaze/images/web@web-1".into())
        .with_size(100)
        .with_state(ImageState::Available);
    let image_id = build_id.clone();
    let store = build_finished(&mut manager, &build_id, Ok(built));
    assert!(matches!(store.as_slice(), [StoreOp::InsertImage(_)]));
    let progress = manager.get_build_progress(&build_id).unwrap();
    assert_eq!((progress.status, progress.step, progress.total_steps), (BuildStatus::Complete, 1, 1));
    assert_eq!(get(&mut manager, Endpoint::ImageHistory("web".into())).status, 200);
    let response = get(&mut manager, Endpoint::ImageHistory(build_id.clone()));
    assert_eq!(response.status, 200);
    match response.data.unwrap() {
        Payload::ImageHistory(layers) => {
            assert_eq!(layers.len(), 1);
            assert_eq!(layers[0].id, format!("{}-layer-0", image_id));
            assert_eq!(layers[0].created_by, "RUN echo hi");
            assert_eq!(layers[0].size_bytes, 100);
        }
        other => panic!("unexpected {:?}", other),
    }
    match get(&mut manager, Endpoint::Image(image_id[..8].to_string())).data.unwrap() {
        Payload::Image(info) => {
            assert_eq!((info.id.as_str(), info.name.as_str(), info.parent_id, info.state.as_str()), (image_id.as_str(), "web", None, "available"));
        }
        other => panic!("unexpected {:?}", other),
    }
    check(&mut manager, "web", "FROM scratch", 409, "Image 'web' already exists");
    // A second build upon the first.
    let handled = handle_request(&mut manager, build_request("app", "FROM web\nRUN make"), &host());
    match handled.task.unwrap() {
        Task::BuildImage { base, .. } => assert_eq!(base.unwrap().id, image_id),
        other => panic!("unexpected {:?}", other),
    }
    // The base may be named by the beginning of its identifier.
    let dockerfile = format!("FROM {}\nRUN make", &image_id[..10]);
    let handled = handle_request(&mut manager, build_request("app2", &dockerfile), &host());
    match handled.task.unwrap() {
        Task::BuildImage { base, .. } => assert_eq!(base.unwrap().id, image_id),
        other => panic!("unexpected {:?}", other),
    }
    let store = build_finished(&mut manager, "other-build", Err(ImageError::BuildFailed("step 1".into())));
    assert!(store.is_empty());
    let progress = manager.get_build_progress("other-build").unwrap();
    assert_eq!(
        (progress.status, progress.current_instruction.as_str()),
        (BuildStatus::Failed, "Build failed: Build failed: step 1")
    );
    match get(&mut manager, Endpoint::Images).data.unwrap() {
        Payload::ImageList(items) => assert_eq!(items.len(), 1),
        other => panic!("unexpected {:?}", other),
    }
    // Deleting the image.
    let handled = handle_request(&mut manager, Request::delete(Endpoint::Image("web".into())), &host());
    assert_eq!(handled.response.unwrap().status, 200);
    assert_eq!(handled.store, vec![StoreOp::DeleteImage(image_id.clone())]);
    match handled.task.unwrap() {
        Task::RemoveImage(removal) => {
            assert_eq!(removal.destroy.unwrap().args, vec!["destroy", "-r", "zroot/kawakaze/images/web@web-1"]);
        }
        other => panic!("unexpected {:?}", other),
    }
    let response = answer(handle_request(&mut manager, Request::delete(Endpoint::DeleteImage("web".into())), &host()));
    assert_eq!(response.status, 404);
}

fn container_request(image: &str, policy: &str) -> Request {
    named_container_request(image, policy, Some("web1"))
}

fn named_container_request(image: &str, policy: &str, name: Option<&str>) -> Request {
    Request::post(
        Endpoint::ContainerCreate,
        RequestBody::CreateContainer(CreateContainerRequest {
            image_id: image.into(),
            name: name.map(|n| n.to_string()),
            ports: vec![
                PortMapping { host_port: 8080, container_port: 80, protocol: "tcp".into() },
                PortMapping { host_port: 53, container_port: 53, protocol: "udp".into() },
                PortMapping { host_port: 1, container_port: 2, protocol: "sctp".into() },
            ],
            volumes: vec![
                Mount { source: "tank/data".into(), destination: "/data".into(), mount_type: "zfs".into() },
                Mount { source: "/host".into(), destination: "/mnt".into(), mount_type: "other".into() },
            ],
            env: StringMap::new(),
            restart_policy: policy.into(),
            command: None,
        }),
    )
}

#[test]
fn container_life_over_the_api() {
    let mut manager = manager_with_zfs();
    let image = available_image("web");
    let image_id = image.id.clone();
    manager.add_image(image).unwrap();

    assert_eq!(answer(handle_request(&mut manager, container_request("nothing", "no"), &host())).status, 404);
    let response = answer(handle_request(&mut manager, container_request("web", "on-fail"), &host()));
    assert_eq!((response.status, response.error.unwrap().message), (400, "Invalid restart policy: on-fail".to_string()));
    let response = answer(handle_request(&mut manager, container_request("web", ""), &host()));
    assert_eq!(response.status, 400);

    let handled = handle_request(&mut manager, container_request("web", "Always"), &host());
    assert!(handled.response.is_none());
    let task = handled.task.unwrap();
    let id = match &task {
        Task::CreateContainer(draft) => {
            let c = &draft.container;
            assert_eq!(c.image_id, image_id);
            assert_eq!(c.port_mappings.len(), 3);
            assert_eq!(c.port_mappings[0].protocol, PortProtocol::Tcp);
            assert_eq!(c.port_mappings[1].protocol, PortProtocol::Udp);
            assert_eq!(c.port_mappings[2].protocol, PortProtocol::Tcp);
            assert_eq!((c.mounts[0].mount_type, c.mounts[1].mount_type), (MountType::Zfs, MountType::Nullfs));
            assert!(!c.mounts[0].read_only);
            assert_eq!(
                draft.clone_from,
                Some(("zroot/kawakaze/images/web@web-1".to_string(), format!("zroot/kawakaze/containers/{}", &c.id[..8])))
            );
            c.id.clone()
        }
        other => panic!("unexpected {:?}", other),
    };
    let finished = finish(&mut manager, task, TaskOutcome::Cloned(Ok(()), Some("/zroot/c".into())));
    let response = finished.response.unwrap();
    assert_eq!(response.status, 201);
    // Both rows are written: the jail's first, then the container's.
    match finished.store.as_slice() {
        [StoreOp::InsertJail(row), StoreOp::InsertContainer(c)] => {
            assert_eq!(row.name, format!("kawakaze-{}", &id[..8]));
            assert_eq!((row.path.as_deref(), row.state.as_str(), row.jid), (Some("/zroot/c"), "created", -1));
            assert_eq!(c.id, id);
        }
        other => panic!("unexpected {:?}", other),
    }
    match response.data.unwrap() {
        Payload::Container(info) => {
            assert_eq!(info.id, id);
            assert_eq!(info.name, Some("web1".to_string()));
            assert_eq!(info.jail_name, format!("kawakaze-{}", &id[..8]));
            assert_eq!((info.state.as_str(), info.restart_policy.as_str()), ("created", "always"));
        }
        other => panic!("unexpected {:?}", other),
    }
    match get(&mut manager, Endpoint::Containers).data.unwrap() {
        Payload::ContainerList(items) => assert_eq!((items.len(), items[0].state.as_str()), (1, "created")),
        other => panic!("unexpected {:?}", other),
    }
    assert_eq!(get(&mut manager, Endpoint::Container("web1".into())).status, 200);
    assert_eq!(get(&mut manager, Endpoint::Container(id[..6].to_string())).status, 200);
    assert_eq!(get(&mut manager, Endpoint::Container("web2".into())).status, 404);
    assert_eq!(get(&mut manager, Endpoint::ContainerLogs("web1".into())).data, Some(Payload::Logs(vec![])));
    assert_eq!(get(&mut manager, Endpoint::ContainerLogs("web2".into())).status, 404);

    // Exec needs a running container.
    let exec = |m: &mut JailManager, key: &str| {
        let body = ExecRequest { command: vec!["ls".into(), "-la".into()], env: StringMap::new(), workdir: None };
        handle_request(m, Request::post(Endpoint::ContainerExec(key.into()), RequestBody::Exec(body)), &host())
    };
    assert_eq!(exec(&mut manager, "web1").response.unwrap().status, 400);

    let handled = handle_request(&mut manager, Request::post(Endpoint::StartContainer("web1".into()), RequestBody::Empty), &host());
    let task = handled.task.unwrap();
    assert!(matches!(&task, Task::StartContainer { id: i, .. } if *i == id));
    let finished = finish(&mut manager, task, TaskOutcome::JailCreated(Ok(33)));
    assert_eq!(finished.response.unwrap().status, 200);
    match finished.store.as_slice() {
        [StoreOp::UpdateJail(row), StoreOp::UpdateContainer(i, ContainerState::Running)] => {
            assert_eq!((row.name.clone(), row.state.as_str(), row.jid), (format!("kawakaze-{}", &id[..8]), "running", 33));
            assert_eq!(*i, id);
        }
        other => panic!("unexpected {:?}", other),
    }

    let handled = exec(&mut manager, "web1");
    let task = handled.task.unwrap();
    match &task {
        Task::Exec { command } => {
            assert_eq!(command.program, "jexec");
            assert_eq!(command.args, vec![format!("kawakaze-{}", &id[..8]), "ls".to_string(), "-la".to_string()]);
            assert_eq!(
                command.env,
                vec![(
                    "PATH".to_string(),
                    "/sbin:/bin:/usr/sbin:/usr/bin:/usr/local/sbin:/usr/local/bin:~/bin".to_string()
                )]
            );
        }
        other => panic!("unexpected {:?}", other),
    }
    let output = CommandOutput { success: false, code: Some(2), stdout: "out".into(), stderr: "err".into() };
    let response = finish(&mut manager, task, TaskOutcome::Executed(Ok(output))).response.unwrap();
    match response.data.unwrap() {
        Payload::Exec(r) => assert_eq!((r.exit_code, r.stdout.as_str(), r.stderr.as_str()), (2, "out", "err")),
        other => panic!("unexpected {:?}", other),
    }
    let task = exec(&mut manager, "web1").task.unwrap();
    let killed = CommandOutput { success: false, code: None, stdout: "".into(), stderr: "".into() };
    match finish(&mut manager, task, TaskOutcome::Executed(Ok(killed))).response.unwrap().data.unwrap() {
        Payload::Exec(r) => assert_eq!(r.exit_code, -1),
        other => panic!("unexpected {:?}", other),
    }
    let task = exec(&mut manager, "web1").task.unwrap();
    let response = finish(&mut manager, task, TaskOutcome::Executed(Err("no jexec".into()))).response.unwrap();
    assert_eq!((response.status, response.error.unwrap().message), (500, "Failed to execute command: no jexec".to_string()));

    // A running container is not removed.
    let response = answer(handle_request(&mut manager, Request::delete(Endpoint::Container("web1".into())), &host()));
    assert_eq!(response.status, 400);
    assert_eq!(response.error.unwrap().message, "Container 'web1' is running. Stop it first or use force flag.");

    let handled = handle_request(&mut manager, Request::post(Endpoint::StopContainer(id.clone()), RequestBody::Empty), &host());
    let finished = finish(&mut manager, handled.task.unwrap(), TaskOutcome::JailRemoved(Ok(())));
    assert_eq!(finished.response.unwrap().status, 200);
    match finished.store.as_slice() {
        [StoreOp::UpdateJail(row), StoreOp::UpdateContainer(i, ContainerState::Stopped)] => {
            assert_eq!((row.name.clone(), row.state.as_str(), row.jid), (format!("kawakaze-{}", &id[..8]), "stopped", -1));
            assert_eq!(*i, id);
        }
        other => panic!("unexpected {:?}", other),
    }

    let handled = handle_request(&mut manager, Request::delete(Endpoint::RemoveContainer("web1".into())), &host());
    assert_eq!(handled.response.unwrap().data, Some(Payload::Message("Container 'web1' removed".into())));
    assert_eq!(
        handled.store,
        vec![StoreOp::DeleteContainer(id.clone()), StoreOp::DeleteJail(format!("kawakaze-{}", &id[..8]))]
    );
    match handled.task.unwrap() {
        Task::RemoveContainer(removal) => {
            assert_eq!(removal.destroy.unwrap().args, vec!["destroy".to_string(), "-r".into(), format!("zroot/kawakaze/containers/{}", &id[..8])]);
        }
        other => panic!("unexpected {:?}", other),
    }
    assert_eq!(manager.jail_count(), 0);
    assert_eq!(get(&mut manager, Endpoint::Container(id.clone())).status, 404);
    let response = answer(handle_request(&mut manager, Request::post(Endpoint::StartContainer(id), RequestBody::Empty), &host()));
    assert_eq!(response.status, 404);
}

#[test]
fn bodies_by_endpoint() {
    assert_eq!(body_kind(Method::Post, &Endpoint::Jails), BodyKind::CreateJail);
    assert_eq!(body_kind(Method::Get, &Endpoint::Jails), BodyKind::Nothing);
    assert_eq!(body_kind(Method::Post, &Endpoint::BootstrapJail("a".into())), BodyKind::Bootstrap);
    assert_eq!(body_kind(Method::Post, &Endpoint::ImageBuild), BodyKind::BuildImage);
    assert_eq!(body_kind(Method::Post, &Endpoint::ContainerCreate), BodyKind::CreateContainer);
    assert_eq!(body_kind(Method::Post, &Endpoint::ContainerExec("a".into())), BodyKind::Exec);
    assert_eq!(body_kind(Method::Post, &Endpoint::StartJail("a".into())), BodyKind::Nothing);
    assert_eq!(body_kind(Method::Delete, &Endpoint::ImageBuild), BodyKind::Nothing);
    let mut manager = create_test_manager();
    let request = Request::post(Endpoint::Jails, RequestBody::Empty);
    assert_eq!(answer(handle_request(&mut manager, request, &host())).status, 400);
    let request = Request { method: Method::Post, endpoint: "images".into(), body: RequestBody::Empty };
    let response = answer(handle_request(&mut manager, request, &host()));
    assert_eq!(response.error.unwrap().message, "Method Post not supported for endpoint images");
    let request = Request { method: Method::Get, endpoint: "images/build".into(), body: RequestBody::Empty };
    let response = answer(handle_request(&mut manager, request, &host()));
    assert_eq!(response.error.unwrap().message, "Method Get not supported for endpoint images/build");
}

#[test]
fn tasks_and_outcomes_have_to_match() {
    let mut manager = create_test_manager();
    let command = kawakaze_backend::command::HostCommand::new("true", vec![]);
    let h = finish(&mut manager, Task::Exec { command }, TaskOutcome::Bootstrapped(true));
    let response = h.response.unwrap();
    assert_eq!(response.status, 500);
    assert_eq!(response.error.unwrap().message, "Task and outcome do not match");
    assert!(h.task.is_none());
    assert!(h.store.is_empty());
}

#[test]
fn bootstrap_progress_is_shown_as_it_was_reported() {
    use_progress();
}

fn use_progress() {
    let mut manager = create_test_manager();
    manager.add_jail("a").unwrap();
    manager.register_bootstrap_tracker("a".to_string());
    let report = kawakaze_backend::bootstrap::BootstrapProgress {
        status: kawakaze_backend::bootstrap::BootstrapStatus::Failed("no network".into()),
        progress: 40,
        current_step: "Download failed".into(),
        version: "15.0-RELEASE".into(),
        architecture: "amd64".into(),
    };
    assert!(manager.update_bootstrap_progress("a", report.duplicate()));
    match get(&mut manager, Endpoint::BootstrapStatus("a".into())).data.unwrap() {
        Payload::Bootstrap(p) => assert_eq!(p, report),
        other => panic!("unexpected {:?}", other),
    }
    let response = get(&mut manager, Endpoint::BootstrapStatus("b".into()));
    assert_eq!(response.status, 404);
    assert_eq!(
        response.error.unwrap().message,
        "Resource not found: No bootstrap progress for jail 'b'"
    );
}

#[test]
fn jail_of_a_container_is_not_deleted_by_itself() {
    let mut manager = manager_with_zfs();
    let image = available_image("web");
    manager.add_image(image).unwrap();
    let task = handle_request(&mut manager, container_request("web", "no"), &host()).task.unwrap();
    let created = finish(&mut manager, task, TaskOutcome::Cloned(Ok(()), None));
    let jail_name = match created.response.unwrap().data.unwrap() {
        Payload::Container(info) => info.jail_name,
        other => panic!("unexpected {:?}", other),
    };
    let h = handle_request(&mut manager, Request::delete(Endpoint::Jail(jail_name.clone())), &host());
    let response = h.response.unwrap();
    assert_eq!(response.status, 500);
    let error = response.error.unwrap();
    assert_eq!(error.code, "DESTROY_FAILED");
    assert_eq!(error.message, format!("Jail '{}' belongs to a container", jail_name));
    assert!(manager.get_jail(&jail_name).is_some());
    // The image of the container stays as well.
    let h = handle_request(&mut manager, Request::delete(Endpoint::Image("web".into())), &host());
    let response = h.response.unwrap();
    assert_eq!(response.status, 500);
    assert!(response.error.unwrap().message.ends_with("is used by a container"));
    assert!(h.task.is_none());
    // The name of a container is taken.
    let response = answer(handle_request(&mut manager, container_request("web", "no"), &host()));
    assert_eq!(response.status, 409);
    assert_eq!(response.error.unwrap().message, "Container 'web1' already exists");
    // A clone that fails leaves nothing behind.
    let request = named_container_request("web", "no", Some("web2"));
    let task = handle_request(&mut manager, request, &host()).task.unwrap();
    let failed = finish(
        &mut manager,
        task,
        TaskOutcome::Cloned(Err(kawakaze_backend::zfs::ZfsError::CommandFailed("x".into())), None),
    );
    let response = failed.response.unwrap();
    assert_eq!(response.status, 500);
    assert_eq!(
        response.error.unwrap().message,
        "Failed to create container: Serialization error: ZFS error: ZFS command failed: x"
    );
    assert!(failed.store.is_empty());
    assert_eq!(manager.list_containers().len(), 1);
    assert_eq!(manager.jail_count(), 1);
}

#[test]
fn two_drafts_of_one_name_give_one_container() {
    let mut manager = manager_with_zfs();
    manager.add_image(available_image("web")).unwrap();
    let first = handle_request(&mut manager, container_request("web", "no"), &host()).task.unwrap();
    let second = handle_request(&mut manager, container_request("web", "no"), &host()).task.unwrap();
    assert_eq!(finish(&mut manager, first, TaskOutcome::Cloned(Ok(()), None)).response.unwrap().status, 201);
    let late = finish(&mut manager, second, TaskOutcome::Cloned(Ok(()), None)).response.unwrap();
    assert_eq!(late.status, 500);
    assert_eq!(
        late.error.unwrap().message,
        "Failed to create container: Serialization error: Container 'web1' already exists"
    );
    assert_eq!(manager.list_containers().len(), 1);
    assert_eq!(manager.jail_count(), 1);
    // Without a name a container is named by its identifier.
    let request = named_container_request("web", "no", None);
    let task = handle_request(&mut manager, request, &host()).task.unwrap();
    let response = finish(&mut manager, task, TaskOutcome::Cloned(Ok(()), None)).response.unwrap();
    match response.data.unwrap() {
        Payload::Container(info) => assert_eq!(info.name, Some(info.id.clone())),
        other => panic!("unexpected {:?}", other),
    }
}

#[test]
fn two_builds_of_one_name_give_one_image() {
    let mut manager = manager_with_zfs();
    let first = Image::new("web".to_string(), vec![]).with_state(ImageState::Available);
    let second = Image::new("web".to_string(), vec![]).with_state(ImageState::Available);
    assert_eq!(build_finished(&mut manager, "build-1", Ok(first)).len(), 1);
    assert!(build_finished(&mut manager, "build-2", Ok(second)).is_empty());
    let progress = manager.get_build_progress("build-2").unwrap();
    assert_eq!(progress.status, BuildStatus::Failed);
    assert_eq!(
        progress.current_instruction,
        "Build failed: Database error: Image 'web' already exists"
    );
    assert_eq!(manager.get_build_progress("build-1").unwrap().status, BuildStatus::Complete);
    assert_eq!(manager.list_images().len(), 1);
    assert_eq!(manager.find_image("web").unwrap().id, "build-1");
}

#[test]
fn answers_of_success_carry_no_error() {
    let mut manager = create_test_manager();
    let created = answer(create_jail(&mut manager, jail_request("plain")));
    assert_eq!(created.status, 201);
    assert!(created.error.is_none());
    let deleted = answer(delete_jail(&mut manager, "plain", &host()));
    assert_eq!(deleted.status, 200);
    assert!(deleted.error.is_none());
}
