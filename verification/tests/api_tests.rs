use kawakaze_backend::api::status;
use kawakaze_backend::api::{
    state_to_string, ApiError, BuildImageRequest, ContainerInfo, CreateContainerRequest,
    CreateJailRequest, Endpoint, ExecRequest, ImageInfo, JailInfo, JailListItem, Method, Mount,
    Payload, PortMapping, Request, RequestBody, Response,
};
use kawakaze_backend::jail::{JailError, JailState};
use kawakaze_backend::strmap::StringMap;

#[test]
fn test_endpoint_paths() {
    assert_eq!(Endpoint::Jails.path(), "jails");
    assert_eq!(Endpoint::Jail("test".into()).path(), "jails/test");
    assert_eq!(Endpoint::StartJail("test".into()).path(), "jails/test/start");
    assert_eq!(Endpoint::StopJail("test".into()).path(), "jails/test/stop");

    // Image endpoints
    assert_eq!(Endpoint::Images.path(), "images");
    assert_eq!(Endpoint::Image("abc123".into()).path(), "images/abc123");
    assert_eq!(Endpoint::ImageBuild.path(), "images/build");
    assert_eq!(Endpoint::DeleteImage("abc123".into()).path(), "images/abc123");
    assert_eq!(Endpoint::ImageHistory("abc123".into()).path(), "images/abc123/history");

    // Container endpoints
    assert_eq!(Endpoint::Containers.path(), "containers");
    assert_eq!(Endpoint::Container("def456".into()).path(), "containers/def456");
    assert_eq!(Endpoint::ContainerCreate.path(), "containers/create");
    assert_eq!(Endpoint::StartContainer("def456".into()).path(), "containers/def456/start");
    assert_eq!(Endpoint::StopContainer("def456".into()).path(), "containers/def456/stop");
    assert_eq!(Endpoint::RemoveContainer("def456".into()).path(), "containers/def456");
    assert_eq!(Endpoint::ContainerLogs("def456".into()).path(), "containers/def456/logs");
    assert_eq!(Endpoint::ContainerExec("def456".into()).path(), "containers/def456/exec");
}

#[test]
fn endpoint_paths_of_bootstrap() {
    assert_eq!(Endpoint::BootstrapJail("j".into()).path(), "jails/j/bootstrap");
    assert_eq!(Endpoint::BootstrapStatus("j".into()).path(), "jails/j/bootstrap/status");
}

#[test]
fn test_request_get() {
    let req = Request::get(Endpoint::Jails);
    assert_eq!(req.method, Method::Get);
    assert_eq!(req.endpoint, "jails");
}

#[test]
fn test_request_post() {
    let body = CreateJailRequest {
        name: "test_jail".into(),
        path: Some("/tmp/test".into()),
        ip: None,
        bootstrap: None,
    };
    let req = Request::post(Endpoint::Jails, RequestBody::CreateJail(body));
    assert_eq!(req.method, Method::Post);
    assert_eq!(req.endpoint, "jails");
    assert!(matches!(req.body, RequestBody::CreateJail(_)));
}

#[test]
fn test_request_delete() {
    let req = Request::delete(Endpoint::Jail("test".into()));
    assert_eq!(req.method, Method::Delete);
    assert_eq!(req.endpoint, "jails/test");
}

fn request(method: Method, endpoint: &str) -> Request {
    Request { method, endpoint: endpoint.to_string(), body: RequestBody::Empty }
}

#[test]
fn test_request_parse_endpoint() {
    let req = request(Method::Get, "jails");
    assert_eq!(req.parse_endpoint().unwrap(), Endpoint::Jails);

    let req = request(Method::Get, "jails/test");
    assert_eq!(req.parse_endpoint().unwrap(), Endpoint::Jail("test".into()));

    let req = request(Method::Post, "jails/test/start");
    assert_eq!(req.parse_endpoint().unwrap(), Endpoint::StartJail("test".into()));

    // Image endpoints
    let req = request(Method::Get, "images");
    assert_eq!(req.parse_endpoint().unwrap(), Endpoint::Images);

    let req = request(Method::Get, "images/abc123");
    assert_eq!(req.parse_endpoint().unwrap(), Endpoint::Image("abc123".into()));

    let req = request(Method::Post, "images/build");
    assert_eq!(req.parse_endpoint().unwrap(), Endpoint::ImageBuild);

    // Container endpoints
    let req = request(Method::Get, "containers");
    assert_eq!(req.parse_endpoint().unwrap(), Endpoint::Containers);

    let req = request(Method::Post, "containers/create");
    assert_eq!(req.parse_endpoint().unwrap(), Endpoint::ContainerCreate);

    let req = request(Method::Post, "containers/def456/start");
    assert_eq!(req.parse_endpoint().unwrap(), Endpoint::StartContainer("def456".into()));
}

#[test]
fn parse_endpoint_covers_every_path() {
    let cases: Vec<(Method, &str, Endpoint)> = vec![
        (Method::Delete, "jails/a", Endpoint::Jail("a".into())),
        (Method::Post, "jails/a/stop", Endpoint::StopJail("a".into())),
        (Method::Post, "jails/a/bootstrap", Endpoint::BootstrapJail("a".into())),
        (Method::Get, "jails/a/bootstrap/status", Endpoint::BootstrapStatus("a".into())),
        (Method::Delete, "images/i", Endpoint::Image("i".into())),
        (Method::Get, "images/build", Endpoint::ImageBuild),
        (Method::Get, "images/i/history", Endpoint::ImageHistory("i".into())),
        (Method::Delete, "containers/c", Endpoint::Container("c".into())),
        (Method::Post, "containers/c/stop", Endpoint::StopContainer("c".into())),
        (Method::Get, "containers/c/logs", Endpoint::ContainerLogs("c".into())),
        (Method::Post, "containers/c/exec", Endpoint::ContainerExec("c".into())),
        (Method::Get, "jails/", Endpoint::Jail("".into())),
    ];
    for (method, path, expected) in cases {
        assert_eq!(request(method, path).parse_endpoint().unwrap(), expected, "{}", path);
    }
    for (method, path) in vec![
        (Method::Post, "jails/a"),
        (Method::Post, "images/i"),
        (Method::Post, "containers/c"),
        (Method::Get, ""),
        (Method::Get, "jail"),
        (Method::Get, "/jails"),
        (Method::Get, "jails/a/restart"),
        (Method::Get, "jails/a/bootstrap/state"),
        (Method::Get, "images/i/history/x"),
        (Method::Get, "a/b/c/d/e"),
    ] {
        let err = request(method, path).parse_endpoint().unwrap_err();
        assert_eq!(err.code, "BAD_REQUEST");
        assert_eq!(err.message, format!("Unknown endpoint: {}", path));
    }
}

#[test]
fn test_response_success() {
    let resp = Response::success(Payload::Message("data".to_string()));
    assert_eq!(resp.status, status::OK);
    assert!(resp.data.is_some());
    assert!(resp.error.is_none());
    assert!(resp.is_success());
}

#[test]
fn test_response_created() {
    let resp = Response::created(Payload::Message("test".to_string()));
    assert_eq!(resp.status, status::CREATED);
    assert!(resp.is_success());
}

#[test]
fn test_response_error() {
    let resp = Response::not_found("test_jail".to_string());
    assert_eq!(resp.status, status::NOT_FOUND);
    assert!(resp.data.is_none());
    assert!(resp.error.is_some());
    assert!(!resp.is_success());
}

#[test]
fn response_constructors() {
    let r = Response::bad_request("m".to_string());
    assert_eq!((r.status, r.error.unwrap()), (400, ApiError::new("BAD_REQUEST", "m".to_string())));
    let r = Response::conflict("m".to_string());
    assert_eq!((r.status, r.error.unwrap().code.as_str()), (409, "CONFLICT"));
    let r = Response::internal_error("m".to_string());
    assert_eq!((r.status, r.error.unwrap().code.as_str()), (500, "INTERNAL_ERROR"));
    let r = Response::not_found("Jail 'x'".to_string());
    assert_eq!(r.error.unwrap().message, "Resource not found: Jail 'x'");
    let r = Response::ok(299, Payload::Message("x".into()));
    assert!(r.is_success());
    let r = Response::ok(300, Payload::Message("x".into()));
    assert!(!r.is_success());
    let r = Response::error(199, ApiError::Internal("x".into()));
    assert!(!r.is_success());
}

#[test]
fn api_error_constructors() {
    assert_eq!(ApiError::BadRequest("m".into()).code, "BAD_REQUEST");
    assert_eq!(ApiError::NotFound("thing".into()).message, "Resource not found: thing");
    assert_eq!(ApiError::Conflict("m".into()).code, "CONFLICT");
    assert_eq!(ApiError::Internal("m".into()).code, "INTERNAL_ERROR");
    let e = ApiError::JailAlreadyExists("a".into());
    assert_eq!((e.code.as_str(), e.message.as_str()), ("CONFLICT", "Jail 'a' already exists"));
    let e = ApiError::JailNotFound("a".into());
    assert_eq!((e.code.as_str(), e.message.as_str()), ("NOT_FOUND", "Resource not found: Jail 'a'"));
    assert_eq!(e.to_string(), "[NOT_FOUND] Resource not found: Jail 'a'");
}

#[test]
fn test_create_jail_request_validate() {
    let req = CreateJailRequest {
        name: "valid_name-123".into(),
        path: Some("/tmp/test".into()),
        ip: None,
        bootstrap: None,
    };
    assert!(req.validate().is_ok());

    let req = CreateJailRequest { name: "".into(), path: None, ip: None, bootstrap: None };
    assert!(req.validate().is_err());

    let req = CreateJailRequest { name: "invalid name!".into(), path: None, ip: None, bootstrap: None };
    assert!(req.validate().is_err());
}

#[test]
fn create_jail_request_messages() {
    let req = CreateJailRequest { name: "".into(), path: None, ip: None, bootstrap: None };
    let e = req.validate().unwrap_err();
    assert_eq!((e.code.as_str(), e.message.as_str()), ("BAD_REQUEST", "Jail name cannot be empty"));
    let req = CreateJailRequest { name: "a.b".into(), path: None, ip: None, bootstrap: None };
    let e = req.validate().unwrap_err();
    assert_eq!(
        e.message,
        "Invalid jail name 'a.b': only alphanumeric, underscore, and hyphen characters allowed"
    );
}

#[test]
fn test_jail_info_conversion() {
    let jail_info = kawakaze_backend::jail::JailInfo {
        name: "test".into(),
        jid: 123,
        state: JailState::Running,
        path: Some("/tmp/test".into()),
    };
    let api_info = JailInfo::from(jail_info);
    assert_eq!(api_info.name, "test");
    assert_eq!(api_info.jid, 123);
    assert_eq!(api_info.state, "running");
    assert_eq!(api_info.path, Some("/tmp/test".into()));
}

#[test]
fn jail_list_item_conversion() {
    let item = JailListItem::from(("a".to_string(), JailState::Running));
    assert_eq!(item, JailListItem { name: "a".into(), state: "running".into(), running: true });
    let item = JailListItem::from(("b".to_string(), JailState::Stopped));
    assert_eq!(item, JailListItem { name: "b".into(), state: "stopped".into(), running: false });
    assert_eq!(state_to_string(JailState::Created), "created");
}

#[test]
fn test_api_error_from_jail_error() {
    let err = JailError::CreationFailed("Jail 'test' already exists".into());
    let api_err = ApiError::from(err);
    assert_eq!(api_err.code, "CONFLICT");

    let err = JailError::StartFailed("Jail 'test' not found".into());
    let api_err = ApiError::from(err);
    assert_eq!(api_err.code, "NOT_FOUND");

    let err = JailError::StopFailed("Jail 'missing' not found".into());
    let api_err = ApiError::from(err);
    assert_eq!(api_err.code, "NOT_FOUND");
}

#[test]
fn api_error_from_jail_error_messages() {
    let e = ApiError::from_jail_error(JailError::CreationFailed("Jail 'test' already exists".into()));
    assert_eq!(e.message, "Jail 'test' already exists");
    let e = ApiError::from_jail_error(JailError::CreationFailed("it already exists".into()));
    assert_eq!(e.message, "Jail 'unknown' already exists");
    let e = ApiError::from_jail_error(JailError::StopFailed("Jail 'missing' not found".into()));
    assert_eq!(e.message, "Resource not found: Jail 'missing'");
    let e = ApiError::from_jail_error(JailError::CreationFailed("bad".into()));
    assert_eq!((e.code.as_str(), e.message.as_str()), ("BAD_REQUEST", "bad"));
    let e = ApiError::from_jail_error(JailError::StartFailed("boom".into()));
    assert_eq!((e.code.as_str(), e.message.as_str()), ("START_FAILED", "boom"));
    let e = ApiError::from_jail_error(JailError::StopFailed("boom".into()));
    assert_eq!(e.code, "STOP_FAILED");
    let e = ApiError::from_jail_error(JailError::DestroyFailed("boom".into()));
    assert_eq!(e.code, "DESTROY_FAILED");
    let e = ApiError::from_jail_error(JailError::DestroyFailed("Jail 'x' not found".into()));
    assert_eq!(e.code, "NOT_FOUND");
    let e = ApiError::from_jail_error(JailError::InvalidState("s".into()));
    assert_eq!(e.code, "BAD_REQUEST");
    let e = ApiError::from_jail_error(JailError::InvalidPath("p".into()));
    assert_eq!(e.code, "BAD_REQUEST");
}

#[test]
fn test_build_image_request() {
    let mut build_args = StringMap::new();
    build_args.insert("VERSION".to_string(), "1.0".to_string());

    let req = BuildImageRequest {
        name: "test-image".to_string(),
        dockerfile: "FROM freebsd:15.0\nRUN pkg install -y nginx".to_string(),
        build_args,
    };

    assert_eq!(req.name, "test-image");
    assert_eq!(req.build_args.len(), 1);
    assert_eq!(req.build_args.get("VERSION"), Some(&"1.0".to_string()));
}

#[test]
fn test_create_container_request() {
    let req = CreateContainerRequest {
        image_id: "abc123".to_string(),
        name: Some("webserver".to_string()),
        ports: vec![PortMapping { host_port: 8080, container_port: 80, protocol: "tcp".to_string() }],
        volumes: vec![Mount {
            source: "/data".to_string(),
            destination: "/mnt/data".to_string(),
            mount_type: "nullfs".to_string(),
        }],
        env: {
            let mut map = StringMap::new();
            map.insert("DEBUG".to_string(), "true".to_string());
            map
        },
        restart_policy: "on-fail".to_string(),
        command: Some(vec!["nginx".to_string(), "-g".to_string(), "daemon off;".to_string()]),
    };

    assert_eq!(req.image_id, "abc123");
    assert_eq!(req.name, Some("webserver".to_string()));
    assert_eq!(req.ports.len(), 1);
    assert_eq!(req.volumes.len(), 1);
    assert_eq!(req.restart_policy, "on-fail");
    assert!(req.command.is_some());
}

#[test]
fn test_exec_request() {
    let req = ExecRequest {
        command: vec!["ls".to_string(), "-la".to_string()],
        env: StringMap::new(),
        workdir: Some("/tmp".to_string()),
    };

    assert_eq!(req.command.len(), 2);
    assert_eq!(req.workdir, Some("/tmp".to_string()));
}

#[test]
fn test_image_info() {
    let info = ImageInfo {
        id: "abc123".to_string(),
        name: "test-image".to_string(),
        parent_id: Some("def456".to_string()),
        size_bytes: 500_000_000,
        state: "ready".to_string(),
        created_at: 1640000000,
    };

    assert_eq!(info.id, "abc123");
    assert_eq!(info.size_bytes, 500_000_000);
    assert!(info.parent_id.is_some());
}

#[test]
fn test_container_info() {
    let info = ContainerInfo {
        id: "container-1".to_string(),
        name: Some("webserver".to_string()),
        image_id: "abc123".to_string(),
        jail_name: "kawakaze-container-1".to_string(),
        state: "running".to_string(),
        ip: Some("10.11.0.2".to_string()),
        restart_policy: "on-restart".to_string(),
        created_at: 1640000000,
        started_at: Some(1640000100),
    };

    assert_eq!(info.id, "container-1");
    assert_eq!(info.state, "running");
    assert_eq!(info.ip, Some("10.11.0.2".to_string()));
    assert!(info.started_at.is_some());
}
