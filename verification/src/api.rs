//! The request and response types of the socket protocol, and how endpoint
//! paths are written and read.

use crate::bootstrap::{BootstrapConfig, BootstrapProgress};
use crate::jail::{check_jail_name, name_problem, opt_view, JailError, JailState};
use crate::strmap::StringMap;
use crate::text::{
    chars_of, concat2, concat3, contains, has_infix, is_text, split, split_at_char, string_of, views,
};
use vstd::prelude::*;

pub mod status;

verus! {

/// The method of a request.
#[derive(Debug, Clone, Copy, PartialEq, Eq, Structural)]
pub enum Method {
    Post,
    Get,
    Delete,
}

/// Status code of a response.
pub type StatusCode = u16;

/// An endpoint of the API.
#[derive(Debug, Clone, PartialEq, Eq)]
pub enum Endpoint {
    Jails,
    Jail(String),
    StartJail(String),
    StopJail(String),
    BootstrapJail(String),
    BootstrapStatus(String),
    Images,
    Image(String),
    ImageBuild,
    DeleteImage(String),
    ImageHistory(String),
    Containers,
    Container(String),
    ContainerCreate,
    StartContainer(String),
    StopContainer(String),
    RemoveContainer(String),
    ContainerLogs(String),
    ContainerExec(String),
}

/// An endpoint as a mathematical value.
pub enum EndpointView {
    Jails,
    Jail(Seq<char>),
    StartJail(Seq<char>),
    StopJail(Seq<char>),
    BootstrapJail(Seq<char>),
    BootstrapStatus(Seq<char>),
    Images,
    Image(Seq<char>),
    ImageBuild,
    DeleteImage(Seq<char>),
    ImageHistory(Seq<char>),
    Containers,
    Container(Seq<char>),
    ContainerCreate,
    StartContainer(Seq<char>),
    StopContainer(Seq<char>),
    RemoveContainer(Seq<char>),
    ContainerLogs(Seq<char>),
    ContainerExec(Seq<char>),
}

impl EndpointView {
    /// The endpoint's path, without a leading slash.
    pub open spec fn path(self) -> Seq<char> {
        match self {
            EndpointView::Jails => "jails"@,
            EndpointView::Jail(n) => "jails/"@ + n,
            EndpointView::StartJail(n) => "jails/"@ + n + "/start"@,
            EndpointView::StopJail(n) => "jails/"@ + n + "/stop"@,
            EndpointView::BootstrapJail(n) => "jails/"@ + n + "/bootstrap"@,
            EndpointView::BootstrapStatus(n) => "jails/"@ + n + "/bootstrap/status"@,
            EndpointView::Images => "images"@,
            EndpointView::Image(i) => "images/"@ + i,
            EndpointView::ImageBuild => "images/build"@,
            EndpointView::DeleteImage(i) => "images/"@ + i,
            EndpointView::ImageHistory(i) => "images/"@ + i + "/history"@,
            EndpointView::Containers => "containers"@,
            EndpointView::Container(i) => "containers/"@ + i,
            EndpointView::ContainerCreate => "containers/create"@,
            EndpointView::StartContainer(i) => "containers/"@ + i + "/start"@,
            EndpointView::StopContainer(i) => "containers/"@ + i + "/stop"@,
            EndpointView::RemoveContainer(i) => "containers/"@ + i,
            EndpointView::ContainerLogs(i) => "containers/"@ + i + "/logs"@,
            EndpointView::ContainerExec(i) => "containers/"@ + i + "/exec"@,
        }
    }
}

impl View for Endpoint {
    type V = EndpointView;

    open spec fn view(&self) -> EndpointView {
        match self {
            Endpoint::Jails => EndpointView::Jails,
            Endpoint::Jail(n) => EndpointView::Jail(n@),
            Endpoint::StartJail(n) => EndpointView::StartJail(n@),
            Endpoint::StopJail(n) => EndpointView::StopJail(n@),
            Endpoint::BootstrapJail(n) => EndpointView::BootstrapJail(n@),
            Endpoint::BootstrapStatus(n) => EndpointView::BootstrapStatus(n@),
            Endpoint::Images => EndpointView::Images,
            Endpoint::Image(i) => EndpointView::Image(i@),
            Endpoint::ImageBuild => EndpointView::ImageBuild,
            Endpoint::DeleteImage(i) => EndpointView::DeleteImage(i@),
            Endpoint::ImageHistory(i) => EndpointView::ImageHistory(i@),
            Endpoint::Containers => EndpointView::Containers,
            Endpoint::Container(i) => EndpointView::Container(i@),
            Endpoint::ContainerCreate => EndpointView::ContainerCreate,
            Endpoint::StartContainer(i) => EndpointView::StartContainer(i@),
            Endpoint::StopContainer(i) => EndpointView::StopContainer(i@),
            Endpoint::RemoveContainer(i) => EndpointView::RemoveContainer(i@),
            Endpoint::ContainerLogs(i) => EndpointView::ContainerLogs(i@),
            Endpoint::ContainerExec(i) => EndpointView::ContainerExec(i@),
        }
    }
}

impl Endpoint {
    /// The endpoint's path, without a leading slash.
    pub fn path(&self) -> (r: String)
        ensures
            r@ == self@.path(),
    {
        match self {
            Endpoint::Jails => "jails".to_owned(),
            Endpoint::Jail(n) => concat2("jails/", n.as_str()),
            Endpoint::StartJail(n) => concat3("jails/", n.as_str(), "/start"),
            Endpoint::StopJail(n) => concat3("jails/", n.as_str(), "/stop"),
            Endpoint::BootstrapJail(n) => concat3("jails/", n.as_str(), "/bootstrap"),
            Endpoint::BootstrapStatus(n) => concat3("jails/", n.as_str(), "/bootstrap/status"),
            Endpoint::Images => "images".to_owned(),
            Endpoint::Image(i) => concat2("images/", i.as_str()),
            Endpoint::ImageBuild => "images/build".to_owned(),
            Endpoint::DeleteImage(i) => concat2("images/", i.as_str()),
            Endpoint::ImageHistory(i) => concat3("images/", i.as_str(), "/history"),
            Endpoint::Containers => "containers".to_owned(),
            Endpoint::Container(i) => concat2("containers/", i.as_str()),
            Endpoint::ContainerCreate => "containers/create".to_owned(),
            Endpoint::StartContainer(i) => concat3("containers/", i.as_str(), "/start"),
            Endpoint::StopContainer(i) => concat3("containers/", i.as_str(), "/stop"),
            Endpoint::RemoveContainer(i) => concat2("containers/", i.as_str()),
            Endpoint::ContainerLogs(i) => concat3("containers/", i.as_str(), "/logs"),
            Endpoint::ContainerExec(i) => concat3("containers/", i.as_str(), "/exec"),
        }
    }
}

/// The endpoint that a path names for a method, if it names one. A path of
/// two parts whose second part is a name is an endpoint for `Get` and
/// `Delete` only.
pub open spec fn endpoint_of(method: Method, path: Seq<char>) -> Option<EndpointView> {
    let p = split(path, '/');
    let reads = method == Method::Get || method == Method::Delete;
    if p.len() == 1 {
        if p[0] == "jails"@ {
            Some(EndpointView::Jails)
        } else if p[0] == "images"@ {
            Some(EndpointView::Images)
        } else if p[0] == "containers"@ {
            Some(EndpointView::Containers)
        } else {
            None
        }
    } else if p.len() == 2 {
        if p[0] == "jails"@ {
            if reads {
                Some(EndpointView::Jail(p[1]))
            } else {
                None
            }
        } else if p[0] == "images"@ {
            if p[1] == "build"@ {
                Some(EndpointView::ImageBuild)
            } else if reads {
                Some(EndpointView::Image(p[1]))
            } else {
                None
            }
        } else if p[0] == "containers"@ {
            if p[1] == "create"@ {
                Some(EndpointView::ContainerCreate)
            } else if reads {
                Some(EndpointView::Container(p[1]))
            } else {
                None
            }
        } else {
            None
        }
    } else if p.len() == 3 {
        if p[0] == "jails"@ {
            if p[2] == "start"@ {
                Some(EndpointView::StartJail(p[1]))
            } else if p[2] == "stop"@ {
                Some(EndpointView::StopJail(p[1]))
            } else if p[2] == "bootstrap"@ {
                Some(EndpointView::BootstrapJail(p[1]))
            } else {
                None
            }
        } else if p[0] == "images"@ {
            if p[2] == "history"@ {
                Some(EndpointView::ImageHistory(p[1]))
            } else {
                None
            }
        } else if p[0] == "containers"@ {
            if p[2] == "start"@ {
                Some(EndpointView::StartContainer(p[1]))
            } else if p[2] == "stop"@ {
                Some(EndpointView::StopContainer(p[1]))
            } else if p[2] == "logs"@ {
                Some(EndpointView::ContainerLogs(p[1]))
            } else if p[2] == "exec"@ {
                Some(EndpointView::ContainerExec(p[1]))
            } else {
                None
            }
        } else {
            None
        }
    } else if p.len() == 4 {
        if p[0] == "jails"@ && p[2] == "bootstrap"@ && p[3] == "status"@ {
            Some(EndpointView::BootstrapStatus(p[1]))
        } else {
            None
        }
    } else {
        None
    }
}

/// An error as the API reports it.
#[derive(Debug, Clone, PartialEq, Eq)]
pub struct ApiError {
    /// Upper-case code, such as `NOT_FOUND`.
    pub code: String,
    pub message: String,
}

impl ApiError {
    /// An error with the given code and message.
    pub fn new(code: &str, message: String) -> (r: ApiError)
        ensures
            r.code@ == code@,
            r.message@ == message@,
    {
        ApiError { code: code.to_owned(), message }
    }

    /// A malformed request (400).
    #[allow(non_snake_case)]
    pub fn BadRequest(message: String) -> (r: ApiError)
        ensures
            r.code@ == "BAD_REQUEST"@,
            r.message@ == message@,
    {
        ApiError::new("BAD_REQUEST", message)
    }

    /// A missing resource (404).
    #[allow(non_snake_case)]
    pub fn NotFound(resource: String) -> (r: ApiError)
        ensures
            r.code@ == "NOT_FOUND"@,
            r.message@ == "Resource not found: "@ + resource@,
    {
        ApiError::new("NOT_FOUND", concat2("Resource not found: ", resource.as_str()))
    }

    /// A request that clashes with what exists (409).
    #[allow(non_snake_case)]
    pub fn Conflict(message: String) -> (r: ApiError)
        ensures
            r.code@ == "CONFLICT"@,
            r.message@ == message@,
    {
        ApiError::new("CONFLICT", message)
    }

    /// A failure on the server's side (500).
    #[allow(non_snake_case)]
    pub fn Internal(message: String) -> (r: ApiError)
        ensures
            r.code@ == "INTERNAL_ERROR"@,
            r.message@ == message@,
    {
        ApiError::new("INTERNAL_ERROR", message)
    }

    /// A jail whose name is taken (409).
    #[allow(non_snake_case)]
    pub fn JailAlreadyExists(name: String) -> (r: ApiError)
        ensures
            r.code@ == "CONFLICT"@,
            r.message@ == "Jail '"@ + name@ + "' already exists"@,
    {
        ApiError::Conflict(concat3("Jail '", name.as_str(), "' already exists"))
    }

    /// A jail that does not exist (404).
    #[allow(non_snake_case)]
    pub fn JailNotFound(name: String) -> (r: ApiError)
        ensures
            r.code@ == "NOT_FOUND"@,
            r.message@ == "Resource not found: "@ + ("Jail '"@ + name@ + "'"@),
    {
        ApiError::NotFound(concat3("Jail '", name.as_str(), "'"))
    }

    /// The error as one line: the code in brackets, then the message.
    pub fn to_string(&self) -> (r: String)
        ensures
            r@ == "["@ + self.code@ + "] "@ + self.message@,
    {
        let mut out = concat3("[", self.code.as_str(), "] ");
        out.append(self.message.as_str());
        out
    }

    /// The API error for a jail error. A message that says "already exists"
    /// or "not found" becomes a conflict or a missing resource; the name is
    /// what the message holds between its first two single quotes.
    pub fn from_jail_error(err: JailError) -> (r: ApiError)
        ensures
            r.code@ == jail_error_code(err),
            r.message@ == jail_error_message(err),
    {
        match err {
            JailError::CreationFailed(m) => {
                if mentions(&m, "already exists") {
                    ApiError::JailAlreadyExists(quoted_name(&m))
                } else {
                    ApiError::BadRequest(m)
                }
            },
            JailError::StartFailed(m) => {
                if mentions(&m, "not found") {
                    ApiError::JailNotFound(quoted_name(&m))
                } else {
                    ApiError::new("START_FAILED", m)
                }
            },
            JailError::StopFailed(m) => {
                if mentions(&m, "not found") {
                    ApiError::JailNotFound(quoted_name(&m))
                } else {
                    ApiError::new("STOP_FAILED", m)
                }
            },
            JailError::DestroyFailed(m) => {
                if mentions(&m, "not found") {
                    ApiError::JailNotFound(quoted_name(&m))
                } else {
                    ApiError::new("DESTROY_FAILED", m)
                }
            },
            JailError::InvalidState(m) => ApiError::BadRequest(m),
            JailError::InvalidPath(m) => ApiError::BadRequest(m),
        }
    }
}

/// What a message holds between its first two single quotes; `unknown` for a
/// message without a single quote.
pub open spec fn quoted_in(message: Seq<char>) -> Seq<char> {
    let p = split(message, '\'');
    if p.len() > 1 {
        p[1]
    } else {
        "unknown"@
    }
}

/// The code under which a jail error is reported.
pub open spec fn jail_error_code(err: JailError) -> Seq<char> {
    match err {
        JailError::CreationFailed(m) => if has_infix(m@, "already exists"@) {
            "CONFLICT"@
        } else {
            "BAD_REQUEST"@
        },
        JailError::StartFailed(m) => if has_infix(m@, "not found"@) {
            "NOT_FOUND"@
        } else {
            "START_FAILED"@
        },
        JailError::StopFailed(m) => if has_infix(m@, "not found"@) {
            "NOT_FOUND"@
        } else {
            "STOP_FAILED"@
        },
        JailError::DestroyFailed(m) => if has_infix(m@, "not found"@) {
            "NOT_FOUND"@
        } else {
            "DESTROY_FAILED"@
        },
        JailError::InvalidState(_) => "BAD_REQUEST"@,
        JailError::InvalidPath(_) => "BAD_REQUEST"@,
    }
}

/// The message under which a jail error is reported.
pub open spec fn jail_error_message(err: JailError) -> Seq<char> {
    let missing = |m: Seq<char>| "Resource not found: "@ + ("Jail '"@ + quoted_in(m) + "'"@);
    match err {
        JailError::CreationFailed(m) => if has_infix(m@, "already exists"@) {
            "Jail '"@ + quoted_in(m@) + "' already exists"@
        } else {
            m@
        },
        JailError::StartFailed(m) => if has_infix(m@, "not found"@) {
            missing(m@)
        } else {
            m@
        },
        JailError::StopFailed(m) => if has_infix(m@, "not found"@) {
            missing(m@)
        } else {
            m@
        },
        JailError::DestroyFailed(m) => if has_infix(m@, "not found"@) {
            missing(m@)
        } else {
            m@
        },
        JailError::InvalidState(m) => m@,
        JailError::InvalidPath(m) => m@,
    }
}

fn mentions(message: &String, what: &str) -> (r: bool)
    ensures
        r == has_infix(message@, what@),
{
    contains(&chars_of(message.as_str()), &chars_of(what))
}

fn quoted_name(message: &String) -> (r: String)
    ensures
        r@ == quoted_in(message@),
{
    let parts = split_at_char(&chars_of(message.as_str()), '\'');
    if parts.len() > 1 {
        assert(views(parts@)[1] == parts@[1]@);
        string_of(&parts[1])
    } else {
        "unknown".to_owned()
    }
}

impl From<JailError> for ApiError {
    /// The API error for a jail error, as `from_jail_error` gives it.
    fn from(err: JailError) -> (r: ApiError)
        ensures
            r.code@ == jail_error_code(err),
            r.message@ == jail_error_message(err),
    {
        ApiError::from_jail_error(err)
    }
}

impl vstd::std_specs::convert::FromSpecImpl<JailError> for ApiError {
    open spec fn obeys_from_spec() -> bool {
        false
    }

    open spec fn from_spec(v: JailError) -> ApiError {
        arbitrary()
    }
}

/// The body of a request to create a jail.
#[derive(Debug, PartialEq)]
pub struct CreateJailRequest {
    pub name: String,
    pub path: Option<String>,
    pub ip: Option<String>,
    pub bootstrap: Option<BootstrapConfig>,
}

impl CreateJailRequest {
    /// Checks the name: not empty, and made of ASCII letters, digits, `_`
    /// and `-`.
    pub fn validate(&self) -> (r: Result<(), ApiError>)
        ensures
            match r {
                Ok(()) => name_problem(self.name@) is None,
                Err(e) => e.code@ == "BAD_REQUEST"@ && name_problem(self.name@) == Some(e.message@),
            },
    {
        match check_jail_name(self.name.as_str()) {
            Ok(()) => Ok(()),
            Err(m) => Err(ApiError::BadRequest(m)),
        }
    }
}

/// A jail as the API shows it.
#[derive(Debug, Clone, PartialEq, Eq)]
pub struct JailInfo {
    pub name: String,
    /// The JID, -1 if the jail is not running.
    pub jid: i32,
    pub state: String,
    pub path: Option<String>,
}

/// The name of a jail state.
pub fn state_to_string(state: JailState) -> (r: String)
    ensures
        r@ == state.name(),
{
    state.as_str().to_owned()
}

impl JailInfo {
    /// The API's form of a jail's information.
    pub fn from_info(info: crate::jail::JailInfo) -> (r: JailInfo)
        ensures
            r.name@ == info.name@,
            r.jid == info.jid,
            r.state@ == info.state.name(),
            opt_view(r.path) == opt_view(info.path),
    {
        JailInfo {
            name: info.name,
            jid: info.jid,
            state: state_to_string(info.state),
            path: info.path,
        }
    }
}

impl From<crate::jail::JailInfo> for JailInfo {
    /// The jail as the API shows it, as `from_info` gives it.
    fn from(info: crate::jail::JailInfo) -> (r: JailInfo)
        ensures
            r.name@ == info.name@,
            r.jid == info.jid,
            r.state@ == info.state.name(),
            opt_view(r.path) == opt_view(info.path),
    {
        JailInfo::from_info(info)
    }
}

impl vstd::std_specs::convert::FromSpecImpl<crate::jail::JailInfo> for JailInfo {
    open spec fn obeys_from_spec() -> bool {
        false
    }

    open spec fn from_spec(v: crate::jail::JailInfo) -> JailInfo {
        arbitrary()
    }
}

/// One jail in the list of jails.
#[derive(Debug, Clone, PartialEq, Eq)]
pub struct JailListItem {
    pub name: String,
    pub state: String,
    pub running: bool,
}

impl JailListItem {
    /// The list entry for a jail of this name and state.
    pub fn of(name: String, state: JailState) -> (r: JailListItem)
        ensures
            r.name@ == name@,
            r.state@ == state.name(),
            r.running == (state == JailState::Running),
    {
        let running = match state {
            JailState::Running => true,
            _ => false,
        };
        JailListItem { name, state: state_to_string(state), running }
    }
}

impl From<(String, JailState)> for JailListItem {
    /// The list entry for a jail of this name and state, as `of` gives it.
    fn from(pair: (String, JailState)) -> (r: JailListItem)
        ensures
            r.name@ == pair.0@,
            r.state@ == pair.1.name(),
            r.running == (pair.1 == JailState::Running),
    {
        JailListItem::of(pair.0, pair.1)
    }
}

impl vstd::std_specs::convert::FromSpecImpl<(String, JailState)> for JailListItem {
    open spec fn obeys_from_spec() -> bool {
        false
    }

    open spec fn from_spec(v: (String, JailState)) -> JailListItem {
        arbitrary()
    }
}

/// A port mapping as the API writes it.
#[derive(Debug, Clone, PartialEq, Eq)]
pub struct PortMapping {
    pub host_port: u16,
    pub container_port: u16,
    /// `tcp` or `udp`.
    pub protocol: String,
}

/// A mount as the API writes it.
#[derive(Debug, Clone, PartialEq, Eq)]
pub struct Mount {
    pub source: String,
    pub destination: String,
    /// `zfs` or `nullfs`.
    pub mount_type: String,
}

/// The body of a request to build an image.
#[derive(Debug, PartialEq)]
pub struct BuildImageRequest {
    pub name: String,
    pub dockerfile: String,
    pub build_args: StringMap,
}

/// The body of a request to create a container.
#[derive(Debug, PartialEq)]
pub struct CreateContainerRequest {
    pub image_id: String,
    pub name: Option<String>,
    pub ports: Vec<PortMapping>,
    pub volumes: Vec<Mount>,
    pub env: StringMap,
    pub restart_policy: String,
    pub command: Option<Vec<String>>,
}

/// The body of a request to run a command in a container.
#[derive(Debug, PartialEq)]
pub struct ExecRequest {
    pub command: Vec<String>,
    pub env: StringMap,
    pub workdir: Option<String>,
}

/// An image as the API shows it.
#[derive(Debug, PartialEq, Eq)]
pub struct ImageInfo {
    pub id: String,
    pub name: String,
    pub parent_id: Option<String>,
    pub size_bytes: u64,
    pub state: String,
    pub created_at: i64,
}

/// One image in the list of images.
#[derive(Debug, PartialEq, Eq)]
pub struct ImageListItem {
    pub id: String,
    pub name: String,
    pub size_bytes: u64,
    pub created_at: i64,
}

/// One layer in the history of an image.
#[derive(Debug, PartialEq, Eq)]
pub struct ImageHistoryItem {
    pub id: String,
    pub created_at: i64,
    pub size_bytes: u64,
    pub created_by: String,
}

/// A container as the API shows it.
#[derive(Debug, PartialEq, Eq)]
pub struct ContainerInfo {
    pub id: String,
    pub name: Option<String>,
    pub image_id: String,
    pub jail_name: String,
    pub state: String,
    pub ip: Option<String>,
    pub restart_policy: String,
    pub created_at: i64,
    pub started_at: Option<i64>,
}

/// One container in the list of containers.
#[derive(Debug, PartialEq, Eq)]
pub struct ContainerListItem {
    pub id: String,
    pub name: Option<String>,
    pub image_id: String,
    pub state: String,
    pub ip: Option<String>,
}

/// One line of a container's log.
#[derive(Debug, PartialEq, Eq)]
pub struct ContainerLogEntry {
    pub timestamp: i64,
    pub level: String,
    pub message: String,
}

/// What a command run in a container left behind.
#[derive(Debug, PartialEq, Eq)]
pub struct ExecResult {
    pub exit_code: i32,
    pub stdout: String,
    pub stderr: String,
}

/// The body of a request, already decoded for the endpoint it goes to.
#[derive(Debug, PartialEq)]
pub enum RequestBody {
    /// No body, or one that the endpoint does not read.
    Empty,
    CreateJail(CreateJailRequest),
    Bootstrap(BootstrapConfig),
    BuildImage(BuildImageRequest),
    CreateContainer(CreateContainerRequest),
    Exec(ExecRequest),
    /// A body that could not be decoded; the text says why.
    Invalid(String),
}

/// A request: a method, a path and a body.
#[derive(Debug, PartialEq)]
pub struct Request {
    pub method: Method,
    pub endpoint: String,
    pub body: RequestBody,
}

impl Request {
    /// A request to `endpoint`.
    pub fn new(method: Method, endpoint: Endpoint, body: RequestBody) -> (r: Request)
        ensures
            r.method == method,
            r.endpoint@ == endpoint@.path(),
            r.body == body,
    {
        Request { method, endpoint: endpoint.path(), body }
    }

    /// A `Get` request without a body.
    pub fn get(endpoint: Endpoint) -> (r: Request)
        ensures
            r.method == Method::Get,
            r.endpoint@ == endpoint@.path(),
            r.body is Empty,
    {
        Request::new(Method::Get, endpoint, RequestBody::Empty)
    }

    /// A `Post` request with a body.
    pub fn post(endpoint: Endpoint, body: RequestBody) -> (r: Request)
        ensures
            r.method == Method::Post,
            r.endpoint@ == endpoint@.path(),
            r.body == body,
    {
        Request::new(Method::Post, endpoint, body)
    }

    /// A `Delete` request without a body.
    pub fn delete(endpoint: Endpoint) -> (r: Request)
        ensures
            r.method == Method::Delete,
            r.endpoint@ == endpoint@.path(),
            r.body is Empty,
    {
        Request::new(Method::Delete, endpoint, RequestBody::Empty)
    }

    /// Reads the request's path. A path that names no endpoint for the
    /// request's method is a bad request.
    pub fn parse_endpoint(&self) -> (r: Result<Endpoint, ApiError>)
        ensures
            match endpoint_of(self.method, self.endpoint@) {
                Some(e) => r matches Ok(x) && x@ == e,
                None => r matches Err(e) && e.code@ == "BAD_REQUEST"@ && e.message@
                    == "Unknown endpoint: "@ + self.endpoint@,
            },
    {
        let p = split_at_char(&chars_of(self.endpoint.as_str()), '/');
        let reads = match self.method {
            Method::Get => true,
            Method::Delete => true,
            Method::Post => false,
        };
        let ghost sp = split(self.endpoint@, '/');
        assert(forall|i: int| 0 <= i < p.len() ==> sp[i] == (#[trigger] p@[i])@);
        let mut found: Option<Endpoint> = None;
        if p.len() == 1 {
            if is_text(&p[0], "jails") {
                found = Some(Endpoint::Jails);
            } else if is_text(&p[0], "images") {
                found = Some(Endpoint::Images);
            } else if is_text(&p[0], "containers") {
                found = Some(Endpoint::Containers);
            }
        } else if p.len() == 2 {
            if is_text(&p[0], "jails") {
                if reads {
                    found = Some(Endpoint::Jail(string_of(&p[1])));
                }
            } else if is_text(&p[0], "images") {
                if is_text(&p[1], "build") {
                    found = Some(Endpoint::ImageBuild);
                } else if reads {
                    found = Some(Endpoint::Image(string_of(&p[1])));
                }
            } else if is_text(&p[0], "containers") {
                if is_text(&p[1], "create") {
                    found = Some(Endpoint::ContainerCreate);
                } else if reads {
                    found = Some(Endpoint::Container(string_of(&p[1])));
                }
            }
        } else if p.len() == 3 {
            if is_text(&p[0], "jails") {
                if is_text(&p[2], "start") {
                    found = Some(Endpoint::StartJail(string_of(&p[1])));
                } else if is_text(&p[2], "stop") {
                    found = Some(Endpoint::StopJail(string_of(&p[1])));
                } else if is_text(&p[2], "bootstrap") {
                    found = Some(Endpoint::BootstrapJail(string_of(&p[1])));
                }
            } else if is_text(&p[0], "images") {
                if is_text(&p[2], "history") {
                    found = Some(Endpoint::ImageHistory(string_of(&p[1])));
                }
            } else if is_text(&p[0], "containers") {
                if is_text(&p[2], "start") {
                    found = Some(Endpoint::StartContainer(string_of(&p[1])));
                } else if is_text(&p[2], "stop") {
                    found = Some(Endpoint::StopContainer(string_of(&p[1])));
                } else if is_text(&p[2], "logs") {
                    found = Some(Endpoint::ContainerLogs(string_of(&p[1])));
                } else if is_text(&p[2], "exec") {
                    found = Some(Endpoint::ContainerExec(string_of(&p[1])));
                }
            }
        } else if p.len() == 4 {
            if is_text(&p[0], "jails") && is_text(&p[2], "bootstrap") && is_text(&p[3], "status") {
                found = Some(Endpoint::BootstrapStatus(string_of(&p[1])));
            }
        }
        match found {
            Some(e) => Ok(e),
            None => Err(
                ApiError::BadRequest(concat2("Unknown endpoint: ", self.endpoint.as_str())),
            ),
        }
    }
}

/// What a successful response carries.
#[derive(Debug, PartialEq, Eq)]
pub enum Payload {
    /// A plain message.
    Message(String),
    Jail(JailInfo),
    JailList(Vec<JailListItem>),
    Bootstrap(BootstrapProgress),
    Image(ImageInfo),
    ImageList(Vec<ImageListItem>),
    ImageHistory(Vec<ImageHistoryItem>),
    Container(ContainerInfo),
    ContainerList(Vec<ContainerListItem>),
    Logs(Vec<ContainerLogEntry>),
    Exec(ExecResult),
}

/// A response: a status, and data or an error.
#[derive(Debug, PartialEq, Eq)]
pub struct Response {
    pub status: StatusCode,
    pub data: Option<Payload>,
    pub error: Option<ApiError>,
}

impl Response {
    /// A response that carries data.
    pub fn ok(status: StatusCode, data: Payload) -> (r: Response)
        ensures
            r.status == status,
            r.data == Some(data),
            r.error is None,
    {
        Response { status, data: Some(data), error: None }
    }

    /// A 200 response that carries data.
    pub fn success(data: Payload) -> (r: Response)
        ensures
            r.status == 200,
            r.data == Some(data),
            r.error is None,
    {
        Response::ok(status::OK, data)
    }

    /// A 201 response that carries data.
    pub fn created(data: Payload) -> (r: Response)
        ensures
            r.status == 201,
            r.data == Some(data),
            r.error is None,
    {
        Response::ok(status::CREATED, data)
    }

    /// A response that carries an error.
    pub fn error(status: StatusCode, error: ApiError) -> (r: Response)
        ensures
            r.status == status,
            r.data is None,
            r.error == Some(error),
    {
        Response { status, data: None, error: Some(error) }
    }

    /// A 400 response.
    pub fn bad_request(message: String) -> (r: Response)
        ensures
            r.status == 400,
            r.data is None,
            r.error matches Some(e) && e.code@ == "BAD_REQUEST"@ && e.message@ == message@,
    {
        Response::error(status::BAD_REQUEST, ApiError::BadRequest(message))
    }

    /// A 404 response for a resource.
    pub fn not_found(resource: String) -> (r: Response)
        ensures
            r.status == 404,
            r.data is None,
            r.error matches Some(e) && e.code@ == "NOT_FOUND"@ && e.message@
                == "Resource not found: "@ + resource@,
    {
        Response::error(status::NOT_FOUND, ApiError::NotFound(resource))
    }

    /// A 409 response.
    pub fn conflict(message: String) -> (r: Response)
        ensures
            r.status == 409,
            r.data is None,
            r.error matches Some(e) && e.code@ == "CONFLICT"@ && e.message@ == message@,
    {
        Response::error(status::CONFLICT, ApiError::Conflict(message))
    }

    /// A 500 response.
    pub fn internal_error(message: String) -> (r: Response)
        ensures
            r.status == 500,
            r.data is None,
            r.error matches Some(e) && e.code@ == "INTERNAL_ERROR"@ && e.message@ == message@,
    {
        Response::error(status::INTERNAL_SERVER_ERROR, ApiError::Internal(message))
    }

    /// Whether the status is one of success, 200 to 299.
    pub fn is_success(&self) -> (r: bool)
        ensures
            r == (200 <= self.status < 300),
    {
        self.status >= 200 && self.status < 300
    }
}

} // verus!
