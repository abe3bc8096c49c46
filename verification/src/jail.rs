//! Jails: their configuration, their life cycle and the kernel requests that
//! start and stop them.
//!
//! A jail moves between three states. The kernel work itself is done by the
//! caller: `start` and `stop` decide whether the step is allowed and say what
//! to ask of the kernel, `complete_start` and `complete_stop` record how it
//! went.

use crate::command::{no_args, push_arg, push_owned, CommandOutput, HostCommand};
use crate::store::JailRow;
use crate::text::{chars_of, concat2, concat3, str_eq, str_views};
use vstd::prelude::*;

verus! {

/// The state of a jail.
#[derive(Debug, Clone, Copy, PartialEq, Eq, Structural)]
pub enum JailState {
    Created,
    Running,
    Stopped,
}

/// Why a jail operation failed.
#[derive(Debug, PartialEq, Eq)]
pub enum JailError {
    CreationFailed(String),
    StartFailed(String),
    StopFailed(String),
    DestroyFailed(String),
    InvalidState(String),
    InvalidPath(String),
}

/// What the process may do on this host.
#[derive(Debug, Clone, Copy, PartialEq, Eq, Structural)]
pub struct Host {
    /// Whether the process runs as root.
    pub is_root: bool,
    /// Whether the host is FreeBSD, the only system with jails.
    pub is_freebsd: bool,
}

/// The JID of a jail that is not running.
pub const NO_JID: i32 = -1;

/// A jail as a mathematical value.
pub struct JailView {
    pub name: Seq<char>,
    pub jid: int,
    pub state: JailState,
    pub path: Option<Seq<char>>,
    pub ip: Option<Seq<char>>,
    pub vnet_interface: Option<Seq<char>>,
}

impl JailView {
    /// A running jail has a JID of at least one; any other jail has JID -1.
    pub open spec fn wf(self) -> bool {
        &&& (self.state == JailState::Running <==> self.jid >= 1)
        &&& (self.state != JailState::Running ==> self.jid == -1)
    }

    /// A jail that was just configured.
    pub open spec fn fresh(name: Seq<char>) -> JailView {
        JailView {
            name,
            jid: -1,
            state: JailState::Created,
            path: None,
            ip: None,
            vnet_interface: None,
        }
    }

    /// The jail after the kernel created it under `jid`.
    pub open spec fn started(self, jid: int) -> JailView {
        JailView { jid, state: JailState::Running, ..self }
    }

    /// The jail after the kernel removed it.
    pub open spec fn stopped(self) -> JailView {
        JailView { jid: -1, state: JailState::Stopped, ..self }
    }

    /// The jail that a row of the database stands for: a row that says
    /// running with a JID of at least one is a running jail; one that says
    /// running without such a JID is a stopped jail; any other keeps its
    /// state and has no JID.
    pub open spec fn stored(
        name: Seq<char>,
        path: Option<Seq<char>>,
        ip: Option<Seq<char>>,
        state: JailState,
        jid: int,
    ) -> JailView {
        let running = state == JailState::Running && jid >= 1;
        JailView {
            name,
            jid: if running {
                jid
            } else {
                -1
            },
            state: if state == JailState::Running && !running {
                JailState::Stopped
            } else {
                state
            },
            path,
            ip,
            vnet_interface: None,
        }
    }

    /// The jail after its state was corrected by what the kernel reports:
    /// `live` is the JID under which the kernel knows the name, if it does.
    pub open spec fn reconciled(self, live: Option<int>) -> JailView {
        if live is Some && live->0 >= 1 {
            JailView { jid: live->0, state: JailState::Running, ..self }
        } else {
            JailView {
                jid: -1,
                state: if self.state == JailState::Running {
                    JailState::Stopped
                } else {
                    self.state
                },
                ..self
            }
        }
    }

    /// The root directory: the configured path, or `/tmp/<name>`.
    pub open spec fn root(self) -> Seq<char> {
        match self.path {
            Some(p) => p,
            None => "/tmp/"@ + self.name,
        }
    }
}

/// Characters allowed in a jail name: ASCII letters, digits, `_` and `-`.
pub open spec fn is_name_char(c: char) -> bool {
    ('a' <= c <= 'z') || ('A' <= c <= 'Z') || ('0' <= c <= '9') || c == '_' || c == '-'
}

/// A jail name is not empty and holds allowed characters only.
pub open spec fn valid_jail_name(s: Seq<char>) -> bool {
    s.len() > 0 && forall|i: int| 0 <= i < s.len() ==> is_name_char(#[trigger] s[i])
}

/// The message for a name with a character that is not allowed.
pub open spec fn invalid_name_message(name: Seq<char>) -> Seq<char> {
    "Invalid jail name '"@ + name
        + "': only alphanumeric, underscore, and hyphen characters allowed"@
}

/// Why `name` is not accepted as a jail name, if it is not.
pub open spec fn name_problem(name: Seq<char>) -> Option<Seq<char>> {
    if name.len() == 0 {
        Some("Jail name cannot be empty"@)
    } else if !valid_jail_name(name) {
        Some(invalid_name_message(name))
    } else {
        None
    }
}

/// Why a jail may not start on this host now, if it may not.
pub open spec fn start_refusal(j: JailView, host: Host) -> Option<Seq<char>> {
    if j.state == JailState::Running {
        Some("Jail '"@ + j.name + "' is already running"@)
    } else if !host.is_root {
        Some("Jail creation requires root privileges"@)
    } else if !host.is_freebsd {
        Some("Jail creation is only supported on FreeBSD"@)
    } else {
        None
    }
}

/// Why a jail may not stop on this host now, if it may not.
pub open spec fn stop_refusal(j: JailView, host: Host) -> Option<Seq<char>> {
    if j.state != JailState::Running {
        Some("Jail '"@ + j.name + "' is not running"@)
    } else if !host.is_root {
        Some("Jail removal requires root privileges"@)
    } else if !host.is_freebsd {
        Some("Jail removal is only supported on FreeBSD"@)
    } else {
        None
    }
}

/// Checks a jail name; the error is the message to report.
pub fn check_jail_name(name: &str) -> (r: Result<(), String>)
    ensures
        match r {
            Ok(()) => name_problem(name@) is None,
            Err(m) => name_problem(name@) == Some(m@),
        },
{
    let v = chars_of(name);
    if v.len() == 0 {
        return Err("Jail name cannot be empty".to_owned());
    }
    let mut i: usize = 0;
    while i < v.len()
        invariant
            i <= v.len(),
            v@ == name@,
            forall|j: int| 0 <= j < i ==> is_name_char(#[trigger] v@[j]),
        decreases v.len() - i,
    {
        let c = v[i];
        let ok = ('a' <= c && c <= 'z') || ('A' <= c && c <= 'Z') || ('0' <= c && c <= '9') || c
            == '_' || c == '-';
        if !ok {
            assert(!is_name_char(name@[i as int]));
            return Err(
                concat3(
                    "Invalid jail name '",
                    name,
                    "': only alphanumeric, underscore, and hyphen characters allowed",
                ),
            );
        }
        i += 1;
    }
    Ok(())
}

/// A string option as a value.
pub open spec fn opt_view(o: Option<String>) -> Option<Seq<char>> {
    match o {
        Some(s) => Some(s@),
        None => None,
    }
}

/// A copy of an optional string.
pub fn clone_opt(o: &Option<String>) -> (r: Option<String>)
    ensures
        opt_view(r) == opt_view(*o),
{
    match o {
        Some(s) => Some(s.clone()),
        None => None,
    }
}

/// A jail and its configuration.
#[derive(Debug)]
pub struct Jail {
    name: String,
    jid: i32,
    state: JailState,
    path: Option<String>,
    ip: Option<String>,
    vnet_interface: Option<String>,
}

impl View for Jail {
    type V = JailView;

    closed spec fn view(&self) -> JailView {
        JailView {
            name: self.name@,
            jid: self.jid as int,
            state: self.state,
            path: opt_view(self.path),
            ip: opt_view(self.ip),
            vnet_interface: opt_view(self.vnet_interface),
        }
    }
}

/// Jail information for callers.
#[derive(Debug, PartialEq, Eq)]
pub struct JailInfo {
    pub name: String,
    pub jid: i32,
    pub state: JailState,
    pub path: Option<String>,
}

/// One parameter value of a `jail_set` request.
#[derive(Debug, PartialEq, Eq)]
pub enum JailParamValue {
    Text(String),
    Number(i32),
}

/// One named parameter of a `jail_set` request.
#[derive(Debug, PartialEq, Eq)]
pub struct JailParam {
    pub name: String,
    pub value: JailParamValue,
}

/// A parameter as a value: its name, its text if it is textual, its number
/// otherwise.
pub open spec fn param_view(p: JailParam) -> (Seq<char>, Option<Seq<char>>, int) {
    match p.value {
        JailParamValue::Text(s) => (p.name@, Some(s@), 0),
        JailParamValue::Number(n) => (p.name@, None, n as int),
    }
}

/// The parameters of a request as values.
pub open spec fn params_view(ps: Seq<JailParam>) -> Seq<(Seq<char>, Option<Seq<char>>, int)> {
    Seq::new(ps.len(), |i: int| param_view(ps[i]))
}

/// How the kernel is asked to create a jail.
#[derive(Debug, PartialEq, Eq)]
pub enum JailCreation {
    /// Run the `jail` program, then look the JID up by name. Used for jails
    /// with a network stack of their own, which `jail_set` cannot create
    /// without attaching the caller.
    Command(HostCommand),
    /// Call `jail_set` with these parameters and the create flag, never the
    /// attach flag. The last parameter is optional metadata.
    Syscall(Vec<JailParam>),
}

/// The arguments of the `jail` program for a jail with its own network stack.
pub open spec fn vnet_jail_line(
    name: Seq<char>,
    root: Seq<char>,
    interface: Option<Seq<char>>,
) -> Seq<Seq<char>> {
    let base = seq![
        "jail"@,
        "-c"@,
        "name="@ + name,
        "path="@ + root,
        "host.hostname="@ + name,
        "persist"@,
        "vnet"@,
    ];
    match interface {
        Some(i) => base.push("vnet.interface="@ + i),
        None => base,
    }
}

/// The `jail_set` parameters for a jail that shares the host's network stack.
pub open spec fn syscall_params(name: Seq<char>, root: Seq<char>, ip: Option<Seq<char>>) -> Seq<
    (Seq<char>, Option<Seq<char>>, int),
> {
    let base = seq![
        ("name"@, Some(name), 0int),
        ("path"@, Some(root), 0int),
        ("host.hostname"@, Some(name), 0int),
        ("persist"@, None, 1int),
    ];
    let with_ip = match ip {
        Some(a) => base.push(("ip4.addr"@, Some(a), 0int)),
        None => base,
    };
    with_ip.push(("meta.managed_by"@, Some("kawakaze"@), 0int))
}

/// The root directory to use: `path`, or `/tmp/<name>`.
pub open spec fn root_of(name: Seq<char>, path: Option<Seq<char>>) -> Seq<char> {
    match path {
        Some(p) => p,
        None => "/tmp/"@ + name,
    }
}

/// An optional string slice as a value.
pub open spec fn opt_str_view(o: Option<&str>) -> Option<Seq<char>> {
    match o {
        Some(s) => Some(s@),
        None => None,
    }
}

fn text_param(name: &str, value: String) -> (p: JailParam)
    ensures
        param_view(p) == (name@, Some(value@), 0int),
{
    JailParam { name: name.to_owned(), value: JailParamValue::Text(value) }
}

fn push_param(v: &mut Vec<JailParam>, p: JailParam)
    ensures
        params_view(final(v)@) == params_view(old(v)@).push(param_view(p)),
{
    let ghost pv = param_view(p);
    v.push(p);
    assert(params_view(v@) =~= params_view(old(v)@).push(pv));
}

/// Says how to ask the kernel for a jail. With `vnet` the `jail` program is
/// run; without it `jail_set` is called.
pub fn create_freebsd_jail(
    name: &str,
    path: Option<&str>,
    ip: Option<&str>,
    vnet_interface: Option<&str>,
    vnet: bool,
) -> (r: JailCreation)
    ensures
        vnet ==> (r matches JailCreation::Command(c) && c.input() is None && c.line()
            == vnet_jail_line(name@, root_of(name@, opt_str_view(path)), opt_str_view(vnet_interface))),
        !vnet ==> (r matches JailCreation::Syscall(ps) && params_view(ps@) == syscall_params(
            name@,
            root_of(name@, opt_str_view(path)),
            opt_str_view(ip),
        )),
{
    let root: String = match path {
        Some(p) => p.to_owned(),
        None => concat2("/tmp/", name),
    };
    if vnet {
        let mut args = no_args();
        push_arg(&mut args, "-c");
        push_owned(&mut args, concat2("name=", name));
        push_owned(&mut args, concat2("path=", root.as_str()));
        push_owned(&mut args, concat2("host.hostname=", name));
        push_arg(&mut args, "persist");
        push_arg(&mut args, "vnet");
        match vnet_interface {
            Some(i) => {
                push_owned(&mut args, concat2("vnet.interface=", i));
            },
            None => {},
        }
        let c = HostCommand::new("jail", args);
        assert(c.line() =~= vnet_jail_line(
            name@,
            root_of(name@, opt_str_view(path)),
            opt_str_view(vnet_interface),
        ));
        JailCreation::Command(c)
    } else {
        let mut ps: Vec<JailParam> = Vec::new();
        assert(params_view(ps@) =~= Seq::empty());
        push_param(&mut ps, text_param("name", name.to_owned()));
        push_param(&mut ps, text_param("path", root));
        push_param(&mut ps, text_param("host.hostname", name.to_owned()));
        push_param(
            &mut ps,
            JailParam { name: "persist".to_owned(), value: JailParamValue::Number(1) },
        );
        match ip {
            Some(a) => {
                push_param(&mut ps, text_param("ip4.addr", a.to_owned()));
            },
            None => {},
        }
        push_param(&mut ps, text_param("meta.managed_by", "kawakaze".to_owned()));
        assert(params_view(ps@) =~= syscall_params(
            name@,
            root_of(name@, opt_str_view(path)),
            opt_str_view(ip),
        ));
        JailCreation::Syscall(ps)
    }
}

/// After `jail_set` refused a request: the request to try once more, without
/// its trailing metadata, if the refusal was "invalid argument" and this is
/// the first refusal.
pub fn retry_without_metadata(params: Vec<JailParam>, invalid_argument: bool, first_try: bool) -> (r:
    Option<Vec<JailParam>>)
    ensures
        (invalid_argument && first_try && params@.len() > 0) ==> (r matches Some(ps) && params_view(
            ps@,
        ) == params_view(params@).drop_last()),
        !(invalid_argument && first_try && params@.len() > 0) ==> r is None,
{
    if invalid_argument && first_try && params.len() > 0 {
        let mut ps = params;
        let ghost before = params_view(ps@);
        ps.pop();
        assert(params_view(ps@) =~= before.drop_last());
        Some(ps)
    } else {
        None
    }
}

/// The command that mounts the device file system under a jail's root.
pub fn mount_devfs(jail_path: &str) -> (c: HostCommand)
    ensures
        c.line() == seq!["mount"@, "-t"@, "devfs"@, "devfs"@, jail_path@ + "/dev"@],
        c.input() is None,
{
    let mut args = no_args();
    push_arg(&mut args, "-t");
    push_arg(&mut args, "devfs");
    push_arg(&mut args, "devfs");
    push_owned(&mut args, concat2(jail_path, "/dev"));
    let c = HostCommand::new("mount", args);
    assert(c.line() =~= seq!["mount"@, "-t"@, "devfs"@, "devfs"@, jail_path@ + "/dev"@]);
    c
}

/// The command that unmounts the device file system of a jail, by force. Its
/// failure is ignored: the file system may not be mounted.
pub fn unmount_devfs(jail_path: &str) -> (c: HostCommand)
    ensures
        c.line() == seq!["umount"@, "-f"@, jail_path@ + "/dev"@],
        c.input() is None,
{
    let mut args = no_args();
    push_arg(&mut args, "-f");
    push_owned(&mut args, concat2(jail_path, "/dev"));
    let c = HostCommand::new("umount", args);
    assert(c.line() =~= seq!["umount"@, "-f"@, jail_path@ + "/dev"@]);
    c
}

/// The error for a root directory that could not be made.
pub fn directory_failure(jail_path: &str, reason: &str) -> (r: JailError)
    ensures
        r matches JailError::CreationFailed(m) && m@ == "Failed to create jail directory '"@
            + jail_path@ + "': "@ + reason@,
{
    let head = concat3("Failed to create jail directory '", jail_path, "': ");
    JailError::CreationFailed(concat2(head.as_str(), reason))
}

/// What the run of the `jail` program means: success if it ran and exited
/// with status zero. `run` holds its output, or why it could not be run.
pub fn jail_command_finished(run: &Result<CommandOutput, String>) -> (r: Result<(), JailError>)
    ensures
        match run {
            Ok(o) => if o.success {
                r is Ok
            } else {
                r matches Err(JailError::CreationFailed(m)) && m@ == "jail command failed: "@
                    + o.stderr@
            },
            Err(e) => r matches Err(JailError::CreationFailed(m)) && m@
                == "Failed to execute jail command: "@ + e@,
        },
{
    match run {
        Ok(o) => {
            if o.success {
                Ok(())
            } else {
                Err(JailError::CreationFailed(concat2("jail command failed: ", o.stderr.as_str())))
            }
        },
        Err(e) => Err(
            JailError::CreationFailed(concat2("Failed to execute jail command: ", e.as_str())),
        ),
    }
}

/// What `jail_get` by name means for a jail that was just created: its
/// answer is the JID, unless it is negative; `reason` is the system's
/// word for the failure.
pub fn get_jid_by_name(name: &str, answer: i32, reason: &str) -> (r: Result<i32, JailError>)
    ensures
        answer >= 0 ==> r == Ok::<i32, JailError>(answer),
        answer < 0 ==> (r matches Err(JailError::CreationFailed(m)) && m@
            == "Failed to get JID for jail '"@ + name@ + "': "@ + reason@),
{
    if answer < 0 {
        let head = concat3("Failed to get JID for jail '", name, "': ");
        Err(JailError::CreationFailed(concat2(head.as_str(), reason)))
    } else {
        Ok(answer)
    }
}

/// What the last answer of `jail_set` means: the JID, unless it is
/// negative; `reason` is the system's word for the failure.
pub fn jail_set_finished(answer: i32, reason: &str) -> (r: Result<i32, JailError>)
    ensures
        answer >= 0 ==> r == Ok::<i32, JailError>(answer),
        answer < 0 ==> (r matches Err(JailError::CreationFailed(m)) && m@ == "jail_set failed: "@
            + reason@),
{
    if answer < 0 {
        Err(JailError::CreationFailed(concat2("jail_set failed: ", reason)))
    } else {
        Ok(answer)
    }
}

/// What the answer of `jail_remove` means: success, unless it is negative.
pub fn remove_freebsd_jail(answer: i32, reason: &str) -> (r: Result<(), JailError>)
    ensures
        answer >= 0 ==> r is Ok,
        answer < 0 ==> (r matches Err(JailError::StopFailed(m)) && m@ == "jail_remove failed: "@
            + reason@),
{
    if answer < 0 {
        Err(JailError::StopFailed(concat2("jail_remove failed: ", reason)))
    } else {
        Ok(())
    }
}

/// Whether the kernel knows a jail, going by the answer of `jail_get`.
pub fn check_jail_exists(answer: i32) -> (r: bool)
    ensures
        r == (answer >= 0),
{
    answer >= 0
}

/// The JID of a jail that the kernel was asked for by name, going by the
/// answer of `jail_get`: the answer, if it is a JID.
pub fn live_jid(answer: i32) -> (r: Option<i32>)
    ensures
        answer >= 1 ==> r == Some(answer),
        answer < 1 ==> r is None,
{
    if answer > 0 {
        Some(answer)
    } else {
        None
    }
}

/// The error for a `/dev` directory that could not be made in a jail.
pub fn dev_directory_failure(jail_name: &str, reason: &str) -> (r: JailError)
    ensures
        r matches JailError::CreationFailed(m) && m@ == "Failed to create /dev directory in jail '"@
            + jail_name@ + "': "@ + reason@,
{
    let head = concat3("Failed to create /dev directory in jail '", jail_name, "': ");
    JailError::CreationFailed(concat2(head.as_str(), reason))
}

/// What the run of the mount command means for the jail `jail_name`.
/// `run` holds the command's output, or why it could not be run.
pub fn devfs_mounted(jail_name: &str, run: &Result<CommandOutput, String>) -> (r: Result<
    (),
    JailError,
>)
    ensures
        match run {
            Ok(o) => if o.success {
                r is Ok
            } else {
                r matches Err(JailError::CreationFailed(m)) && m@ == "Failed to mount devfs in jail '"@
                    + jail_name@ + "': "@ + o.stderr@
            },
            Err(e) => r matches Err(JailError::CreationFailed(m)) && m@
                == "Failed to execute mount command for jail '"@ + jail_name@ + "': "@ + e@,
        },
{
    match run {
        Ok(o) => {
            if o.success {
                Ok(())
            } else {
                let head = concat3("Failed to mount devfs in jail '", jail_name, "': ");
                Err(JailError::CreationFailed(concat2(head.as_str(), o.stderr.as_str())))
            }
        },
        Err(e) => {
            let head = concat3("Failed to execute mount command for jail '", jail_name, "': ");
            Err(JailError::CreationFailed(concat2(head.as_str(), e.as_str())))
        },
    }
}

/// Whether `row` is the row of the jail `j`.
pub open spec fn is_row_of(row: JailRow, j: JailView) -> bool {
    &&& row.name@ == j.name
    &&& opt_view(row.path) == j.path
    &&& opt_view(row.ip) == j.ip
    &&& row.state@ == j.state.name()
    &&& row.jid == j.jid
}

/// What stopping a jail asks of the host.
#[derive(Debug, PartialEq, Eq)]
pub struct JailRemoval {
    /// The JID to hand to `jail_remove`.
    pub jid: i32,
    /// To run first; its failure is ignored.
    pub unmount: HostCommand,
}

/// What starting a jail asks of the host.
#[derive(Debug, PartialEq, Eq)]
pub struct JailStart {
    /// The root directory, to be created if it is missing.
    pub root: String,
    /// How to create the jail.
    pub creation: JailCreation,
    /// To run once the jail exists.
    pub mount: HostCommand,
}

impl JailRemoval {
    /// Whether this is what stopping the jail `j` asks of the host: its
    /// JID goes to `jail_remove`, after the device file system under its
    /// root was unmounted by force.
    pub open spec fn is_for(self, j: JailView) -> bool {
        &&& self.jid == j.jid
        &&& self.unmount.line() == seq!["umount"@, "-f"@, j.root() + "/dev"@]
        &&& self.unmount.input() is None
    }
}

impl JailStart {
    /// Whether this is what starting the jail `j` asks of the host: a jail
    /// with an address is created by the `jail` program, with a network
    /// stack of its own; one without by `jail_set`; and the device file
    /// system is mounted under its root.
    pub open spec fn is_for(self, j: JailView) -> bool {
        &&& self.root@ == j.root()
        &&& self.mount.line() == seq!["mount"@, "-t"@, "devfs"@, "devfs"@, j.root() + "/dev"@]
        &&& self.mount.input() is None
        &&& j.ip is Some ==> (self.creation matches JailCreation::Command(c) && c.input() is None
            && c.line() == vnet_jail_line(j.name, j.root(), j.vnet_interface))
        &&& j.ip is None ==> (self.creation matches JailCreation::Syscall(ps) && params_view(ps@)
            == syscall_params(j.name, j.root(), None))
    }
}

impl JailState {
    /// The state's name in the database and in responses.
    pub open spec fn name(self) -> Seq<char> {
        match self {
            JailState::Created => "created"@,
            JailState::Running => "running"@,
            JailState::Stopped => "stopped"@,
        }
    }

    /// The state that `s` names, if it names one.
    pub open spec fn named(s: Seq<char>) -> Option<JailState> {
        if s == "created"@ {
            Some(JailState::Created)
        } else if s == "running"@ {
            Some(JailState::Running)
        } else if s == "stopped"@ {
            Some(JailState::Stopped)
        } else {
            None
        }
    }

    /// The state's name.
    pub fn as_str(&self) -> (r: &'static str)
        ensures
            r@ == self.name(),
    {
        match self {
            JailState::Created => "created",
            JailState::Running => "running",
            JailState::Stopped => "stopped",
        }
    }

    /// Reads a state's name.
    pub fn from_str(s: &str) -> (r: Result<JailState, JailError>)
        ensures
            match r {
                Ok(st) => JailState::named(s@) == Some(st),
                Err(e) => JailState::named(s@) is None && (e matches JailError::InvalidState(m)
                    && m@ == "Invalid jail state: "@ + s@),
            },
    {
        if str_eq(s, "created") {
            Ok(JailState::Created)
        } else if str_eq(s, "running") {
            Ok(JailState::Running)
        } else if str_eq(s, "stopped") {
            Ok(JailState::Stopped)
        } else {
            Err(JailError::InvalidState(concat2("Invalid jail state: ", s)))
        }
    }
}

/// Every state is the state that its name names.
pub proof fn lemma_state_name_round_trip(st: JailState)
    ensures
        JailState::named(st.name()) == Some(st),
{
    reveal_strlit("created");
    reveal_strlit("running");
    reveal_strlit("stopped");
    assert("created"@[0] == 'c');
    assert("running"@[0] == 'r');
    assert("stopped"@[0] == 's');
}

impl JailError {
    /// The message carried by the error.
    pub open spec fn detail(self) -> Seq<char> {
        match self {
            JailError::CreationFailed(m) => m@,
            JailError::StartFailed(m) => m@,
            JailError::StopFailed(m) => m@,
            JailError::DestroyFailed(m) => m@,
            JailError::InvalidState(m) => m@,
            JailError::InvalidPath(m) => m@,
        }
    }

    /// What each kind of error puts before its message.
    pub open spec fn prefix(self) -> Seq<char> {
        match self {
            JailError::CreationFailed(_) => "Failed to create jail: "@,
            JailError::StartFailed(_) => "Failed to start jail: "@,
            JailError::StopFailed(_) => "Failed to stop jail: "@,
            JailError::DestroyFailed(_) => "Failed to destroy jail: "@,
            JailError::InvalidState(_) => "Invalid jail state: "@,
            JailError::InvalidPath(_) => "Invalid path: "@,
        }
    }

    /// The error as one line of text.
    pub open spec fn text(self) -> Seq<char> {
        self.prefix() + self.detail()
    }

    /// The error as one line of text.
    pub fn to_string(&self) -> (r: String)
        ensures
            r@ == self.text(),
    {
        match self {
            JailError::CreationFailed(m) => concat2("Failed to create jail: ", m.as_str()),
            JailError::StartFailed(m) => concat2("Failed to start jail: ", m.as_str()),
            JailError::StopFailed(m) => concat2("Failed to stop jail: ", m.as_str()),
            JailError::DestroyFailed(m) => concat2("Failed to destroy jail: ", m.as_str()),
            JailError::InvalidState(m) => concat2("Invalid jail state: ", m.as_str()),
            JailError::InvalidPath(m) => concat2("Invalid path: ", m.as_str()),
        }
    }
}

impl Jail {
    /// A new jail configuration: state `Created`, no JID.
    pub fn create(name: &str) -> (r: Result<Jail, JailError>)
        ensures
            match r {
                Ok(j) => name_problem(name@) is None && j@ == JailView::fresh(name@) && j@.wf(),
                Err(e) => e matches JailError::CreationFailed(m) && name_problem(name@) == Some(m@),
            },
    {
        match check_jail_name(name) {
            Ok(()) => Ok(
                Jail {
                    name: name.to_owned(),
                    jid: -1,
                    state: JailState::Created,
                    path: None,
                    ip: None,
                    vnet_interface: None,
                },
            ),
            Err(m) => Err(JailError::CreationFailed(m)),
        }
    }

    /// Sets the root directory.
    pub fn with_path(self, path: &str) -> (r: Result<Jail, JailError>)
        ensures
            r matches Ok(j) && j@ == (JailView { path: Some(path@), ..self@ }),
    {
        let mut j = self;
        j.path = Some(path.to_owned());
        Ok(j)
    }

    /// Sets the IP address. A jail with an address gets a network stack of
    /// its own when it starts.
    pub fn with_ip(self, ip: &str) -> (r: Result<Jail, JailError>)
        ensures
            r matches Ok(j) && j@ == (JailView { ip: Some(ip@), ..self@ }),
    {
        let mut j = self;
        j.ip = Some(ip.to_owned());
        Ok(j)
    }

    /// Sets the interface that is moved into the jail when it is created.
    pub fn with_vnet_interface(self, interface: &str) -> (r: Result<Jail, JailError>)
        ensures
            r matches Ok(j) && j@ == (JailView { vnet_interface: Some(interface@), ..self@ }),
    {
        let mut j = self;
        j.vnet_interface = Some(interface.to_owned());
        Ok(j)
    }

    /// The jail's name.
    pub fn name(&self) -> (r: &str)
        ensures
            r@ == self@.name,
    {
        self.name.as_str()
    }

    /// The JID, or -1.
    pub fn jid(&self) -> (r: i32)
        ensures
            r == self@.jid,
    {
        self.jid
    }

    /// The current state.
    pub fn state(&self) -> (r: JailState)
        ensures
            r == self@.state,
    {
        self.state
    }

    /// Whether the jail is running.
    pub fn is_running(&self) -> (r: bool)
        ensures
            r == (self@.state == JailState::Running),
    {
        match self.state {
            JailState::Running => true,
            _ => false,
        }
    }

    /// The root directory: the configured path, or `/tmp/<name>`.
    pub fn root(&self) -> (r: String)
        ensures
            r@ == self@.root(),
    {
        match &self.path {
            Some(p) => p.clone(),
            None => concat2("/tmp/", self.name.as_str()),
        }
    }

    /// Decides whether the jail may start, and says what to ask of the host.
    /// The jail itself is unchanged until `complete_start`.
    pub fn start(&self, host: &Host) -> (r: Result<JailStart, JailError>)
        ensures
            match r {
                Ok(plan) => start_refusal(self@, *host) is None && plan.is_for(self@),
                Err(e) => e matches JailError::StartFailed(m) && start_refusal(self@, *host) == Some(
                    m@,
                ),
            },
    {
        if self.is_running() {
            return Err(
                JailError::StartFailed(concat3("Jail '", self.name.as_str(), "' is already running")),
            );
        }
        if !host.is_root {
            return Err(JailError::StartFailed("Jail creation requires root privileges".to_owned()));
        }
        if !host.is_freebsd {
            return Err(
                JailError::StartFailed("Jail creation is only supported on FreeBSD".to_owned()),
            );
        }
        let root = self.root();
        let vnet = self.ip.is_some();
        let path: Option<&str> = match &self.path {
            Some(p) => Some(p.as_str()),
            None => None,
        };
        let ip: Option<&str> = match &self.ip {
            Some(p) => Some(p.as_str()),
            None => None,
        };
        let interface: Option<&str> = match &self.vnet_interface {
            Some(p) => Some(p.as_str()),
            None => None,
        };
        let creation = create_freebsd_jail(self.name.as_str(), path, ip, interface, vnet);
        let mount = mount_devfs(root.as_str());
        Ok(JailStart { root, creation, mount })
    }

    /// Records how the host answered a start: with the JID of the new jail,
    /// or with an error. Only a JID of at least one makes the jail `Running`.
    pub fn complete_start(&mut self, outcome: Result<i32, JailError>) -> (r: Result<(), JailError>)
        requires
            old(self)@.state != JailState::Running,
        ensures
            match outcome {
                Ok(jid) => if jid >= 1 {
                    r is Ok && final(self)@ == old(self)@.started(jid as int)
                } else {
                    final(self)@ == old(self)@ && (r matches Err(JailError::StartFailed(m)) && m@
                        == "The kernel returned no jail ID"@)
                },
                Err(e) => r == Err::<(), JailError>(e) && final(self)@ == old(self)@,
            },
            old(self)@.wf() ==> final(self)@.wf(),
    {
        match outcome {
            Ok(jid) => {
                if jid >= 1 {
                    self.jid = jid;
                    self.state = JailState::Running;
                    Ok(())
                } else {
                    Err(JailError::StartFailed("The kernel returned no jail ID".to_owned()))
                }
            },
            Err(e) => Err(e),
        }
    }

    /// Decides whether the jail may stop, and says what to ask of the host.
    pub fn stop(&self, host: &Host) -> (r: Result<JailRemoval, JailError>)
        ensures
            match r {
                Ok(plan) => stop_refusal(self@, *host) is None && plan.is_for(self@),
                Err(e) => e matches JailError::StopFailed(m) && stop_refusal(self@, *host) == Some(
                    m@,
                ),
            },
    {
        if !self.is_running() {
            return Err(
                JailError::StopFailed(concat3("Jail '", self.name.as_str(), "' is not running")),
            );
        }
        if !host.is_root {
            return Err(JailError::StopFailed("Jail removal requires root privileges".to_owned()));
        }
        if !host.is_freebsd {
            return Err(JailError::StopFailed("Jail removal is only supported on FreeBSD".to_owned()));
        }
        let root = self.root();
        Ok(JailRemoval { jid: self.jid, unmount: unmount_devfs(root.as_str()) })
    }

    /// Records how the host answered a removal. On success the jail is
    /// `Stopped` and has no JID.
    pub fn complete_stop(&mut self, outcome: Result<(), JailError>) -> (r: Result<(), JailError>)
        ensures
            match outcome {
                Ok(()) => r is Ok && final(self)@ == old(self)@.stopped(),
                Err(e) => r == Err::<(), JailError>(e) && final(self)@ == old(self)@,
            },
            old(self)@.wf() ==> final(self)@.wf(),
    {
        match outcome {
            Ok(()) => {
                self.jid = -1;
                self.state = JailState::Stopped;
                Ok(())
            },
            Err(e) => Err(e),
        }
    }

    /// Gives the jail up. A running jail has to be stopped first: the result
    /// then says what to ask of the host. Nothing on disk is deleted.
    pub fn destroy(self, host: &Host) -> (r: Result<Option<JailRemoval>, JailError>)
        ensures
            self@.state != JailState::Running ==> r == Ok::<Option<JailRemoval>, JailError>(None),
            self@.state == JailState::Running ==> match r {
                Ok(plan) => plan matches Some(p) && stop_refusal(self@, *host) is None && p.is_for(
                    self@,
                ),
                Err(e) => e matches JailError::StopFailed(m) && stop_refusal(self@, *host) == Some(
                    m@,
                ),
            },
    {
        if self.is_running() {
            match self.stop(host) {
                Ok(p) => Ok(Some(p)),
                Err(e) => Err(e),
            }
        } else {
            Ok(None)
        }
    }

    /// Whether a jail is in the kernel, going by the answer of `jail_get`
    /// for its JID. Off FreeBSD there is none.
    pub fn exists_in_kernel(answer: i32, host: &Host) -> (r: bool)
        ensures
            r == (host.is_freebsd && answer >= 0),
    {
        host.is_freebsd && check_jail_exists(answer)
    }

    /// Says how to run a command inside the jail, which has to be running:
    /// `jexec`, the jail's name, the command and its arguments, with a
    /// search path for programs in the environment.
    pub fn exec(&self, command: &str, args: &Vec<String>, host: &Host) -> (r: Result<
        HostCommand,
        JailError,
    >)
        ensures
            self@.state != JailState::Running ==> (r matches Err(JailError::StartFailed(m)) && m@
                == "Jail '"@ + self@.name + "' is not running"@),
            self@.state == JailState::Running && !host.is_freebsd ==> (r matches Err(
                JailError::StartFailed(m),
            ) && m@ == "jexec is only supported on FreeBSD"@),
            self@.state == JailState::Running && host.is_freebsd ==> (r matches Ok(c) && c.line()
                == seq!["jexec"@, self@.name, command@] + str_views(args@) && c.input() is None
                && c.environment() == seq![
                (
                    "PATH"@,
                    "/sbin:/bin:/usr/sbin:/usr/bin:/usr/local/sbin:/usr/local/bin:~/bin"@,
                ),
            ]),
    {
        if !self.is_running() {
            return Err(
                JailError::StartFailed(concat3("Jail '", self.name.as_str(), "' is not running")),
            );
        }
        if !host.is_freebsd {
            return Err(JailError::StartFailed("jexec is only supported on FreeBSD".to_owned()));
        }
        let mut a = no_args();
        push_arg(&mut a, self.name.as_str());
        push_arg(&mut a, command);
        let mut i: usize = 0;
        assert(str_views(a@) =~= seq![self@.name, command@] + str_views(args@).take(0));
        while i < args.len()
            invariant
                i <= args.len(),
                str_views(a@) == seq![self@.name, command@] + str_views(args@).take(i as int),
            decreases args.len() - i,
        {
            push_arg(&mut a, args[i].as_str());
            i += 1;
            assert(str_views(a@) =~= seq![self@.name, command@] + str_views(args@).take(i as int));
        }
        assert(str_views(args@).take(args.len() as int) =~= str_views(args@));
        let c = HostCommand::new("jexec", a).with_env(
            "PATH",
            "/sbin:/bin:/usr/sbin:/usr/bin:/usr/local/sbin:/usr/local/bin:~/bin",
        );
        assert(c.line() =~= seq!["jexec"@, self@.name, command@] + str_views(args@));
        assert(c.environment() =~= seq![
            (
                "PATH"@,
                "/sbin:/bin:/usr/sbin:/usr/bin:/usr/local/sbin:/usr/local/bin:~/bin"@,
            ),
        ]);
        Ok(c)
    }

    /// What callers may know of the jail.
    pub fn info(&self) -> (r: JailInfo)
        ensures
            r.name@ == self@.name,
            r.jid == self@.jid,
            r.state == self@.state,
            opt_view(r.path) == self@.path,
    {
        JailInfo {
            name: self.name.clone(),
            jid: self.jid,
            state: self.state,
            path: clone_opt(&self.path),
        }
    }

    /// The jail as a database row.
    pub fn to_db_row(&self) -> (r: JailRow)
        ensures
            is_row_of(r, self@),
    {
        JailRow {
            name: self.name.clone(),
            path: clone_opt(&self.path),
            ip: clone_opt(&self.ip),
            state: self.state.as_str().to_owned(),
            jid: self.jid,
        }
    }

    /// The jail that a database row describes. A row whose state and JID
    /// disagree is set right: a jail is running only with a JID of at least
    /// one, else it is stopped; and a jail that is not running has no JID.
    /// `reconcile` then makes state and JID agree with the kernel.
    pub fn from_db_row(row: JailRow) -> (r: Result<Jail, JailError>)
        ensures
            match JailState::named(row.state@) {
                Some(state) => r matches Ok(j) && j@ == JailView::stored(
                    row.name@,
                    opt_view(row.path),
                    opt_view(row.ip),
                    state,
                    row.jid as int,
                ) && j@.wf(),
                None => r matches Err(JailError::InvalidState(m)) && m@ == "Invalid jail state: "@
                    + row.state@,
            },
    {
        match JailState::from_str(row.state.as_str()) {
            Ok(state) => {
                let running = match state {
                    JailState::Running => row.jid >= 1,
                    _ => false,
                };
                let settled = match state {
                    JailState::Running => if running {
                        JailState::Running
                    } else {
                        JailState::Stopped
                    },
                    other => other,
                };
                Ok(
                    Jail {
                        name: row.name,
                        jid: if running {
                            row.jid
                        } else {
                            -1
                        },
                        state: settled,
                        path: row.path,
                        ip: row.ip,
                        vnet_interface: None,
                    },
                )
            },
            Err(e) => Err(e),
        }
    }

    pub(crate) fn set_jid(&mut self, jid: i32)
        ensures
            final(self)@ == (JailView { jid: jid as int, ..old(self)@ }),
    {
        self.jid = jid;
    }

    pub(crate) fn set_state(&mut self, state: JailState)
        ensures
            final(self)@ == (JailView { state, ..old(self)@ }),
    {
        self.state = state;
    }

    /// Makes state and JID agree with the kernel: `live` is the JID under
    /// which the kernel knows the jail's name, if it knows it. A jail that
    /// the kernel knows is `Running`; one that was recorded as running and is
    /// gone is `Stopped`.
    pub fn reconcile(&mut self, live: Option<i32>)
        ensures
            final(self)@ == old(self)@.reconciled(
                match live {
                    Some(j) => Some(j as int),
                    None => None,
                },
            ),
            final(self)@.wf(),
            final(self)@.state == JailState::Running <==> (live matches Some(j) && j >= 1),
    {
        self.set_jid(-1);
        let found: Option<i32> = match live {
            Some(jid) => if jid >= 1 {
                Some(jid)
            } else {
                None
            },
            None => None,
        };
        match found {
            Some(jid) => {
                self.set_jid(jid);
                self.set_state(JailState::Running);
            },
            None => {
                if self.is_running() {
                    self.set_state(JailState::Stopped);
                }
            },
        }
    }

    /// A copy of the jail.
    pub fn duplicate(&self) -> (r: Jail)
        ensures
            r@ == self@,
    {
        Jail {
            name: self.name.clone(),
            jid: self.jid,
            state: self.state,
            path: clone_opt(&self.path),
            ip: clone_opt(&self.ip),
            vnet_interface: clone_opt(&self.vnet_interface),
        }
    }
}

/// Stopping and starting again changes nothing that stopping once has not
/// settled: create, start, stop, start, stop ends where create, start, stop
/// ends.
pub proof fn lemma_restart_ends_in_same_state(j: JailView, first_jid: int, second_jid: int)
    ensures
        j.started(first_jid).stopped().started(second_jid).stopped() == j.started(
            first_jid,
        ).stopped(),
        j.started(first_jid).stopped().state == JailState::Stopped,
        j.started(first_jid).stopped().jid == -1,
{
}

/// Starting with a JID of at least one and stopping keep a jail well formed.
pub proof fn lemma_life_cycle_keeps_wf(j: JailView, jid: int)
    requires
        jid >= 1,
    ensures
        JailView::fresh(j.name).wf(),
        j.started(jid).wf(),
        j.stopped().wf(),
        j.reconciled(Some(jid)).wf(),
        j.reconciled(None).wf(),
{
}

} // verus!
