//! The request handlers: what each request changes in the manager, what it
//! answers, and what it asks of the host.
//!
//! A request is handled in one or two steps. Requests that need nothing of
//! the host are answered at once. The others yield a task; once the host
//! has done it, `finish` takes the outcome and gives the answer.

use crate::api::{
    endpoint_of, ApiError, BuildImageRequest, ContainerInfo, ContainerListItem, ContainerLogEntry,
    CreateContainerRequest, CreateJailRequest, Endpoint, EndpointView, ExecRequest, ExecResult,
    ImageHistoryItem, ImageInfo, ImageListItem, JailInfo, JailListItem, Method, Payload, Request,
    RequestBody, Response,
};
use crate::bootstrap::{bootstrap_marker, same_report, BootstrapConfig};
use crate::command::{no_args, push_arg, CommandOutput, HostCommand};
use crate::container::{
    Container, ContainerConfig, ContainerState, ContainerView, Mount, MountType, MountView,
    PortMapping, PortProtocol, RestartPolicy,
};
use crate::image::{Image, ImageState, ImageView};
use crate::image_builder::{
    describe, described, from_in, parse_from_instruction, BuildStatus, ImageBuildProgress,
    ImageError,
};
use crate::jail::{
    clone_opt, is_row_of, name_problem, opt_view, start_refusal, stop_refusal, Host, Jail, JailError,
    JailRemoval, JailStart, JailState, JailView,
};
use crate::ids::is_id_text;
use crate::manager::{
    addressed, container_and_jail, container_jail, container_resolves_to, creation_refusal,
    drafted, first_named, has_container, has_image, has_jail, image_name_taken, name_taken,
    networked, owns_jail, resolves_to, resolves_to_no_container, resolves_to_nothing,
    start_report_refusal, uses_image, ContainerDraft, ContainerRemoval, ImageRemoval,
    JailManager, StoreOp,
};
use crate::networking::ContainerNetwork;
use crate::number::{decimal, decimal_chars};
use crate::strmap::StringMap;
use crate::text::{concat2, concat3, has_infix, str_eq, string_of};
use crate::zfs::ZfsError;
use vstd::prelude::*;

verus! {

/// Work for the host that a request asks for.
#[derive(Debug, PartialEq)]
#[allow(inconsistent_fields)]
pub enum Task {
    /// Create the jail as planned; report the JID.
    StartJail { name: String, plan: JailStart },
    /// Remove the jail from the kernel as planned.
    StopJail { name: String, plan: JailRemoval },
    /// Remove the jail from the kernel as planned; the jail is then
    /// forgotten.
    RemoveJail { name: String, plan: JailRemoval },
    /// Look whether `marker` exists. If it does not, bootstrap the jail at
    /// `jail_path` in the background.
    Bootstrap { name: String, jail_path: String, marker: String, config: BootstrapConfig },
    /// Build the image in the background and report with `build_finished`.
    BuildImage {
        build_id: String,
        name: String,
        dockerfile: String,
        build_args: StringMap,
        base: Option<Image>,
    },
    /// Destroy the snapshot of an image that was removed.
    RemoveImage(ImageRemoval),
    /// Clone the dataset of a container that is about to exist.
    CreateContainer(ContainerDraft),
    /// Create the container's jail as planned; report the JID.
    StartContainer { id: String, plan: JailStart },
    /// Remove the container's jail from the kernel as planned.
    StopContainer { id: String, plan: JailRemoval },
    /// Clean up after a container that was removed.
    RemoveContainer(ContainerRemoval),
    /// Run the command and report what it left behind.
    Exec { command: HostCommand },
}

/// How the host's work went.
#[derive(Debug, PartialEq)]
pub enum TaskOutcome {
    /// The kernel's answer to creating a jail.
    JailCreated(Result<i32, JailError>),
    /// The kernel's answer to removing a jail.
    JailRemoved(Result<(), JailError>),
    /// Whether the jail's root holds a base system already.
    Bootstrapped(bool),
    /// How cloning went, and where the clone is mounted.
    Cloned(Result<(), ZfsError>, Option<String>),
    /// What a command left behind, or why it could not run.
    Executed(Result<CommandOutput, String>),
}

/// What handling a request gave.
#[derive(Debug, PartialEq)]
pub struct Handled {
    /// The answer, unless it waits for a task.
    pub response: Option<Response>,
    /// What is to be written to the database.
    pub store: Vec<StoreOp>,
    /// What is asked of the host. With an answer, the work goes on in the
    /// background; without one, its outcome goes to `finish`.
    pub task: Option<Task>,
}

fn reply(response: Response) -> (h: Handled)
    ensures
        h.response == Some(response),
        h.store@.len() == 0,
        h.task is None,
{
    Handled { response: Some(response), store: Vec::new(), task: None }
}

fn reply_and_store(response: Response, op: StoreOp) -> (h: Handled)
    ensures
        h.response == Some(response),
        h.store@ == seq![op],
        h.task is None,
{
    let mut store: Vec<StoreOp> = Vec::new();
    store.push(op);
    Handled { response: Some(response), store, task: None }
}

fn reply_and_store_both(response: Response, first: StoreOp, second: StoreOp) -> (h: Handled)
    ensures
        h.response == Some(response),
        h.store@ == seq![first, second],
        h.task is None,
{
    let mut store: Vec<StoreOp> = Vec::new();
    store.push(first);
    store.push(second);
    Handled { response: Some(response), store, task: None }
}

fn perform(task: Task) -> (h: Handled)
    ensures
        h.response is None,
        h.store@.len() == 0,
        h.task == Some(task),
{
    Handled { response: None, store: Vec::new(), task: Some(task) }
}

/// Whether the answer is there, has this status and carries no error.
pub open spec fn answered(h: Handled, status: u16) -> bool {
    h.response matches Some(r) && r.status == status && r.error is None
}

/// Whether the answer is there and is an error of this status and code.
pub open spec fn refused(h: Handled, status: u16, code: Seq<char>) -> bool {
    h.response matches Some(r) && r.status == status && r.data is None && (r.error matches Some(e)
        && e.code@ == code)
}

/// Whether the answer is there and is this error, with nothing to write to
/// the database and nothing asked of the host.
pub open spec fn refused_with(h: Handled, status: u16, code: Seq<char>, message: Seq<char>) -> bool {
    refused(h, status, code) && h.response->0.error->0.message@ == message && h.task is None
        && h.store@.len() == 0
}

/// Whether the answer is there and refuses for the reason that a jail gave
/// for not starting or not stopping: a reason that says that something was
/// not found is answered as missing, any other as a failure under `code`.
pub open spec fn refused_because(h: Handled, why: Seq<char>, code: Seq<char>) -> bool {
    &&& h.task is None
    &&& h.store@.len() == 0
    &&& if has_infix(why, "not found"@) {
        refused(h, 404, "NOT_FOUND"@)
    } else {
        refused(h, 500, code) && h.response->0.error->0.message@ == why
    }
}

/// Whether the answer waits for the host: there is work for the host,
/// no answer yet, and nothing to write to the database.
pub open spec fn waits_for(h: Handled) -> bool {
    h.response is None && h.task is Some && h.store@.len() == 0
}

/// The answer for a jail error: a missing jail is 404, a bad request 400,
/// anything else 500.
pub fn jail_error_response(err: JailError) -> (r: Response)
    ensures
        r.data is None,
        r.error matches Some(e) && e.code@ == crate::api::jail_error_code(err) && e.message@
            == crate::api::jail_error_message(err),
        r.status == (if crate::api::jail_error_code(err) == "NOT_FOUND"@ {
            404u16
        } else if crate::api::jail_error_code(err) == "BAD_REQUEST"@ {
            400u16
        } else if crate::api::jail_error_code(err) == "CONFLICT"@ {
            409u16
        } else {
            500u16
        }),
{
    let e = ApiError::from_jail_error(err);
    if str_eq(e.code.as_str(), "NOT_FOUND") {
        Response::error(404, e)
    } else if str_eq(e.code.as_str(), "BAD_REQUEST") {
        Response::error(400, e)
    } else if str_eq(e.code.as_str(), "CONFLICT") {
        Response::error(409, e)
    } else {
        Response::error(500, e)
    }
}

/// Whether `r` shows the jail `j`.
pub open spec fn shows_jail(r: JailInfo, j: JailView) -> bool {
    r.name@ == j.name && r.jid == j.jid && r.state@ == j.state.name() && opt_view(r.path) == j.path
}

/// Whether `item` is the list entry of the jail `j`.
pub open spec fn lists_jail(item: JailListItem, j: JailView) -> bool {
    item.name@ == j.name && item.state@ == j.state.name() && item.running == (j.state
        == JailState::Running)
}

/// The message that says that a jail is missing.
pub open spec fn no_jail_message(name: Seq<char>) -> Seq<char> {
    "Resource not found: "@ + ("Jail '"@ + name + "'"@)
}

/// What listing the jails gives: every jail, oldest first.
pub open spec fn jails_listed(m: &JailManager, h: Handled) -> bool {
    &&& answered(h, 200)
    &&& h.task is None
    &&& h.store@.len() == 0
    &&& h.response->0.data matches Some(Payload::JailList(v)) && v@.len() == m.jails().len()
        && forall|i: int| 0 <= i < v@.len() ==> lists_jail(#[trigger] v@[i], m.jails()[i])
}

/// What asking for one jail gives: the jail, or 404.
pub open spec fn jail_shown(m: &JailManager, name: Seq<char>, h: Handled) -> bool {
    if has_jail(m.jails(), name) {
        &&& answered(h, 200)
        &&& h.task is None
        &&& h.store@.len() == 0
        &&& h.response->0.data matches Some(Payload::Jail(j)) && exists|i: int|
            0 <= i < m.jails().len() && (#[trigger] m.jails()[i]).name == name && shows_jail(
                j,
                m.jails()[i],
            )
    } else {
        refused_with(h, 404, "NOT_FOUND"@, no_jail_message(name))
    }
}

/// The jail that a request to create one describes.
pub open spec fn requested_jail(request: CreateJailRequest) -> JailView {
    JailView {
        path: opt_view(request.path),
        ip: opt_view(request.ip),
        ..JailView::fresh(request.name@)
    }
}

/// What creating a jail gives: 400 for a bad name, 409 for a name that is
/// taken, else 201 with the new jail, which is in state `created` without
/// a JID and is to be written to the database.
pub open spec fn jail_created(
    before: &JailManager,
    after: &JailManager,
    request: CreateJailRequest,
    h: Handled,
) -> bool {
    &&& after.images() == before.images()
    &&& after.containers() == before.containers()
    &&& h.task is None
    &&& match name_problem(request.name@) {
        Some(why) => refused_with(h, 400, "BAD_REQUEST"@, why) && after.jails() == before.jails(),
        None => if has_jail(before.jails(), request.name@) {
            refused_with(h, 409, "CONFLICT"@, "Jail '"@ + request.name@ + "' already exists"@)
                && after.jails() == before.jails()
        } else {
            &&& answered(h, 201)
            &&& h.response->0.data matches Some(Payload::Jail(j)) && shows_jail(
                j,
                requested_jail(request),
            )
            &&& after.jails() == before.jails().push(requested_jail(request))
            &&& h.store@.len() == 1
            &&& h.store@[0] matches StoreOp::InsertJail(row) && is_row_of(
                row,
                requested_jail(request),
            )
        },
    }
}

/// What asking for the start of a jail gives: 404 for a jail that is not
/// there; for one that may not start, the reason; else the task of
/// starting it.
pub open spec fn jail_start_asked(m: &JailManager, name: Seq<char>, host: Host, h: Handled) -> bool {
    if !has_jail(m.jails(), name) {
        refused(h, 404, "NOT_FOUND"@) && h.task is None && h.store@.len() == 0
    } else {
        exists|i: int|
            0 <= i < m.jails().len() && (#[trigger] m.jails()[i]).name == name
                && match start_refusal(m.jails()[i], host) {
                None => waits_for(h) && (h.task matches Some(Task::StartJail { name: n, plan })
                    && n@ == name && plan.is_for(m.jails()[i])),
                Some(why) => refused_because(h, why, "START_FAILED"@),
            }
    }
}

/// What asking for the stop of a jail gives: 404 for a jail that is not
/// there; for one that may not stop, the reason; else the task of
/// stopping it.
pub open spec fn jail_stop_asked(m: &JailManager, name: Seq<char>, host: Host, h: Handled) -> bool {
    if !has_jail(m.jails(), name) {
        refused(h, 404, "NOT_FOUND"@) && h.task is None && h.store@.len() == 0
    } else {
        exists|i: int|
            0 <= i < m.jails().len() && (#[trigger] m.jails()[i]).name == name && match stop_refusal(
                m.jails()[i],
                host,
            ) {
                None => waits_for(h) && (h.task matches Some(Task::StopJail { name: n, plan })
                    && n@ == name && plan.is_for(m.jails()[i])),
                Some(why) => refused_because(h, why, "STOP_FAILED"@),
            }
    }
}

/// What deleting a jail gives: 404 for a jail that is not there; a
/// refusal for the jail of a container; for a jail that is not running,
/// 200, and the jail is gone and to be deleted from the database; for a
/// running jail the task of removing it from the kernel first, or the
/// reason why it may not stop.
pub open spec fn jail_deleted(
    before: &JailManager,
    after: &JailManager,
    name: Seq<char>,
    host: Host,
    h: Handled,
) -> bool {
    &&& after.images() == before.images()
    &&& after.containers() == before.containers()
    &&& if !has_jail(before.jails(), name) {
        refused(h, 404, "NOT_FOUND"@) && h.task is None && h.store@.len() == 0 && after.jails()
            == before.jails()
    } else if owns_jail(before.containers(), name) {
        refused_because(h, "Jail '"@ + name + "' belongs to a container"@, "DESTROY_FAILED"@)
            && after.jails() == before.jails()
    } else {
        exists|i: int|
            0 <= i < before.jails().len() && (#[trigger] before.jails()[i]).name == name
                && if before.jails()[i].state
                != JailState::Running {
                &&& answered(h, 200)
                &&& h.response->0.data matches Some(Payload::Message(m)) && m@ == "Jail '"@ + name
                    + "' deleted"@
                &&& h.task is None
                &&& h.store@.len() == 1
                &&& h.store@[0] matches StoreOp::DeleteJail(n) && n@ == name
                &&& after.jails() == before.jails().remove(i)
            } else {
                &&& after.jails() == before.jails()
                &&& match stop_refusal(before.jails()[i], host) {
                    None => waits_for(h) && (h.task matches Some(Task::RemoveJail { name: n, plan })
                        && n@ == name && plan.is_for(before.jails()[i])),
                    Some(why) => refused_because(h, why, "STOP_FAILED"@),
                }
            }
    }
}

fn jail_info(jail: &Jail) -> (r: JailInfo)
    ensures
        shows_jail(r, jail@),
{
    JailInfo::from_info(jail.info())
}

/// Whether `r` shows the container `c`.
pub open spec fn shows_container(r: ContainerInfo, c: ContainerView) -> bool {
    &&& r.id@ == c.id
    &&& opt_view(r.name) == c.name
    &&& r.image_id@ == c.image_id
    &&& r.jail_name@ == c.jail_name
    &&& r.state@ == c.state.name()
    &&& opt_view(r.ip) == c.ip
    &&& r.restart_policy@ == c.restart_policy.name()
    &&& r.created_at == c.created_at
    &&& r.started_at == c.started_at
}

/// The message that says that a container is missing.
pub open spec fn no_container_message(key: Seq<char>) -> Seq<char> {
    "Resource not found: "@ + ("Container '"@ + key + "'"@)
}

fn container_info(c: &Container) -> (r: ContainerInfo)
    ensures
        shows_container(r, c@),
{
    ContainerInfo {
        id: c.id.clone(),
        name: clone_opt(&c.name),
        image_id: c.image_id.clone(),
        jail_name: c.jail_name.clone(),
        state: c.state.to_string(),
        ip: clone_opt(&c.ip),
        restart_policy: c.restart_policy.to_string(),
        created_at: c.created_at,
        started_at: c.started_at,
    }
}

/// Whether `r` shows the image `i`.
pub open spec fn shows_image(r: ImageInfo, i: ImageView) -> bool {
    &&& r.id@ == i.id
    &&& r.name@ == i.name
    &&& opt_view(r.parent_id) == i.parent_id
    &&& r.size_bytes == i.size_bytes
    &&& r.state@ == i.state.name()
    &&& r.created_at == i.created_at
}

/// Whether `item` is the list entry of the image `i`.
pub open spec fn lists_image(item: ImageListItem, i: ImageView) -> bool {
    item.id@ == i.id && item.name@ == i.name && item.size_bytes == i.size_bytes && item.created_at
        == i.created_at
}

/// Whether `item` is layer `k` in the history of the image `i`: the
/// layer of the image's instruction `k`, with an equal share of the
/// image's size.
pub open spec fn is_layer(item: ImageHistoryItem, i: ImageView, k: int) -> bool {
    &&& item.id@ == i.id + "-layer-"@ + decimal(k as nat)
    &&& item.created_at == i.created_at
    &&& item.size_bytes == i.size_bytes / (i.dockerfile.len() as u64)
    &&& item.created_by@ == described(i.dockerfile[k])
}

/// The message that says that an image is missing.
pub open spec fn no_image_message(key: Seq<char>) -> Seq<char> {
    "Resource not found: "@ + ("Image '"@ + key + "'"@)
}

fn image_info(i: &Image) -> (r: ImageInfo)
    ensures
        shows_image(r, i@),
{
    ImageInfo {
        id: i.id.clone(),
        name: i.name.clone(),
        parent_id: clone_opt(&i.parent_id),
        size_bytes: i.size_bytes,
        state: i.state.to_string(),
        created_at: i.created_at,
    }
}

/// Lists the jails.
pub fn list_jails(manager: &JailManager) -> (h: Handled)
    ensures
        jails_listed(manager, h),
{
    let states = manager.jail_states();
    let mut items: Vec<JailListItem> = Vec::new();
    let mut i: usize = 0;
    while i < states.len()
        invariant
            i <= states.len(),
            states@.len() == manager.jails().len(),
            forall|k: int|
                0 <= k < states@.len() ==> (#[trigger] states@[k]).0@ == manager.jails()[k].name
                    && states@[k].1 == manager.jails()[k].state,
            items.len() == i,
            forall|k: int| 0 <= k < i ==> lists_jail(#[trigger] items@[k], manager.jails()[k]),
        decreases states.len() - i,
    {
        items.push(JailListItem::of(states[i].0.clone(), states[i].1));
        i += 1;
    }
    reply(Response::success(Payload::JailList(items)))
}

/// Shows one jail.
pub fn get_jail(manager: &JailManager, name: &str) -> (h: Handled)
    ensures
        jail_shown(manager, name@, h),
{
    match manager.get_jail(name) {
        Some(jail) => reply(Response::success(Payload::Jail(jail_info(jail)))),
        None => reply(Response::not_found(concat3("Jail '", name, "'"))),
    }
}

/// Creates a jail: the name is checked, a name that is taken is a
/// conflict, and the new jail is in state `created` without a JID.
pub fn create_jail(manager: &mut JailManager, request: CreateJailRequest) -> (h: Handled)
    requires
        old(manager).wf(),
    ensures
        final(manager).wf(),
        jail_created(old(manager), final(manager), request, h),
{
    match request.validate() {
        Ok(()) => {},
        Err(e) => {
            return reply(Response::bad_request(e.message));
        },
    }
    if manager.get_jail(request.name.as_str()).is_some() {
        return reply(
            Response::conflict(concat3("Jail '", request.name.as_str(), "' already exists")),
        );
    }
    let jail = match Jail::create(request.name.as_str()) {
        Ok(j) => j,
        Err(e) => {
            return reply(jail_error_response(e));
        },
    };
    let jail = match &request.path {
        Some(p) => match jail.with_path(p.as_str()) {
            Ok(j) => j,
            Err(e) => {
                return reply(Response::bad_request(ApiError::from_jail_error(e).message));
            },
        },
        None => jail,
    };
    let jail = match &request.ip {
        Some(ip) => match jail.with_ip(ip.as_str()) {
            Ok(j) => j,
            Err(e) => {
                return reply(Response::bad_request(ApiError::from_jail_error(e).message));
            },
        },
        None => jail,
    };
    match manager.insert_jail(jail) {
        Ok(row) => {
            let info = JailInfo {
                name: request.name,
                jid: -1,
                state: "created".to_owned(),
                path: request.path,
            };
            reply_and_store(Response::created(Payload::Jail(info)), StoreOp::InsertJail(row))
        },
        Err(e) => reply(jail_error_response(e)),
    }
}

/// Starts a jail: the answer waits for the kernel.
pub fn start_jail(manager: &JailManager, name: &str, host: &Host) -> (h: Handled)
    ensures
        jail_start_asked(manager, name@, *host, h),
{
    match manager.start_jail(name, host) {
        Ok(plan) => perform(Task::StartJail { name: name.to_owned(), plan }),
        Err(e) => {
            proof {
                if !has_jail(manager.jails(), name@) {
                    lemma_not_found_is_404(e, name@);
                }
                lemma_codes_differ();
            }
            reply(jail_error_response(e))
        },
    }
}

/// The codes of failures are not the codes of other answers.
proof fn lemma_codes_differ()
    ensures
        "START_FAILED"@ != "NOT_FOUND"@,
        "START_FAILED"@ != "BAD_REQUEST"@,
        "START_FAILED"@ != "CONFLICT"@,
        "STOP_FAILED"@ != "NOT_FOUND"@,
        "STOP_FAILED"@ != "BAD_REQUEST"@,
        "STOP_FAILED"@ != "CONFLICT"@,
        "DESTROY_FAILED"@ != "NOT_FOUND"@,
        "DESTROY_FAILED"@ != "BAD_REQUEST"@,
        "DESTROY_FAILED"@ != "CONFLICT"@,
{
    reveal_strlit("START_FAILED");
    reveal_strlit("STOP_FAILED");
    reveal_strlit("DESTROY_FAILED");
    reveal_strlit("NOT_FOUND");
    reveal_strlit("BAD_REQUEST");
    reveal_strlit("CONFLICT");
    assert("START_FAILED"@.len() == 12);
    assert("STOP_FAILED"@[0] == 'S');
    assert("DESTROY_FAILED"@.len() == 14);
    assert("NOT_FOUND"@[0] == 'N');
    assert("BAD_REQUEST"@[0] == 'B');
    assert("CONFLICT"@.len() == 8);
}

/// A message that says that a jail was not found is reported as missing.
pub proof fn lemma_not_found_is_404(e: JailError, name: Seq<char>)
    requires
        e.detail() == "Jail '"@ + name + "' not found"@,
        e is StartFailed || e is StopFailed || e is DestroyFailed,
    ensures
        crate::api::jail_error_code(e) == "NOT_FOUND"@,
{
    let m = "Jail '"@ + name + "' not found"@;
    let p = "not found"@;
    reveal_strlit("' not found");
    reveal_strlit("not found");
    reveal_strlit("Jail '");
    let at = (6 + name.len() + 2) as int;
    assert(m.len() == 6 + name.len() + 11);
    assert(m.subrange(at, at + p.len()) =~= p);
    assert(crate::text::occurs_at(m, p, at));
}

/// Stops a jail: the answer waits for the kernel.
pub fn stop_jail(manager: &JailManager, name: &str, host: &Host) -> (h: Handled)
    ensures
        jail_stop_asked(manager, name@, *host, h),
{
    match manager.stop_jail(name, host) {
        Ok(plan) => perform(Task::StopJail { name: name.to_owned(), plan }),
        Err(e) => {
            proof {
                if !has_jail(manager.jails(), name@) {
                    lemma_not_found_is_404(e, name@);
                }
                lemma_codes_differ();
            }
            reply(jail_error_response(e))
        },
    }
}

fn deleted_message(kind: &str, name: &str, verb: &str) -> (r: Response)
    ensures
        r.status == 200,
        r.error is None,
        r.data matches Some(Payload::Message(m)) && m@ == kind@ + name@ + verb@,
{
    Response::success(Payload::Message(concat3(kind, name, verb)))
}

/// Deletes a jail. A jail that is not running is gone at once; a running
/// jail has to leave the kernel first, and the answer waits for that.
pub fn delete_jail(manager: &mut JailManager, name: &str, host: &Host) -> (h: Handled)
    requires
        old(manager).wf(),
    ensures
        final(manager).wf(),
        jail_deleted(old(manager), final(manager), name@, *host, h),
{
    let ghost before = manager.jails();
    match manager.remove_jail(name, host) {
        Ok(None) => {
            proof {
                crate::manager::lemma_unique_jail(before, name@);
            }
            reply_and_store(
                deleted_message("Jail '", name, "' deleted"),
                StoreOp::DeleteJail(name.to_owned()),
            )
        },
        Ok(Some(plan)) => perform(Task::RemoveJail { name: name.to_owned(), plan }),
        Err(e) => {
            proof {
                crate::manager::lemma_unique_jail(before, name@);
                if !has_jail(before, name@) {
                    lemma_not_found_is_404(e, name@);
                }
                lemma_codes_differ();
            }
            reply(jail_error_response(e))
        },
    }
}

/// What asking for the bootstrap of a jail gives: 404 for a jail that is
/// not there, else the task of looking whether the jail's root holds a
/// base system, which `bin/sh` below the root stands for.
pub open spec fn bootstrap_asked(
    m: &JailManager,
    name: Seq<char>,
    config: BootstrapConfig,
    h: Handled,
) -> bool {
    if !has_jail(m.jails(), name) {
        refused_with(h, 404, "NOT_FOUND"@, no_jail_message(name))
    } else {
        waits_for(h) && (h.task matches Some(
            Task::Bootstrap { name: n, jail_path, marker, config: c },
        ) && n@ == name && c == config && marker@ == crate::path::joined(jail_path@, "bin/sh"@)
            && exists|i: int|
            0 <= i < m.jails().len() && (#[trigger] m.jails()[i]).name == name && jail_path@
                == m.jails()[i].root())
    }
}

/// What asking for the progress of a bootstrap gives: the latest report,
/// or 404 where no bootstrap of the jail is tracked.
pub open spec fn bootstrap_shown(m: &JailManager, name: Seq<char>, h: Handled) -> bool {
    if m.bootstraps().contains_key(name) {
        &&& answered(h, 200)
        &&& h.task is None
        &&& h.store@.len() == 0
        &&& h.response->0.data matches Some(Payload::Bootstrap(p)) && same_report(
            p,
            m.bootstraps()[name],
        )
    } else {
        refused_with(
            h,
            404,
            "NOT_FOUND"@,
            "Resource not found: "@ + ("No bootstrap progress for jail '"@ + name + "'"@),
        )
    }
}

/// Asks for the bootstrap of a jail. The answer waits for a look at the
/// jail's root.
pub fn bootstrap_jail(manager: &JailManager, name: &str, config: BootstrapConfig) -> (h: Handled)
    ensures
        bootstrap_asked(manager, name@, config, h),
{
    match manager.get_jail(name) {
        Some(jail) => {
            let jail_path = jail.root();
            let marker = bootstrap_marker(jail_path.as_str());
            perform(Task::Bootstrap { name: name.to_owned(), jail_path, marker, config })
        },
        None => reply(Response::not_found(concat3("Jail '", name, "'"))),
    }
}

/// Shows the latest progress of a jail's bootstrap.
pub fn get_bootstrap_progress(manager: &JailManager, name: &str) -> (h: Handled)
    ensures
        bootstrap_shown(manager, name@, h),
{
    match manager.get_bootstrap_progress(name) {
        Some(p) => reply(Response::success(Payload::Bootstrap(p.duplicate()))),
        None => reply(
            Response::not_found(concat3("No bootstrap progress for jail '", name, "'")),
        ),
    }
}

/// What listing the images gives: every image, oldest first.
pub open spec fn images_listed(m: &JailManager, h: Handled) -> bool {
    &&& answered(h, 200)
    &&& h.task is None
    &&& h.store@.len() == 0
    &&& h.response->0.data matches Some(Payload::ImageList(v)) && v@.len() == m.images().len()
        && forall|i: int| 0 <= i < v@.len() ==> lists_image(#[trigger] v@[i], m.images()[i])
}

/// What asking for one image gives: the image that the key stands for, or
/// 404.
pub open spec fn image_shown(m: &JailManager, key: Seq<char>, h: Handled) -> bool {
    if resolves_to_nothing(m.images(), key) {
        refused_with(h, 404, "NOT_FOUND"@, no_image_message(key))
    } else {
        &&& answered(h, 200)
        &&& h.task is None
        &&& h.store@.len() == 0
        &&& h.response->0.data matches Some(Payload::Image(x)) && exists|i: int|
            resolves_to(m.images(), key, i) && shows_image(x, #[trigger] m.images()[i])
    }
}

/// What asking for the history of an image gives: one layer for each
/// instruction of the image that the key stands for, or 404.
pub open spec fn history_shown(m: &JailManager, key: Seq<char>, h: Handled) -> bool {
    if resolves_to_nothing(m.images(), key) {
        refused_with(h, 404, "NOT_FOUND"@, no_image_message(key))
    } else {
        &&& answered(h, 200)
        &&& h.task is None
        &&& h.store@.len() == 0
        &&& h.response->0.data matches Some(Payload::ImageHistory(v)) && exists|i: int|
            resolves_to(m.images(), key, i) && v@.len() == (#[trigger] m.images()[i]).dockerfile.len()
                && forall|k: int| 0 <= k < v@.len() ==> is_layer(#[trigger] v@[k], m.images()[i], k)
    }
}

/// Lists the images.
pub fn list_images(manager: &JailManager) -> (h: Handled)
    ensures
        images_listed(manager, h),
{
    let images = manager.list_images();
    let mut items: Vec<ImageListItem> = Vec::new();
    let mut i: usize = 0;
    while i < images.len()
        invariant
            i <= images.len(),
            images@.len() == manager.images().len(),
            forall|k: int| 0 <= k < images@.len() ==> (#[trigger] images@[k])@ == manager.images()[k],
            items.len() == i,
            forall|k: int| 0 <= k < i ==> lists_image(#[trigger] items@[k], manager.images()[k]),
        decreases images.len() - i,
    {
        let image = images[i];
        items.push(
            ImageListItem {
                id: image.id.clone(),
                name: image.name.clone(),
                size_bytes: image.size_bytes,
                created_at: image.created_at,
            },
        );
        i += 1;
    }
    reply(Response::success(Payload::ImageList(items)))
}

/// Shows one image, found by identifier, name or beginning of identifier.
pub fn get_image(manager: &JailManager, id_or_name: &str) -> (h: Handled)
    ensures
        image_shown(manager, id_or_name@, h),
{
    match manager.find_image(id_or_name) {
        Some(image) => reply(Response::success(Payload::Image(image_info(image)))),
        None => reply(Response::not_found(concat3("Image '", id_or_name, "'"))),
    }
}

/// The history of an image: one layer per instruction, each with an equal
/// share of the image's size.
pub fn get_image_history(manager: &JailManager, id_or_name: &str) -> (h: Handled)
    ensures
        history_shown(manager, id_or_name@, h),
{
    match manager.find_image(id_or_name) {
        Some(image) => {
            let n = image.dockerfile.len();
            let mut items: Vec<ImageHistoryItem> = Vec::new();
            let mut k: usize = 0;
            while k < n
                invariant
                    k <= n,
                    n == image.dockerfile@.len(),
                    n == image@.dockerfile.len(),
                    items.len() == k,
                    forall|j: int| 0 <= j < k ==> is_layer(#[trigger] items@[j], image@, j),
                decreases n - k,
            {
                let mut id = concat2(image.id.as_str(), "-layer-");
                id.append(string_of(&decimal_chars(k as u64)).as_str());
                items.push(
                    ImageHistoryItem {
                        id,
                        created_at: image.created_at,
                        size_bytes: image.size_bytes / (n as u64),
                        created_by: describe(&image.dockerfile[k]),
                    },
                );
                k += 1;
            }
            reply(Response::success(Payload::ImageHistory(items)))
        },
        None => reply(Response::not_found(concat3("Image '", id_or_name, "'"))),
    }
}

/// The base image that a Dockerfile names, if it names one that has to be
/// there: the first word after its first `FROM`, unless that is
/// `scratch`.
pub open spec fn named_base(dockerfile: Seq<char>) -> Option<Seq<char>> {
    match from_in(crate::text::lines(dockerfile), 0) {
        Some(base) => if base == "scratch"@ {
            None
        } else {
            Some(base)
        },
        None => None,
    }
}

/// Why the build of an image is not accepted, as status, code and
/// message; none if it is accepted. In this order: the name is empty; the
/// Dockerfile is empty; the first image of that name is available; there
/// is no ZFS; what the Dockerfile names as its base stands for no image,
/// be it as identifier, as name or as beginning of an identifier.
pub open spec fn build_refusal(m: &JailManager, request: BuildImageRequest) -> Option<
    (u16, Seq<char>, Seq<char>),
> {
    if request.name@.len() == 0 {
        Some((400u16, "BAD_REQUEST"@, "Image name cannot be empty"@))
    } else if request.dockerfile@.len() == 0 {
        Some((400u16, "BAD_REQUEST"@, "Dockerfile cannot be empty"@))
    } else if exists|i: int|
        first_named(m.images(), request.name@, i) && (#[trigger] m.images()[i]).state
            == ImageState::Available {
        Some((409u16, "CONFLICT"@, "Image '"@ + request.name@ + "' already exists"@))
    } else if !m.has_zfs() {
        Some((500u16, "INTERNAL_ERROR"@, "ZFS not configured"@))
    } else {
        match named_base(request.dockerfile@) {
            Some(base) => if resolves_to_nothing(m.images(), base) {
                Some(
                    (
                        400u16,
                        "BAD_REQUEST"@,
                        "Base image '"@ + base
                            + "' not found. Ensure the base image exists or build it first."@,
                    ),
                )
            } else {
                None
            },
            None => None,
        }
    }
}

/// What asking for the build of an image gives: the refusal, if there is
/// a reason for one; else 202 under the code `BUILD_STARTED`, a first
/// report under a fresh build identifier, and the task of building the
/// image upon the image that the Dockerfile names as its base.
pub open spec fn build_accepted(
    before: &JailManager,
    after: &JailManager,
    request: BuildImageRequest,
    h: Handled,
) -> bool {
    &&& untouched(before, after)
    &&& after.bootstraps() == before.bootstraps()
    &&& h.store@.len() == 0
    &&& match build_refusal(before, request) {
        Some(why) => refused_with(h, why.0, why.1, why.2) && after.builds() == before.builds(),
        None => {
            &&& refused(h, 202, "BUILD_STARTED"@)
            &&& h.task matches Some(Task::BuildImage { build_id, name, dockerfile, build_args, base })
                && {
                &&& is_id_text(build_id@)
                &&& name@ == request.name@
                &&& dockerfile@ == request.dockerfile@
                &&& build_args@ == request.build_args@
                &&& match named_base(request.dockerfile@) {
                    Some(b) => base matches Some(image) && exists|i: int|
                        resolves_to(before.images(), b, i) && #[trigger] before.images()[i]
                            == image@,
                    None => base is None,
                }
                &&& h.response->0.error->0.message@ == "Image build started for '"@ + request.name@
                    + "'. ID: "@ + build_id@ + ". Use GET /images/"@ + build_id@
                    + "/history to track progress."@
                &&& after.builds().dom() == before.builds().dom().insert(build_id@)
                &&& after.builds()[build_id@].says(
                    build_id@,
                    0,
                    0,
                    "Initializing..."@,
                    BuildStatus::Building,
                )
                &&& forall|k: Seq<char>|
                    k != build_id@ && before.builds().contains_key(k) ==> after.builds()[k]
                        == before.builds()[k]
            }
        },
    }
}

/// Accepts the build of an image. The request is checked, the base image
/// that the Dockerfile names is looked up by identifier, name or beginning
/// of identifier, and the build goes on in the background under a fresh
/// identifier.
pub fn build_image(manager: &mut JailManager, request: BuildImageRequest) -> (h: Handled)
    requires
        old(manager).wf(),
    ensures
        final(manager).wf(),
        build_accepted(old(manager), final(manager), request, h),
{
    if request.name.as_str().is_empty() {
        return reply(Response::bad_request("Image name cannot be empty".to_owned()));
    }
    if request.dockerfile.as_str().is_empty() {
        return reply(Response::bad_request("Dockerfile cannot be empty".to_owned()));
    }
    match manager.get_image_by_name(request.name.as_str()) {
        Some(existing) => {
            if existing.is_available() {
                return reply(
                    Response::conflict(
                        concat3("Image '", request.name.as_str(), "' already exists"),
                    ),
                );
            }
            proof {
                lemma_first_named_is_one(manager.images(), request.name@);
            }
        },
        None => {},
    }
    if manager.zfs().is_none() {
        return reply(Response::internal_error("ZFS not configured".to_owned()));
    }
    let base: Option<Image> = match parse_from_instruction(request.dockerfile.as_str()) {
        Ok(from_name) => {
            if str_eq(from_name.as_str(), "scratch") {
                None
            } else {
                match manager.find_image(from_name.as_str()) {
                    Some(img) => Some(img.duplicate()),
                    None => {
                        return reply(
                            Response::bad_request(
                                concat3(
                                    "Base image '",
                                    from_name.as_str(),
                                    "' not found. Ensure the base image exists or build it first.",
                                ),
                            ),
                        );
                    },
                }
            }
        },
        Err(_) => None,
    };
    let build_id = Image::generate_id();
    manager.set_build_progress(
        build_id.clone(),
        ImageBuildProgress {
            image_id: build_id.clone(),
            step: 0,
            total_steps: 0,
            current_instruction: "Initializing...".to_owned(),
            status: BuildStatus::Building,
        },
    );
    let mut message = concat3("Image build started for '", request.name.as_str(), "'. ID: ");
    message.append(build_id.as_str());
    message.append(". Use GET /images/");
    message.append(build_id.as_str());
    message.append("/history to track progress.");
    Handled {
        response: Some(Response::error(202, ApiError::new("BUILD_STARTED", message))),
        store: Vec::new(),
        task: Some(
            Task::BuildImage {
                build_id,
                name: request.name,
                dockerfile: request.dockerfile,
                build_args: request.build_args,
                base,
            },
        ),
    }
}

/// Only one position holds the first image of a name.
pub proof fn lemma_first_named_is_one(is: Seq<ImageView>, name: Seq<char>)
    ensures
        forall|a: int, b: int|
            first_named(is, name, a) && first_named(is, name, b) ==> a == b,
{
    assert forall|a: int, b: int| first_named(is, name, a) && first_named(is, name, b) implies a
        == b by {
        if a < b {
            assert(is.take(b)[a].name != name);
        }
        if b < a {
            assert(is.take(a)[b].name != name);
        }
    }
}

/// What the end of a build leaves: a built image is taken in under the
/// build's identifier, in place of an image of that identifier if there
/// is one, and is to be written to the database; the build's report says
/// complete. A build that failed is reported as failed, and so is one
/// whose image has the name of another image.
pub open spec fn build_recorded(
    before: &JailManager,
    after: &JailManager,
    build_id: Seq<char>,
    result: Result<Image, ImageError>,
    store: Seq<StoreOp>,
) -> bool {
    &&& after.jails() == before.jails()
    &&& after.containers() == before.containers()
    &&& after.bootstraps() == before.bootstraps()
    &&& after.builds().dom() == before.builds().dom().insert(build_id)
    &&& forall|k: Seq<char>|
        k != build_id && before.builds().contains_key(k) ==> after.builds()[k]
            == before.builds()[k]
    &&& match result {
        Ok(image) => {
            let taken = ImageView { id: build_id, ..image@ };
            if image_name_taken(before.images(), image@.name, build_id) {
                &&& store.len() == 0
                &&& after.images() == before.images()
                &&& after.builds()[build_id].says(
                    build_id,
                    0,
                    0,
                    "Build failed: "@ + ("Database error: "@ + ("Image '"@ + image@.name
                        + "' already exists"@)),
                    BuildStatus::Failed,
                )
            } else {
                &&& store.len() == 1
                &&& store[0] matches StoreOp::InsertImage(x) && x@ == taken
                &&& if has_image(before.images(), build_id) {
                    exists|i: int|
                        0 <= i < before.images().len() && (#[trigger] before.images()[i]).id
                            == build_id && after.images() == before.images().update(i, taken)
                } else {
                    after.images() == before.images().push(taken)
                }
                &&& after.builds()[build_id].says(
                    build_id,
                    image@.dockerfile.len() as int,
                    image@.dockerfile.len() as int,
                    "Build complete"@,
                    BuildStatus::Complete,
                )
            }
        },
        Err(e) => {
            &&& store.len() == 0
            &&& after.images() == before.images()
            &&& after.builds()[build_id].says(
                build_id,
                0,
                0,
                "Build failed: "@ + e.text(),
                BuildStatus::Failed,
            )
        },
    }
}

/// Records how a build ended: a built image is taken in under the build's
/// identifier and is to be written to the database; the build's progress
/// says complete or failed.
pub fn build_finished(manager: &mut JailManager, build_id: &str, result: Result<Image, ImageError>)
    -> (store: Vec<StoreOp>)
    requires
        old(manager).wf(),
    ensures
        final(manager).wf(),
        build_recorded(old(manager), final(manager), build_id@, result, store@),
{
    let mut store: Vec<StoreOp> = Vec::new();
    match result {
        Ok(image) => {
            let total = image.dockerfile.len();
            let mut image = image;
            image.id = build_id.to_owned();
            let copy = image.duplicate();
            match manager.add_image(image) {
                Ok(()) => {
                    manager.set_build_progress(
                        build_id.to_owned(),
                        ImageBuildProgress {
                            image_id: build_id.to_owned(),
                            step: total,
                            total_steps: total,
                            current_instruction: "Build complete".to_owned(),
                            status: BuildStatus::Complete,
                        },
                    );
                    store.push(StoreOp::InsertImage(copy));
                },
                Err(e) => {
                    manager.set_build_progress(
                        build_id.to_owned(),
                        ImageBuildProgress {
                            image_id: build_id.to_owned(),
                            step: 0,
                            total_steps: 0,
                            current_instruction: concat2("Build failed: ", e.to_string().as_str()),
                            status: BuildStatus::Failed,
                        },
                    );
                },
            }
        },
        Err(e) => {
            manager.set_build_progress(
                build_id.to_owned(),
                ImageBuildProgress {
                    image_id: build_id.to_owned(),
                    step: 0,
                    total_steps: 0,
                    current_instruction: concat2("Build failed: ", e.to_string().as_str()),
                    status: BuildStatus::Failed,
                },
            );
        },
    }
    store
}

/// What deleting an image gives: 404 where the key stands for no image; a
/// refusal for an image that a container was made from; else 200, and the
/// image is gone, is to be deleted from the database, and its snapshot is
/// to be destroyed.
pub open spec fn image_deleted(
    before: &JailManager,
    after: &JailManager,
    key: Seq<char>,
    h: Handled,
) -> bool {
    &&& after.jails() == before.jails()
    &&& after.containers() == before.containers()
    &&& if resolves_to_nothing(before.images(), key) {
        refused_with(h, 404, "NOT_FOUND"@, no_image_message(key)) && after.images()
            == before.images()
    } else {
        exists|i: int|
            resolves_to(before.images(), key, i) && if uses_image(
                before.containers(),
                (#[trigger] before.images()[i]).id,
            ) {
                refused_with(
                    h,
                    500,
                    "INTERNAL_ERROR"@,
                    "Failed to delete image: "@ + ("Database error: "@ + ("Image '"@
                        + before.images()[i].id + "' is used by a container"@)),
                ) && after.images() == before.images()
            } else {
                &&& answered(h, 200)
                &&& h.response->0.data matches Some(Payload::Message(m)) && m@ == "Image '"@ + key
                    + "' deleted"@
                &&& h.store@.len() == 1
                &&& h.store@[0] matches StoreOp::DeleteImage(id) && id@ == before.images()[i].id
                &&& h.task matches Some(Task::RemoveImage(x)) && x.id@ == before.images()[i].id
                    && match x.destroy {
                    Some(c) => before.has_zfs() && c.input() is None && c.line() == seq![
                        "zfs"@,
                        "destroy"@,
                        "-r"@,
                        before.images()[i].snapshot,
                    ],
                    None => !before.has_zfs(),
                }
                &&& after.images() == before.images().remove(i)
            }
    }
}

/// Deletes an image, found by identifier, name or beginning of identifier.
/// An image that a container was made from stays.
pub fn delete_image(manager: &mut JailManager, id_or_name: &str) -> (h: Handled)
    requires
        old(manager).wf(),
    ensures
        final(manager).wf(),
        image_deleted(old(manager), final(manager), id_or_name@, h),
{
    let id = match manager.find_image(id_or_name) {
        Some(image) => image.id.clone(),
        None => {
            return reply(Response::not_found(concat3("Image '", id_or_name, "'")));
        },
    };
    proof {
        crate::manager::lemma_unique_image(manager.images(), id@);
    }
    match manager.remove_image(id.as_str()) {
        Ok(removal) => {
            let mut store: Vec<StoreOp> = Vec::new();
            store.push(StoreOp::DeleteImage(id));
            Handled {
                response: Some(deleted_message("Image '", id_or_name, "' deleted")),
                store,
                task: Some(Task::RemoveImage(removal)),
            }
        },
        Err(e) => reply(
            Response::internal_error(concat2("Failed to delete image: ", e.to_string().as_str())),
        ),
    }
}

/// Whether `item` is the list entry of the container `c`.
pub open spec fn lists_container(item: ContainerListItem, c: ContainerView) -> bool {
    item.id@ == c.id && opt_view(item.name) == c.name && item.image_id@ == c.image_id
        && item.state@ == c.state.name() && opt_view(item.ip) == c.ip
}

/// What listing the containers gives: every container, oldest first.
pub open spec fn containers_listed(m: &JailManager, h: Handled) -> bool {
    &&& answered(h, 200)
    &&& h.task is None
    &&& h.store@.len() == 0
    &&& h.response->0.data matches Some(Payload::ContainerList(v)) && v@.len()
        == m.containers().len() && forall|i: int|
        0 <= i < v@.len() ==> lists_container(#[trigger] v@[i], m.containers()[i])
}

/// Lists the containers.
pub fn list_containers(manager: &JailManager) -> (h: Handled)
    ensures
        containers_listed(manager, h),
{
    let containers = manager.list_containers();
    let mut items: Vec<ContainerListItem> = Vec::new();
    let mut i: usize = 0;
    while i < containers.len()
        invariant
            i <= containers.len(),
            containers@.len() == manager.containers().len(),
            forall|k: int|
                0 <= k < containers@.len() ==> (#[trigger] containers@[k])@
                    == manager.containers()[k],
            items.len() == i,
            forall|k: int|
                0 <= k < i ==> lists_container(#[trigger] items@[k], manager.containers()[k]),
        decreases containers.len() - i,
    {
        let c = containers[i];
        items.push(
            ContainerListItem {
                id: c.id.clone(),
                name: clone_opt(&c.name),
                image_id: c.image_id.clone(),
                state: c.state.to_string(),
                ip: clone_opt(&c.ip),
            },
        );
        i += 1;
    }
    reply(Response::success(Payload::ContainerList(items)))
}

/// What asking for one container gives: the container that the key stands
/// for, or 404.
pub open spec fn container_shown(m: &JailManager, key: Seq<char>, h: Handled) -> bool {
    &&& resolves_to_no_container(m.containers(), key) ==> refused_with(
            h,
            404,
            "NOT_FOUND"@,
            no_container_message(key),
        )
    &&& !resolves_to_no_container(m.containers(), key) ==> answered(h, 200)
            && h.task is None && h.store@.len() == 0 && (h.response->0.data matches Some(
            Payload::Container(c),
        ) && exists|k: int|
            container_resolves_to(m.containers(), key, k) && shows_container(
                c,
                #[trigger] m.containers()[k],
            ))
}

/// Shows one container, found by identifier, name or beginning of
/// identifier.
pub fn get_container(manager: &JailManager, id_or_name: &str) -> (h: Handled)
    ensures
        container_shown(manager, id_or_name@, h),
{
    match manager.find_container(id_or_name) {
        Some(c) => reply(Response::success(Payload::Container(container_info(c)))),
        None => reply(Response::not_found(concat3("Container '", id_or_name, "'"))),
    }
}

/// The port mappings of a request as the manager keeps them: `udp` is UDP,
/// anything else TCP.
pub open spec fn ports_read(ports: Seq<crate::api::PortMapping>) -> Seq<PortMapping> {
    Seq::new(
        ports.len(),
        |i: int|
            PortMapping {
                host_port: ports[i].host_port,
                container_port: ports[i].container_port,
                protocol: if ports[i].protocol@ == "udp"@ {
                    PortProtocol::Udp
                } else {
                    PortProtocol::Tcp
                },
            },
    )
}

/// The mounts of a request as the manager keeps them: `zfs` is a ZFS
/// mount, anything else a null mount; all are writable.
pub open spec fn mounts_read(volumes: Seq<crate::api::Mount>) -> Seq<MountView> {
    Seq::new(
        volumes.len(),
        |i: int|
            MountView {
                source: volumes[i].source@,
                destination: volumes[i].destination@,
                mount_type: if volumes[i].mount_type@ == "zfs"@ {
                    MountType::Zfs
                } else {
                    MountType::Nullfs
                },
                read_only: false,
            },
    )
}

fn read_ports(ports: &Vec<crate::api::PortMapping>) -> (r: Vec<PortMapping>)
    ensures
        r@ == ports_read(ports@),
{
    let mut out: Vec<PortMapping> = Vec::new();
    let mut i: usize = 0;
    while i < ports.len()
        invariant
            i <= ports.len(),
            out@ == ports_read(ports@).take(i as int),
        decreases ports.len() - i,
    {
        let protocol = if str_eq(ports[i].protocol.as_str(), "udp") {
            PortProtocol::Udp
        } else {
            PortProtocol::Tcp
        };
        out.push(PortMapping::new(ports[i].host_port, ports[i].container_port, protocol));
        assert(out@ =~= ports_read(ports@).take(i as int + 1));
        i += 1;
    }
    assert(out@ =~= ports_read(ports@));
    out
}

fn read_mounts(volumes: &Vec<crate::api::Mount>) -> (r: Vec<Mount>)
    ensures
        crate::container::mounts_view(r@) == mounts_read(volumes@),
{
    let mut out: Vec<Mount> = Vec::new();
    let mut i: usize = 0;
    while i < volumes.len()
        invariant
            i <= volumes.len(),
            out.len() == i,
            crate::container::mounts_view(out@) == mounts_read(volumes@).take(i as int),
        decreases volumes.len() - i,
    {
        let mount_type = if str_eq(volumes[i].mount_type.as_str(), "zfs") {
            MountType::Zfs
        } else {
            MountType::Nullfs
        };
        let ghost before = out@;
        let mount = Mount::new(
            volumes[i].source.clone(),
            volumes[i].destination.clone(),
            mount_type,
            false,
        );
        let ghost mv = mount@;
        out.push(mount);
        proof {
            let want = mounts_read(volumes@).take(i as int + 1);
            let have = crate::container::mounts_view(out@);
            assert(have.len() == want.len());
            assert forall|k: int| 0 <= k < have.len() implies have[k] == want[k] by {
                if k < i {
                    assert(out@[k] == before[k]);
                    assert(crate::container::mounts_view(before)[k] == mounts_read(volumes@).take(
                        i as int,
                    )[k]);
                } else {
                    assert(out@[k]@ == mv);
                }
            }
            assert(have =~= want);
        }
        i += 1;
    }
    assert(crate::container::mounts_view(out@) =~= mounts_read(volumes@));
    out
}

/// What asking for a container of an image gives: 404 where the key
/// stands for no image; 400 for a restart policy without meaning; 409 for
/// a name that a container has; a refusal for an image that is not
/// available; else the task of cloning the image's snapshot for the
/// container that was drafted.
pub open spec fn container_drafted(
    m: &JailManager,
    request: CreateContainerRequest,
    h: Handled,
) -> bool {
    if resolves_to_nothing(m.images(), request.image_id@) {
        refused_with(h, 404, "NOT_FOUND"@, no_image_message(request.image_id@))
    } else {
        match RestartPolicy::named(request.restart_policy@) {
            None => refused_with(
                h,
                400,
                "BAD_REQUEST"@,
                "Invalid restart policy: "@ + request.restart_policy@,
            ),
            Some(policy) => if name_taken(m.containers(), opt_view(request.name)) {
                refused_with(
                    h,
                    409,
                    "CONFLICT"@,
                    "Container '"@ + request.name->0@ + "' already exists"@,
                )
            } else {
                exists|i: int|
                    resolves_to(m.images(), request.image_id@, i) && if (
                    #[trigger] m.images()[i]).state != ImageState::Available {
                    refused_with(
                        h,
                        500,
                        "INTERNAL_ERROR"@,
                        "Failed to create container: "@ + ("Serialization error: "@ + ("Image "@
                            + m.images()[i].id + " is not available"@)),
                    )
                } else {
                    waits_for(h) && (h.task matches Some(Task::CreateContainer(d)) && drafted(
                        d,
                        m.images()[i],
                        opt_view(request.name),
                        policy,
                        ports_read(request.ports@),
                        mounts_read(request.volumes@),
                        m.pool(),
                        m.has_zfs(),
                    ))
                }
            },
        }
    }
}

/// Prepares a container of an image, found by identifier, name or
/// beginning of identifier. The answer waits for the clone of the image's
/// snapshot.
pub fn create_container(manager: &JailManager, request: CreateContainerRequest) -> (h: Handled)
    requires
        manager.wf(),
    ensures
        container_drafted(manager, request, h),
{
    let image_id = match manager.find_image(request.image_id.as_str()) {
        Some(image) => image.id.clone(),
        None => {
            return reply(Response::not_found(concat3("Image '", request.image_id.as_str(), "'")));
        },
    };
    proof {
        crate::manager::lemma_unique_image(manager.images(), image_id@);
    }
    let restart_policy = match RestartPolicy::parse(request.restart_policy.as_str()) {
        Ok(p) => p,
        Err(_) => {
            return reply(
                Response::bad_request(
                    concat2("Invalid restart policy: ", request.restart_policy.as_str()),
                ),
            );
        },
    };
    match &request.name {
        Some(n) => {
            match manager.get_container_by_name(n.as_str()) {
                Some(c) => {
                    proof {
                        let w = choose|w: int|
                            0 <= w < manager.containers().len() && #[trigger] manager.containers()[w]
                                == c@;
                        assert(manager.containers()[w].name == opt_view(request.name));
                    }
                    return reply(
                        Response::conflict(concat3("Container '", n.as_str(), "' already exists")),
                    );
                },
                None => {},
            }
        },
        None => {},
    }
    let config = ContainerConfig {
        image_id,
        name: request.name,
        ports: read_ports(&request.ports),
        volumes: read_mounts(&request.volumes),
        restart_policy,
    };
    match manager.create_container(config) {
        Ok(draft) => perform(Task::CreateContainer(draft)),
        Err(e) => reply(
            Response::internal_error(
                concat2("Failed to create container: ", e.to_string().as_str()),
            ),
        ),
    }
}

/// The identifier of the container that a request means.
fn resolve_container(manager: &JailManager, id_or_name: &str) -> (r: Option<String>)
    ensures
        match r {
            Some(id) => exists|k: int|
                container_resolves_to(manager.containers(), id_or_name@, k) && (
                #[trigger] manager.containers()[k]).id == id@,
            None => resolves_to_no_container(manager.containers(), id_or_name@),
        },
{
    match manager.find_container(id_or_name) {
        Some(c) => Some(c.id.clone()),
        None => None,
    }
}

/// What asking for the start of a container gives: 404 where the key
/// stands for no container; else the container's jail gets the network, if
/// there is one, and either may not start, for the reason given, or is to
/// be started by the host.
pub open spec fn container_start_asked(
    before: &JailManager,
    after: &JailManager,
    key: Seq<char>,
    host: Host,
    network: Option<&ContainerNetwork>,
    h: Handled,
) -> bool {
    &&& after.images() == before.images()
    &&& resolves_to_no_container(before.containers(), key) ==> refused_with(
            h,
            404,
            "NOT_FOUND"@,
            no_container_message(key),
        ) && untouched(before, after)
    &&& !resolves_to_no_container(before.containers(), key) ==> exists|
            k: int,
            j: int,
        |
            #![trigger before.containers()[k], before.jails()[j]]
            container_resolves_to(before.containers(), key, k) && 0 <= j < before.jails().len()
                && before.jails()[j].name == before.containers()[k].jail_name
                && {
                let jail = networked(before.jails()[j], network);
                &&& after.jails() == before.jails().update(j, jail)
                &&& after.containers() == before.containers().update(
                    k,
                    addressed(before.containers()[k], network),
                )
                &&& match start_refusal(jail, host) {
                    None => waits_for(h) && (h.task matches Some(Task::StartContainer { id, plan })
                        && id@ == before.containers()[k].id && plan.is_for(jail)),
                    Some(why) => refused_with(
                        h,
                        500,
                        "INTERNAL_ERROR"@,
                        "Failed to start container: "@ + ("Serialization error: "@ + (
                        "Failed to start jail: "@ + why)),
                    ),
                }
            }
}

/// Starts a container, found by identifier, name or beginning of
/// identifier. With a network, the container's jail gets the network's
/// address and interface. The answer waits for the kernel, unless the
/// jail may not start.
pub fn start_container(
    manager: &mut JailManager,
    id_or_name: &str,
    host: &Host,
    network: Option<&ContainerNetwork>,
) -> (h: Handled)
    requires
        old(manager).wf(),
    ensures
        final(manager).wf(),
        container_start_asked(old(manager), final(manager), id_or_name@, *host, network, h),
{
    let id = match resolve_container(manager, id_or_name) {
        Some(id) => id,
        None => {
            return reply(Response::not_found(concat3("Container '", id_or_name, "'")));
        },
    };
    proof {
        crate::manager::lemma_unique_container(manager.containers(), id@);
    }
    match manager.start_container(id.as_str(), host, network) {
        Ok(plan) => perform(Task::StartContainer { id, plan }),
        Err(e) => reply(
            Response::internal_error(concat2("Failed to start container: ", e.to_string().as_str())),
        ),
    }
}

/// What asking for the stop of a container gives: 404 where the key
/// stands for no container; else the container's jail either may not stop,
/// for the reason given, or is to be stopped by the host.
pub open spec fn container_stop_asked(m: &JailManager, key: Seq<char>, host: Host, h: Handled) -> bool {
    &&& resolves_to_no_container(m.containers(), key) ==> refused_with(
            h,
            404,
            "NOT_FOUND"@,
            no_container_message(key),
        )
    &&& !resolves_to_no_container(m.containers(), key) ==> exists|k: int, j: int|
            #![trigger m.containers()[k], m.jails()[j]]
            container_resolves_to(m.containers(), key, k) && 0 <= j
                < m.jails().len() && m.jails()[j].name
                == m.containers()[k].jail_name && match stop_refusal(
                m.jails()[j],
                host,
            ) {
                None => waits_for(h) && (h.task matches Some(Task::StopContainer { id, plan })
                    && id@ == m.containers()[k].id && plan.is_for(m.jails()[j])),
                Some(why) => refused_with(
                    h,
                    500,
                    "INTERNAL_ERROR"@,
                    "Failed to stop container: "@ + ("Serialization error: "@ + (
                    "Failed to stop jail: "@ + why)),
                ),
            }
}

/// Stops a container, found by identifier, name or beginning of
/// identifier. The answer waits for the kernel, unless the jail may not
/// stop.
pub fn stop_container(manager: &JailManager, id_or_name: &str, host: &Host) -> (h: Handled)
    requires
        manager.wf(),
    ensures
        container_stop_asked(manager, id_or_name@, *host, h),
{
    let id = match resolve_container(manager, id_or_name) {
        Some(id) => id,
        None => {
            return reply(Response::not_found(concat3("Container '", id_or_name, "'")));
        },
    };
    proof {
        crate::manager::lemma_unique_container(manager.containers(), id@);
    }
    match manager.stop_container(id.as_str(), host) {
        Ok(plan) => perform(Task::StopContainer { id, plan }),
        Err(e) => reply(
            Response::internal_error(concat2("Failed to stop container: ", e.to_string().as_str())),
        ),
    }
}

/// What removing a container gives: 404 where the key stands for no
/// container; 400 for a running container; else 200, and the container and
/// its jail are gone, both are to be deleted from the database, the jail
/// is to leave the kernel if it is there, and the dataset is to be
/// destroyed.
pub open spec fn container_removed(
    before: &JailManager,
    after: &JailManager,
    key: Seq<char>,
    host: Host,
    h: Handled,
) -> bool {
    &&& after.images() == before.images()
    &&& resolves_to_no_container(before.containers(), key) ==> refused_with(
            h,
            404,
            "NOT_FOUND"@,
            no_container_message(key),
        ) && untouched(before, after)
    &&& !resolves_to_no_container(before.containers(), key) ==> exists|
            k: int,
            j: int,
        |
            #![trigger before.containers()[k], before.jails()[j]]
            container_resolves_to(before.containers(), key, k) && 0 <= j < before.jails().len()
                && before.jails()[j].name == before.containers()[k].jail_name
                && if before.containers()[k].state == ContainerState::Running {
                refused_with(
                    h,
                    400,
                    "BAD_REQUEST"@,
                    "Container '"@ + key + "' is running. Stop it first or use force flag."@,
                ) && untouched(before, after)
            } else {
                &&& answered(h, 200)
                &&& h.response->0.data matches Some(Payload::Message(m)) && m@ == "Container '"@
                    + key + "' removed"@
                &&& h.store@.len() == 2 && (h.store@[0] matches StoreOp::DeleteContainer(id) && id@
                    == before.containers()[k].id) && (h.store@[1] matches StoreOp::DeleteJail(n)
                    && n@ == before.containers()[k].jail_name)
                &&& h.task matches Some(Task::RemoveContainer(x))
                    && x.id@ == before.containers()[k].id && (match x.destroy {
                    Some(c) => before.has_zfs() && c.input() is None && c.line() == seq![
                        "zfs"@,
                        "destroy"@,
                        "-r"@,
                        before.containers()[k].dataset,
                    ],
                    None => !before.has_zfs(),
                }) && (match stop_refusal(before.jails()[j], host) {
                    None => x.stop matches Some(p) && p.is_for(before.jails()[j]),
                    Some(_) => x.stop is None,
                })
                &&& after.containers() == before.containers().remove(k)
                &&& after.jails() == before.jails().remove(j)
            }
}

/// Removes a container, found by identifier, name or beginning of
/// identifier, and its jail with it. A running container is not removed.
pub fn remove_container(manager: &mut JailManager, id_or_name: &str, host: &Host) -> (h: Handled)
    requires
        old(manager).wf(),
    ensures
        final(manager).wf(),
        container_removed(old(manager), final(manager), id_or_name@, *host, h),
{
    let (id, running) = match manager.find_container(id_or_name) {
        Some(c) => (c.id.clone(), c.is_running()),
        None => {
            return reply(Response::not_found(concat3("Container '", id_or_name, "'")));
        },
    };
    proof {
        crate::manager::lemma_unique_container(manager.containers(), id@);
        let k = choose|k: int|
            container_resolves_to(manager.containers(), id_or_name@, k) && (
            #[trigger] manager.containers()[k]).id == id@;
        assert(has_jail(manager.jails(), manager.containers()[k].jail_name));
    }
    if running {
        return reply(
            Response::bad_request(
                concat3(
                    "Container '",
                    id_or_name,
                    "' is running. Stop it first or use force flag.",
                ),
            ),
        );
    }
    match manager.remove_container(id.as_str(), host) {
        Ok(removal) => {
            let mut store: Vec<StoreOp> = Vec::new();
            store.push(StoreOp::DeleteContainer(id));
            store.push(StoreOp::DeleteJail(removal.jail_name.clone()));
            Handled {
                response: Some(deleted_message("Container '", id_or_name, "' removed")),
                store,
                task: Some(Task::RemoveContainer(removal)),
            }
        },
        Err(e) => reply(
            Response::internal_error(
                concat2("Failed to remove container: ", e.to_string().as_str()),
            ),
        ),
    }
}

/// What asking for a command in a container gives: 404 where the key
/// stands for no container; 400 for a container that is not running; else
/// the task of running `jexec` with the name of the container's jail and
/// the command, with a search path for programs in the environment.
pub open spec fn exec_asked(m: &JailManager, key: Seq<char>, request: ExecRequest, h: Handled) -> bool {
    &&& resolves_to_no_container(m.containers(), key) ==> refused_with(
            h,
            404,
            "NOT_FOUND"@,
            no_container_message(key),
        )
    &&& !resolves_to_no_container(m.containers(), key) ==> exists|k: int|
            container_resolves_to(m.containers(), key, k) && if (
            #[trigger] m.containers()[k]).state != ContainerState::Running {
                refused_with(
                    h,
                    400,
                    "BAD_REQUEST"@,
                    "Container '"@ + key + "' is not running. Start it first."@,
                )
            } else {
                waits_for(h) && (h.task matches Some(Task::Exec { command }) && command.input()
                    is None && command.line() == seq!["jexec"@, m.containers()[k].jail_name]
                    + crate::text::str_views(request.command@) && command.environment() == seq![
                    (
                        "PATH"@,
                        "/sbin:/bin:/usr/sbin:/usr/bin:/usr/local/sbin:/usr/local/bin:~/bin"@,
                    ),
                ])
            }
}

/// Runs a command in a container, found by identifier, name or beginning
/// of identifier. The container has to be running. The answer waits for
/// the command.
pub fn exec_container(manager: &JailManager, id_or_name: &str, request: ExecRequest) -> (h: Handled)
    ensures
        exec_asked(manager, id_or_name@, request, h),
{
    let container = match manager.find_container(id_or_name) {
        Some(c) => c,
        None => {
            return reply(Response::not_found(concat3("Container '", id_or_name, "'")));
        },
    };
    if !container.is_running() {
        return reply(
            Response::bad_request(
                concat3("Container '", id_or_name, "' is not running. Start it first."),
            ),
        );
    }
    let mut args = no_args();
    push_arg(&mut args, container.jail_name.as_str());
    let mut k: usize = 0;
    while k < request.command.len()
        invariant
            k <= request.command.len(),
            crate::text::str_views(args@) == seq![container.jail_name@] + crate::text::str_views(
                request.command@,
            ).take(k as int),
        decreases request.command.len() - k,
    {
        push_arg(&mut args, request.command[k].as_str());
        proof {
            let all = crate::text::str_views(request.command@);
            assert(all.take(k as int + 1) =~= all.take(k as int).push(all[k as int]));
            assert(crate::text::str_views(args@) =~= seq![container.jail_name@] + all.take(
                k as int + 1,
            ));
        }
        k += 1;
    }
    let command = HostCommand::new("jexec", args).with_env(
        "PATH",
        "/sbin:/bin:/usr/sbin:/usr/bin:/usr/local/sbin:/usr/local/bin:~/bin",
    );
    proof {
        let all = crate::text::str_views(request.command@);
        assert(all.take(k as int) =~= all);
        assert(command.line() =~= seq!["jexec"@, container.jail_name@] + all);
        assert(command.environment() =~= seq![
            (
                "PATH"@,
                "/sbin:/bin:/usr/sbin:/usr/bin:/usr/local/sbin:/usr/local/bin:~/bin"@,
            ),
        ]);
    }
    perform(Task::Exec { command })
}

/// What asking for the log of a container gives: 404 where the key stands
/// for no container, else an empty log.
pub open spec fn logs_shown(m: &JailManager, key: Seq<char>, h: Handled) -> bool {
    &&& h.task is None
    &&& h.store@.len() == 0
    &&& resolves_to_no_container(m.containers(), key) ==> refused_with(
            h,
            404,
            "NOT_FOUND"@,
            no_container_message(key),
        )
    &&& !resolves_to_no_container(m.containers(), key) ==> answered(h, 200) && (
        h.response->0.data matches Some(Payload::Logs(v)) && v@.len() == 0)
}

/// The log of a container, found by identifier, name or beginning of
/// identifier. Nothing is logged yet: the log is empty.
pub fn container_logs(manager: &JailManager, id_or_name: &str) -> (h: Handled)
    ensures
        logs_shown(manager, id_or_name@, h),
{
    match manager.find_container(id_or_name) {
        Some(_) => {
            let entries: Vec<ContainerLogEntry> = Vec::new();
            reply(Response::success(Payload::Logs(entries)))
        },
        None => reply(Response::not_found(concat3("Container '", id_or_name, "'"))),
    }
}

} // verus!

verus! {

/// The kinds of body that requests carry.
#[derive(Debug, Clone, Copy, PartialEq, Eq, Structural)]
pub enum BodyKind {
    Nothing,
    CreateJail,
    Bootstrap,
    BuildImage,
    CreateContainer,
    Exec,
}

/// The kind of body that a request to an endpoint carries.
pub open spec fn body_kind_of(method: Method, endpoint: EndpointView) -> BodyKind {
    if method != Method::Post {
        BodyKind::Nothing
    } else {
        match endpoint {
            EndpointView::Jails => BodyKind::CreateJail,
            EndpointView::BootstrapJail(_) => BodyKind::Bootstrap,
            EndpointView::ImageBuild => BodyKind::BuildImage,
            EndpointView::ContainerCreate => BodyKind::CreateContainer,
            EndpointView::ContainerExec(_) => BodyKind::Exec,
            _ => BodyKind::Nothing,
        }
    }
}

/// Says as what the body of a request is to be decoded.
pub fn body_kind(method: Method, endpoint: &Endpoint) -> (r: BodyKind)
    ensures
        r == body_kind_of(method, endpoint@),
{
    match method {
        Method::Post => match endpoint {
            Endpoint::Jails => BodyKind::CreateJail,
            Endpoint::BootstrapJail(_) => BodyKind::Bootstrap,
            Endpoint::ImageBuild => BodyKind::BuildImage,
            Endpoint::ContainerCreate => BodyKind::CreateContainer,
            Endpoint::ContainerExec(_) => BodyKind::Exec,
            _ => BodyKind::Nothing,
        },
        _ => BodyKind::Nothing,
    }
}

/// The kind of a decoded body; a body that could not be decoded has none.
pub open spec fn kind_of(body: RequestBody) -> Option<BodyKind> {
    match body {
        RequestBody::Empty => Some(BodyKind::Nothing),
        RequestBody::CreateJail(_) => Some(BodyKind::CreateJail),
        RequestBody::Bootstrap(_) => Some(BodyKind::Bootstrap),
        RequestBody::BuildImage(_) => Some(BodyKind::BuildImage),
        RequestBody::CreateContainer(_) => Some(BodyKind::CreateContainer),
        RequestBody::Exec(_) => Some(BodyKind::Exec),
        RequestBody::Invalid(_) => None,
    }
}

/// Whether requests of this method to this endpoint are served.
pub open spec fn served(method: Method, endpoint: EndpointView) -> bool {
    match method {
        Method::Get => endpoint is Jails || endpoint is Jail || endpoint is BootstrapStatus
            || endpoint is Images || endpoint is Image || endpoint is ImageHistory
            || endpoint is Containers || endpoint is Container || endpoint is ContainerLogs,
        Method::Post => endpoint is Jails || endpoint is StartJail || endpoint is StopJail
            || endpoint is BootstrapJail || endpoint is ImageBuild || endpoint is ContainerCreate
            || endpoint is StartContainer || endpoint is StopContainer
            || endpoint is ContainerExec,
        Method::Delete => endpoint is Jail || endpoint is Image || endpoint is DeleteImage
            || endpoint is Container || endpoint is RemoveContainer,
    }
}

/// The manager holds the jails, images and containers that it held.
pub open spec fn untouched(before: &JailManager, after: &JailManager) -> bool {
    after.jails() == before.jails() && after.images() == before.images() && after.containers()
        == before.containers()
}

/// The name of a method as it is shown.
pub open spec fn method_name(m: Method) -> Seq<char> {
    match m {
        Method::Post => "Post"@,
        Method::Get => "Get"@,
        Method::Delete => "Delete"@,
    }
}

fn unsupported(method: Method, endpoint: &str) -> (h: Handled)
    ensures
        refused_with(
            h,
            400,
            "BAD_REQUEST"@,
            "Method "@ + method_name(method) + " not supported for endpoint "@ + endpoint@,
        ),
{
    let name: &str = match method {
        Method::Post => "Post",
        Method::Get => "Get",
        Method::Delete => "Delete",
    };
    let mut m = concat3("Method ", name, " not supported for endpoint ");
    m.append(endpoint);
    reply(Response::bad_request(m))
}

/// What is said of a body that the endpoint cannot read.
pub open spec fn bad_body_message(body: RequestBody) -> Seq<char> {
    match body {
        RequestBody::Invalid(m) => "Invalid request body: "@ + m@,
        _ => "Invalid request body: unexpected body"@,
    }
}

fn bad_body(body: RequestBody) -> (h: Handled)
    ensures
        refused_with(h, 400, "BAD_REQUEST"@, bad_body_message(body)),
{
    match body {
        RequestBody::Invalid(m) => reply(
            Response::bad_request(concat2("Invalid request body: ", m.as_str())),
        ),
        _ => reply(Response::bad_request("Invalid request body: unexpected body".to_owned())),
    }
}

/// What a request to an endpoint gives. A method that the endpoint does
/// not serve is a bad request, and so is a body of another kind than the
/// endpoint reads; neither changes anything. Any other request gives what
/// the handler of its method and endpoint gives, and only creating,
/// deleting, building and starting change the manager.
pub open spec fn routed(
    before: &JailManager,
    after: &JailManager,
    method: Method,
    endpoint: EndpointView,
    path: Seq<char>,
    body: RequestBody,
    host: Host,
    h: Handled,
) -> bool {
    if !served(method, endpoint) {
        refused_with(
            h,
            400,
            "BAD_REQUEST"@,
            "Method "@ + method_name(method) + " not supported for endpoint "@ + path,
        ) && after == before
    } else if body_kind_of(method, endpoint) != BodyKind::Nothing && kind_of(body) != Some(
        body_kind_of(method, endpoint),
    ) {
        refused_with(h, 400, "BAD_REQUEST"@, bad_body_message(body)) && after == before
    } else {
        match method {
            Method::Get => after == before && match endpoint {
                EndpointView::Jails => jails_listed(before, h),
                EndpointView::Jail(n) => jail_shown(before, n, h),
                EndpointView::BootstrapStatus(n) => bootstrap_shown(before, n, h),
                EndpointView::Images => images_listed(before, h),
                EndpointView::Image(k) => image_shown(before, k, h),
                EndpointView::ImageHistory(k) => history_shown(before, k, h),
                EndpointView::Containers => containers_listed(before, h),
                EndpointView::Container(k) => container_shown(before, k, h),
                EndpointView::ContainerLogs(k) => logs_shown(before, k, h),
                _ => false,
            },
            Method::Post => match endpoint {
                EndpointView::Jails => body matches RequestBody::CreateJail(r) && jail_created(
                    before,
                    after,
                    r,
                    h,
                ),
                EndpointView::StartJail(n) => after == before && jail_start_asked(
                    before,
                    n,
                    host,
                    h,
                ),
                EndpointView::StopJail(n) => after == before && jail_stop_asked(before, n, host, h),
                EndpointView::BootstrapJail(n) => after == before && (
                body matches RequestBody::Bootstrap(c) && bootstrap_asked(before, n, c, h)),
                EndpointView::ImageBuild => body matches RequestBody::BuildImage(r)
                    && build_accepted(before, after, r, h),
                EndpointView::ContainerCreate => after == before && (
                body matches RequestBody::CreateContainer(r) && container_drafted(before, r, h)),
                EndpointView::StartContainer(k) => container_start_asked(
                    before,
                    after,
                    k,
                    host,
                    None,
                    h,
                ),
                EndpointView::StopContainer(k) => after == before && container_stop_asked(
                    before,
                    k,
                    host,
                    h,
                ),
                EndpointView::ContainerExec(k) => after == before && (
                body matches RequestBody::Exec(r) && exec_asked(before, k, r, h)),
                _ => false,
            },
            Method::Delete => match endpoint {
                EndpointView::Jail(n) => jail_deleted(before, after, n, host, h),
                EndpointView::Image(k) => image_deleted(before, after, k, h),
                EndpointView::DeleteImage(k) => image_deleted(before, after, k, h),
                EndpointView::Container(k) => container_removed(before, after, k, host, h),
                EndpointView::RemoveContainer(k) => container_removed(before, after, k, host, h),
                _ => false,
            },
        }
    }
}

/// Handles a request. The path is read, the request goes to the handler of
/// its endpoint and method, and a path or a method that leads nowhere is a
/// bad request. `DELETE` on an image or a container removes it.
pub fn handle_request(manager: &mut JailManager, request: Request, host: &Host) -> (h: Handled)
    requires
        old(manager).wf(),
    ensures
        final(manager).wf(),
        match endpoint_of(request.method, request.endpoint@) {
            None => refused_with(
                h,
                400,
                "BAD_REQUEST"@,
                "Unknown endpoint: "@ + request.endpoint@,
            ) && *final(manager) == *old(manager),
            Some(e) => routed(
                old(manager),
                final(manager),
                request.method,
                e,
                request.endpoint@,
                request.body,
                *host,
                h,
            ),
        },
{
    let endpoint = match request.parse_endpoint() {
        Ok(e) => e,
        Err(err) => {
            return reply(Response::bad_request(err.message));
        },
    };
    let method = request.method;
    let path = request.endpoint;
    let body = request.body;
    match method {
        Method::Get => match endpoint {
            Endpoint::Jails => list_jails(manager),
            Endpoint::Jail(name) => get_jail(manager, name.as_str()),
            Endpoint::BootstrapStatus(name) => get_bootstrap_progress(manager, name.as_str()),
            Endpoint::Images => list_images(manager),
            Endpoint::Image(key) => get_image(manager, key.as_str()),
            Endpoint::ImageHistory(key) => get_image_history(manager, key.as_str()),
            Endpoint::Containers => list_containers(manager),
            Endpoint::Container(key) => get_container(manager, key.as_str()),
            Endpoint::ContainerLogs(key) => container_logs(manager, key.as_str()),
            _ => unsupported(method, path.as_str()),
        },
        Method::Post => match endpoint {
            Endpoint::Jails => match body {
                RequestBody::CreateJail(req) => create_jail(manager, req),
                other => bad_body(other),
            },
            Endpoint::StartJail(name) => start_jail(manager, name.as_str(), host),
            Endpoint::StopJail(name) => stop_jail(manager, name.as_str(), host),
            Endpoint::BootstrapJail(name) => match body {
                RequestBody::Bootstrap(config) => bootstrap_jail(manager, name.as_str(), config),
                other => bad_body(other),
            },
            Endpoint::ImageBuild => match body {
                RequestBody::BuildImage(req) => build_image(manager, req),
                other => bad_body(other),
            },
            Endpoint::ContainerCreate => match body {
                RequestBody::CreateContainer(req) => create_container(manager, req),
                other => bad_body(other),
            },
            Endpoint::StartContainer(key) => start_container(manager, key.as_str(), host, None),
            Endpoint::StopContainer(key) => stop_container(manager, key.as_str(), host),
            Endpoint::ContainerExec(key) => match body {
                RequestBody::Exec(req) => exec_container(manager, key.as_str(), req),
                other => bad_body(other),
            },
            _ => unsupported(method, path.as_str()),
        },
        Method::Delete => match endpoint {
            Endpoint::Jail(name) => delete_jail(manager, name.as_str(), host),
            Endpoint::Image(key) => delete_image(manager, key.as_str()),
            Endpoint::DeleteImage(key) => delete_image(manager, key.as_str()),
            Endpoint::Container(key) => remove_container(manager, key.as_str(), host),
            Endpoint::RemoveContainer(key) => remove_container(manager, key.as_str(), host),
            _ => unsupported(method, path.as_str()),
        },
    }
}

fn mismatch() -> (h: Handled)
    ensures
        refused_with(h, 500, "INTERNAL_ERROR"@, "Task and outcome do not match"@),
{
    reply(Response::internal_error("Task and outcome do not match".to_owned()))
}

/// The status under which a jail error is reported.
pub open spec fn jail_error_status(e: JailError) -> u16 {
    let code = crate::api::jail_error_code(e);
    if code == "NOT_FOUND"@ {
        404
    } else if code == "BAD_REQUEST"@ {
        400
    } else if code == "CONFLICT"@ {
        409
    } else {
        500
    }
}

/// Whether the answer is there and reports this jail error, with nothing
/// to write to the database and nothing asked of the host.
pub open spec fn refused_for(h: Handled, e: JailError) -> bool {
    refused_with(
        h,
        jail_error_status(e),
        crate::api::jail_error_code(e),
        crate::api::jail_error_message(e),
    )
}

/// What the kernel's answer to the start of a jail gives: with a JID of at
/// least one, 200 with the jail, which is running and to be updated in
/// the database; else the error, and nothing changes.
pub open spec fn jail_start_recorded(
    before: &JailManager,
    after: &JailManager,
    name: Seq<char>,
    result: Result<i32, JailError>,
    h: Handled,
) -> bool {
    &&& after.images() == before.images()
    &&& after.containers() == before.containers()
    &&& if !has_jail(before.jails(), name) {
        refused(h, 404, "NOT_FOUND"@) && h.task is None && h.store@.len() == 0 && after.jails()
            == before.jails()
    } else {
        exists|i: int|
            0 <= i < before.jails().len() && (#[trigger] before.jails()[i]).name == name
                && if before.jails()[i].state
                == JailState::Running {
                refused_because(h, "Jail '"@ + name + "' is already running"@, "START_FAILED"@)
                    && after.jails() == before.jails()
            } else {
                match result {
                    Ok(jid) => if jid >= 1 {
                        &&& answered(h, 200)
                        &&& h.task is None
                        &&& h.response->0.data matches Some(Payload::Jail(j)) && shows_jail(
                            j,
                            before.jails()[i].started(jid as int),
                        )
                        &&& after.jails() == before.jails().update(
                            i,
                            before.jails()[i].started(jid as int),
                        )
                        &&& h.store@.len() == 1
                        &&& h.store@[0] matches StoreOp::UpdateJail(row) && is_row_of(
                            row,
                            before.jails()[i].started(jid as int),
                        )
                    } else {
                        refused_because(h, "The kernel returned no jail ID"@, "START_FAILED"@)
                            && after.jails() == before.jails()
                    },
                    Err(e) => refused_for(h, e) && after.jails() == before.jails(),
                }
            }
    }
}

/// What the kernel's answer to the stop of a jail gives: on success, 200
/// with the jail, which is stopped, has no JID and is to be updated in
/// the database; else the error, and nothing changes.
pub open spec fn jail_stop_recorded(
    before: &JailManager,
    after: &JailManager,
    name: Seq<char>,
    result: Result<(), JailError>,
    h: Handled,
) -> bool {
    &&& after.images() == before.images()
    &&& after.containers() == before.containers()
    &&& if !has_jail(before.jails(), name) {
        refused(h, 404, "NOT_FOUND"@) && h.task is None && h.store@.len() == 0 && after.jails()
            == before.jails()
    } else {
        exists|i: int|
            0 <= i < before.jails().len() && (#[trigger] before.jails()[i]).name == name
                && match result {
                Ok(()) => {
                    &&& answered(h, 200)
                    &&& h.task is None
                    &&& h.response->0.data matches Some(Payload::Jail(j)) && shows_jail(
                        j,
                        before.jails()[i].stopped(),
                    )
                    &&& after.jails() == before.jails().update(i, before.jails()[i].stopped())
                    &&& h.store@.len() == 1
                    &&& h.store@[0] matches StoreOp::UpdateJail(row) && is_row_of(
                        row,
                        before.jails()[i].stopped(),
                    )
                },
                Err(e) => refused_for(h, e) && after.jails() == before.jails(),
            }
    }
}

/// What the kernel's answer to the removal of a jail that is being
/// deleted gives: on success, 200, and the jail is gone and to be deleted
/// from the database; else the error, and nothing changes.
pub open spec fn jail_removal_recorded(
    before: &JailManager,
    after: &JailManager,
    name: Seq<char>,
    result: Result<(), JailError>,
    h: Handled,
) -> bool {
    &&& after.images() == before.images()
    &&& after.containers() == before.containers()
    &&& match result {
        Err(e) => refused_for(h, e) && after.jails() == before.jails(),
        Ok(()) => if !has_jail(before.jails(), name) {
            refused(h, 404, "NOT_FOUND"@) && h.task is None && h.store@.len() == 0
                && after.jails() == before.jails()
        } else if owns_jail(before.containers(), name) {
            refused_because(h, "Jail '"@ + name + "' belongs to a container"@, "DESTROY_FAILED"@)
                && after.jails() == before.jails()
        } else {
            &&& answered(h, 200)
            &&& h.response->0.data matches Some(Payload::Message(m)) && m@ == "Jail '"@ + name
                + "' deleted"@
            &&& h.task is None
            &&& h.store@.len() == 1
            &&& h.store@[0] matches StoreOp::DeleteJail(n) && n@ == name
            &&& exists|i: int|
                0 <= i < before.jails().len() && (#[trigger] before.jails()[i]).name == name
                    && after.jails() == before.jails().remove(i)
        },
    }
}

/// What a look at a jail's root gives for its bootstrap: 409 where a base
/// system is there; else 202 under the code `BOOTSTRAP_STARTED`, a first
/// report under the jail's name, and the task itself, to be done in the
/// background.
pub open spec fn bootstrap_decided(
    before: &JailManager,
    after: &JailManager,
    task: Task,
    already: bool,
    h: Handled,
) -> bool {
    let name = task->Bootstrap_name@;
    &&& untouched(before, after)
    &&& after.builds() == before.builds()
    &&& h.store@.len() == 0
    &&& if already {
        refused_with(h, 409, "CONFLICT"@, "Jail '"@ + name + "' is already bootstrapped"@)
            && after.bootstraps() == before.bootstraps()
    } else {
        &&& refused(h, 202, "BOOTSTRAP_STARTED"@)
        &&& h.response->0.error->0.message@ == "Bootstrap started for jail '"@ + name + "'"@
        &&& h.task == Some(task)
        &&& after.bootstraps().dom() == before.bootstraps().dom().insert(name)
        &&& crate::manager::is_first_report(after.bootstraps()[name])
        &&& forall|n: Seq<char>|
            n != name && before.bootstraps().contains_key(n) ==> after.bootstraps()[n]
                == before.bootstraps()[n]
    }
}

/// What the clone of a container's dataset gives: where the drafted
/// container is taken in, 201 with the container; the row of its jail and
/// the container are to be written to the database, in this order; else
/// the error, and nothing changes.
pub open spec fn container_recorded(
    before: &JailManager,
    after: &JailManager,
    draft: ContainerDraft,
    result: Result<(), ZfsError>,
    root: Option<String>,
    h: Handled,
) -> bool {
    &&& after.images() == before.images()
    &&& match creation_refusal(before.containers(), before.jails(), draft.container@, result) {
        None => {
            &&& answered(h, 201)
            &&& h.task is None
            &&& h.response->0.data matches Some(Payload::Container(info)) && shows_container(
                info,
                draft.container@,
            )
            &&& h.store@.len() == 2
            &&& h.store@[0] matches StoreOp::InsertJail(row) && is_row_of(
                row,
                container_jail(draft.container@, opt_view(root)),
            )
            &&& h.store@[1] matches StoreOp::InsertContainer(c) && c@ == draft.container@
            &&& after.containers() == before.containers().push(draft.container@)
            &&& after.jails() == before.jails().push(
                container_jail(draft.container@, opt_view(root)),
            )
        },
        Some(why) => refused_with(
            h,
            500,
            "INTERNAL_ERROR"@,
            "Failed to create container: "@ + ("Serialization error: "@ + why),
        ) && untouched(before, after),
    }
}

/// What the kernel's answer to the start of a container's jail gives:
/// where it is taken in, 200 with the container, which is running with
/// its jail; the row of the jail and the container's state are to be
/// updated in the database; else the error, and nothing changes.
pub open spec fn container_start_recorded(
    before: &JailManager,
    after: &JailManager,
    id: Seq<char>,
    result: Result<i32, JailError>,
    h: Handled,
) -> bool {
    &&& after.images() == before.images()
    &&& if !has_container(before.containers(), id) {
        refused_with(
            h,
            500,
            "INTERNAL_ERROR"@,
            "Failed to start container: "@ + ("Serialization error: "@ + ("Container "@ + id
                + " not found"@)),
        ) && untouched(before, after)
    } else {
        exists|k: int, j: int|
            #![trigger before.containers()[k], before.jails()[j]]
            container_and_jail(before.containers(), before.jails(), id, k, j)
                && match start_report_refusal(before.jails()[j], result) {
                None => {
                    &&& answered(h, 200)
                    &&& h.task is None
                    &&& after.jails() == before.jails().update(
                        j,
                        before.jails()[j].started(result->Ok_0 as int),
                    )
                    &&& exists|now: i64|
                        after.containers() == before.containers().update(
                            k,
                            #[trigger] before.containers()[k].with_state(
                                ContainerState::Running,
                                now,
                            ),
                        ) && (h.response->0.data matches Some(Payload::Container(info))
                            && shows_container(
                            info,
                            before.containers()[k].with_state(ContainerState::Running, now),
                        ))
                    &&& h.store@.len() == 2
                    &&& h.store@[0] matches StoreOp::UpdateJail(row) && is_row_of(
                        row,
                        before.jails()[j].started(result->Ok_0 as int),
                    )
                    &&& h.store@[1] matches StoreOp::UpdateContainer(c, state) && c@ == id && state
                        == ContainerState::Running
                },
                Some(why) => refused_with(
                    h,
                    500,
                    "INTERNAL_ERROR"@,
                    "Failed to start container: "@ + ("Serialization error: "@ + why),
                ) && untouched(before, after),
            }
    }
}

/// What the kernel's answer to the stop of a container's jail gives: on
/// success, 200 with the container, which is stopped with its jail; the
/// row of the jail and the container's state are to be updated in the
/// database; else the error, and nothing changes.
pub open spec fn container_stop_recorded(
    before: &JailManager,
    after: &JailManager,
    id: Seq<char>,
    result: Result<(), JailError>,
    h: Handled,
) -> bool {
    &&& after.images() == before.images()
    &&& if !has_container(before.containers(), id) {
        refused_with(
            h,
            500,
            "INTERNAL_ERROR"@,
            "Failed to stop container: "@ + ("Serialization error: "@ + ("Container "@ + id
                + " not found"@)),
        ) && untouched(before, after)
    } else {
        exists|k: int, j: int|
            #![trigger before.containers()[k], before.jails()[j]]
            container_and_jail(before.containers(), before.jails(), id, k, j) && match result {
                Ok(()) => {
                    let stopped = ContainerView {
                        state: ContainerState::Stopped,
                        ..before.containers()[k]
                    };
                    &&& answered(h, 200)
                    &&& h.task is None
                    &&& after.jails() == before.jails().update(j, before.jails()[j].stopped())
                    &&& after.containers() == before.containers().update(k, stopped)
                    &&& h.response->0.data matches Some(Payload::Container(info))
                        && shows_container(info, stopped)
                    &&& h.store@.len() == 2
                    &&& h.store@[0] matches StoreOp::UpdateJail(row) && is_row_of(
                        row,
                        before.jails()[j].stopped(),
                    )
                    &&& h.store@[1] matches StoreOp::UpdateContainer(c, state) && c@ == id && state
                        == ContainerState::Stopped
                },
                Err(e) => refused_with(
                    h,
                    500,
                    "INTERNAL_ERROR"@,
                    "Failed to stop container: "@ + ("Serialization error: "@ + e.text()),
                ) && untouched(before, after),
            }
    }
}

/// What the end of a command gives: 200 with what the command left
/// behind, its exit code being -1 where it did not exit by itself; or 500
/// where it could not run.
pub open spec fn exec_recorded(result: Result<CommandOutput, String>, h: Handled) -> bool {
    match result {
        Ok(out) => {
            &&& answered(h, 200)
            &&& h.task is None
            &&& h.store@.len() == 0
            &&& h.response->0.data matches Some(Payload::Exec(x)) && x.stdout@ == out.stdout@
                && x.stderr@ == out.stderr@ && x.exit_code == match out.code {
                Some(c) => c,
                None => -1i32,
            }
        },
        Err(e) => refused_with(
            h,
            500,
            "INTERNAL_ERROR"@,
            "Failed to execute command: "@ + e@,
        ),
    }
}

/// What the outcome of a task gives. An outcome of another kind than the
/// task's gives 500 and changes nothing; so does any outcome of a task
/// that goes on in the background.
pub open spec fn finished(
    before: &JailManager,
    after: &JailManager,
    task: Task,
    outcome: TaskOutcome,
    h: Handled,
) -> bool {
    match (task, outcome) {
        (Task::StartJail { name, plan }, TaskOutcome::JailCreated(result)) => jail_start_recorded(
            before,
            after,
            name@,
            result,
            h,
        ),
        (Task::StopJail { name, plan }, TaskOutcome::JailRemoved(result)) => jail_stop_recorded(
            before,
            after,
            name@,
            result,
            h,
        ),
        (Task::RemoveJail { name, plan }, TaskOutcome::JailRemoved(result)) => jail_removal_recorded(
            before,
            after,
            name@,
            result,
            h,
        ),
        (
            Task::Bootstrap { name, jail_path, marker, config },
            TaskOutcome::Bootstrapped(already),
        ) => bootstrap_decided(before, after, task, already, h),
        (Task::CreateContainer(draft), TaskOutcome::Cloned(result, root)) => container_recorded(
            before,
            after,
            draft,
            result,
            root,
            h,
        ),
        (Task::StartContainer { id, plan }, TaskOutcome::JailCreated(result)) => {
            container_start_recorded(before, after, id@, result, h)
        },
        (Task::StopContainer { id, plan }, TaskOutcome::JailRemoved(result)) => {
            container_stop_recorded(before, after, id@, result, h)
        },
        (Task::Exec { command }, TaskOutcome::Executed(result)) => after == before && exec_recorded(
            result,
            h,
        ),
        _ => after == before && refused_with(
            h,
            500,
            "INTERNAL_ERROR"@,
            "Task and outcome do not match"@,
        ),
    }
}

/// Gives the answer of a request whose task the host has done, and takes
/// the outcome into the manager.
pub fn finish(manager: &mut JailManager, task: Task, outcome: TaskOutcome) -> (h: Handled)
    requires
        old(manager).wf(),
    ensures
        final(manager).wf(),
        finished(old(manager), final(manager), task, outcome, h),
{
    match task {
        Task::StartJail { name, plan } => match outcome {
            TaskOutcome::JailCreated(result) => start_jail_finished(manager, name, result),
            _ => mismatch(),
        },
        Task::StopJail { name, plan } => match outcome {
            TaskOutcome::JailRemoved(result) => stop_jail_finished(manager, name, result),
            _ => mismatch(),
        },
        Task::RemoveJail { name, plan } => match outcome {
            TaskOutcome::JailRemoved(result) => remove_jail_finished(manager, name, result),
            _ => mismatch(),
        },
        Task::Bootstrap { name, jail_path, marker, config } => match outcome {
            TaskOutcome::Bootstrapped(already) => bootstrap_looked(
                manager,
                Task::Bootstrap { name, jail_path, marker, config },
                already,
            ),
            _ => mismatch(),
        },
        Task::CreateContainer(draft) => match outcome {
            TaskOutcome::Cloned(result, root) => create_container_finished(
                manager,
                draft,
                result,
                root,
            ),
            _ => mismatch(),
        },
        Task::StartContainer { id, plan } => match outcome {
            TaskOutcome::JailCreated(result) => start_container_finished(manager, id, result),
            _ => mismatch(),
        },
        Task::StopContainer { id, plan } => match outcome {
            TaskOutcome::JailRemoved(result) => stop_container_finished(manager, id, result),
            _ => mismatch(),
        },
        Task::Exec { command } => match outcome {
            TaskOutcome::Executed(result) => exec_finished(result),
            _ => mismatch(),
        },
        _ => mismatch(),
    }
}

/// Takes in the kernel's answer to the start of a jail.
pub fn start_jail_finished(manager: &mut JailManager, name: String, result: Result<i32, JailError>)
    -> (h: Handled)
    requires
        old(manager).wf(),
    ensures
        final(manager).wf(),
        jail_start_recorded(old(manager), final(manager), name@, result, h),
{
    let ghost before = manager.jails();
    proof {
        crate::manager::lemma_unique_jail(before, name@);
        lemma_codes_differ();
    }
    match manager.jail_started(name.as_str(), result) {
        Ok(row) => {
            let ghost i = choose|i: int|
                0 <= i < before.len() && (#[trigger] before[i]).name == name@;
            proof {
                crate::manager::lemma_unique_jail(manager.jails(), name@);
                assert(manager.jails()[i].name == name@);
            }
            match manager.get_jail(name.as_str()) {
                Some(jail) => {
                    proof {
                        let w = choose|w: int|
                            0 <= w < manager.jails().len() && #[trigger] manager.jails()[w]
                                == jail@;
                        assert(w == i);
                    }
                    reply_and_store(
                        Response::success(Payload::Jail(jail_info(jail))),
                        StoreOp::UpdateJail(row),
                    )
                },
                None => reply(Response::not_found(concat3("Jail '", name.as_str(), "'"))),
            }
        },
        Err(e) => {
            proof {
                if !has_jail(before, name@) {
                    lemma_not_found_is_404(e, name@);
                }
            }
            reply(jail_error_response(e))
        },
    }
}

/// Takes in the kernel's answer to the stop of a jail.
pub fn stop_jail_finished(manager: &mut JailManager, name: String, result: Result<(), JailError>)
    -> (h: Handled)
    requires
        old(manager).wf(),
    ensures
        final(manager).wf(),
        jail_stop_recorded(old(manager), final(manager), name@, result, h),
{
    let ghost before = manager.jails();
    proof {
        crate::manager::lemma_unique_jail(before, name@);
    }
    match manager.jail_stopped(name.as_str(), result) {
        Ok(row) => {
            let ghost i = choose|i: int|
                0 <= i < before.len() && (#[trigger] before[i]).name == name@;
            proof {
                crate::manager::lemma_unique_jail(manager.jails(), name@);
                assert(manager.jails()[i].name == name@);
            }
            match manager.get_jail(name.as_str()) {
                Some(jail) => {
                    proof {
                        let w = choose|w: int|
                            0 <= w < manager.jails().len() && #[trigger] manager.jails()[w]
                                == jail@;
                        assert(w == i);
                    }
                    reply_and_store(
                        Response::success(Payload::Jail(jail_info(jail))),
                        StoreOp::UpdateJail(row),
                    )
                },
                None => reply(Response::not_found(concat3("Jail '", name.as_str(), "'"))),
            }
        },
        Err(e) => {
            proof {
                if !has_jail(before, name@) {
                    lemma_not_found_is_404(e, name@);
                }
            }
            reply(jail_error_response(e))
        },
    }
}

/// Takes in the kernel's answer to the removal of a jail that is being
/// deleted.
pub fn remove_jail_finished(manager: &mut JailManager, name: String, result: Result<(), JailError>)
    -> (h: Handled)
    requires
        old(manager).wf(),
    ensures
        final(manager).wf(),
        jail_removal_recorded(old(manager), final(manager), name@, result, h),
{
    let ghost before = manager.jails();
    match manager.jail_removed(name.as_str(), result) {
        Ok(()) => reply_and_store(
            deleted_message("Jail '", name.as_str(), "' deleted"),
            StoreOp::DeleteJail(name),
        ),
        Err(e) => {
            proof {
                if result is Ok && !has_jail(before, name@) {
                    lemma_not_found_is_404(e, name@);
                }
                lemma_codes_differ();
            }
            reply(jail_error_response(e))
        },
    }
}

/// Decides on the bootstrap of a jail after the look at its root.
pub fn bootstrap_looked(manager: &mut JailManager, task: Task, already: bool) -> (h: Handled)
    requires
        old(manager).wf(),
        task is Bootstrap,
    ensures
        final(manager).wf(),
        bootstrap_decided(old(manager), final(manager), task, already, h),
{
    match task {
        Task::Bootstrap { name, jail_path, marker, config } => {
            if already {
                reply(
                    Response::conflict(concat3("Jail '", name.as_str(), "' is already bootstrapped")),
                )
            } else {
                manager.register_bootstrap_tracker(name.clone());
                let message = concat3("Bootstrap started for jail '", name.as_str(), "'");
                Handled {
                    response: Some(Response::error(202, ApiError::new("BOOTSTRAP_STARTED", message))),
                    store: Vec::new(),
                    task: Some(Task::Bootstrap { name, jail_path, marker, config }),
                }
            }
        },
        _ => mismatch(),
    }
}

/// Takes in how the clone of a container's dataset went.
pub fn create_container_finished(
    manager: &mut JailManager,
    draft: ContainerDraft,
    result: Result<(), ZfsError>,
    root: Option<String>,
) -> (h: Handled)
    requires
        old(manager).wf(),
    ensures
        final(manager).wf(),
        container_recorded(old(manager), final(manager), draft, result, root, h),
{
    let root_ref: Option<&str> = match &root {
        Some(p) => Some(p.as_str()),
        None => None,
    };
    match manager.container_created(draft, result, root_ref) {
        Ok(taken) => {
            let info = container_info(&taken.0);
            reply_and_store_both(
                Response::created(Payload::Container(info)),
                StoreOp::InsertJail(taken.1),
                StoreOp::InsertContainer(taken.0),
            )
        },
        Err(e) => reply(
            Response::internal_error(
                concat2("Failed to create container: ", e.to_string().as_str()),
            ),
        ),
    }
}

/// Takes in the kernel's answer to the start of a container's jail.
pub fn start_container_finished(
    manager: &mut JailManager,
    id: String,
    result: Result<i32, JailError>,
) -> (h: Handled)
    requires
        old(manager).wf(),
    ensures
        final(manager).wf(),
        container_start_recorded(old(manager), final(manager), id@, result, h),
{
    let ghost cs = manager.containers();
    let ghost js = manager.jails();
    proof {
        crate::manager::lemma_unique_container(cs, id@);
    }
    match manager.container_started(id.as_str(), result) {
        Ok(row) => {
            let ghost (k, j) = choose|k: int, j: int|
                #![trigger cs[k], js[j]]
                container_and_jail(cs, js, id@, k, j) && start_report_refusal(js[j], result)
                    is None && manager.jails() == js.update(j, js[j].started(result->Ok_0 as int))
                    && exists|now: i64|
                    manager.containers() == cs.update(
                        k,
                        #[trigger] cs[k].with_state(ContainerState::Running, now),
                    );
            let ghost now = choose|now: i64|
                manager.containers() == cs.update(
                    k,
                    #[trigger] cs[k].with_state(ContainerState::Running, now),
                );
            proof {
                crate::manager::lemma_unique_container(manager.containers(), id@);
                assert(manager.containers()[k].id == id@);
            }
            match manager.get_container(id.as_str()) {
                Some(c) => {
                    proof {
                        let w = choose|w: int|
                            0 <= w < manager.containers().len() && #[trigger] manager.containers()[w]
                                == c@;
                        assert(w == k);
                        assert(c@ == cs[k].with_state(ContainerState::Running, now));
                    }
                    reply_and_store_both(
                        Response::success(Payload::Container(container_info(c))),
                        StoreOp::UpdateJail(row),
                        StoreOp::UpdateContainer(id, ContainerState::Running),
                    )
                },
                None => reply(Response::not_found(concat3("Container '", id.as_str(), "'"))),
            }
        },
        Err(e) => reply(
            Response::internal_error(concat2("Failed to start container: ", e.to_string().as_str())),
        ),
    }
}

/// Takes in the kernel's answer to the stop of a container's jail.
pub fn stop_container_finished(
    manager: &mut JailManager,
    id: String,
    result: Result<(), JailError>,
) -> (h: Handled)
    requires
        old(manager).wf(),
    ensures
        final(manager).wf(),
        container_stop_recorded(old(manager), final(manager), id@, result, h),
{
    let ghost cs = manager.containers();
    let ghost js = manager.jails();
    proof {
        crate::manager::lemma_unique_container(cs, id@);
    }
    match manager.container_stopped(id.as_str(), result) {
        Ok(row) => {
            let ghost (k, j) = choose|k: int, j: int|
                #![trigger cs[k], js[j]]
                container_and_jail(cs, js, id@, k, j) && manager.jails() == js.update(
                    j,
                    js[j].stopped(),
                ) && manager.containers() == cs.update(
                    k,
                    ContainerView { state: ContainerState::Stopped, ..cs[k] },
                );
            proof {
                crate::manager::lemma_unique_container(manager.containers(), id@);
                assert(manager.containers()[k].id == id@);
            }
            match manager.get_container(id.as_str()) {
                Some(c) => {
                    proof {
                        let w = choose|w: int|
                            0 <= w < manager.containers().len() && #[trigger] manager.containers()[w]
                                == c@;
                        assert(w == k);
                    }
                    reply_and_store_both(
                        Response::success(Payload::Container(container_info(c))),
                        StoreOp::UpdateJail(row),
                        StoreOp::UpdateContainer(id, ContainerState::Stopped),
                    )
                },
                None => reply(Response::not_found(concat3("Container '", id.as_str(), "'"))),
            }
        },
        Err(e) => reply(
            Response::internal_error(concat2("Failed to stop container: ", e.to_string().as_str())),
        ),
    }
}

/// Gives the answer to a command that has ended.
pub fn exec_finished(result: Result<CommandOutput, String>) -> (h: Handled)
    ensures
        exec_recorded(result, h),
{
    match result {
        Ok(out) => {
            let exit_code = match out.code {
                Some(c) => c,
                None => -1i32,
            };
            reply(
                Response::success(
                    Payload::Exec(ExecResult { exit_code, stdout: out.stdout, stderr: out.stderr }),
                ),
            )
        },
        Err(e) => reply(
            Response::internal_error(concat2("Failed to execute command: ", e.as_str())),
        ),
    }
}

} // verus!
