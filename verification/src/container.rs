//! Containers: running or stopped instances of an image.

use crate::ids::{is_id_text, random_id, unix_now};
use crate::jail::{clone_opt, opt_view};
use crate::text::{chars_of, concat2, is_text, lower, to_lower};
use vstd::prelude::*;

verus! {

/// The identifier of a container.
pub type ContainerId = String;

/// The state of a container.
#[derive(Debug, Clone, Copy, PartialEq, Eq, Structural)]
pub enum ContainerState {
    Created,
    Running,
    Stopped,
    Paused,
    Removing,
}

impl ContainerState {
    /// The state's name.
    pub open spec fn name(self) -> Seq<char> {
        match self {
            ContainerState::Created => "created"@,
            ContainerState::Running => "running"@,
            ContainerState::Stopped => "stopped"@,
            ContainerState::Paused => "paused"@,
            ContainerState::Removing => "removing"@,
        }
    }

    /// The state that `s` names, whatever the case of its ASCII letters.
    pub open spec fn named(s: Seq<char>) -> Option<ContainerState> {
        let l = lower(s);
        if l == "created"@ {
            Some(ContainerState::Created)
        } else if l == "running"@ {
            Some(ContainerState::Running)
        } else if l == "stopped"@ {
            Some(ContainerState::Stopped)
        } else if l == "paused"@ {
            Some(ContainerState::Paused)
        } else if l == "removing"@ {
            Some(ContainerState::Removing)
        } else {
            None
        }
    }

    /// The state's name.
    pub fn as_str(&self) -> (r: &'static str)
        ensures
            r@ == self.name(),
    {
        match self {
            ContainerState::Created => "created",
            ContainerState::Running => "running",
            ContainerState::Stopped => "stopped",
            ContainerState::Paused => "paused",
            ContainerState::Removing => "removing",
        }
    }

    /// The state's name as a string.
    pub fn to_string(&self) -> (r: String)
        ensures
            r@ == self.name(),
    {
        self.as_str().to_owned()
    }

    /// Reads a state's name, ignoring the case of ASCII letters.
    pub fn parse(s: &str) -> (r: Result<ContainerState, String>)
        ensures
            match ContainerState::named(s@) {
                Some(st) => r == Ok::<ContainerState, String>(st),
                None => r matches Err(m) && m@ == "Invalid container state: "@ + s@,
            },
    {
        let l = to_lower(&chars_of(s));
        if is_text(&l, "created") {
            Ok(ContainerState::Created)
        } else if is_text(&l, "running") {
            Ok(ContainerState::Running)
        } else if is_text(&l, "stopped") {
            Ok(ContainerState::Stopped)
        } else if is_text(&l, "paused") {
            Ok(ContainerState::Paused)
        } else if is_text(&l, "removing") {
            Ok(ContainerState::Removing)
        } else {
            Err(concat2("Invalid container state: ", s))
        }
    }
}

impl std::str::FromStr for ContainerState {
    type Err = String;

    fn from_str(s: &str) -> (r: Result<ContainerState, String>) {
        ContainerState::parse(s)
    }
}

/// When a container is started again by itself.
#[derive(Debug, Clone, Copy, PartialEq, Eq, Structural)]
pub enum RestartPolicy {
    No,
    OnRestart,
    OnFailure,
    Always,
}

impl RestartPolicy {
    /// The policy's name.
    pub open spec fn name(self) -> Seq<char> {
        match self {
            RestartPolicy::No => "no"@,
            RestartPolicy::OnRestart => "on-restart"@,
            RestartPolicy::OnFailure => "on-failure"@,
            RestartPolicy::Always => "always"@,
        }
    }

    /// The policy that `s` names, whatever the case of its ASCII letters.
    pub open spec fn named(s: Seq<char>) -> Option<RestartPolicy> {
        let l = lower(s);
        if l == "no"@ {
            Some(RestartPolicy::No)
        } else if l == "on-restart"@ {
            Some(RestartPolicy::OnRestart)
        } else if l == "on-failure"@ {
            Some(RestartPolicy::OnFailure)
        } else if l == "always"@ {
            Some(RestartPolicy::Always)
        } else {
            None
        }
    }

    /// The policy's name.
    pub fn as_str(&self) -> (r: &'static str)
        ensures
            r@ == self.name(),
    {
        match self {
            RestartPolicy::No => "no",
            RestartPolicy::OnRestart => "on-restart",
            RestartPolicy::OnFailure => "on-failure",
            RestartPolicy::Always => "always",
        }
    }

    /// The policy's name as a string.
    pub fn to_string(&self) -> (r: String)
        ensures
            r@ == self.name(),
    {
        self.as_str().to_owned()
    }

    /// Reads a policy's name, ignoring the case of ASCII letters.
    pub fn parse(s: &str) -> (r: Result<RestartPolicy, String>)
        ensures
            match RestartPolicy::named(s@) {
                Some(p) => r == Ok::<RestartPolicy, String>(p),
                None => r matches Err(m) && m@ == "Invalid restart policy: "@ + s@,
            },
    {
        let l = to_lower(&chars_of(s));
        if is_text(&l, "no") {
            Ok(RestartPolicy::No)
        } else if is_text(&l, "on-restart") {
            Ok(RestartPolicy::OnRestart)
        } else if is_text(&l, "on-failure") {
            Ok(RestartPolicy::OnFailure)
        } else if is_text(&l, "always") {
            Ok(RestartPolicy::Always)
        } else {
            Err(concat2("Invalid restart policy: ", s))
        }
    }
}

impl std::str::FromStr for RestartPolicy {
    type Err = String;

    fn from_str(s: &str) -> (r: Result<RestartPolicy, String>) {
        RestartPolicy::parse(s)
    }
}

impl Default for RestartPolicy {
    fn default() -> (r: RestartPolicy)
        ensures
            r == RestartPolicy::No,
    {
        RestartPolicy::No
    }
}

/// The protocol of a port mapping.
#[derive(Debug, Clone, Copy, PartialEq, Eq, Structural)]
pub enum PortProtocol {
    Tcp,
    Udp,
}

impl PortProtocol {
    /// The protocol's name.
    pub open spec fn name(self) -> Seq<char> {
        match self {
            PortProtocol::Tcp => "tcp"@,
            PortProtocol::Udp => "udp"@,
        }
    }

    /// The protocol that `s` names, whatever the case of its ASCII letters.
    pub open spec fn named(s: Seq<char>) -> Option<PortProtocol> {
        let l = lower(s);
        if l == "tcp"@ {
            Some(PortProtocol::Tcp)
        } else if l == "udp"@ {
            Some(PortProtocol::Udp)
        } else {
            None
        }
    }

    /// The protocol's name.
    pub fn as_str(&self) -> (r: &'static str)
        ensures
            r@ == self.name(),
    {
        match self {
            PortProtocol::Tcp => "tcp",
            PortProtocol::Udp => "udp",
        }
    }

    /// The protocol's name as a string.
    pub fn to_string(&self) -> (r: String)
        ensures
            r@ == self.name(),
    {
        self.as_str().to_owned()
    }

    /// Reads a protocol's name, ignoring the case of ASCII letters.
    pub fn parse(s: &str) -> (r: Result<PortProtocol, String>)
        ensures
            match PortProtocol::named(s@) {
                Some(p) => r == Ok::<PortProtocol, String>(p),
                None => r matches Err(m) && m@ == "Invalid port protocol: "@ + s@,
            },
    {
        let l = to_lower(&chars_of(s));
        if is_text(&l, "tcp") {
            Ok(PortProtocol::Tcp)
        } else if is_text(&l, "udp") {
            Ok(PortProtocol::Udp)
        } else {
            Err(concat2("Invalid port protocol: ", s))
        }
    }
}

impl std::str::FromStr for PortProtocol {
    type Err = String;

    fn from_str(s: &str) -> (r: Result<PortProtocol, String>) {
        PortProtocol::parse(s)
    }
}

impl Default for PortProtocol {
    fn default() -> (r: PortProtocol)
        ensures
            r == PortProtocol::Tcp,
    {
        PortProtocol::Tcp
    }
}

/// A host port that leads to a container port.
#[derive(Debug, Clone, Copy, PartialEq, Eq, Structural)]
pub struct PortMapping {
    pub host_port: u16,
    pub container_port: u16,
    pub protocol: PortProtocol,
}

impl PortMapping {
    /// A port mapping.
    pub fn new(host_port: u16, container_port: u16, protocol: PortProtocol) -> (r: PortMapping)
        ensures
            r == (PortMapping { host_port, container_port, protocol }),
    {
        PortMapping { host_port, container_port, protocol }
    }
}

/// How a mount is made.
#[derive(Debug, Clone, Copy, PartialEq, Eq, Structural)]
pub enum MountType {
    Zfs,
    Nullfs,
}

impl MountType {
    /// The type's name.
    pub open spec fn name(self) -> Seq<char> {
        match self {
            MountType::Zfs => "zfs"@,
            MountType::Nullfs => "nullfs"@,
        }
    }

    /// The type that `s` names, whatever the case of its ASCII letters.
    pub open spec fn named(s: Seq<char>) -> Option<MountType> {
        let l = lower(s);
        if l == "zfs"@ {
            Some(MountType::Zfs)
        } else if l == "nullfs"@ {
            Some(MountType::Nullfs)
        } else {
            None
        }
    }

    /// The type's name.
    pub fn as_str(&self) -> (r: &'static str)
        ensures
            r@ == self.name(),
    {
        match self {
            MountType::Zfs => "zfs",
            MountType::Nullfs => "nullfs",
        }
    }

    /// The type's name as a string.
    pub fn to_string(&self) -> (r: String)
        ensures
            r@ == self.name(),
    {
        self.as_str().to_owned()
    }

    /// Reads a mount type's name, ignoring the case of ASCII letters.
    pub fn parse(s: &str) -> (r: Result<MountType, String>)
        ensures
            match MountType::named(s@) {
                Some(t) => r == Ok::<MountType, String>(t),
                None => r matches Err(m) && m@ == "Invalid mount type: "@ + s@,
            },
    {
        let l = to_lower(&chars_of(s));
        if is_text(&l, "zfs") {
            Ok(MountType::Zfs)
        } else if is_text(&l, "nullfs") {
            Ok(MountType::Nullfs)
        } else {
            Err(concat2("Invalid mount type: ", s))
        }
    }
}

impl std::str::FromStr for MountType {
    type Err = String;

    fn from_str(s: &str) -> (r: Result<MountType, String>) {
        MountType::parse(s)
    }
}

impl Default for MountType {
    fn default() -> (r: MountType)
        ensures
            r == MountType::Nullfs,
    {
        MountType::Nullfs
    }
}

/// A directory of the host seen inside a container.
#[derive(Debug, PartialEq, Eq)]
pub struct Mount {
    pub source: String,
    pub destination: String,
    pub mount_type: MountType,
    pub read_only: bool,
}

/// A mount as a value.
pub struct MountView {
    pub source: Seq<char>,
    pub destination: Seq<char>,
    pub mount_type: MountType,
    pub read_only: bool,
}

impl View for Mount {
    type V = MountView;

    open spec fn view(&self) -> MountView {
        MountView {
            source: self.source@,
            destination: self.destination@,
            mount_type: self.mount_type,
            read_only: self.read_only,
        }
    }
}

impl Mount {
    /// A mount.
    pub fn new(source: String, destination: String, mount_type: MountType, read_only: bool) -> (r:
        Mount)
        ensures
            r@ == (MountView {
                source: source@,
                destination: destination@,
                mount_type,
                read_only,
            }),
    {
        Mount { source, destination, mount_type, read_only }
    }

    /// A copy of the mount.
    pub fn duplicate(&self) -> (r: Mount)
        ensures
            r@ == self@,
    {
        Mount {
            source: self.source.clone(),
            destination: self.destination.clone(),
            mount_type: self.mount_type,
            read_only: self.read_only,
        }
    }
}

impl Clone for Mount {
    fn clone(&self) -> (r: Mount)
        ensures
            r@ == self@,
    {
        self.duplicate()
    }
}

/// The mounts of a list as values.
pub open spec fn mounts_view(ms: Seq<Mount>) -> Seq<MountView> {
    Seq::new(ms.len(), |i: int| ms[i]@)
}

/// A copy of a list of mounts.
pub fn clone_mounts(ms: &Vec<Mount>) -> (r: Vec<Mount>)
    ensures
        mounts_view(r@) == mounts_view(ms@),
{
    let mut out: Vec<Mount> = Vec::new();
    let mut i: usize = 0;
    while i < ms.len()
        invariant
            i <= ms.len(),
            out.len() == i,
            forall|j: int| 0 <= j < i ==> (#[trigger] out@[j])@ == ms@[j]@,
        decreases ms.len() - i,
    {
        out.push(ms[i].duplicate());
        i += 1;
    }
    assert(mounts_view(out@) =~= mounts_view(ms@));
    out
}

/// A copy of a list of port mappings.
pub fn clone_ports(ps: &Vec<PortMapping>) -> (r: Vec<PortMapping>)
    ensures
        r@ == ps@,
{
    let mut out: Vec<PortMapping> = Vec::new();
    let mut i: usize = 0;
    while i < ps.len()
        invariant
            i <= ps.len(),
            out@ == ps@.take(i as int),
        decreases ps.len() - i,
    {
        out.push(ps[i]);
        i += 1;
        assert(out@ =~= ps@.take(i as int));
    }
    assert(ps@.take(ps.len() as int) =~= ps@);
    out
}

/// What is asked for when a container is created.
#[derive(Debug, PartialEq, Eq)]
pub struct ContainerConfig {
    pub image_id: String,
    pub name: Option<String>,
    pub ports: Vec<PortMapping>,
    pub volumes: Vec<Mount>,
    pub restart_policy: RestartPolicy,
}

/// A container.
#[derive(Debug, PartialEq, Eq)]
pub struct Container {
    pub id: ContainerId,
    pub name: Option<String>,
    pub image_id: String,
    pub jail_name: String,
    pub dataset: String,
    pub state: ContainerState,
    pub restart_policy: RestartPolicy,
    pub mounts: Vec<Mount>,
    pub port_mappings: Vec<PortMapping>,
    pub ip: Option<String>,
    pub created_at: i64,
    pub started_at: Option<i64>,
}

/// A container as a value.
pub struct ContainerView {
    pub id: Seq<char>,
    pub name: Option<Seq<char>>,
    pub image_id: Seq<char>,
    pub jail_name: Seq<char>,
    pub dataset: Seq<char>,
    pub state: ContainerState,
    pub restart_policy: RestartPolicy,
    pub mounts: Seq<MountView>,
    pub port_mappings: Seq<PortMapping>,
    pub ip: Option<Seq<char>>,
    pub created_at: i64,
    pub started_at: Option<i64>,
}

impl View for Container {
    type V = ContainerView;

    open spec fn view(&self) -> ContainerView {
        ContainerView {
            id: self.id@,
            name: opt_view(self.name),
            image_id: self.image_id@,
            jail_name: self.jail_name@,
            dataset: self.dataset@,
            state: self.state,
            restart_policy: self.restart_policy,
            mounts: mounts_view(self.mounts@),
            port_mappings: self.port_mappings@,
            ip: opt_view(self.ip),
            created_at: self.created_at,
            started_at: self.started_at,
        }
    }
}

impl ContainerView {
    /// The container after its state was set at time `now`: the time of the
    /// first start is kept once it is known.
    pub open spec fn with_state(self, state: ContainerState, now: i64) -> ContainerView {
        ContainerView {
            state,
            started_at: if state == ContainerState::Running && self.started_at is None {
                Some(now)
            } else {
                self.started_at
            },
            ..self
        }
    }
}

impl Container {
    /// A new container in state `Created`, with a fresh identifier and the
    /// current time as its time of creation.
    pub fn new(image_id: String, jail_name: String, dataset: String) -> (r: Container)
        ensures
            is_id_text(r@.id),
            r@ == (ContainerView {
                id: r@.id,
                name: None,
                image_id: image_id@,
                jail_name: jail_name@,
                dataset: dataset@,
                state: ContainerState::Created,
                restart_policy: RestartPolicy::No,
                mounts: Seq::empty(),
                port_mappings: Seq::empty(),
                ip: None,
                created_at: r@.created_at,
                started_at: None,
            }),
    {
        let r = Container {
            id: Container::generate_id(),
            name: None,
            image_id,
            jail_name,
            dataset,
            state: ContainerState::Created,
            restart_policy: RestartPolicy::No,
            mounts: Vec::new(),
            port_mappings: Vec::new(),
            ip: None,
            created_at: unix_now(),
            started_at: None,
        };
        assert(r@.mounts =~= Seq::empty());
        assert(r@.port_mappings =~= Seq::empty());
        r
    }

    /// A container made of known data, such as a database row.
    pub fn new_with_existing_data(
        id: ContainerId,
        name: Option<String>,
        image_id: String,
        jail_name: String,
        dataset: String,
        state: ContainerState,
        restart_policy: RestartPolicy,
        mounts: Vec<Mount>,
        port_mappings: Vec<PortMapping>,
        ip: Option<String>,
        created_at: i64,
        started_at: Option<i64>,
    ) -> (r: Container)
        ensures
            r@ == (ContainerView {
                id: id@,
                name: opt_view(name),
                image_id: image_id@,
                jail_name: jail_name@,
                dataset: dataset@,
                state,
                restart_policy,
                mounts: mounts_view(mounts@),
                port_mappings: port_mappings@,
                ip: opt_view(ip),
                created_at,
                started_at,
            }),
    {
        Container {
            id,
            name,
            image_id,
            jail_name,
            dataset,
            state,
            restart_policy,
            mounts,
            port_mappings,
            ip,
            created_at,
            started_at,
        }
    }

    /// A fresh container identifier.
    pub fn generate_id() -> (r: ContainerId)
        ensures
            is_id_text(r@),
    {
        random_id()
    }

    /// Sets the name.
    pub fn with_name(self, name: String) -> (r: Container)
        ensures
            r@ == (ContainerView { name: Some(name@), ..self@ }),
    {
        let mut c = self;
        c.name = Some(name);
        c
    }

    /// Sets the IP address.
    pub fn with_ip(self, ip: String) -> (r: Container)
        ensures
            r@ == (ContainerView { ip: Some(ip@), ..self@ }),
    {
        let mut c = self;
        c.ip = Some(ip);
        c
    }

    /// Sets the restart policy.
    pub fn with_restart_policy(self, policy: RestartPolicy) -> (r: Container)
        ensures
            r@ == (ContainerView { restart_policy: policy, ..self@ }),
    {
        let mut c = self;
        c.restart_policy = policy;
        c
    }

    /// Adds a mount after those already there.
    pub fn with_mount(self, mount: Mount) -> (r: Container)
        ensures
            r@ == (ContainerView { mounts: self@.mounts.push(mount@), ..self@ }),
    {
        let mut c = self;
        c.mounts.push(mount);
        assert(mounts_view(c.mounts@) =~= self@.mounts.push(mount@));
        c
    }

    /// Adds a port mapping after those already there.
    pub fn with_port_mapping(self, mapping: PortMapping) -> (r: Container)
        ensures
            r@ == (ContainerView { port_mappings: self@.port_mappings.push(mapping), ..self@ }),
    {
        let mut c = self;
        c.port_mappings.push(mapping);
        c
    }

    /// Sets the state. The first time the state becomes `Running`, the
    /// current time is recorded as the time of the start; it is kept from
    /// then on.
    pub fn set_state(&mut self, state: ContainerState)
        ensures
            exists|now: i64| final(self)@ == old(self)@.with_state(state, now),
            old(self)@.started_at is Some ==> final(self)@.started_at == old(self)@.started_at,
            state == ContainerState::Running ==> final(self)@.started_at is Some,
    {
        self.state = state;
        match state {
            ContainerState::Running => {
                if self.started_at.is_none() {
                    let now = unix_now();
                    self.started_at = Some(now);
                    assert(self@ == old(self)@.with_state(state, now));
                } else {
                    assert(self@ == old(self)@.with_state(state, 0));
                }
            },
            _ => {
                assert(self@ == old(self)@.with_state(state, 0));
            },
        }
    }

    /// Whether the container is running.
    pub fn is_running(&self) -> (r: bool)
        ensures
            r == (self.state == ContainerState::Running),
    {
        match self.state {
            ContainerState::Running => true,
            _ => false,
        }
    }

    /// Whether the container is stopped.
    pub fn is_stopped(&self) -> (r: bool)
        ensures
            r == (self.state == ContainerState::Stopped),
    {
        match self.state {
            ContainerState::Stopped => true,
            _ => false,
        }
    }

    /// The name to show: the container's name, or else its identifier.
    pub fn display_name(&self) -> (r: &str)
        ensures
            r@ == match self@.name {
                Some(n) => n,
                None => self@.id,
            },
    {
        match &self.name {
            Some(n) => n.as_str(),
            None => self.id.as_str(),
        }
    }

    /// A copy of the container.
    pub fn duplicate(&self) -> (r: Container)
        ensures
            r@ == self@,
    {
        Container {
            id: self.id.clone(),
            name: clone_opt(&self.name),
            image_id: self.image_id.clone(),
            jail_name: self.jail_name.clone(),
            dataset: self.dataset.clone(),
            state: self.state,
            restart_policy: self.restart_policy,
            mounts: clone_mounts(&self.mounts),
            port_mappings: clone_ports(&self.port_mappings),
            ip: clone_opt(&self.ip),
            created_at: self.created_at,
            started_at: self.started_at,
        }
    }
}

impl Clone for Container {
    fn clone(&self) -> (r: Container)
        ensures
            r@ == self@,
    {
        self.duplicate()
    }
}

} // verus!
