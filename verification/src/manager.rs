//! The manager: the jails, images and containers that the daemon knows, and
//! the steps that change them.
//!
//! The manager keeps everything in memory. What has to reach the database is
//! handed back as rows; what has to be asked of the kernel is handed back as
//! a plan, and its outcome is reported to the manager afterwards.

use crate::bootstrap::{BootstrapProgress, BootstrapStatus};
use crate::command::HostCommand;
use crate::config::KawakazeConfig;
use crate::container::{
    Container, ContainerConfig, ContainerState, ContainerView, MountView, PortMapping,
    RestartPolicy,
};
use crate::ids::is_id_text;
use crate::image::{Image, ImageState, ImageView};
use crate::image_builder::ImageBuildProgress;
use crate::jail::{
    is_row_of, opt_str_view, opt_view, start_refusal, stop_refusal, Host, Jail, JailError, JailRemoval,
    JailStart, JailState, JailView,
};
use crate::networking::ContainerNetwork;
use crate::store::{JailRow, JailStore, StoreError};
use crate::text::{chars_of, concat2, concat3, has_prefix, slice, starts_with, str_eq, string_of};
use crate::tracker::Tracker;
use crate::zfs::{Zfs, ZfsError};
use vstd::prelude::*;

verus! {

/// The views of a list of jails.
pub open spec fn jails_view(v: Seq<Jail>) -> Seq<JailView> {
    Seq::new(v.len(), |i: int| v[i]@)
}

/// The views of a list of images.
pub open spec fn images_view(v: Seq<Image>) -> Seq<ImageView> {
    Seq::new(v.len(), |i: int| v[i]@)
}

/// The views of a list of containers.
pub open spec fn containers_view(v: Seq<Container>) -> Seq<ContainerView> {
    Seq::new(v.len(), |i: int| v[i]@)
}

/// Whether a jail of this name is among the jails.
pub open spec fn has_jail(js: Seq<JailView>, name: Seq<char>) -> bool {
    exists|i: int| 0 <= i < js.len() && (#[trigger] js[i]).name == name
}

/// Whether an image of this identifier is among the images.
pub open spec fn has_image(is: Seq<ImageView>, id: Seq<char>) -> bool {
    exists|i: int| 0 <= i < is.len() && (#[trigger] is[i]).id == id
}

/// Whether a container of this identifier is among the containers.
pub open spec fn has_container(cs: Seq<ContainerView>, id: Seq<char>) -> bool {
    exists|i: int| 0 <= i < cs.len() && (#[trigger] cs[i]).id == id
}

/// Whether a container owns the jail of this name.
pub open spec fn owns_jail(cs: Seq<ContainerView>, name: Seq<char>) -> bool {
    exists|i: int| 0 <= i < cs.len() && (#[trigger] cs[i]).jail_name == name
}

/// Whether a container was made from the image of this identifier.
pub open spec fn uses_image(cs: Seq<ContainerView>, id: Seq<char>) -> bool {
    exists|i: int| 0 <= i < cs.len() && (#[trigger] cs[i]).image_id == id
}

/// No two jails have the same name.
pub open spec fn distinct_jails(js: Seq<JailView>) -> bool {
    forall|i: int, j: int| 0 <= i < j < js.len() ==> (#[trigger] js[i]).name != (#[trigger] js[j]).name
}

/// No two images have the same identifier.
pub open spec fn distinct_images(is: Seq<ImageView>) -> bool {
    forall|i: int, j: int| 0 <= i < j < is.len() ==> (#[trigger] is[i]).id != (#[trigger] is[j]).id
}

/// No two images have the same name.
pub open spec fn distinct_image_names(is: Seq<ImageView>) -> bool {
    forall|i: int, j: int|
        0 <= i < j < is.len() ==> (#[trigger] is[i]).name != (#[trigger] is[j]).name
}

/// Whether another image than the one of this identifier has this name.
pub open spec fn image_name_taken(is: Seq<ImageView>, name: Seq<char>, id: Seq<char>) -> bool {
    exists|i: int| 0 <= i < is.len() && (#[trigger] is[i]).name == name && is[i].id != id
}

/// No two containers have the same identifier or the same jail.
pub open spec fn distinct_containers(cs: Seq<ContainerView>) -> bool {
    forall|i: int, j: int|
        0 <= i < j < cs.len() ==> (#[trigger] cs[i]).id != (#[trigger] cs[j]).id && cs[i].jail_name
            != cs[j].jail_name
}

/// No two containers have the same name.
pub open spec fn distinct_names(cs: Seq<ContainerView>) -> bool {
    forall|i: int, j: int|
        0 <= i < j < cs.len() && (#[trigger] cs[i]).name is Some ==> cs[i].name != (
        #[trigger] cs[j]).name
}

/// Whether a container has this name.
pub open spec fn name_taken(cs: Seq<ContainerView>, name: Option<Seq<char>>) -> bool {
    name is Some && exists|i: int| 0 <= i < cs.len() && (#[trigger] cs[i]).name == name
}

/// Every jail is well formed: running exactly if it has a JID.
pub open spec fn jails_wf(js: Seq<JailView>) -> bool {
    forall|i: int| 0 <= i < js.len() ==> (#[trigger] js[i]).wf()
}

/// Every container has its jail.
pub open spec fn containers_have_jails(cs: Seq<ContainerView>, js: Seq<JailView>) -> bool {
    forall|i: int| 0 <= i < cs.len() ==> has_jail(js, (#[trigger] cs[i]).jail_name)
}

/// What is to be written to the database after a step. Writing is best
/// effort: a failure is logged, and the next start of the daemon reconciles.
#[derive(Debug, PartialEq)]
pub enum StoreOp {
    InsertJail(JailRow),
    UpdateJail(JailRow),
    DeleteJail(String),
    InsertImage(Image),
    DeleteImage(String),
    InsertContainer(Container),
    UpdateContainer(String, ContainerState),
    DeleteContainer(String),
}

/// What removing an image asks of the host.
#[derive(Debug, PartialEq)]
pub struct ImageRemoval {
    /// The image's identifier.
    pub id: String,
    /// Destroys the image's snapshot; absent without a ZFS handle. Its
    /// failure is ignored.
    pub destroy: Option<HostCommand>,
}

/// A container that is about to exist: its dataset has to be cloned first.
#[derive(Debug, PartialEq)]
pub struct ContainerDraft {
    pub container: Container,
    /// The snapshot to clone and the dataset to clone it to; absent without
    /// a ZFS handle.
    pub clone_from: Option<(String, String)>,
}

/// What removing a container asks of the host.
#[derive(Debug, PartialEq)]
pub struct ContainerRemoval {
    pub id: String,
    /// The name of the container's jail, which is gone with it.
    pub jail_name: String,
    /// Removes the container's jail from the kernel, if it is running and
    /// may be stopped. Its failure is ignored.
    pub stop: Option<JailRemoval>,
    /// Destroys the container's dataset; absent without a ZFS handle. Its
    /// failure is ignored.
    pub destroy: Option<HostCommand>,
}

/// The manager of jails, images and containers.
pub struct JailManager {
    socket_path: String,
    jails: Vec<Jail>,
    running: bool,
    store: Option<JailStore>,
    bootstrap_progress: Tracker<BootstrapProgress>,
    images: Vec<Image>,
    containers: Vec<Container>,
    zfs: Option<Zfs>,
    config: KawakazeConfig,
    image_build_progress: Tracker<ImageBuildProgress>,
}

impl JailManager {
    /// The jails, oldest first.
    pub closed spec fn jails(&self) -> Seq<JailView> {
        jails_view(self.jails@)
    }

    /// The images, oldest first.
    pub closed spec fn images(&self) -> Seq<ImageView> {
        images_view(self.images@)
    }

    /// The containers, oldest first.
    pub closed spec fn containers(&self) -> Seq<ContainerView> {
        containers_view(self.containers@)
    }

    /// Whether the manager was started.
    pub closed spec fn started(&self) -> bool {
        self.running
    }

    /// Whether a ZFS handle is there.
    pub closed spec fn has_zfs(&self) -> bool {
        self.zfs is Some
    }

    /// The dataset below which everything is kept.
    pub closed spec fn pool(&self) -> Seq<char> {
        self.config.zfs_pool@
    }

    /// The configuration that the manager was made with.
    pub closed spec fn settings(&self) -> KawakazeConfig {
        self.config
    }

    /// The ZFS handle, if the manager has one.
    pub closed spec fn zfs_handle(&self) -> Option<Zfs> {
        self.zfs
    }

    /// The path of the socket at which the manager is to listen.
    pub closed spec fn socket(&self) -> Seq<char> {
        self.socket_path@
    }

    /// The path of the database, if the manager has one.
    pub closed spec fn database(&self) -> Option<Seq<char>> {
        match self.store {
            Some(s) => Some(s.path()),
            None => None,
        }
    }

    /// Whether the manager is as it is made: well-formed, not started, and
    /// holding nothing.
    pub open spec fn is_fresh(&self) -> bool {
        &&& self.wf()
        &&& !self.started()
        &&& self.jails() == Seq::<JailView>::empty()
        &&& self.images() == Seq::<ImageView>::empty()
        &&& self.containers() == Seq::<ContainerView>::empty()
        &&& self.bootstraps() == Map::<Seq<char>, BootstrapProgress>::empty()
        &&& self.builds() == Map::<Seq<char>, ImageBuildProgress>::empty()
    }

    /// The latest report of each bootstrap that is tracked, by the name of
    /// its jail.
    pub closed spec fn bootstraps(&self) -> Map<Seq<char>, BootstrapProgress> {
        self.bootstrap_progress@
    }

    /// The latest report of each build that is tracked, by the build's
    /// identifier.
    pub closed spec fn builds(&self) -> Map<Seq<char>, ImageBuildProgress> {
        self.image_build_progress@
    }

    /// The manager's invariant: names and identifiers are unique, every jail
    /// is running exactly if it has a JID, and every container has its jail.
    pub open spec fn wf(&self) -> bool {
        &&& distinct_jails(self.jails())
        &&& jails_wf(self.jails())
        &&& distinct_images(self.images())
        &&& distinct_image_names(self.images())
        &&& distinct_containers(self.containers())
        &&& distinct_names(self.containers())
        &&& containers_have_jails(self.containers(), self.jails())
    }

    fn build(socket_path: String, store: Option<JailStore>, zfs: Option<Zfs>, config: KawakazeConfig)
        -> (r: JailManager)
        ensures
            r.is_fresh(),
            r.socket() == socket_path@,
            r.database() == match store {
                Some(s) => Some(s.path()),
                None => None,
            },
            r.has_zfs() == (zfs is Some),
            r.pool() == config.zfs_pool@,
    {
        let r = JailManager {
            socket_path,
            jails: Vec::new(),
            running: false,
            store,
            bootstrap_progress: Tracker::new(),
            images: Vec::new(),
            containers: Vec::new(),
            zfs,
            config,
            image_build_progress: Tracker::new(),
        };
        assert(r.jails() =~= Seq::<JailView>::empty());
        assert(r.images() =~= Seq::<ImageView>::empty());
        assert(r.containers() =~= Seq::<ContainerView>::empty());
        r
    }

    /// A manager without database and without ZFS, listening at
    /// `socket_path`.
    pub fn new(socket_path: &str) -> (r: JailManager)
        ensures
            r.is_fresh(),
            r.socket() == socket_path@,
            r.database() is None,
            !r.has_zfs(),
            r.pool() == "zroot/kawakaze"@,
    {
        JailManager::build(socket_path.to_owned(), None, None, KawakazeConfig::default())
    }

    /// A manager without database and without ZFS, listening at
    /// `/var/run/kawakaze.sock`.
    pub fn with_default_socket() -> (r: JailManager)
        ensures
            r.is_fresh(),
            r.socket() == "/var/run/kawakaze.sock"@,
            r.database() is None,
            !r.has_zfs(),
            r.pool() == "zroot/kawakaze"@,
    {
        JailManager::new("/var/run/kawakaze.sock")
    }

    /// A manager with a database at `db_path`, listening at
    /// `/var/run/kawakaze.sock`.
    pub fn with_database(db_path: &str) -> (r: Result<JailManager, StoreError>)
        ensures
            r matches Ok(m) && m.is_fresh() && m.socket() == "/var/run/kawakaze.sock"@
                && m.database() == Some(db_path@) && !m.has_zfs() && m.pool() == "zroot/kawakaze"@,
    {
        match JailStore::new(db_path) {
            Ok(store) => Ok(
                JailManager::build(
                    "/var/run/kawakaze.sock".to_owned(),
                    Some(store),
                    None,
                    KawakazeConfig::default(),
                ),
            ),
            Err(e) => Err(e),
        }
    }

    /// A manager with a database at `/var/db/kawakaze.db`, listening at
    /// `/var/run/kawakaze.sock`.
    pub fn with_default_database() -> (r: Result<JailManager, StoreError>)
        ensures
            r matches Ok(m) && m.is_fresh() && m.socket() == "/var/run/kawakaze.sock"@
                && m.database() == Some("/var/db/kawakaze.db"@) && !m.has_zfs() && m.pool()
                == "zroot/kawakaze"@,
    {
        JailManager::with_database("/var/db/kawakaze.db")
    }

    /// A manager with a socket path and a database path.
    pub fn with_paths(socket_path: &str, db_path: &str) -> (r: Result<JailManager, StoreError>)
        ensures
            r matches Ok(m) && m.is_fresh() && m.socket() == socket_path@ && m.database() == Some(
                db_path@,
            ) && !m.has_zfs() && m.pool() == "zroot/kawakaze"@,
    {
        match JailStore::new(db_path) {
            Ok(store) => Ok(
                JailManager::build(
                    socket_path.to_owned(),
                    Some(store),
                    None,
                    KawakazeConfig::default(),
                ),
            ),
            Err(e) => Err(e),
        }
    }

    /// A manager for a configuration, with the socket and the database
    /// that the configuration names. `zfs` is the handle on the
    /// configuration's pool, if the pool could be had.
    pub fn with_config(config: KawakazeConfig, zfs: Option<Zfs>) -> (r: Result<
        JailManager,
        StoreError,
    >)
        ensures
            r matches Ok(m) && m.is_fresh() && m.socket() == config.storage.socket_path@
                && m.database() == Some(config.storage.database_path@) && m.has_zfs() == (zfs
                is Some) && m.pool() == config.zfs_pool@,
    {
        match JailStore::new(config.storage.database_path.as_str()) {
            Ok(store) => {
                let socket = config.storage.socket_path.clone();
                Ok(JailManager::build(socket, Some(store), zfs, config))
            },
            Err(e) => Err(e),
        }
    }

    /// The store, if the manager persists.
    pub fn store(&self) -> (r: Option<&JailStore>)
        ensures
            match r {
                Some(s) => self.database() == Some(s.path()),
                None => self.database() is None,
            },
    {
        match &self.store {
            Some(s) => Some(s),
            None => None,
        }
    }

    /// The ZFS handle, if there is one.
    pub fn zfs(&self) -> (r: Option<&Zfs>)
        ensures
            r is Some == self.has_zfs(),
            r matches Some(z) ==> self.zfs_handle() == Some(*z),
    {
        match &self.zfs {
            Some(z) => Some(z),
            None => None,
        }
    }

    /// The configuration.
    pub fn config(&self) -> (r: &KawakazeConfig)
        ensures
            *r == self.settings(),
            r.zfs_pool@ == self.pool(),
    {
        &self.config
    }

    /// Marks the manager as started. What the database holds is taken in
    /// with `load_jail`, `load_image` and `load_container`.
    pub fn start(&mut self) -> (r: Result<(), String>)
        ensures
            old(self).started() ==> (r matches Err(m) && m@ == "JailManager is already running"@)
                && final(self).started(),
            !old(self).started() ==> r is Ok && final(self).started(),
            final(self).jails() == old(self).jails(),
            final(self).images() == old(self).images(),
            final(self).containers() == old(self).containers(),
    {
        if self.running {
            return Err("JailManager is already running".to_owned());
        }
        self.running = true;
        Ok(())
    }

    /// Marks the manager as stopped and says which running jails are to be
    /// removed from the kernel, by name and in their order; each outcome is
    /// reported with `jail_stopped`. Jails that may not be stopped on this
    /// host are left out.
    pub fn stop(&mut self, host: &Host) -> (r: Result<Vec<(String, JailRemoval)>, String>)
        ensures
            !old(self).started() ==> (r matches Err(m) && m@ == "JailManager is not running"@)
                && !final(self).started(),
            old(self).started() ==> r is Ok && !final(self).started(),
            final(self).jails() == old(self).jails(),
            final(self).images() == old(self).images(),
            final(self).containers() == old(self).containers(),
            r matches Ok(v) ==> v@.len() == stoppable(old(self).jails(), *host).len() && forall|
                k: int,
            |
                0 <= k < v@.len() ==> (#[trigger] v@[k]).0@ == stoppable(
                    old(self).jails(),
                    *host,
                )[k].name && v@[k].1.is_for(stoppable(old(self).jails(), *host)[k]),
    {
        if !self.running {
            return Err("JailManager is not running".to_owned());
        }
        let ghost js = self.jails();
        let mut out: Vec<(String, JailRemoval)> = Vec::new();
        let mut i: usize = 0;
        assert(js.take(0) =~= Seq::<JailView>::empty());
        while i < self.jails.len()
            invariant
                i <= self.jails.len(),
                js == old(self).jails(),
                self.jails() == old(self).jails(),
                self.images() == old(self).images(),
                self.containers() == old(self).containers(),
                self.running,
                out@.len() == stoppable(js.take(i as int), *host).len(),
                forall|k: int|
                    0 <= k < out@.len() ==> (#[trigger] out@[k]).0@ == stoppable(
                        js.take(i as int),
                        *host,
                    )[k].name && out@[k].1.is_for(stoppable(js.take(i as int), *host)[k]),
            decreases self.jails.len() - i,
        {
            proof {
                assert(js.take(i as int + 1).drop_last() =~= js.take(i as int));
                assert(js.take(i as int + 1).last() == js[i as int]);
                assert(self.jails()[i as int] == self.jails@[i as int]@);
            }
            if self.jails[i].is_running() {
                match self.jails[i].stop(host) {
                    Ok(plan) => {
                        let name = self.jails[i].name().to_owned();
                        out.push((name, plan));
                    },
                    Err(_) => {},
                }
            }
            i += 1;
        }
        assert(js.take(i as int) =~= js);
        self.running = false;
        Ok(out)
    }

    /// Whether the manager was started.
    pub fn is_running(&self) -> (r: bool)
        ensures
            r == self.started(),
    {
        self.running
    }

    /// The path of the socket.
    pub fn socket_path(&self) -> (r: &str)
        ensures
            r@ == self.socket(),
    {
        self.socket_path.as_str()
    }

    /// The number of jails.
    pub fn jail_count(&self) -> (r: usize)
        ensures
            r == self.jails().len(),
    {
        self.jails.len()
    }

    /// The names of the jails, oldest first.
    pub fn jail_names(&self) -> (r: Vec<String>)
        ensures
            r@.len() == self.jails().len(),
            forall|i: int| 0 <= i < r@.len() ==> (#[trigger] r@[i])@ == self.jails()[i].name,
    {
        let mut out: Vec<String> = Vec::new();
        let mut i: usize = 0;
        while i < self.jails.len()
            invariant
                i <= self.jails.len(),
                out.len() == i,
                forall|k: int| 0 <= k < i ==> (#[trigger] out@[k])@ == self.jails()[k].name,
            decreases self.jails.len() - i,
        {
            out.push(self.jails[i].name().to_owned());
            i += 1;
        }
        out
    }

    /// The names and states of the jails, oldest first.
    pub fn jail_states(&self) -> (r: Vec<(String, JailState)>)
        ensures
            r@.len() == self.jails().len(),
            forall|i: int|
                0 <= i < r@.len() ==> (#[trigger] r@[i]).0@ == self.jails()[i].name && r@[i].1
                    == self.jails()[i].state,
    {
        let mut out: Vec<(String, JailState)> = Vec::new();
        let mut i: usize = 0;
        while i < self.jails.len()
            invariant
                i <= self.jails.len(),
                out.len() == i,
                forall|k: int|
                    0 <= k < i ==> (#[trigger] out@[k]).0@ == self.jails()[k].name && out@[k].1
                        == self.jails()[k].state,
            decreases self.jails.len() - i,
        {
            out.push((self.jails[i].name().to_owned(), self.jails[i].state()));
            i += 1;
        }
        out
    }

    /// Where the jail of this name stands.
    fn jail_position(&self, name: &str) -> (r: Option<usize>)
        ensures
            match r {
                Some(i) => i < self.jails().len() && self.jails()[i as int].name == name@,
                None => !has_jail(self.jails(), name@),
            },
    {
        let mut i: usize = 0;
        while i < self.jails.len()
            invariant
                i <= self.jails.len(),
                forall|k: int| 0 <= k < i ==> (#[trigger] self.jails()[k]).name != name@,
            decreases self.jails.len() - i,
        {
            if str_eq(self.jails[i].name(), name) {
                return Some(i);
            }
            i += 1;
        }
        None
    }

    /// The jail of this name.
    pub fn get_jail(&self, name: &str) -> (r: Option<&Jail>)
        ensures
            match r {
                Some(j) => j@.name == name@ && exists|i: int|
                    0 <= i < self.jails().len() && #[trigger] self.jails()[i] == j@,
                None => !has_jail(self.jails(), name@),
            },
    {
        match self.jail_position(name) {
            Some(i) => {
                assert(self.jails()[i as int] == self.jails@[i as int]@);
                Some(&self.jails[i])
            },
            None => None,
        }
    }

    /// Whether a container owns the jail of this name.
    fn is_owned(&self, name: &str) -> (r: bool)
        ensures
            r == owns_jail(self.containers(), name@),
    {
        let mut i: usize = 0;
        while i < self.containers.len()
            invariant
                i <= self.containers.len(),
                forall|k: int| 0 <= k < i ==> (#[trigger] self.containers()[k]).jail_name != name@,
            decreases self.containers.len() - i,
        {
            if str_eq(self.containers[i].jail_name.as_str(), name) {
                assert(self.containers()[i as int].jail_name == name@);
                return true;
            }
            i += 1;
        }
        false
    }

    fn is_named(&self, name: &Option<String>) -> (r: bool)
        ensures
            r == name_taken(self.containers(), opt_view(*name)),
    {
        match name {
            Some(n) => {
                let mut i: usize = 0;
                while i < self.containers.len()
                    invariant
                        i <= self.containers.len(),
                        opt_view(*name) == Some(n@),
                        forall|k: int|
                            0 <= k < i ==> (#[trigger] self.containers()[k]).name != Some(n@),
                    decreases self.containers.len() - i,
                {
                    assert(self.containers()[i as int] == self.containers@[i as int]@);
                    let same = match &self.containers[i].name {
                        Some(x) => str_eq(x.as_str(), n.as_str()),
                        None => false,
                    };
                    if same {
                        assert(opt_view(*name) == Some(n@));
                        assert(self.containers()[i as int].name == opt_view(*name));
                        return true;
                    }
                    i += 1;
                }
                false
            },
            None => false,
        }
    }

    /// Takes a configured jail in. The result is the row to write to the
    /// database.
    pub fn insert_jail(&mut self, jail: Jail) -> (r: Result<JailRow, JailError>)
        requires
            old(self).wf(),
            jail@.wf(),
        ensures
            final(self).wf(),
            final(self).images() == old(self).images(),
            final(self).containers() == old(self).containers(),
            final(self).started() == old(self).started(),
            final(self).bootstraps() == old(self).bootstraps(),
            final(self).builds() == old(self).builds(),
            final(self).has_zfs() == old(self).has_zfs(),
            final(self).pool() == old(self).pool(),
            has_jail(old(self).jails(), jail@.name) ==> (r matches Err(JailError::CreationFailed(m))
                && m@ == "Jail '"@ + jail@.name + "' already exists"@)
                    && final(self).jails() == old(self).jails(),
            !has_jail(old(self).jails(), jail@.name) ==> (r matches Ok(row) && is_row_of(
                row,
                jail@,
            ))
                    && final(self).jails() == old(self).jails().push(jail@),
    {
        match self.jail_position(jail.name()) {
            Some(_) => Err(
                JailError::CreationFailed(concat3("Jail '", jail.name(), "' already exists")),
            ),
            None => {
                let row = jail.to_db_row();
                let ghost before = self.jails();
                let ghost jv = jail@;
                self.jails.push(jail);
                proof {
                    assert(self.jails() =~= before.push(jv));
                    assert forall|k: int| 0 <= k < self.containers().len() implies has_jail(
                        self.jails(),
                        (#[trigger] self.containers()[k]).jail_name,
                    ) by {
                        let n = self.containers()[k].jail_name;
                        let w = choose|w: int| 0 <= w < before.len() && (#[trigger] before[w]).name == n;
                        assert(self.jails()[w].name == n);
                    }
                    assert forall|a: int, b: int| 0 <= a < b < self.jails().len() implies (
                    #[trigger] self.jails()[a]).name != (#[trigger] self.jails()[b]).name by {
                        if b < before.len() {
                            assert(before[a].name != before[b].name);
                        } else {
                            assert(before[a].name != jv.name);
                        }
                    }
                }
                Ok(row)
            },
        }
    }

    /// Adds a jail of this name. The result is the row to write to the
    /// database.
    pub fn add_jail(&mut self, name: &str) -> (r: Result<JailRow, JailError>)
        requires
            old(self).wf(),
        ensures
            final(self).wf(),
            final(self).images() == old(self).images(),
            final(self).containers() == old(self).containers(),
            final(self).started() == old(self).started(),
            final(self).bootstraps() == old(self).bootstraps(),
            final(self).builds() == old(self).builds(),
            has_jail(old(self).jails(), name@) ==> (r matches Err(JailError::CreationFailed(m)) && m@
                == "Jail '"@ + name@ + "' already exists"@) && final(self).jails() == old(self).jails(),
            !has_jail(old(self).jails(), name@) ==> match crate::jail::name_problem(name@) {
                Some(p) => (r matches Err(JailError::CreationFailed(m)) && m@ == p)
                    && final(self).jails() == old(self).jails(),
                None => (r matches Ok(row) && is_row_of(row, JailView::fresh(name@))) && final(self).jails() == old(self).jails().push(JailView::fresh(name@)),
            },
    {
        match self.jail_position(name) {
            Some(_) => {
                return Err(
                    JailError::CreationFailed(concat3("Jail '", name, "' already exists")),
                );
            },
            None => {},
        }
        match Jail::create(name) {
            Ok(jail) => self.insert_jail(jail),
            Err(e) => Err(e),
        }
    }

    /// Replaces the jail at a position by a jail of the same name.
    fn put_jail(&mut self, i: usize, jail: Jail)
        requires
            old(self).wf(),
            i < old(self).jails().len(),
            jail@.name == old(self).jails()[i as int].name,
            jail@.wf(),
        ensures
            final(self).wf(),
            final(self).jails() == old(self).jails().update(i as int, jail@),
            final(self).images() == old(self).images(),
            final(self).containers() == old(self).containers(),
            final(self).started() == old(self).started(),
            final(self).bootstraps() == old(self).bootstraps(),
            final(self).builds() == old(self).builds(),
            final(self).has_zfs() == old(self).has_zfs(),
            final(self).pool() == old(self).pool(),
    {
        let ghost before = self.jails();
        let ghost jv = jail@;
        self.jails.set(i, jail);
        proof {
            assert(self.jails() =~= before.update(i as int, jv));
            assert forall|k: int| 0 <= k < self.containers().len() implies has_jail(
                self.jails(),
                (#[trigger] self.containers()[k]).jail_name,
            ) by {
                let n = self.containers()[k].jail_name;
                let w = choose|w: int| 0 <= w < before.len() && (#[trigger] before[w]).name == n;
                assert(self.jails()[w].name == n);
            }
            assert forall|a: int, b: int| 0 <= a < b < self.jails().len() implies (
            #[trigger] self.jails()[a]).name != (#[trigger] self.jails()[b]).name by {
                assert(before[a].name != before[b].name);
            }
        }
    }

    /// Decides whether the jail of this name may start, and says what to
    /// ask of the host. The outcome is reported with `jail_started`.
    pub fn start_jail(&self, name: &str, host: &Host) -> (r: Result<JailStart, JailError>)
        ensures
            !has_jail(self.jails(), name@) ==> (r matches Err(JailError::StartFailed(m)) && m@
                == "Jail '"@ + name@ + "' not found"@),
            has_jail(self.jails(), name@) ==> exists|i: int|
                0 <= i < self.jails().len() && (#[trigger] self.jails()[i]).name == name@ && match r {
                    Ok(plan) => start_refusal(self.jails()[i], *host) is None && plan.is_for(
                        self.jails()[i],
                    ),
                    Err(e) => e matches JailError::StartFailed(m) && start_refusal(
                        self.jails()[i],
                        *host,
                    ) == Some(m@),
                },
    {
        match self.jail_position(name) {
            Some(i) => {
                assert(self.jails()[i as int] == self.jails@[i as int]@);
                self.jails[i].start(host)
            },
            None => Err(JailError::StartFailed(concat3("Jail '", name, "' not found"))),
        }
    }

    /// Records how the host answered the start of a jail. On success the
    /// jail is running under the JID; the result is the row to write to the
    /// database.
    pub fn jail_started(&mut self, name: &str, outcome: Result<i32, JailError>) -> (r: Result<
        JailRow,
        JailError,
    >)
        requires
            old(self).wf(),
        ensures
            final(self).wf(),
            final(self).images() == old(self).images(),
            final(self).containers() == old(self).containers(),
            final(self).started() == old(self).started(),
            final(self).bootstraps() == old(self).bootstraps(),
            final(self).builds() == old(self).builds(),
            final(self).jails().len() == old(self).jails().len(),
            !has_jail(old(self).jails(), name@) ==> (r matches Err(JailError::StartFailed(m)) && m@
                == "Jail '"@ + name@ + "' not found"@) && final(self).jails() == old(self).jails(),
            has_jail(old(self).jails(), name@) ==> exists|i: int|
                0 <= i < old(self).jails().len() && (#[trigger] old(self).jails()[i]).name == name@
                    && if old(self).jails()[i].state == JailState::Running {
                    (r matches Err(JailError::StartFailed(m)) && m@ == "Jail '"@ + name@
                        + "' is already running"@) && final(self).jails() == old(self).jails()
                } else {
                    match outcome {
                        Ok(jid) => if jid >= 1 {
                            (r matches Ok(row) && is_row_of(
                                row,
                                old(self).jails()[i].started(jid as int),
                            ))
                                    && final(self).jails()
                                    == old(self).jails().update(i, old(self).jails()[i].started(jid as int))
                        } else {
                            (r matches Err(JailError::StartFailed(m)) && m@
                                == "The kernel returned no jail ID"@)
                                    && final(self).jails() == old(self).jails()
                        },
                        Err(e) => r == Err::<JailRow, JailError>(e)
                            && final(self).jails() == old(self).jails(),
                    }
                },
    {
        match self.jail_position(name) {
            Some(i) => {
                assert(self.jails()[i as int] == self.jails@[i as int]@);
                if self.jails[i].is_running() {
                    return Err(
                        JailError::StartFailed(concat3("Jail '", name, "' is already running")),
                    );
                }
                let mut jail = self.jails[i].duplicate();
                match jail.complete_start(outcome) {
                    Ok(()) => {
                        let row = jail.to_db_row();
                        self.put_jail(i, jail);
                        Ok(row)
                    },
                    Err(e) => Err(e),
                }
            },
            None => Err(JailError::StartFailed(concat3("Jail '", name, "' not found"))),
        }
    }

    /// Decides whether the jail of this name may stop, and says what to ask
    /// of the host. The outcome is reported with `jail_stopped`.
    pub fn stop_jail(&self, name: &str, host: &Host) -> (r: Result<JailRemoval, JailError>)
        ensures
            !has_jail(self.jails(), name@) ==> (r matches Err(JailError::StopFailed(m)) && m@
                == "Jail '"@ + name@ + "' not found"@),
            has_jail(self.jails(), name@) ==> exists|i: int|
                0 <= i < self.jails().len() && (#[trigger] self.jails()[i]).name == name@ && match r {
                    Ok(plan) => stop_refusal(self.jails()[i], *host) is None && plan.is_for(
                        self.jails()[i],
                    ),
                    Err(e) => e matches JailError::StopFailed(m) && stop_refusal(
                        self.jails()[i],
                        *host,
                    ) == Some(m@),
                },
    {
        match self.jail_position(name) {
            Some(i) => {
                assert(self.jails()[i as int] == self.jails@[i as int]@);
                self.jails[i].stop(host)
            },
            None => Err(JailError::StopFailed(concat3("Jail '", name, "' not found"))),
        }
    }

    /// Records how the host answered the removal of a jail from the kernel.
    /// On success the jail is stopped and has no JID; the result is the row
    /// to write to the database.
    pub fn jail_stopped(&mut self, name: &str, outcome: Result<(), JailError>) -> (r: Result<
        JailRow,
        JailError,
    >)
        requires
            old(self).wf(),
        ensures
            final(self).wf(),
            final(self).images() == old(self).images(),
            final(self).containers() == old(self).containers(),
            final(self).started() == old(self).started(),
            final(self).bootstraps() == old(self).bootstraps(),
            final(self).builds() == old(self).builds(),
            final(self).jails().len() == old(self).jails().len(),
            !has_jail(old(self).jails(), name@) ==> (r matches Err(JailError::StopFailed(m)) && m@
                == "Jail '"@ + name@ + "' not found"@) && final(self).jails() == old(self).jails(),
            has_jail(old(self).jails(), name@) ==> exists|i: int|
                0 <= i < old(self).jails().len() && (#[trigger] old(self).jails()[i]).name == name@
                    && match outcome {
                    Ok(()) => (r matches Ok(row) && is_row_of(row, old(self).jails()[i].stopped()))
                            && final(self).jails()
                            == old(self).jails().update(i, old(self).jails()[i].stopped()),
                    Err(e) => r == Err::<JailRow, JailError>(e)
                        && final(self).jails() == old(self).jails(),
                },
    {
        match self.jail_position(name) {
            Some(i) => {
                assert(self.jails()[i as int] == self.jails@[i as int]@);
                let mut jail = self.jails[i].duplicate();
                match jail.complete_stop(outcome) {
                    Ok(()) => {
                        let row = jail.to_db_row();
                        self.put_jail(i, jail);
                        Ok(row)
                    },
                    Err(e) => Err(e),
                }
            },
            None => Err(JailError::StopFailed(concat3("Jail '", name, "' not found"))),
        }
    }

    /// Takes the jail at a position out. No container may own it.
    fn take_jail(&mut self, i: usize)
        requires
            old(self).wf(),
            i < old(self).jails().len(),
            !owns_jail(old(self).containers(), old(self).jails()[i as int].name),
        ensures
            final(self).wf(),
            final(self).jails() == old(self).jails().remove(i as int),
            final(self).images() == old(self).images(),
            final(self).containers() == old(self).containers(),
            final(self).started() == old(self).started(),
            final(self).bootstraps() == old(self).bootstraps(),
            final(self).builds() == old(self).builds(),
            final(self).has_zfs() == old(self).has_zfs(),
            final(self).pool() == old(self).pool(),
            !has_jail(final(self).jails(), old(self).jails()[i as int].name),
    {
        let ghost before = self.jails();
        let ghost gone = before[i as int].name;
        self.jails.remove(i);
        proof {
            assert(self.jails() =~= before.remove(i as int));
            let now = self.jails();
            assert forall|a: int, b: int| 0 <= a < b < now.len() implies (#[trigger] now[a]).name != (
            #[trigger] now[b]).name by {
                let a0 = if a < i {
                    a
                } else {
                    a + 1
                };
                let b0 = if b < i {
                    b
                } else {
                    b + 1
                };
                assert(before[a0].name != before[b0].name);
            }
            assert forall|k: int| 0 <= k < now.len() implies (#[trigger] now[k]).wf() by {
                let k0 = if k < i {
                    k
                } else {
                    k + 1
                };
                assert(before[k0].wf());
            }
            assert forall|k: int| 0 <= k < self.containers().len() implies has_jail(
                now,
                (#[trigger] self.containers()[k]).jail_name,
            ) by {
                let n = self.containers()[k].jail_name;
                let w = choose|w: int| 0 <= w < before.len() && (#[trigger] before[w]).name == n;
                assert(n != gone);
                if w < i {
                    assert(now[w].name == n);
                } else {
                    assert(now[w - 1].name == n);
                }
            }
            if has_jail(now, gone) {
                let w = choose|w: int| 0 <= w < now.len() && (#[trigger] now[w]).name == gone;
                let w0 = if w < i {
                    w
                } else {
                    w + 1
                };
                assert(before[w0].name == gone);
                if w0 < i {
                    assert(before[w0].name != before[i as int].name);
                } else {
                    assert(before[i as int].name != before[w0].name);
                }
            }
        }
    }

    /// Removes the jail of this name. A jail that a container owns stays. A
    /// jail that is not running is removed at once; the row of its name is
    /// to be deleted from the database. A running jail has to leave the
    /// kernel first: the result says what to ask of the host, and the
    /// outcome is reported with `jail_removed`.
    pub fn remove_jail(&mut self, name: &str, host: &Host) -> (r: Result<
        Option<JailRemoval>,
        JailError,
    >)
        requires
            old(self).wf(),
        ensures
            final(self).wf(),
            final(self).images() == old(self).images(),
            final(self).containers() == old(self).containers(),
            final(self).started() == old(self).started(),
            final(self).bootstraps() == old(self).bootstraps(),
            final(self).builds() == old(self).builds(),
            !has_jail(old(self).jails(), name@) ==> (r matches Err(JailError::DestroyFailed(m))
                && m@ == "Jail '"@ + name@ + "' not found"@) && final(self).jails() == old(self).jails(),
            has_jail(old(self).jails(), name@) && owns_jail(old(self).containers(), name@) ==> (
            r matches Err(JailError::DestroyFailed(m)) && m@ == "Jail '"@ + name@
                + "' belongs to a container"@) && final(self).jails() == old(self).jails(),
            has_jail(old(self).jails(), name@) && !owns_jail(old(self).containers(), name@)
                ==> exists|i: int|
                0 <= i < old(self).jails().len() && (#[trigger] old(self).jails()[i]).name == name@
                    && if old(self).jails()[i].state != JailState::Running {
                    r matches Ok(None) && final(self).jails() == old(self).jails().remove(i)
                        && !has_jail(final(self).jails(), name@)
                } else {
                    final(self).jails() == old(self).jails() && match r {
                        Ok(plan) => plan matches Some(p) && stop_refusal(
                            old(self).jails()[i],
                            *host,
                        ) is None && p.is_for(old(self).jails()[i]),
                        Err(e) => e matches JailError::StopFailed(m) && stop_refusal(
                            old(self).jails()[i],
                            *host,
                        ) == Some(m@),
                    }
                },
    {
        match self.jail_position(name) {
            Some(i) => {
                assert(self.jails()[i as int] == self.jails@[i as int]@);
                if self.is_owned(name) {
                    return Err(
                        JailError::DestroyFailed(
                            concat3("Jail '", name, "' belongs to a container"),
                        ),
                    );
                }
                if self.jails[i].is_running() {
                    match self.jails[i].stop(host) {
                        Ok(p) => Ok(Some(p)),
                        Err(e) => Err(e),
                    }
                } else {
                    self.take_jail(i);
                    Ok(None)
                }
            },
            None => Err(JailError::DestroyFailed(concat3("Jail '", name, "' not found"))),
        }
    }

    /// Records how the host answered the removal of a running jail that is
    /// being removed from the manager: on success the jail is gone, and the
    /// row of its name is to be deleted from the database.
    pub fn jail_removed(&mut self, name: &str, outcome: Result<(), JailError>) -> (r: Result<
        (),
        JailError,
    >)
        requires
            old(self).wf(),
        ensures
            final(self).wf(),
            final(self).images() == old(self).images(),
            final(self).containers() == old(self).containers(),
            final(self).started() == old(self).started(),
            final(self).bootstraps() == old(self).bootstraps(),
            final(self).builds() == old(self).builds(),
            match outcome {
                Err(e) => r == Err::<(), JailError>(e) && final(self).jails() == old(self).jails(),
                Ok(()) => if !has_jail(old(self).jails(), name@) {
                    (r matches Err(JailError::DestroyFailed(m)) && m@ == "Jail '"@ + name@
                        + "' not found"@) && final(self).jails() == old(self).jails()
                } else if owns_jail(old(self).containers(), name@) {
                    (r matches Err(JailError::DestroyFailed(m)) && m@ == "Jail '"@ + name@
                        + "' belongs to a container"@) && final(self).jails() == old(self).jails()
                } else {
                    r is Ok && !has_jail(final(self).jails(), name@) && exists|i: int|
                        0 <= i < old(self).jails().len() && (#[trigger] old(self).jails()[i]).name
                            == name@ && final(self).jails() == old(self).jails().remove(i)
                },
            },
    {
        match outcome {
            Err(e) => Err(e),
            Ok(()) => match self.jail_position(name) {
                Some(i) => {
                    if self.is_owned(name) {
                        return Err(
                            JailError::DestroyFailed(
                                concat3("Jail '", name, "' belongs to a container"),
                            ),
                        );
                    }
                    self.take_jail(i);
                    Ok(())
                },
                None => Err(JailError::DestroyFailed(concat3("Jail '", name, "' not found"))),
            },
        }
    }

    /// Takes in a jail that the database holds. `live` is the JID under
    /// which the kernel knows the jail's name, if it knows it: the jail is
    /// running exactly if it does. A row whose state cannot be read, or
    /// whose name is taken, is left out; the result says whether the row
    /// was taken in.
    pub fn load_jail(&mut self, row: JailRow, live: Option<i32>) -> (r: bool)
        requires
            old(self).wf(),
        ensures
            final(self).wf(),
            final(self).images() == old(self).images(),
            final(self).containers() == old(self).containers(),
            final(self).started() == old(self).started(),
            final(self).bootstraps() == old(self).bootstraps(),
            final(self).builds() == old(self).builds(),
            r == (JailState::named(row.state@) is Some && !has_jail(old(self).jails(), row.name@)),
            !r ==> final(self).jails() == old(self).jails(),
            r ==> final(self).jails() == old(self).jails().push(
                stored_jail(row).reconciled(
                    match live {
                        Some(jid) => Some(jid as int),
                        None => None,
                    },
                ),
            ),
    {
        match Jail::from_db_row(row) {
            Ok(mut jail) => {
                jail.reconcile(live);
                match self.insert_jail(jail) {
                    Ok(_) => true,
                    Err(_) => false,
                }
            },
            Err(_) => false,
        }
    }
}

/// With unique names, two positions of the same name are one.
pub proof fn lemma_unique_jail(js: Seq<JailView>, name: Seq<char>)
    requires
        distinct_jails(js),
    ensures
        forall|a: int, b: int|
            0 <= a < js.len() && 0 <= b < js.len() && (#[trigger] js[a]).name == name && (
            #[trigger] js[b]).name == name ==> a == b,
{
    assert forall|a: int, b: int|
        0 <= a < js.len() && 0 <= b < js.len() && (#[trigger] js[a]).name == name && (
        #[trigger] js[b]).name == name implies a == b by {
        if a < b {
            assert(js[a].name != js[b].name);
        }
        if b < a {
            assert(js[b].name != js[a].name);
        }
    }
}

/// With unique identifiers, two positions of the same identifier are one.
pub proof fn lemma_unique_image(is: Seq<ImageView>, id: Seq<char>)
    requires
        distinct_images(is),
    ensures
        forall|a: int, b: int|
            0 <= a < is.len() && 0 <= b < is.len() && (#[trigger] is[a]).id == id && (
            #[trigger] is[b]).id == id ==> a == b,
{
    assert forall|a: int, b: int|
        0 <= a < is.len() && 0 <= b < is.len() && (#[trigger] is[a]).id == id && (
        #[trigger] is[b]).id == id implies a == b by {
        if a < b {
            assert(is[a].id != is[b].id);
        }
        if b < a {
            assert(is[b].id != is[a].id);
        }
    }
}

/// With unique identifiers, two positions of the same identifier are one.
pub proof fn lemma_unique_container(cs: Seq<ContainerView>, id: Seq<char>)
    requires
        distinct_containers(cs),
    ensures
        forall|a: int, b: int|
            0 <= a < cs.len() && 0 <= b < cs.len() && (#[trigger] cs[a]).id == id && (
            #[trigger] cs[b]).id == id ==> a == b,
{
    assert forall|a: int, b: int|
        0 <= a < cs.len() && 0 <= b < cs.len() && (#[trigger] cs[a]).id == id && (
        #[trigger] cs[b]).id == id implies a == b by {
        if a < b {
            assert(cs[a].id != cs[b].id);
        } else if b < a {
            assert(cs[b].id != cs[a].id);
        }
    }
}

/// A jail that was added is listed, and a jail that was removed is not:
/// pushing a jail makes its name one of the names, and removing the only
/// jail of a name leaves no jail of that name.
pub proof fn lemma_added_is_listed(js: Seq<JailView>, j: JailView, i: int)
    requires
        distinct_jails(js.push(j)),
        0 <= i < js.push(j).len(),
    ensures
        has_jail(js.push(j), j.name),
        !has_jail(js.push(j).remove(i), js.push(j)[i].name),
{
    let all = js.push(j);
    assert(all[js.len() as int].name == j.name);
    let rest = all.remove(i);
    if has_jail(rest, all[i].name) {
        let w = choose|w: int| 0 <= w < rest.len() && (#[trigger] rest[w]).name == all[i].name;
        let w0 = if w < i {
            w
        } else {
            w + 1
        };
        assert(all[w0].name == all[i].name);
        if w0 < i {
            assert(all[w0].name != all[i].name);
        } else {
            assert(all[i].name != all[w0].name);
        }
    }
}

} // verus!

verus! {

/// Whether no image has this name.
pub open spec fn no_image_named(is: Seq<ImageView>, name: Seq<char>) -> bool {
    forall|k: int| 0 <= k < is.len() ==> (#[trigger] is[k]).name != name
}

/// Whether no image's identifier begins with `prefix`.
pub open spec fn no_image_prefixed(is: Seq<ImageView>, prefix: Seq<char>) -> bool {
    forall|k: int| 0 <= k < is.len() ==> !has_prefix((#[trigger] is[k]).id, prefix)
}

/// Whether position `i` holds the first image of this name.
pub open spec fn first_named(is: Seq<ImageView>, name: Seq<char>, i: int) -> bool {
    0 <= i < is.len() && is[i].name == name && no_image_named(is.take(i), name)
}

/// Whether position `i` holds the image that `key` stands for: the image
/// with that identifier; else the first image with that name; else the
/// first image whose identifier begins with it.
pub open spec fn resolves_to(is: Seq<ImageView>, key: Seq<char>, i: int) -> bool {
    &&& 0 <= i < is.len()
    &&& {
        ||| is[i].id == key
        ||| (!has_image(is, key) && is[i].name == key && no_image_named(is.take(i), key))
        ||| (!has_image(is, key) && no_image_named(is, key) && has_prefix(is[i].id, key)
            && no_image_prefixed(is.take(i), key))
    }
}

/// Whether `key` stands for no image.
pub open spec fn resolves_to_nothing(is: Seq<ImageView>, key: Seq<char>) -> bool {
    !has_image(is, key) && no_image_named(is, key) && no_image_prefixed(is, key)
}

/// Whether no container has this name.
pub open spec fn no_container_named(cs: Seq<ContainerView>, name: Seq<char>) -> bool {
    forall|k: int| 0 <= k < cs.len() ==> (#[trigger] cs[k]).name != Some(name)
}

/// Whether no container's identifier begins with `prefix`.
pub open spec fn no_container_prefixed(cs: Seq<ContainerView>, prefix: Seq<char>) -> bool {
    forall|k: int| 0 <= k < cs.len() ==> !has_prefix((#[trigger] cs[k]).id, prefix)
}

/// Whether position `i` holds the container that `key` stands for: the
/// container with that identifier; else the first container with that
/// name; else the first container whose identifier begins with it.
pub open spec fn container_resolves_to(cs: Seq<ContainerView>, key: Seq<char>, i: int) -> bool {
    &&& 0 <= i < cs.len()
    &&& {
        ||| cs[i].id == key
        ||| (!has_container(cs, key) && cs[i].name == Some(key) && no_container_named(
            cs.take(i),
            key,
        ))
        ||| (!has_container(cs, key) && no_container_named(cs, key) && has_prefix(cs[i].id, key)
            && no_container_prefixed(cs.take(i), key))
    }
}

/// Whether `key` stands for no container.
pub open spec fn resolves_to_no_container(cs: Seq<ContainerView>, key: Seq<char>) -> bool {
    !has_container(cs, key) && no_container_named(cs, key) && no_container_prefixed(cs, key)
}

/// The jails that may be stopped on this host, in their order: those that
/// are running, where the host allows it.
pub open spec fn stoppable(js: Seq<JailView>, host: Host) -> Seq<JailView>
    decreases js.len(),
{
    if js.len() == 0 {
        Seq::empty()
    } else {
        let before = stoppable(js.drop_last(), host);
        if stop_refusal(js.last(), host) is None {
            before.push(js.last())
        } else {
            before
        }
    }
}

/// Why the report of a jail's start is not taken in, as the text of the
/// error; none if it is: the jail is not running yet, and the host
/// reports a JID of at least one.
pub open spec fn start_report_refusal(j: JailView, outcome: Result<i32, JailError>) -> Option<
    Seq<char>,
> {
    if j.state == JailState::Running {
        Some("Failed to start jail: "@ + ("Jail '"@ + j.name + "' is already running"@))
    } else {
        match outcome {
            Ok(jid) => if jid >= 1 {
                None
            } else {
                Some("Failed to start jail: "@ + "The kernel returned no jail ID"@)
            },
            Err(e) => Some(e.text()),
        }
    }
}

/// The jail that a row of the database describes, before it is held
/// against the kernel. The state of a row that names none counts as
/// created.
pub open spec fn stored_jail(row: JailRow) -> JailView {
    JailView::stored(
        row.name@,
        opt_view(row.path),
        opt_view(row.ip),
        match JailState::named(row.state@) {
            Some(s) => s,
            None => JailState::Created,
        },
        row.jid as int,
    )
}

/// Why a drafted container is not taken in, as the text of the error;
/// none if it is: its dataset was cloned, its identifier and its name are
/// free, and the name of its jail is a name and free.
pub open spec fn creation_refusal(
    cs: Seq<ContainerView>,
    js: Seq<JailView>,
    c: ContainerView,
    cloned: Result<(), ZfsError>,
) -> Option<Seq<char>> {
    match cloned {
        Err(e) => Some("ZFS error: "@ + e.text()),
        Ok(()) => if has_container(cs, c.id) {
            Some("Container "@ + c.id + " already exists"@)
        } else if name_taken(cs, c.name) {
            Some("Container '"@ + c.name->0 + "' already exists"@)
        } else {
            match crate::jail::name_problem(c.jail_name) {
                Some(p) => Some("Failed to create jail: "@ + p),
                None => if has_jail(js, c.jail_name) {
                    Some("Failed to create jail: "@ + ("Jail '"@ + c.jail_name + "' already exists"@))
                } else {
                    None
                },
            }
        },
    }
}

/// The jail of a new container: a fresh jail of the name that the
/// container gives, with the container's dataset as its root where that
/// is mounted.
pub open spec fn container_jail(c: ContainerView, root: Option<Seq<char>>) -> JailView {
    JailView { path: root, ..JailView::fresh(c.jail_name) }
}

/// Whether position `k` holds the container `id` and position `j` its jail.
pub open spec fn container_and_jail(
    cs: Seq<ContainerView>,
    js: Seq<JailView>,
    id: Seq<char>,
    k: int,
    j: int,
) -> bool {
    0 <= k < cs.len() && cs[k].id == id && 0 <= j < js.len() && js[j].name == cs[k].jail_name
}

/// A jail as it is when its container starts: with a network it has the
/// network's address and the jail end of the network's epair.
pub open spec fn networked(j: JailView, network: Option<&ContainerNetwork>) -> JailView {
    match network {
        Some(n) => JailView { ip: Some(n.ip@), vnet_interface: Some(n.epair_jail@), ..j },
        None => j,
    }
}

/// A container as it is when it starts: with a network it shows the
/// network's address.
pub open spec fn addressed(c: ContainerView, network: Option<&ContainerNetwork>) -> ContainerView {
    match network {
        Some(n) => ContainerView { ip: Some(n.ip@), ..c },
        None => c,
    }
}

/// Whether `p` is the report with which the tracking of a bootstrap
/// begins.
pub open spec fn is_first_report(p: BootstrapProgress) -> bool {
    p.status == BootstrapStatus::Initializing && p.progress == 0 && p.current_step@
        == "Bootstrap starting..."@ && p.version@ == "unknown"@ && p.architecture@ == "unknown"@
}

/// The first eight characters of an identifier.
pub open spec fn short_id(id: Seq<char>) -> Seq<char> {
    id.take(8)
}

/// Whether `d` is a draft of a container of `image` as it was asked for:
/// a container in state `Created` with a fresh identifier, named as asked
/// or else by its identifier, whose jail and dataset are named by the
/// beginning of the identifier. With ZFS the image's snapshot is to be
/// cloned to the dataset.
pub open spec fn drafted(
    d: ContainerDraft,
    image: ImageView,
    name: Option<Seq<char>>,
    policy: RestartPolicy,
    ports: Seq<PortMapping>,
    mounts: Seq<MountView>,
    pool: Seq<char>,
    has_zfs: bool,
) -> bool {
    let c = d.container@;
    &&& is_id_text(c.id)
    &&& c.image_id == image.id
    &&& c.jail_name == "kawakaze-"@ + short_id(c.id)
    &&& c.dataset == pool + "/containers/"@ + short_id(c.id)
    &&& c.state == ContainerState::Created
    &&& c.restart_policy == policy
    &&& c.name == Some(
        match name {
            Some(n) => n,
            None => c.id,
        },
    )
    &&& c.port_mappings == ports
    &&& c.mounts == mounts
    &&& c.ip is None
    &&& c.started_at is None
    &&& match d.clone_from {
        Some(p) => has_zfs && p.0@ == image.snapshot && p.1@ == c.dataset,
        None => !has_zfs,
    }
}

impl JailManager {
    // ----- bootstrap progress -----
    /// Starts tracking the bootstrap of a jail, with a first report.
    pub fn register_bootstrap_tracker(&mut self, name: String)
        ensures
            final(self).jails() == old(self).jails(),
            final(self).images() == old(self).images(),
            final(self).containers() == old(self).containers(),
            final(self).started() == old(self).started(),
            final(self).has_zfs() == old(self).has_zfs(),
            final(self).pool() == old(self).pool(),
            final(self).builds() == old(self).builds(),
            final(self).bootstraps().dom() == old(self).bootstraps().dom().insert(name@),
            forall|n: Seq<char>|
                n != name@ && old(self).bootstraps().contains_key(n) ==> final(self).bootstraps()[n]
                    == old(self).bootstraps()[n],
            is_first_report(final(self).bootstraps()[name@]),
    {
        let first = BootstrapProgress {
            status: BootstrapStatus::Initializing,
            progress: 0,
            current_step: "Bootstrap starting...".to_owned(),
            version: "unknown".to_owned(),
            architecture: "unknown".to_owned(),
        };
        self.set_bootstrap_progress(name, first);
    }

    /// Records the latest progress report of a jail's bootstrap.
    pub fn set_bootstrap_progress(&mut self, name: String, progress: BootstrapProgress)
        ensures
            final(self).jails() == old(self).jails(),
            final(self).images() == old(self).images(),
            final(self).containers() == old(self).containers(),
            final(self).started() == old(self).started(),
            final(self).has_zfs() == old(self).has_zfs(),
            final(self).pool() == old(self).pool(),
            final(self).builds() == old(self).builds(),
            final(self).bootstraps() == old(self).bootstraps().insert(name@, progress),
    {
        self.bootstrap_progress.set(name, progress);
    }

    /// Records a progress report that a bootstrap sent, if the jail's
    /// bootstrap is tracked; the result says whether it is.
    pub fn update_bootstrap_progress(&mut self, name: &str, progress: BootstrapProgress) -> (r: bool)
        ensures
            final(self).jails() == old(self).jails(),
            final(self).images() == old(self).images(),
            final(self).containers() == old(self).containers(),
            final(self).started() == old(self).started(),
            final(self).has_zfs() == old(self).has_zfs(),
            final(self).pool() == old(self).pool(),
            final(self).builds() == old(self).builds(),
            r == old(self).bootstraps().contains_key(name@),
            r ==> final(self).bootstraps() == old(self).bootstraps().insert(name@, progress),
            !r ==> final(self).bootstraps() == old(self).bootstraps(),
    {
        self.bootstrap_progress.update(name, progress)
    }

    /// The latest progress report of a jail's bootstrap.
    pub fn get_bootstrap_progress(&self, name: &str) -> (r: Option<&BootstrapProgress>)
        ensures
            match r {
                Some(p) => self.bootstraps().contains_key(name@) && *p == self.bootstraps()[name@],
                None => !self.bootstraps().contains_key(name@),
            },
    {
        self.bootstrap_progress.get(name)
    }

    /// Stops tracking the bootstrap of a jail.
    pub fn remove_bootstrap_tracker(&mut self, name: &str)
        ensures
            final(self).jails() == old(self).jails(),
            final(self).images() == old(self).images(),
            final(self).containers() == old(self).containers(),
            final(self).started() == old(self).started(),
            final(self).has_zfs() == old(self).has_zfs(),
            final(self).pool() == old(self).pool(),
            final(self).builds() == old(self).builds(),
            final(self).bootstraps() == old(self).bootstraps().remove(name@),
    {
        self.bootstrap_progress.remove(name);
    }

    // ----- image build progress -----
    /// Records the latest progress report of a build.
    pub fn set_build_progress(&mut self, id: String, progress: ImageBuildProgress)
        ensures
            final(self).jails() == old(self).jails(),
            final(self).images() == old(self).images(),
            final(self).containers() == old(self).containers(),
            final(self).started() == old(self).started(),
            final(self).has_zfs() == old(self).has_zfs(),
            final(self).pool() == old(self).pool(),
            final(self).bootstraps() == old(self).bootstraps(),
            final(self).builds() == old(self).builds().insert(id@, progress),
    {
        self.image_build_progress.set(id, progress);
    }

    /// Records a progress report that a build sent, if the build is
    /// tracked; the result says whether it is.
    pub fn update_build_progress(&mut self, id: &str, progress: ImageBuildProgress) -> (r: bool)
        ensures
            final(self).jails() == old(self).jails(),
            final(self).images() == old(self).images(),
            final(self).containers() == old(self).containers(),
            final(self).started() == old(self).started(),
            final(self).has_zfs() == old(self).has_zfs(),
            final(self).pool() == old(self).pool(),
            final(self).bootstraps() == old(self).bootstraps(),
            r == old(self).builds().contains_key(id@),
            r ==> final(self).builds() == old(self).builds().insert(id@, progress),
            !r ==> final(self).builds() == old(self).builds(),
    {
        self.image_build_progress.update(id, progress)
    }

    /// The latest progress report of a build.
    pub fn get_build_progress(&self, id: &str) -> (r: Option<&ImageBuildProgress>)
        ensures
            match r {
                Some(p) => self.builds().contains_key(id@) && *p == self.builds()[id@],
                None => !self.builds().contains_key(id@),
            },
    {
        self.image_build_progress.get(id)
    }

    // ----- images -----
    fn image_position(&self, id: &str) -> (r: Option<usize>)
        ensures
            match r {
                Some(i) => i < self.images().len() && self.images()[i as int].id == id@,
                None => !has_image(self.images(), id@),
            },
    {
        let mut i: usize = 0;
        while i < self.images.len()
            invariant
                i <= self.images.len(),
                forall|k: int| 0 <= k < i ==> (#[trigger] self.images()[k]).id != id@,
            decreases self.images.len() - i,
        {
            if str_eq(self.images[i].id.as_str(), id) {
                return Some(i);
            }
            i += 1;
        }
        None
    }

    fn image_name_position(&self, name: &str) -> (r: Option<usize>)
        ensures
            match r {
                Some(i) => i < self.images().len() && self.images()[i as int].name == name@
                    && forall|k: int| 0 <= k < i ==> (#[trigger] self.images()[k]).name != name@,
                None => forall|k: int|
                    0 <= k < self.images().len() ==> (#[trigger] self.images()[k]).name != name@,
            },
    {
        let mut i: usize = 0;
        while i < self.images.len()
            invariant
                i <= self.images.len(),
                forall|k: int| 0 <= k < i ==> (#[trigger] self.images()[k]).name != name@,
            decreases self.images.len() - i,
        {
            if str_eq(self.images[i].name.as_str(), name) {
                return Some(i);
            }
            i += 1;
        }
        None
    }

    fn image_prefix_position(&self, prefix: &str) -> (r: Option<usize>)
        ensures
            match r {
                Some(i) => i < self.images().len() && has_prefix(self.images()[i as int].id, prefix@)
                    && forall|k: int|
                    0 <= k < i ==> !has_prefix((#[trigger] self.images()[k]).id, prefix@),
                None => forall|k: int|
                    0 <= k < self.images().len() ==> !has_prefix(
                        (#[trigger] self.images()[k]).id,
                        prefix@,
                    ),
            },
    {
        let p = chars_of(prefix);
        let mut i: usize = 0;
        while i < self.images.len()
            invariant
                i <= self.images.len(),
                p@ == prefix@,
                forall|k: int| 0 <= k < i ==> !has_prefix((#[trigger] self.images()[k]).id, prefix@),
            decreases self.images.len() - i,
        {
            if starts_with(&chars_of(self.images[i].id.as_str()), &p) {
                return Some(i);
            }
            i += 1;
        }
        None
    }

    /// Takes an image in; an image of the same identifier is replaced. An
    /// image whose name another image has is refused. The image is to be
    /// written to the database.
    pub fn add_image(&mut self, image: Image) -> (r: Result<(), StoreError>)
        requires
            old(self).wf(),
        ensures
            final(self).wf(),
            final(self).jails() == old(self).jails(),
            final(self).containers() == old(self).containers(),
            final(self).started() == old(self).started(),
            final(self).bootstraps() == old(self).bootstraps(),
            final(self).builds() == old(self).builds(),
            final(self).has_zfs() == old(self).has_zfs(),
            final(self).pool() == old(self).pool(),
            if image_name_taken(old(self).images(), image@.name, image@.id) {
                (r matches Err(StoreError::DatabaseError(m)) && m@ == "Image '"@ + image@.name
                    + "' already exists"@) && final(self).images() == old(self).images()
            } else {
                &&& r is Ok
                &&& has_image(final(self).images(), image@.id)
                &&& !has_image(old(self).images(), image@.id) ==> final(self).images() == old(self).images().push(image@)
                &&& has_image(old(self).images(), image@.id) ==> exists|i: int|
                    0 <= i < old(self).images().len() && (#[trigger] old(self).images()[i]).id
                        == image@.id && final(self).images() == old(self).images().update(
                        i,
                        image@,
                    )
            },
    {
        let ghost before = self.images();
        let ghost iv = image@;
        if self.image_name_clash(image.name.as_str(), image.id.as_str()) {
            return Err(
                StoreError::DatabaseError(concat3("Image '", image.name.as_str(), "' already exists")),
            );
        }
        match self.image_position(image.id.as_str()) {
            Some(i) => {
                self.images.set(i, image);
                proof {
                    assert(self.images() =~= before.update(i as int, iv));
                    assert(self.images()[i as int].id == iv.id);
                    assert forall|a: int, b: int| 0 <= a < b < self.images().len() implies (
                    #[trigger] self.images()[a]).id != (#[trigger] self.images()[b]).id by {
                        assert(before[a].id != before[b].id);
                    }
                    assert forall|a: int, b: int| 0 <= a < b < self.images().len() implies (
                    #[trigger] self.images()[a]).name != (#[trigger] self.images()[b]).name by {
                        assert(before[a].name != before[b].name);
                        assert(before[a].id != before[b].id);
                        if a == i {
                            assert(before[b].name != iv.name);
                        }
                        if b == i {
                            assert(before[a].name != iv.name);
                        }
                    }
                }
            },
            None => {
                self.images.push(image);
                proof {
                    assert(self.images() =~= before.push(iv));
                    assert(self.images()[before.len() as int].id == iv.id);
                    assert forall|a: int, b: int| 0 <= a < b < self.images().len() implies (
                    #[trigger] self.images()[a]).id != (#[trigger] self.images()[b]).id by {
                        if b < before.len() {
                            assert(before[a].id != before[b].id);
                        } else {
                            assert(before[a].id != iv.id);
                        }
                    }
                    assert forall|a: int, b: int| 0 <= a < b < self.images().len() implies (
                    #[trigger] self.images()[a]).name != (#[trigger] self.images()[b]).name by {
                        if b < before.len() {
                            assert(before[a].name != before[b].name);
                        } else {
                            assert(before[a].id != iv.id);
                            assert(before[a].name != iv.name);
                        }
                    }
                }
            },
        }
        Ok(())
    }

    fn image_name_clash(&self, name: &str, id: &str) -> (r: bool)
        ensures
            r == image_name_taken(self.images(), name@, id@),
    {
        let mut i: usize = 0;
        while i < self.images.len()
            invariant
                i <= self.images.len(),
                forall|k: int|
                    0 <= k < i ==> !((#[trigger] self.images()[k]).name == name@
                        && self.images()[k].id != id@),
            decreases self.images.len() - i,
        {
            assert(self.images()[i as int] == self.images@[i as int]@);
            if str_eq(self.images[i].name.as_str(), name) && !str_eq(
                self.images[i].id.as_str(),
                id,
            ) {
                return true;
            }
            i += 1;
        }
        false
    }

    /// The image of this identifier.
    pub fn get_image(&self, id: &str) -> (r: Option<&Image>)
        ensures
            match r {
                Some(x) => x@.id == id@ && exists|i: int|
                    0 <= i < self.images().len() && #[trigger] self.images()[i] == x@,
                None => !has_image(self.images(), id@),
            },
    {
        match self.image_position(id) {
            Some(i) => {
                assert(self.images()[i as int] == self.images@[i as int]@);
                Some(&self.images[i])
            },
            None => None,
        }
    }

    /// The first image of this name.
    pub fn get_image_by_name(&self, name: &str) -> (r: Option<&Image>)
        ensures
            match r {
                Some(x) => exists|i: int|
                    first_named(self.images(), name@, i) && #[trigger] self.images()[i] == x@,
                None => no_image_named(self.images(), name@),
            },
    {
        match self.image_name_position(name) {
            Some(i) => {
                assert(self.images()[i as int] == self.images@[i as int]@);
                assert(no_image_named(self.images().take(i as int), name@)) by {
                    assert forall|k: int| 0 <= k < self.images().take(i as int).len() implies (
                    #[trigger] self.images().take(i as int)[k]).name != name@ by {
                        assert(self.images()[k].name != name@);
                    }
                }
                Some(&self.images[i])
            },
            None => None,
        }
    }

    /// The first image whose identifier begins with `prefix`.
    pub fn get_image_by_prefix(&self, prefix: &str) -> (r: Option<&Image>)
        ensures
            match r {
                Some(x) => exists|i: int|
                    0 <= i < self.images().len() && #[trigger] self.images()[i] == x@ && has_prefix(
                        x@.id,
                        prefix@,
                    ) && no_image_prefixed(self.images().take(i), prefix@),
                None => no_image_prefixed(self.images(), prefix@),
            },
    {
        match self.image_prefix_position(prefix) {
            Some(i) => {
                assert(self.images()[i as int] == self.images@[i as int]@);
                assert(no_image_prefixed(self.images().take(i as int), prefix@)) by {
                    assert forall|k: int|
                        0 <= k < self.images().take(i as int).len() implies !has_prefix(
                        (#[trigger] self.images().take(i as int)[k]).id,
                        prefix@,
                    ) by {
                        assert(!has_prefix(self.images()[k].id, prefix@));
                    }
                }
                Some(&self.images[i])
            },
            None => None,
        }
    }

    /// Finds an image by what a request calls it: by its identifier, else
    /// by its name, else by the beginning of its identifier.
    pub fn find_image(&self, key: &str) -> (r: Option<&Image>)
        ensures
            match r {
                Some(x) => exists|i: int|
                    resolves_to(self.images(), key@, i) && #[trigger] self.images()[i] == x@,
                None => resolves_to_nothing(self.images(), key@),
            },
    {
        let ghost is = self.images();
        match self.image_position(key) {
            Some(i) => {
                assert(self.images()[i as int] == self.images@[i as int]@);
                assert(resolves_to(is, key@, i as int));
                return Some(&self.images[i]);
            },
            None => {},
        }
        match self.image_name_position(key) {
            Some(i) => {
                assert(self.images()[i as int] == self.images@[i as int]@);
                assert(no_image_named(is.take(i as int), key@)) by {
                    assert forall|k: int| 0 <= k < is.take(i as int).len() implies (
                    #[trigger] is.take(i as int)[k]).name != key@ by {
                        assert(is[k].name != key@);
                    }
                }
                assert(resolves_to(is, key@, i as int));
                return Some(&self.images[i]);
            },
            None => {},
        }
        match self.image_prefix_position(key) {
            Some(i) => {
                assert(self.images()[i as int] == self.images@[i as int]@);
                assert(no_image_prefixed(is.take(i as int), key@)) by {
                    assert forall|k: int| 0 <= k < is.take(i as int).len() implies !has_prefix(
                        (#[trigger] is.take(i as int)[k]).id,
                        key@,
                    ) by {
                        assert(!has_prefix(is[k].id, key@));
                    }
                }
                assert(resolves_to(is, key@, i as int));
                Some(&self.images[i])
            },
            None => None,
        }
    }

    /// The images, oldest first.
    pub fn list_images(&self) -> (r: Vec<&Image>)
        ensures
            r@.len() == self.images().len(),
            forall|i: int| 0 <= i < r@.len() ==> (#[trigger] r@[i])@ == self.images()[i],
    {
        let mut out: Vec<&Image> = Vec::new();
        let mut i: usize = 0;
        while i < self.images.len()
            invariant
                i <= self.images.len(),
                out.len() == i,
                forall|k: int| 0 <= k < i ==> (#[trigger] out@[k])@ == self.images()[k],
            decreases self.images.len() - i,
        {
            out.push(&self.images[i]);
            i += 1;
        }
        out
    }

    fn image_in_use(&self, id: &str) -> (r: bool)
        ensures
            r == uses_image(self.containers(), id@),
    {
        let mut i: usize = 0;
        while i < self.containers.len()
            invariant
                i <= self.containers.len(),
                forall|k: int| 0 <= k < i ==> (#[trigger] self.containers()[k]).image_id != id@,
            decreases self.containers.len() - i,
        {
            if str_eq(self.containers[i].image_id.as_str(), id) {
                assert(self.containers()[i as int].image_id == id@);
                return true;
            }
            i += 1;
        }
        false
    }

    /// Removes an image. An image that a container was made from stays, so
    /// that no clone loses its snapshot. Otherwise the image is gone, its
    /// row is to be deleted from the database, and the result says how to
    /// destroy its snapshot.
    pub fn remove_image(&mut self, id: &str) -> (r: Result<ImageRemoval, StoreError>)
        requires
            old(self).wf(),
        ensures
            final(self).wf(),
            final(self).jails() == old(self).jails(),
            final(self).containers() == old(self).containers(),
            final(self).started() == old(self).started(),
            final(self).bootstraps() == old(self).bootstraps(),
            final(self).builds() == old(self).builds(),
            final(self).has_zfs() == old(self).has_zfs(),
            final(self).pool() == old(self).pool(),
            uses_image(old(self).containers(), id@) ==> (r matches Err(
                StoreError::DatabaseError(m),
            ) && m@ == "Image '"@ + id@ + "' is used by a container"@) && final(self).images()
                == old(self).images(),
            !uses_image(old(self).containers(), id@) ==> (r matches Ok(x) && x.id@ == id@
                && if has_image(
                old(self).images(),
                id@,
            ) {
                exists|i: int|
                    0 <= i < old(self).images().len() && (#[trigger] old(self).images()[i]).id == id@
                        && final(self).images() == old(self).images().remove(i) && match x.destroy {
                        Some(c) => old(self).has_zfs() && c.input() is None && c.line() == seq![
                            "zfs"@,
                            "destroy"@,
                            "-r"@,
                            old(self).images()[i].snapshot,
                        ],
                        None => !old(self).has_zfs(),
                    }
            } else {
                final(self).images() == old(self).images() && x.destroy is None
            }) && !has_image(final(self).images(), id@),
    {
        if self.image_in_use(id) {
            return Err(
                StoreError::DatabaseError(concat3("Image '", id, "' is used by a container")),
            );
        }
        let ghost before = self.images();
        match self.image_position(id) {
            Some(i) => {
                let destroy = match &self.zfs {
                    Some(z) => Some(z.destroy(self.images[i].snapshot.as_str())),
                    None => None,
                };
                self.images.remove(i);
                proof {
                    let now = self.images();
                    assert(now =~= before.remove(i as int));
                    assert forall|a: int, b: int| 0 <= a < b < now.len() implies (#[trigger] now[a]).id
                        != (#[trigger] now[b]).id by {
                        let a0 = if a < i {
                            a
                        } else {
                            a + 1
                        };
                        let b0 = if b < i {
                            b
                        } else {
                            b + 1
                        };
                        assert(before[a0].id != before[b0].id);
                    }
                    assert forall|a: int, b: int| 0 <= a < b < now.len() implies (
                    #[trigger] now[a]).name != (#[trigger] now[b]).name by {
                        let a0 = if a < i {
                            a
                        } else {
                            a + 1
                        };
                        let b0 = if b < i {
                            b
                        } else {
                            b + 1
                        };
                        assert(before[a0].name != before[b0].name);
                    }
                    if has_image(now, id@) {
                        let w = choose|w: int| 0 <= w < now.len() && (#[trigger] now[w]).id == id@;
                        let w0 = if w < i {
                            w
                        } else {
                            w + 1
                        };
                        assert(before[w0].id == id@);
                        if w0 < i {
                            assert(before[w0].id != before[i as int].id);
                        } else {
                            assert(before[i as int].id != before[w0].id);
                        }
                    }
                }
                Ok(ImageRemoval { id: id.to_owned(), destroy })
            },
            None => Ok(ImageRemoval { id: id.to_owned(), destroy: None }),
        }
    }

    /// Takes in an image that the database holds; the result says whether
    /// the image was taken in, which it is unless its identifier or its
    /// name is taken.
    pub fn load_image(&mut self, image: Image) -> (r: bool)
        requires
            old(self).wf(),
        ensures
            final(self).wf(),
            final(self).jails() == old(self).jails(),
            final(self).containers() == old(self).containers(),
            final(self).started() == old(self).started(),
            final(self).bootstraps() == old(self).bootstraps(),
            final(self).builds() == old(self).builds(),
            r == (!has_image(old(self).images(), image@.id) && !image_name_taken(
                old(self).images(),
                image@.name,
                image@.id,
            )),
            r ==> final(self).images() == old(self).images().push(image@),
            !r ==> final(self).images() == old(self).images(),
    {
        match self.image_position(image.id.as_str()) {
            Some(_) => false,
            None => match self.add_image(image) {
                Ok(()) => true,
                Err(_) => false,
            },
        }
    }

    // ----- containers -----
    fn container_position(&self, id: &str) -> (r: Option<usize>)
        ensures
            match r {
                Some(i) => i < self.containers().len() && self.containers()[i as int].id == id@,
                None => !has_container(self.containers(), id@),
            },
    {
        let mut i: usize = 0;
        while i < self.containers.len()
            invariant
                i <= self.containers.len(),
                forall|k: int| 0 <= k < i ==> (#[trigger] self.containers()[k]).id != id@,
            decreases self.containers.len() - i,
        {
            if str_eq(self.containers[i].id.as_str(), id) {
                return Some(i);
            }
            i += 1;
        }
        None
    }

    /// The container of this identifier.
    pub fn get_container(&self, id: &str) -> (r: Option<&Container>)
        ensures
            match r {
                Some(x) => x@.id == id@ && exists|i: int|
                    0 <= i < self.containers().len() && #[trigger] self.containers()[i] == x@,
                None => !has_container(self.containers(), id@),
            },
    {
        match self.container_position(id) {
            Some(i) => {
                assert(self.containers()[i as int] == self.containers@[i as int]@);
                Some(&self.containers[i])
            },
            None => None,
        }
    }

    /// The first container of this name.
    pub fn get_container_by_name(&self, name: &str) -> (r: Option<&Container>)
        ensures
            match r {
                Some(x) => exists|i: int|
                    0 <= i < self.containers().len() && #[trigger] self.containers()[i] == x@
                        && x@.name == Some(name@) && no_container_named(
                        self.containers().take(i),
                        name@,
                    ),
                None => no_container_named(self.containers(), name@),
            },
    {
        let mut i: usize = 0;
        while i < self.containers.len()
            invariant
                i <= self.containers.len(),
                forall|k: int|
                    0 <= k < i ==> (#[trigger] self.containers()[k]).name != Some(name@),
            decreases self.containers.len() - i,
        {
            assert(self.containers()[i as int] == self.containers@[i as int]@);
            let same = match &self.containers[i].name {
                Some(n) => str_eq(n.as_str(), name),
                None => false,
            };
            if same {
                assert(no_container_named(self.containers().take(i as int), name@)) by {
                    assert forall|k: int|
                        0 <= k < self.containers().take(i as int).len() implies (
                    #[trigger] self.containers().take(i as int)[k]).name != Some(name@) by {
                        assert(self.containers()[k].name != Some(name@));
                    }
                }
                return Some(&self.containers[i]);
            }
            i += 1;
        }
        None
    }

    /// The first container whose identifier begins with `prefix`.
    pub fn get_container_by_prefix(&self, prefix: &str) -> (r: Option<&Container>)
        ensures
            match r {
                Some(x) => exists|i: int|
                    0 <= i < self.containers().len() && #[trigger] self.containers()[i] == x@
                        && has_prefix(x@.id, prefix@) && no_container_prefixed(
                        self.containers().take(i),
                        prefix@,
                    ),
                None => no_container_prefixed(self.containers(), prefix@),
            },
    {
        let p = chars_of(prefix);
        let mut i: usize = 0;
        while i < self.containers.len()
            invariant
                i <= self.containers.len(),
                p@ == prefix@,
                forall|k: int|
                    0 <= k < i ==> !has_prefix((#[trigger] self.containers()[k]).id, prefix@),
            decreases self.containers.len() - i,
        {
            assert(self.containers()[i as int] == self.containers@[i as int]@);
            if starts_with(&chars_of(self.containers[i].id.as_str()), &p) {
                assert(no_container_prefixed(self.containers().take(i as int), prefix@)) by {
                    assert forall|k: int|
                        0 <= k < self.containers().take(i as int).len() implies !has_prefix(
                        (#[trigger] self.containers().take(i as int)[k]).id,
                        prefix@,
                    ) by {
                        assert(!has_prefix(self.containers()[k].id, prefix@));
                    }
                }
                return Some(&self.containers[i]);
            }
            i += 1;
        }
        None
    }

    /// Finds a container by what a request calls it: by its identifier,
    /// else by its name, else by the beginning of its identifier.
    pub fn find_container(&self, key: &str) -> (r: Option<&Container>)
        ensures
            match r {
                Some(x) => exists|i: int|
                    container_resolves_to(self.containers(), key@, i)
                        && #[trigger] self.containers()[i] == x@,
                None => resolves_to_no_container(self.containers(), key@),
            },
    {
        let ghost cs = self.containers();
        match self.container_position(key) {
            Some(i) => {
                assert(self.containers()[i as int] == self.containers@[i as int]@);
                assert(container_resolves_to(cs, key@, i as int));
                return Some(&self.containers[i]);
            },
            None => {},
        }
        let p = chars_of(key);
        let mut i: usize = 0;
        while i < self.containers.len()
            invariant
                i <= self.containers.len(),
                cs == self.containers(),
                !has_container(self.containers(), key@),
                forall|k: int|
                    0 <= k < i ==> (#[trigger] self.containers()[k]).name != Some(key@),
            decreases self.containers.len() - i,
        {
            assert(self.containers()[i as int] == self.containers@[i as int]@);
            let same = match &self.containers[i].name {
                Some(n) => str_eq(n.as_str(), key),
                None => false,
            };
            if same {
                assert(no_container_named(cs.take(i as int), key@)) by {
                    assert forall|k: int| 0 <= k < cs.take(i as int).len() implies (
                    #[trigger] cs.take(i as int)[k]).name != Some(key@) by {
                        assert(cs[k].name != Some(key@));
                    }
                }
                assert(container_resolves_to(cs, key@, i as int));
                return Some(&self.containers[i]);
            }
            i += 1;
        }
        let mut j: usize = 0;
        while j < self.containers.len()
            invariant
                j <= self.containers.len(),
                p@ == key@,
                cs == self.containers(),
                !has_container(self.containers(), key@),
                forall|k: int|
                    0 <= k < self.containers().len() ==> (#[trigger] self.containers()[k]).name
                        != Some(key@),
                forall|k: int| 0 <= k < j ==> !has_prefix((#[trigger] self.containers()[k]).id, key@),
            decreases self.containers.len() - j,
        {
            assert(self.containers()[j as int] == self.containers@[j as int]@);
            if starts_with(&chars_of(self.containers[j].id.as_str()), &p) {
                assert(no_container_prefixed(cs.take(j as int), key@)) by {
                    assert forall|k: int| 0 <= k < cs.take(j as int).len() implies !has_prefix(
                        (#[trigger] cs.take(j as int)[k]).id,
                        key@,
                    ) by {
                        assert(!has_prefix(cs[k].id, key@));
                    }
                }
                assert(container_resolves_to(cs, key@, j as int));
                return Some(&self.containers[j]);
            }
            j += 1;
        }
        None
    }

    /// The containers, oldest first.
    pub fn list_containers(&self) -> (r: Vec<&Container>)
        ensures
            r@.len() == self.containers().len(),
            forall|i: int| 0 <= i < r@.len() ==> (#[trigger] r@[i])@ == self.containers()[i],
    {
        let mut out: Vec<&Container> = Vec::new();
        let mut i: usize = 0;
        while i < self.containers.len()
            invariant
                i <= self.containers.len(),
                out.len() == i,
                forall|k: int| 0 <= k < i ==> (#[trigger] out@[k])@ == self.containers()[k],
            decreases self.containers.len() - i,
        {
            out.push(&self.containers[i]);
            i += 1;
        }
        out
    }

    /// Prepares a container of an image: the image has to be there and
    /// available. The container gets a fresh identifier; its jail is called
    /// `kawakaze-` and the first eight characters of the identifier, its
    /// dataset `<pool>/containers/` and the same eight characters. Nothing
    /// changes yet: the dataset is cloned first, and the outcome is
    /// reported with `container_created`.
    pub fn create_container(&self, config: ContainerConfig) -> (r: Result<ContainerDraft, StoreError>)
        requires
            self.wf(),
        ensures
            match r {
                Ok(d) => !name_taken(self.containers(), opt_view(config.name)) && exists|i: int|
                    0 <= i < self.images().len() && (#[trigger] self.images()[i]).id
                        == config.image_id@ && self.images()[i].state == ImageState::Available
                        && drafted(
                        d,
                        self.images()[i],
                        opt_view(config.name),
                        config.restart_policy,
                        config.ports@,
                        crate::container::mounts_view(config.volumes@),
                        self.pool(),
                        self.has_zfs(),
                    ),
                Err(e) => e matches StoreError::SerializationError(m) && if !has_image(
                    self.images(),
                    config.image_id@,
                ) {
                    m@ == "Image "@ + config.image_id@ + " not found"@
                } else if exists|i: int|
                    0 <= i < self.images().len() && (#[trigger] self.images()[i]).id
                        == config.image_id@ && self.images()[i].state != ImageState::Available {
                    m@ == "Image "@ + config.image_id@ + " is not available"@
                } else {
                    name_taken(self.containers(), opt_view(config.name)) && m@ == "Container '"@
                        + config.name->0@ + "' already exists"@
                },
            },
    {
        let image = match self.get_image(config.image_id.as_str()) {
            Some(i) => i,
            None => {
                return Err(
                    StoreError::SerializationError(
                        concat3("Image ", config.image_id.as_str(), " not found"),
                    ),
                );
            },
        };
        if !image.is_available() {
            return Err(
                StoreError::SerializationError(
                    concat3("Image ", config.image_id.as_str(), " is not available"),
                ),
            );
        }
        proof {
            lemma_unique_image(self.images(), config.image_id@);
        }
        if self.is_named(&config.name) {
            let taken: &str = match &config.name {
                Some(n) => n.as_str(),
                None => "",
            };
            return Err(
                StoreError::SerializationError(concat3("Container '", taken, "' already exists")),
            );
        }
        let id = Container::generate_id();
        let short = string_of(&slice(&chars_of(id.as_str()), 0, 8));
        assert(short@ =~= short_id(id@));
        let jail_name = concat2("kawakaze-", short.as_str());
        let dataset = concat3(self.config.zfs_pool.as_str(), "/containers/", short.as_str());
        let clone_from = match &self.zfs {
            Some(_) => Some((image.snapshot.clone(), dataset.clone())),
            None => None,
        };
        let name = match config.name {
            Some(n) => n,
            None => id.clone(),
        };
        let container = Container::new_with_existing_data(
            id,
            Some(name),
            config.image_id,
            jail_name,
            dataset,
            ContainerState::Created,
            config.restart_policy,
            config.volumes,
            config.ports,
            None,
            crate::ids::unix_now(),
            None,
        );
        Ok(ContainerDraft { container, clone_from })
    }
}

} // verus!

verus! {

impl JailManager {
    /// Takes the container at a position in, after its jail was taken in.
    fn push_container(&mut self, container: Container)
        requires
            old(self).wf(),
            !has_container(old(self).containers(), container@.id),
            !owns_jail(old(self).containers(), container@.jail_name),
            !name_taken(old(self).containers(), container@.name),
            has_jail(old(self).jails(), container@.jail_name),
        ensures
            final(self).wf(),
            final(self).containers() == old(self).containers().push(container@),
            final(self).jails() == old(self).jails(),
            final(self).images() == old(self).images(),
            final(self).started() == old(self).started(),
            final(self).bootstraps() == old(self).bootstraps(),
            final(self).builds() == old(self).builds(),
            final(self).has_zfs() == old(self).has_zfs(),
            final(self).pool() == old(self).pool(),
    {
        let ghost before = self.containers();
        let ghost cv = container@;
        self.containers.push(container);
        proof {
            let now = self.containers();
            assert(now =~= before.push(cv));
            assert forall|a: int, b: int| 0 <= a < b < now.len() implies (#[trigger] now[a]).id != (
            #[trigger] now[b]).id && now[a].jail_name != now[b].jail_name by {
                if b < before.len() {
                    assert(before[a].id != before[b].id);
                } else {
                    assert(before[a].id != cv.id);
                    assert(before[a].jail_name != cv.jail_name);
                }
            }
            assert forall|k: int| 0 <= k < now.len() implies has_jail(
                self.jails(),
                (#[trigger] now[k]).jail_name,
            ) by {
                if k < before.len() {
                    assert(has_jail(self.jails(), before[k].jail_name));
                }
            }
            assert forall|a: int, b: int|
                0 <= a < b < now.len() && (#[trigger] now[a]).name is Some implies now[a].name != (
            #[trigger] now[b]).name by {
                if b < before.len() {
                    assert(before[a].name != before[b].name);
                } else {
                    assert(before[a].name != cv.name);
                }
            }
        }
    }

    /// Replaces the container at a position by one with the same
    /// identifier and the same jail.
    fn put_container(&mut self, i: usize, container: Container)
        requires
            old(self).wf(),
            i < old(self).containers().len(),
            container@.id == old(self).containers()[i as int].id,
            container@.jail_name == old(self).containers()[i as int].jail_name,
            container@.name == old(self).containers()[i as int].name,
        ensures
            final(self).wf(),
            final(self).containers() == old(self).containers().update(i as int, container@),
            final(self).jails() == old(self).jails(),
            final(self).images() == old(self).images(),
            final(self).started() == old(self).started(),
            final(self).bootstraps() == old(self).bootstraps(),
            final(self).builds() == old(self).builds(),
            final(self).has_zfs() == old(self).has_zfs(),
            final(self).pool() == old(self).pool(),
    {
        let ghost before = self.containers();
        let ghost cv = container@;
        self.containers.set(i, container);
        proof {
            let now = self.containers();
            assert(now =~= before.update(i as int, cv));
            assert forall|a: int, b: int| 0 <= a < b < now.len() implies (#[trigger] now[a]).id != (
            #[trigger] now[b]).id && now[a].jail_name != now[b].jail_name by {
                assert(before[a].id != before[b].id);
                assert(before[a].jail_name != before[b].jail_name);
            }
            assert forall|k: int| 0 <= k < now.len() implies has_jail(
                self.jails(),
                (#[trigger] now[k]).jail_name,
            ) by {
                assert(has_jail(self.jails(), before[k].jail_name));
            }
            assert forall|a: int, b: int|
                0 <= a < b < now.len() && (#[trigger] now[a]).name is Some implies now[a].name != (
            #[trigger] now[b]).name by {
                assert(before[a].name != before[b].name);
            }
        }
    }

    /// Takes the container at a position out, and its jail with it.
    fn take_container(&mut self, i: usize)
        requires
            old(self).wf(),
            i < old(self).containers().len(),
        ensures
            final(self).wf(),
            final(self).containers() == old(self).containers().remove(i as int),
            !has_container(final(self).containers(), old(self).containers()[i as int].id),
            !has_jail(final(self).jails(), old(self).containers()[i as int].jail_name),
            exists|j: int|
                0 <= j < old(self).jails().len()
                    && (#[trigger] old(self).jails()[j]).name
                    == old(self).containers()[i as int].jail_name
                    && final(self).jails() == old(self).jails().remove(j),
            final(self).images() == old(self).images(),
            final(self).started() == old(self).started(),
            final(self).bootstraps() == old(self).bootstraps(),
            final(self).builds() == old(self).builds(),
            final(self).has_zfs() == old(self).has_zfs(),
            final(self).pool() == old(self).pool(),
    {
        let ghost before = self.containers();
        let ghost gone = before[i as int];
        let jail_name = self.containers[i].jail_name.clone();
        assert(self.containers()[i as int] == self.containers@[i as int]@);
        self.containers.remove(i);
        proof {
            let now = self.containers();
            assert(now =~= before.remove(i as int));
            assert forall|a: int, b: int| 0 <= a < b < now.len() implies (#[trigger] now[a]).id != (
            #[trigger] now[b]).id && now[a].jail_name != now[b].jail_name by {
                let a0 = if a < i {
                    a
                } else {
                    a + 1
                };
                let b0 = if b < i {
                    b
                } else {
                    b + 1
                };
                assert(before[a0].id != before[b0].id);
                assert(before[a0].jail_name != before[b0].jail_name);
            }
            assert forall|k: int| 0 <= k < now.len() implies has_jail(
                self.jails(),
                (#[trigger] now[k]).jail_name,
            ) by {
                let k0 = if k < i {
                    k
                } else {
                    k + 1
                };
                assert(has_jail(self.jails(), before[k0].jail_name));
            }
            assert forall|a: int, b: int|
                0 <= a < b < now.len() && (#[trigger] now[a]).name is Some implies now[a].name != (
            #[trigger] now[b]).name by {
                let a0 = if a < i {
                    a
                } else {
                    a + 1
                };
                let b0 = if b < i {
                    b
                } else {
                    b + 1
                };
                assert(before[a0].name != before[b0].name);
            }
            if has_container(now, gone.id) {
                let w = choose|w: int| 0 <= w < now.len() && (#[trigger] now[w]).id == gone.id;
                let w0 = if w < i {
                    w
                } else {
                    w + 1
                };
                if w0 < i {
                    assert(before[w0].id != before[i as int].id);
                } else {
                    assert(before[i as int].id != before[w0].id);
                }
            }
            if owns_jail(now, gone.jail_name) {
                let w = choose|w: int| 0 <= w < now.len() && (#[trigger] now[w]).jail_name
                    == gone.jail_name;
                let w0 = if w < i {
                    w
                } else {
                    w + 1
                };
                if w0 < i {
                    assert(before[w0].jail_name != before[i as int].jail_name);
                } else {
                    assert(before[i as int].jail_name != before[w0].jail_name);
                }
            }
            assert(has_jail(self.jails(), gone.jail_name));
        }
        match self.jail_position(jail_name.as_str()) {
            Some(p) => {
                assert(old(self).jails()[p as int].name == jail_name@);
                self.take_jail(p);
            },
            None => {},
        }
    }

    /// Takes a drafted container in once its dataset was cloned, and its
    /// jail with it; `root` is where the dataset is mounted, which becomes
    /// the jail's root. The container and the row of its jail, which the
    /// result holds, are to be written to the database. If cloning failed, or if the container's identifier or its
    /// jail's name is taken, nothing changes.
    pub fn container_created(
        &mut self,
        draft: ContainerDraft,
        cloned: Result<(), ZfsError>,
        root: Option<&str>,
    ) -> (r: Result<(Container, JailRow), StoreError>)
        requires
            old(self).wf(),
        ensures
            final(self).wf(),
            final(self).images() == old(self).images(),
            final(self).started() == old(self).started(),
            final(self).bootstraps() == old(self).bootstraps(),
            final(self).builds() == old(self).builds(),
            match creation_refusal(
                old(self).containers(),
                old(self).jails(),
                draft.container@,
                cloned,
            ) {
                None => {
                    &&& r matches Ok(x) && x.0@ == draft.container@ && is_row_of(
                        x.1,
                        container_jail(draft.container@, opt_str_view(root)),
                    )
                    &&& final(self).containers() == old(self).containers().push(draft.container@)
                    &&& final(self).jails() == old(self).jails().push(
                        container_jail(draft.container@, opt_str_view(root)),
                    )
                },
                Some(why) => {
                    &&& r matches Err(StoreError::SerializationError(m)) && m@ == why
                    &&& final(self).containers() == old(self).containers()
                    &&& final(self).jails() == old(self).jails()
                },
            },
    {
        match cloned {
            Err(e) => {
                return Err(StoreError::from_zfs(&e));
            },
            Ok(()) => {},
        }
        let container = draft.container;
        match self.container_position(container.id.as_str()) {
            Some(_) => {
                return Err(
                    StoreError::SerializationError(
                        concat3("Container ", container.id.as_str(), " already exists"),
                    ),
                );
            },
            None => {},
        }
        if self.is_named(&container.name) {
            let taken: &str = match &container.name {
                Some(n) => n.as_str(),
                None => "",
            };
            return Err(
                StoreError::SerializationError(concat3("Container '", taken, "' already exists")),
            );
        }
        let jail = match Jail::create(container.jail_name.as_str()) {
            Ok(j) => j,
            Err(e) => {
                return Err(StoreError::SerializationError(e.to_string()));
            },
        };
        let jail = match root {
            Some(p) => match jail.with_path(p) {
                Ok(j) => j,
                Err(e) => {
                    return Err(StoreError::SerializationError(e.to_string()));
                },
            },
            None => jail,
        };
        let ghost old_jails = self.jails();
        let ghost old_containers = self.containers();
        let row = match self.insert_jail(jail) {
            Ok(row) => row,
            Err(e) => {
                return Err(StoreError::SerializationError(e.to_string()));
            },
        };
        proof {
            assert(self.jails()[old_jails.len() as int].name == container@.jail_name);
            if owns_jail(old_containers, container@.jail_name) {
                let w = choose|w: int| 0 <= w < old_containers.len()
                    && (#[trigger] old_containers[w]).jail_name
                    == container@.jail_name;
                assert(has_jail(old_jails, old_containers[w].jail_name));
            }
        }
        let copy = container.duplicate();
        self.push_container(container);
        Ok((copy, row))
    }

    /// Takes in a container that the database holds, and its jail with it
    /// if the manager does not know the jail yet. The result says whether
    /// the container was taken in, which it is unless its identifier is
    /// taken, another container owns its jail, or its jail cannot be named.
    pub fn load_container(&mut self, container: Container) -> (r: bool)
        requires
            old(self).wf(),
        ensures
            final(self).wf(),
            final(self).images() == old(self).images(),
            final(self).started() == old(self).started(),
            final(self).bootstraps() == old(self).bootstraps(),
            final(self).builds() == old(self).builds(),
            r == (!has_container(old(self).containers(), container@.id) && !owns_jail(
                old(self).containers(),
                container@.jail_name,
            ) && !name_taken(old(self).containers(), container@.name) && (has_jail(
                old(self).jails(),
                container@.jail_name,
            ) || crate::jail::name_problem(container@.jail_name) is None)),
            r ==> final(self).containers() == old(self).containers().push(container@)
                && final(self).jails() == if has_jail(old(self).jails(), container@.jail_name) {
                old(self).jails()
            } else {
                old(self).jails().push(JailView::fresh(container@.jail_name))
            },
            !r ==> final(self).containers() == old(self).containers() && final(self).jails()
                == old(self).jails(),
    {
        match self.container_position(container.id.as_str()) {
            Some(_) => {
                return false;
            },
            None => {},
        }
        if self.is_owned(container.jail_name.as_str()) {
            return false;
        }
        if self.is_named(&container.name) {
            return false;
        }
        match self.jail_position(container.jail_name.as_str()) {
            Some(_) => {},
            None => {
                let jail = match Jail::create(container.jail_name.as_str()) {
                    Ok(j) => j,
                    Err(_) => {
                        return false;
                    },
                };
                let ghost old_jails = self.jails();
                match self.insert_jail(jail) {
                    Ok(_) => {
                        assert(self.jails()[old_jails.len() as int].name == container@.jail_name);
                    },
                    Err(_) => {
                        return false;
                    },
                }
            },
        }
        self.push_container(container);
        true
    }

    /// Decides whether a container may start, and says what to ask of the
    /// host for its jail. With a network, the jail gets the network's
    /// address and the jail end of its epair, and the container shows the
    /// address, whether or not the start is then refused. The outcome of
    /// the host's work is reported with `container_started`.
    pub fn start_container(
        &mut self,
        id: &str,
        host: &Host,
        network: Option<&ContainerNetwork>,
    ) -> (r: Result<JailStart, StoreError>)
        requires
            old(self).wf(),
        ensures
            final(self).wf(),
            final(self).images() == old(self).images(),
            final(self).started() == old(self).started(),
            final(self).bootstraps() == old(self).bootstraps(),
            final(self).builds() == old(self).builds(),
            !has_container(old(self).containers(), id@) ==> (r matches Err(
                StoreError::SerializationError(m),
            ) && m@ == "Container "@ + id@ + " not found"@)
                && final(self).containers() == old(self).containers()
                && final(self).jails() == old(self).jails(),
            has_container(old(self).containers(), id@) ==> exists|k: int, j: int|
                #![trigger old(self).containers()[k], old(self).jails()[j]]
                container_and_jail(old(self).containers(), old(self).jails(), id@, k, j) && {
                    let jail = networked(old(self).jails()[j], network);
                    &&& final(self).jails() == old(self).jails().update(j, jail)
                    &&& final(self).containers() == old(self).containers().update(
                        k,
                        addressed(old(self).containers()[k], network),
                    )
                    &&& match r {
                        Ok(plan) => start_refusal(jail, *host) is None && plan.is_for(jail),
                        Err(e) => e matches StoreError::SerializationError(m) && (start_refusal(
                            jail,
                            *host,
                        ) matches Some(why) && m@ == "Failed to start jail: "@ + why),
                    }
                },
    {
        let ci = match self.container_position(id) {
            Some(i) => i,
            None => {
                return Err(
                    StoreError::SerializationError(concat3("Container ", id, " not found")),
                );
            },
        };
        assert(self.containers()[ci as int] == self.containers@[ci as int]@);
        let jail_name = self.containers[ci].jail_name.clone();
        let ji = match self.jail_position(jail_name.as_str()) {
            Some(i) => i,
            None => {
                assert(has_jail(self.jails(), self.containers()[ci as int].jail_name));
                return Err(
                    StoreError::SerializationError(
                        concat3("Jail '", jail_name.as_str(), "' not found"),
                    ),
                );
            },
        };
        assert(self.jails()[ji as int] == self.jails@[ji as int]@);
        assert(container_and_jail(
            old(self).containers(),
            old(self).jails(),
            id@,
            ci as int,
            ji as int,
        ));
        match network {
            Some(n) => {
                let jail = self.jails[ji].duplicate();
                let jail = match jail.with_ip(n.ip.as_str()) {
                    Ok(j) => j,
                    Err(e) => {
                        return Err(StoreError::SerializationError(e.to_string()));
                    },
                };
                let jail = match jail.with_vnet_interface(n.epair_jail.as_str()) {
                    Ok(j) => j,
                    Err(e) => {
                        return Err(StoreError::SerializationError(e.to_string()));
                    },
                };
                self.put_jail(ji, jail);
                let container = self.containers[ci].duplicate().with_ip(n.ip.clone());
                self.put_container(ci, container);
            },
            None => {
                assert(self.jails() =~= old(self).jails().update(
                    ji as int,
                    old(self).jails()[ji as int],
                ));
                assert(self.containers() =~= old(self).containers().update(
                    ci as int,
                    old(self).containers()[ci as int],
                ));
            },
        }
        assert(self.jails()[ji as int] == self.jails@[ji as int]@);
        match self.jails[ji].start(host) {
            Ok(plan) => Ok(plan),
            Err(e) => Err(StoreError::SerializationError(e.to_string())),
        }
    }

    /// Records how the host answered the start of a container's jail. On
    /// success jail and container are running; the container's new state
    /// and the row of its jail, which is the result, are to be written to
    /// the database.
    pub fn container_started(&mut self, id: &str, outcome: Result<i32, JailError>) -> (r: Result<
        JailRow,
        StoreError,
    >)
        requires
            old(self).wf(),
        ensures
            final(self).wf(),
            final(self).images() == old(self).images(),
            final(self).started() == old(self).started(),
            final(self).bootstraps() == old(self).bootstraps(),
            final(self).builds() == old(self).builds(),
            !has_container(old(self).containers(), id@) ==> (r matches Err(
                StoreError::SerializationError(m),
            ) && m@ == "Container "@ + id@ + " not found"@)
                && final(self).containers() == old(self).containers()
                && final(self).jails() == old(self).jails(),
            has_container(old(self).containers(), id@) ==> exists|k: int, j: int|
                #![trigger old(self).containers()[k], old(self).jails()[j]]
                container_and_jail(old(self).containers(), old(self).jails(), id@, k, j)
                    && match start_report_refusal(old(self).jails()[j], outcome) {
                    None => {
                        &&& r matches Ok(row) && is_row_of(
                            row,
                            old(self).jails()[j].started(outcome->Ok_0 as int),
                        )
                        &&& final(self).jails() == old(self).jails().update(
                            j,
                            old(self).jails()[j].started(outcome->Ok_0 as int),
                        )
                        &&& exists|now: i64|
                            final(self).containers() == old(self).containers().update(
                                k,
                                #[trigger] old(self).containers()[k].with_state(
                                    ContainerState::Running,
                                    now,
                                ),
                            )
                    },
                    Some(why) => {
                        &&& r matches Err(StoreError::SerializationError(m)) && m@ == why
                        &&& final(self).containers() == old(self).containers()
                        &&& final(self).jails() == old(self).jails()
                    },
                },
    {
        let ci = match self.container_position(id) {
            Some(i) => i,
            None => {
                return Err(
                    StoreError::SerializationError(concat3("Container ", id, " not found")),
                );
            },
        };
        assert(self.containers()[ci as int] == self.containers@[ci as int]@);
        let jail_name = self.containers[ci].jail_name.clone();
        let ghost ji = choose|w: int|
            0 <= w < self.jails().len() && (#[trigger] self.jails()[w]).name == jail_name@;
        assert(has_jail(self.jails(), self.containers()[ci as int].jail_name));
        assert(container_and_jail(old(self).containers(), old(self).jails(), id@, ci as int, ji));
        let row = match self.jail_started(jail_name.as_str(), outcome) {
            Ok(row) => row,
            Err(e) => {
                proof {
                    lemma_unique_jail(old(self).jails(), jail_name@);
                }
                return Err(StoreError::SerializationError(e.to_string()));
            },
        };
        proof {
            lemma_unique_jail(old(self).jails(), jail_name@);
        }
        assert(self.containers()[ci as int] == self.containers@[ci as int]@);
        let mut container = self.containers[ci].duplicate();
        container.set_state(ContainerState::Running);
        self.put_container(ci, container);
        Ok(row)
    }

    /// Decides whether a container may stop, and says what to ask of the
    /// host for its jail. The outcome is reported with `container_stopped`.
    pub fn stop_container(&self, id: &str, host: &Host) -> (r: Result<JailRemoval, StoreError>)
        requires
            self.wf(),
        ensures
            !has_container(self.containers(), id@) ==> (r matches Err(
                StoreError::SerializationError(m),
            ) && m@ == "Container "@ + id@ + " not found"@),
            has_container(self.containers(), id@) ==> exists|k: int, j: int|
                #![trigger self.containers()[k], self.jails()[j]]
                container_and_jail(self.containers(), self.jails(), id@, k, j) && match r {
                    Ok(plan) => stop_refusal(self.jails()[j], *host) is None && plan.is_for(
                        self.jails()[j],
                    ),
                    Err(e) => e matches StoreError::SerializationError(m) && (stop_refusal(
                        self.jails()[j],
                        *host,
                    ) matches Some(why) && m@ == "Failed to stop jail: "@ + why),
                },
    {
        let ci = match self.container_position(id) {
            Some(i) => i,
            None => {
                return Err(
                    StoreError::SerializationError(concat3("Container ", id, " not found")),
                );
            },
        };
        assert(self.containers()[ci as int] == self.containers@[ci as int]@);
        assert(has_jail(self.jails(), self.containers()[ci as int].jail_name));
        proof {
            lemma_unique_jail(self.jails(), self.containers()[ci as int].jail_name);
        }
        match self.stop_jail(self.containers[ci].jail_name.as_str(), host) {
            Ok(plan) => Ok(plan),
            Err(e) => Err(StoreError::SerializationError(e.to_string())),
        }
    }

    /// Records how the host answered the stop of a container's jail. On
    /// success jail and container are stopped; the time of the container's
    /// first start is kept. The container's new state and the row of its
    /// jail, which is the result, are to be written to the database.
    pub fn container_stopped(&mut self, id: &str, outcome: Result<(), JailError>) -> (r: Result<
        JailRow,
        StoreError,
    >)
        requires
            old(self).wf(),
        ensures
            final(self).wf(),
            final(self).images() == old(self).images(),
            final(self).started() == old(self).started(),
            final(self).bootstraps() == old(self).bootstraps(),
            final(self).builds() == old(self).builds(),
            !has_container(old(self).containers(), id@) ==> (r matches Err(
                StoreError::SerializationError(m),
            ) && m@ == "Container "@ + id@ + " not found"@)
                && final(self).containers() == old(self).containers()
                && final(self).jails() == old(self).jails(),
            has_container(old(self).containers(), id@) ==> exists|k: int, j: int|
                #![trigger old(self).containers()[k], old(self).jails()[j]]
                container_and_jail(old(self).containers(), old(self).jails(), id@, k, j)
                    && match outcome {
                    Ok(()) => {
                        &&& r matches Ok(row) && is_row_of(row, old(self).jails()[j].stopped())
                        &&& final(self).jails() == old(self).jails().update(
                            j,
                            old(self).jails()[j].stopped(),
                        )
                        &&& final(self).containers() == old(self).containers().update(
                            k,
                            ContainerView {
                                state: ContainerState::Stopped,
                                ..old(self).containers()[k]
                            },
                        )
                    },
                    Err(e) => {
                        &&& r matches Err(StoreError::SerializationError(m)) && m@ == e.text()
                        &&& final(self).containers() == old(self).containers()
                        &&& final(self).jails() == old(self).jails()
                    },
                },
    {
        let ci = match self.container_position(id) {
            Some(i) => i,
            None => {
                return Err(
                    StoreError::SerializationError(concat3("Container ", id, " not found")),
                );
            },
        };
        assert(self.containers()[ci as int] == self.containers@[ci as int]@);
        let jail_name = self.containers[ci].jail_name.clone();
        let ghost ji = choose|w: int|
            0 <= w < self.jails().len() && (#[trigger] self.jails()[w]).name == jail_name@;
        assert(has_jail(self.jails(), self.containers()[ci as int].jail_name));
        assert(container_and_jail(old(self).containers(), old(self).jails(), id@, ci as int, ji));
        proof {
            lemma_unique_jail(old(self).jails(), jail_name@);
        }
        let row = match self.jail_stopped(jail_name.as_str(), outcome) {
            Ok(row) => row,
            Err(e) => {
                return Err(StoreError::SerializationError(e.to_string()));
            },
        };
        assert(self.containers()[ci as int] == self.containers@[ci as int]@);
        let mut container = self.containers[ci].duplicate();
        container.set_state(ContainerState::Stopped);
        self.put_container(ci, container);
        proof {
            let c0 = old(self).containers()[ci as int];
            assert(forall|now: i64|
                #[trigger] c0.with_state(ContainerState::Stopped, now) == (ContainerView {
                    state: ContainerState::Stopped,
                    ..c0
                }));
        }
        Ok(row)
    }

    /// Removes a container and its jail. A running container stays: it has
    /// to be stopped first. The rows of the container and of its jail are
    /// to be deleted from the database; the result says how to remove a jail that is still in
    /// the kernel and how to destroy the container's dataset.
    pub fn remove_container(&mut self, id: &str, host: &Host) -> (r: Result<
        ContainerRemoval,
        StoreError,
    >)
        requires
            old(self).wf(),
        ensures
            final(self).wf(),
            final(self).images() == old(self).images(),
            final(self).started() == old(self).started(),
            final(self).bootstraps() == old(self).bootstraps(),
            final(self).builds() == old(self).builds(),
            !has_container(old(self).containers(), id@) ==> (r matches Err(
                StoreError::SerializationError(m),
            ) && m@ == "Container "@ + id@ + " not found"@)
                && final(self).containers() == old(self).containers()
                && final(self).jails() == old(self).jails(),
            has_container(old(self).containers(), id@) ==> exists|k: int, j: int|
                #![trigger old(self).containers()[k], old(self).jails()[j]]
                container_and_jail(old(self).containers(), old(self).jails(), id@, k, j)
                    && if old(self).containers()[k].state == ContainerState::Running {
                    &&& r matches Err(StoreError::SerializationError(m)) && m@ == "Container "@ + id@
                        + " is running"@
                    &&& final(self).containers() == old(self).containers()
                    &&& final(self).jails() == old(self).jails()
                } else {
                    &&& r matches Ok(x) && x.id@ == id@ && x.jail_name@ == old(self).containers()[k].jail_name && (match x.destroy {
                        Some(c) => old(self).has_zfs() && c.input() is None && c.line() == seq![
                            "zfs"@,
                            "destroy"@,
                            "-r"@,
                            old(self).containers()[k].dataset,
                        ],
                        None => !old(self).has_zfs(),
                    }) && (match stop_refusal(old(self).jails()[j], *host) {
                        None => x.stop matches Some(p) && p.is_for(old(self).jails()[j]),
                        Some(_) => x.stop is None,
                    })
                    &&& final(self).containers() == old(self).containers().remove(k)
                    &&& final(self).jails() == old(self).jails().remove(j)
                    &&& !has_container(final(self).containers(), id@)
                    &&& !has_jail(final(self).jails(), old(self).containers()[k].jail_name)
                },
    {
        let ci = match self.container_position(id) {
            Some(i) => i,
            None => {
                return Err(
                    StoreError::SerializationError(concat3("Container ", id, " not found")),
                );
            },
        };
        assert(self.containers()[ci as int] == self.containers@[ci as int]@);
        if self.containers[ci].is_running() {
            return Err(StoreError::SerializationError(concat3("Container ", id, " is running")));
        }
        proof {
            assert(has_jail(self.jails(), self.containers()[ci as int].jail_name));
            lemma_unique_jail(self.jails(), self.containers()[ci as int].jail_name);
        }
        let stop = match self.stop_jail(self.containers[ci].jail_name.as_str(), host) {
            Ok(plan) => Some(plan),
            Err(_) => None,
        };
        let destroy = match &self.zfs {
            Some(z) => Some(z.destroy(self.containers[ci].dataset.as_str())),
            None => None,
        };
        let jail_name = self.containers[ci].jail_name.clone();
        self.take_container(ci);
        Ok(ContainerRemoval { id: id.to_owned(), jail_name, stop, destroy })
    }
}

/// Every container has exactly one jail: under the manager's invariant, the
/// jail of a container's name is there, and no second jail has that name.
pub proof fn lemma_one_jail_per_container(m: &JailManager, k: int, a: int, b: int)
    requires
        m.wf(),
        0 <= k < m.containers().len(),
        0 <= a < m.jails().len(),
        0 <= b < m.jails().len(),
        m.jails()[a].name == m.containers()[k].jail_name,
        m.jails()[b].name == m.containers()[k].jail_name,
    ensures
        has_jail(m.jails(), m.containers()[k].jail_name),
        a == b,
{
    if a < b {
        assert(m.jails()[a].name != m.jails()[b].name);
    } else if b < a {
        assert(m.jails()[b].name != m.jails()[a].name);
    }
}

} // verus!
