//! The persistence store: the schema of its three tables, the statements
//! that read and write them, and the rows they hold.
//!
//! Statements are told as text and parameters; running them against the
//! database is the caller's part. Every operation works on a connection of
//! its own, so a store can be copied freely.

use crate::jail::opt_view;
use crate::text::{concat2, str_eq, str_views};
use crate::zfs::ZfsError;
use vstd::prelude::*;

verus! {

/// A jail as one row of the `jails` table.
#[derive(Debug, PartialEq, Eq)]
pub struct JailRow {
    pub name: String,
    pub path: Option<String>,
    pub ip: Option<String>,
    pub state: String,
    pub jid: i32,
}

/// Why a store operation failed.
#[derive(Debug, PartialEq, Eq)]
pub enum StoreError {
    DatabaseError(String),
    InvalidState(String),
    SerializationError(String),
}

impl StoreError {
    /// The error as one line of text.
    pub open spec fn text(self) -> Seq<char> {
        match self {
            StoreError::DatabaseError(m) => "Database error: "@ + m@,
            StoreError::InvalidState(m) => "Invalid state: "@ + m@,
            StoreError::SerializationError(m) => "Serialization error: "@ + m@,
        }
    }

    /// The error as one line of text.
    pub fn to_string(&self) -> (r: String)
        ensures
            r@ == self.text(),
    {
        match self {
            StoreError::DatabaseError(m) => concat2("Database error: ", m.as_str()),
            StoreError::InvalidState(m) => concat2("Invalid state: ", m.as_str()),
            StoreError::SerializationError(m) => concat2("Serialization error: ", m.as_str()),
        }
    }

    /// A ZFS error as a store error.
    pub fn from_zfs(e: &ZfsError) -> (r: StoreError)
        ensures
            r matches StoreError::SerializationError(m) && m@ == "ZFS error: "@ + e.text(),
    {
        StoreError::SerializationError(concat2("ZFS error: ", e.to_string().as_str()))
    }
}

/// The state of an image as the database stores it.
#[derive(Debug, Clone, Copy, PartialEq, Eq, Structural)]
pub enum ImageState {
    Building,
    Available,
    Deleted,
}

impl ImageState {
    /// The state's name in the database.
    pub open spec fn name(self) -> Seq<char> {
        match self {
            ImageState::Building => "building"@,
            ImageState::Available => "available"@,
            ImageState::Deleted => "deleted"@,
        }
    }

    /// The state that `s` names, letter for letter.
    pub open spec fn named(s: Seq<char>) -> Option<ImageState> {
        if s == "building"@ {
            Some(ImageState::Building)
        } else if s == "available"@ {
            Some(ImageState::Available)
        } else if s == "deleted"@ {
            Some(ImageState::Deleted)
        } else {
            None
        }
    }

    /// Reads a state from its name in the database.
    pub fn from_str(s: &str) -> (r: Result<ImageState, StoreError>)
        ensures
            match ImageState::named(s@) {
                Some(st) => r == Ok::<ImageState, StoreError>(st),
                None => r matches Err(StoreError::InvalidState(m)) && m@ == "Unknown image state: "@
                    + s@,
            },
    {
        if str_eq(s, "building") {
            Ok(ImageState::Building)
        } else if str_eq(s, "available") {
            Ok(ImageState::Available)
        } else if str_eq(s, "deleted") {
            Ok(ImageState::Deleted)
        } else {
            Err(StoreError::InvalidState(concat2("Unknown image state: ", s)))
        }
    }

    /// The state's name in the database.
    pub fn as_str(&self) -> (r: &'static str)
        ensures
            r@ == self.name(),
    {
        match self {
            ImageState::Building => "building",
            ImageState::Available => "available",
            ImageState::Deleted => "deleted",
        }
    }
}

/// The state of a container as the database stores it.
#[derive(Debug, Clone, Copy, PartialEq, Eq, Structural)]
pub enum ContainerState {
    Created,
    Running,
    Stopped,
    Paused,
    Removing,
}

impl ContainerState {
    /// The state's name in the database.
    pub open spec fn name(self) -> Seq<char> {
        match self {
            ContainerState::Created => "created"@,
            ContainerState::Running => "running"@,
            ContainerState::Stopped => "stopped"@,
            ContainerState::Paused => "paused"@,
            ContainerState::Removing => "removing"@,
        }
    }

    /// The state that `s` names, letter for letter.
    pub open spec fn named(s: Seq<char>) -> Option<ContainerState> {
        if s == "created"@ {
            Some(ContainerState::Created)
        } else if s == "running"@ {
            Some(ContainerState::Running)
        } else if s == "stopped"@ {
            Some(ContainerState::Stopped)
        } else if s == "paused"@ {
            Some(ContainerState::Paused)
        } else if s == "removing"@ {
            Some(ContainerState::Removing)
        } else {
            None
        }
    }

    /// Reads a state from its name in the database.
    pub fn from_str(s: &str) -> (r: Result<ContainerState, StoreError>)
        ensures
            match ContainerState::named(s@) {
                Some(st) => r == Ok::<ContainerState, StoreError>(st),
                None => r matches Err(StoreError::InvalidState(m)) && m@
                    == "Unknown container state: "@ + s@,
            },
    {
        if str_eq(s, "created") {
            Ok(ContainerState::Created)
        } else if str_eq(s, "running") {
            Ok(ContainerState::Running)
        } else if str_eq(s, "stopped") {
            Ok(ContainerState::Stopped)
        } else if str_eq(s, "paused") {
            Ok(ContainerState::Paused)
        } else if str_eq(s, "removing") {
            Ok(ContainerState::Removing)
        } else {
            Err(StoreError::InvalidState(concat2("Unknown container state: ", s)))
        }
    }

    /// The state's name in the database.
    pub fn as_str(&self) -> (r: &'static str)
        ensures
            r@ == self.name(),
    {
        match self {
            ContainerState::Created => "created",
            ContainerState::Running => "running",
            ContainerState::Stopped => "stopped",
            ContainerState::Paused => "paused",
            ContainerState::Removing => "removing",
        }
    }
}

/// An image configuration in its early, flat form.
#[derive(Debug, PartialEq, Eq)]
pub struct ImageConfig {
    pub env: Vec<String>,
    pub cmd: Option<String>,
    pub working_dir: Option<String>,
    pub user: Option<String>,
}

/// An image as one row of the `images` table.
#[derive(Debug, PartialEq, Eq)]
pub struct Image {
    pub id: String,
    pub name: String,
    pub parent_id: Option<String>,
    pub snapshot: String,
    /// The instruction chain, as JSON.
    pub dockerfile: String,
    /// The image configuration, as JSON.
    pub config: String,
    pub size_bytes: i64,
    pub state: ImageState,
    pub created_at: i64,
}

/// A port mapping inside the JSON of a container row.
#[derive(Debug, PartialEq, Eq)]
pub struct PortMapping {
    pub host_port: u16,
    pub container_port: u16,
    pub protocol: String,
}

/// A mount inside the JSON of a container row.
#[derive(Debug, PartialEq, Eq)]
pub struct Mount {
    pub source: String,
    pub destination: String,
    pub mount_type: String,
    pub read_only: bool,
}

/// A container as one row of the `containers` table.
#[derive(Debug, PartialEq, Eq)]
pub struct Container {
    pub id: String,
    pub name: Option<String>,
    pub image_id: String,
    pub jail_name: String,
    pub dataset: String,
    pub state: ContainerState,
    pub restart_policy: String,
    /// The mounts, as JSON.
    pub mounts: String,
    /// The port mappings, as JSON.
    pub port_mappings: String,
    pub ip: Option<String>,
    pub created_at: i64,
    pub started_at: Option<i64>,
}

/// A value bound to a parameter of a statement.
#[derive(Debug, PartialEq, Eq)]
pub enum SqlValue {
    Null,
    Integer(i64),
    Text(String),
}

/// A bound value as a mathematical value.
pub enum SqlView {
    Null,
    Integer(int),
    Text(Seq<char>),
}

impl View for SqlValue {
    type V = SqlView;

    open spec fn view(&self) -> SqlView {
        match self {
            SqlValue::Null => SqlView::Null,
            SqlValue::Integer(n) => SqlView::Integer(*n as int),
            SqlValue::Text(s) => SqlView::Text(s@),
        }
    }
}

/// A statement and the values of its parameters `?1`, `?2` and so on.
#[derive(Debug, PartialEq, Eq)]
pub struct Statement {
    pub sql: String,
    pub params: Vec<SqlValue>,
}

impl Statement {
    /// The values of the parameters.
    pub open spec fn bound(&self) -> Seq<SqlView> {
        Seq::new(self.params@.len(), |i: int| self.params@[i]@)
    }
}

/// The value bound for an optional text: the text, or null.
pub open spec fn text_or_null(o: Option<Seq<char>>) -> SqlView {
    match o {
        Some(s) => SqlView::Text(s),
        None => SqlView::Null,
    }
}

/// The value bound for an optional number: the number, or null.
pub open spec fn integer_or_null(o: Option<i64>) -> SqlView {
    match o {
        Some(n) => SqlView::Integer(n as int),
        None => SqlView::Null,
    }
}

fn text(s: &String) -> (r: SqlValue)
    ensures
        r@ == SqlView::Text(s@),
{
    SqlValue::Text(s.clone())
}

fn opt_text(o: &Option<String>) -> (r: SqlValue)
    ensures
        r@ == text_or_null(opt_view(*o)),
{
    match o {
        Some(s) => SqlValue::Text(s.clone()),
        None => SqlValue::Null,
    }
}

fn statement(sql: &str, params: Vec<SqlValue>) -> (r: Statement)
    ensures
        r.sql@ == sql@,
        r.params == params,
{
    Statement { sql: sql.to_owned(), params }
}

/// The statement that creates the `jails` table.
pub const CREATE_JAILS: &'static str =
    "CREATE TABLE IF NOT EXISTS jails (
                name TEXT PRIMARY KEY,
                path TEXT,
                ip TEXT,
                state TEXT NOT NULL CHECK(state IN ('created', 'running', 'stopped')),
                jid INTEGER,
                created_at INTEGER NOT NULL DEFAULT (strftime('%s', 'now')),
                updated_at INTEGER NOT NULL DEFAULT (strftime('%s', 'now'))
            )";

/// The statement that creates the `images` table.
pub const CREATE_IMAGES: &'static str =
    "CREATE TABLE IF NOT EXISTS images (
                id TEXT PRIMARY KEY,
                name TEXT UNIQUE NOT NULL,
                parent_id TEXT,
                snapshot TEXT NOT NULL,
                dockerfile TEXT NOT NULL,
                config TEXT NOT NULL,
                size_bytes INTEGER NOT NULL DEFAULT 0,
                state TEXT NOT NULL CHECK(state IN ('building', 'available', 'deleted')) DEFAULT 'building',
                created_at INTEGER NOT NULL DEFAULT (strftime('%s', 'now')),
                FOREIGN KEY (parent_id) REFERENCES images(id) ON DELETE CASCADE
            )";

/// The statement that creates the `containers` table.
pub const CREATE_CONTAINERS: &'static str =
    "CREATE TABLE IF NOT EXISTS containers (
                id TEXT PRIMARY KEY,
                name TEXT UNIQUE,
                image_id TEXT NOT NULL,
                jail_name TEXT UNIQUE NOT NULL,
                dataset TEXT NOT NULL,
                state TEXT NOT NULL CHECK(state IN ('created', 'running', 'stopped', 'paused', 'removing')) DEFAULT 'created',
                restart_policy TEXT NOT NULL DEFAULT 'no',
                mounts TEXT NOT NULL,
                port_mappings TEXT NOT NULL,
                ip TEXT,
                created_at INTEGER NOT NULL DEFAULT (strftime('%s', 'now')),
                started_at INTEGER,
                FOREIGN KEY (image_id) REFERENCES images(id) ON DELETE RESTRICT
            )";

/// The columns of an image row, in the order in which rows are read.
pub const IMAGE_COLUMNS: &'static str =
    "SELECT id, name, parent_id, snapshot, dockerfile, config, size_bytes, state, created_at
             FROM images";

/// The columns of a container row, in the order in which rows are read.
pub const CONTAINER_COLUMNS: &'static str =
    "SELECT id, name, image_id, jail_name, dataset, state, restart_policy, mounts, port_mappings, ip, created_at, started_at
             FROM containers";

/// The store: the path of its database.
#[derive(Debug, PartialEq, Eq)]
pub struct JailStore {
    db_path: String,
}

impl JailStore {
    /// The path of the database.
    pub closed spec fn path(&self) -> Seq<char> {
        self.db_path@
    }

    /// A store on the database at `db_path`. The schema is to be created
    /// with the statements of `init_db` before the store is used.
    pub fn new(db_path: &str) -> (r: Result<JailStore, StoreError>)
        ensures
            r matches Ok(s) && s.path() == db_path@,
    {
        Ok(JailStore { db_path: db_path.to_owned() })
    }

    /// The path of the database.
    pub fn db_path(&self) -> (r: &str)
        ensures
            r@ == self.path(),
    {
        self.db_path.as_str()
    }

    /// The statements that create the schema: three tables, and indices on
    /// the states, on an image's parent and on a container's image. Each
    /// does nothing where its table or index exists.
    pub fn init_db(&self) -> (r: Vec<String>)
        ensures
            str_views(r@) == seq![
                CREATE_JAILS@,
                "CREATE INDEX IF NOT EXISTS idx_jails_state ON jails(state)"@,
                CREATE_IMAGES@,
                "CREATE INDEX IF NOT EXISTS idx_images_state ON images(state)"@,
                "CREATE INDEX IF NOT EXISTS idx_images_parent ON images(parent_id)"@,
                CREATE_CONTAINERS@,
                "CREATE INDEX IF NOT EXISTS idx_containers_state ON containers(state)"@,
                "CREATE INDEX IF NOT EXISTS idx_containers_image ON containers(image_id)"@,
            ],
    {
        let mut v: Vec<String> = Vec::new();
        v.push(CREATE_JAILS.to_owned());
        v.push("CREATE INDEX IF NOT EXISTS idx_jails_state ON jails(state)".to_owned());
        v.push(CREATE_IMAGES.to_owned());
        v.push("CREATE INDEX IF NOT EXISTS idx_images_state ON images(state)".to_owned());
        v.push("CREATE INDEX IF NOT EXISTS idx_images_parent ON images(parent_id)".to_owned());
        v.push(CREATE_CONTAINERS.to_owned());
        v.push("CREATE INDEX IF NOT EXISTS idx_containers_state ON containers(state)".to_owned());
        v.push("CREATE INDEX IF NOT EXISTS idx_containers_image ON containers(image_id)".to_owned());
        assert(str_views(v@) =~= seq![
            CREATE_JAILS@,
            "CREATE INDEX IF NOT EXISTS idx_jails_state ON jails(state)"@,
            CREATE_IMAGES@,
            "CREATE INDEX IF NOT EXISTS idx_images_state ON images(state)"@,
            "CREATE INDEX IF NOT EXISTS idx_images_parent ON images(parent_id)"@,
            CREATE_CONTAINERS@,
            "CREATE INDEX IF NOT EXISTS idx_containers_state ON containers(state)"@,
            "CREATE INDEX IF NOT EXISTS idx_containers_image ON containers(image_id)"@,
        ]);
        v
    }

    /// The statement that inserts a jail.
    pub fn insert_jail(&self, jail: &JailRow) -> (r: Statement)
        ensures
            r.sql@ == "INSERT INTO jails (name, path, ip, state, jid) VALUES (?1, ?2, ?3, ?4, ?5)"@,
            r.bound() == seq![
                SqlView::Text(jail.name@),
                text_or_null(opt_view(jail.path)),
                text_or_null(opt_view(jail.ip)),
                SqlView::Text(jail.state@),
                SqlView::Integer(jail.jid as int),
            ],
    {
        let mut p: Vec<SqlValue> = Vec::new();
        p.push(text(&jail.name));
        p.push(opt_text(&jail.path));
        p.push(opt_text(&jail.ip));
        p.push(text(&jail.state));
        p.push(SqlValue::Integer(jail.jid as i64));
        let r = statement(
            "INSERT INTO jails (name, path, ip, state, jid) VALUES (?1, ?2, ?3, ?4, ?5)",
            p,
        );
        assert(r.bound() =~= seq![
            SqlView::Text(jail.name@),
            text_or_null(opt_view(jail.path)),
            text_or_null(opt_view(jail.ip)),
            SqlView::Text(jail.state@),
            SqlView::Integer(jail.jid as int),
        ]);
        r
    }

    /// The statement that updates a jail; it also sets the time of the
    /// update to now.
    pub fn update_jail(&self, jail: &JailRow) -> (r: Statement)
        ensures
            r.sql@
                == "UPDATE jails SET path = ?1, ip = ?2, state = ?3, jid = ?4, updated_at = strftime('%s', 'now') WHERE name = ?5"@,
            r.bound() == seq![
                text_or_null(opt_view(jail.path)),
                text_or_null(opt_view(jail.ip)),
                SqlView::Text(jail.state@),
                SqlView::Integer(jail.jid as int),
                SqlView::Text(jail.name@),
            ],
    {
        let mut p: Vec<SqlValue> = Vec::new();
        p.push(opt_text(&jail.path));
        p.push(opt_text(&jail.ip));
        p.push(text(&jail.state));
        p.push(SqlValue::Integer(jail.jid as i64));
        p.push(text(&jail.name));
        let r = statement(
            "UPDATE jails SET path = ?1, ip = ?2, state = ?3, jid = ?4, updated_at = strftime('%s', 'now') WHERE name = ?5",
            p,
        );
        assert(r.bound() =~= seq![
            text_or_null(opt_view(jail.path)),
            text_or_null(opt_view(jail.ip)),
            SqlView::Text(jail.state@),
            SqlView::Integer(jail.jid as int),
            SqlView::Text(jail.name@),
        ]);
        r
    }

    fn by_key(sql: &str, key: &str) -> (r: Statement)
        ensures
            r.sql@ == sql@,
            r.bound() == seq![SqlView::Text(key@)],
    {
        let mut p: Vec<SqlValue> = Vec::new();
        p.push(SqlValue::Text(key.to_owned()));
        let r = statement(sql, p);
        assert(r.bound() =~= seq![SqlView::Text(key@)]);
        r
    }

    fn plain(sql: &str) -> (r: Statement)
        ensures
            r.sql@ == sql@,
            r.bound() == Seq::<SqlView>::empty(),
    {
        let r = statement(sql, Vec::new());
        assert(r.bound() =~= Seq::<SqlView>::empty());
        r
    }

    fn set_state(sql: &str, state: &str, id: &str) -> (r: Statement)
        ensures
            r.sql@ == sql@,
            r.bound() == seq![SqlView::Text(state@), SqlView::Text(id@)],
    {
        let mut p: Vec<SqlValue> = Vec::new();
        p.push(SqlValue::Text(state.to_owned()));
        p.push(SqlValue::Text(id.to_owned()));
        let r = statement(sql, p);
        assert(r.bound() =~= seq![SqlView::Text(state@), SqlView::Text(id@)]);
        r
    }

    /// The statement that deletes a jail.
    pub fn delete_jail(&self, name: &str) -> (r: Statement)
        ensures
            r.sql@ == "DELETE FROM jails WHERE name = ?1"@,
            r.bound() == seq![SqlView::Text(name@)],
    {
        JailStore::by_key("DELETE FROM jails WHERE name = ?1", name)
    }

    /// The statement that reads every jail: name, path, ip, state, jid.
    pub fn get_all_jails(&self) -> (r: Statement)
        ensures
            r.sql@ == "SELECT name, path, ip, state, jid FROM jails"@,
            r.bound() == Seq::<SqlView>::empty(),
    {
        JailStore::plain("SELECT name, path, ip, state, jid FROM jails")
    }

    /// The statement that reads one jail.
    pub fn get_jail(&self, name: &str) -> (r: Statement)
        ensures
            r.sql@ == "SELECT name, path, ip, state, jid FROM jails WHERE name = ?1"@,
            r.bound() == seq![SqlView::Text(name@)],
    {
        JailStore::by_key("SELECT name, path, ip, state, jid FROM jails WHERE name = ?1", name)
    }

    /// The statement that inserts an image.
    pub fn insert_image(&self, image: &Image) -> (r: Statement)
        ensures
            r.sql@
                == "INSERT INTO images (id, name, parent_id, snapshot, dockerfile, config, size_bytes, state, created_at)
             VALUES (?1, ?2, ?3, ?4, ?5, ?6, ?7, ?8, ?9)"@,
            r.bound() == seq![
                SqlView::Text(image.id@),
                SqlView::Text(image.name@),
                text_or_null(opt_view(image.parent_id)),
                SqlView::Text(image.snapshot@),
                SqlView::Text(image.dockerfile@),
                SqlView::Text(image.config@),
                SqlView::Integer(image.size_bytes as int),
                SqlView::Text(image.state.name()),
                SqlView::Integer(image.created_at as int),
            ],
    {
        let mut p: Vec<SqlValue> = Vec::new();
        p.push(text(&image.id));
        p.push(text(&image.name));
        p.push(opt_text(&image.parent_id));
        p.push(text(&image.snapshot));
        p.push(text(&image.dockerfile));
        p.push(text(&image.config));
        p.push(SqlValue::Integer(image.size_bytes));
        p.push(SqlValue::Text(image.state.as_str().to_owned()));
        p.push(SqlValue::Integer(image.created_at));
        let r = statement(
            "INSERT INTO images (id, name, parent_id, snapshot, dockerfile, config, size_bytes, state, created_at)
             VALUES (?1, ?2, ?3, ?4, ?5, ?6, ?7, ?8, ?9)",
            p,
        );
        assert(r.bound() =~= seq![
            SqlView::Text(image.id@),
            SqlView::Text(image.name@),
            text_or_null(opt_view(image.parent_id)),
            SqlView::Text(image.snapshot@),
            SqlView::Text(image.dockerfile@),
            SqlView::Text(image.config@),
            SqlView::Integer(image.size_bytes as int),
            SqlView::Text(image.state.name()),
            SqlView::Integer(image.created_at as int),
        ]);
        r
    }

    /// The statement that reads an image by its identifier.
    pub fn get_image(&self, id: &str) -> (r: Statement)
        ensures
            r.sql@ == IMAGE_COLUMNS@ + " WHERE id = ?1"@,
            r.bound() == seq![SqlView::Text(id@)],
    {
        JailStore::by_key(concat2(IMAGE_COLUMNS, " WHERE id = ?1").as_str(), id)
    }

    /// The statement that reads an image by its name.
    pub fn get_image_by_name(&self, name: &str) -> (r: Statement)
        ensures
            r.sql@ == IMAGE_COLUMNS@ + " WHERE name = ?1"@,
            r.bound() == seq![SqlView::Text(name@)],
    {
        JailStore::by_key(concat2(IMAGE_COLUMNS, " WHERE name = ?1").as_str(), name)
    }

    /// The statement that reads every image.
    pub fn list_images(&self) -> (r: Statement)
        ensures
            r.sql@ == IMAGE_COLUMNS@,
            r.bound() == Seq::<SqlView>::empty(),
    {
        JailStore::plain(IMAGE_COLUMNS)
    }

    /// The statement that sets the state of an image.
    pub fn update_image(&self, id: &str, state: ImageState) -> (r: Statement)
        ensures
            r.sql@ == "UPDATE images SET state = ?1 WHERE id = ?2"@,
            r.bound() == seq![SqlView::Text(state.name()), SqlView::Text(id@)],
    {
        JailStore::set_state("UPDATE images SET state = ?1 WHERE id = ?2", state.as_str(), id)
    }

    /// The statement that deletes an image, and with it the images built
    /// upon it. The database refuses it while a container uses the image.
    pub fn delete_image(&self, id: &str) -> (r: Statement)
        ensures
            r.sql@ == "DELETE FROM images WHERE id = ?1"@,
            r.bound() == seq![SqlView::Text(id@)],
    {
        JailStore::by_key("DELETE FROM images WHERE id = ?1", id)
    }

    /// The statement that inserts a container.
    pub fn insert_container(&self, container: &Container) -> (r: Statement)
        ensures
            r.sql@
                == "INSERT INTO containers (id, name, image_id, jail_name, dataset, state, restart_policy, mounts, port_mappings, ip, created_at, started_at)
             VALUES (?1, ?2, ?3, ?4, ?5, ?6, ?7, ?8, ?9, ?10, ?11, ?12)"@,
            r.bound() == seq![
                SqlView::Text(container.id@),
                text_or_null(opt_view(container.name)),
                SqlView::Text(container.image_id@),
                SqlView::Text(container.jail_name@),
                SqlView::Text(container.dataset@),
                SqlView::Text(container.state.name()),
                SqlView::Text(container.restart_policy@),
                SqlView::Text(container.mounts@),
                SqlView::Text(container.port_mappings@),
                text_or_null(opt_view(container.ip)),
                SqlView::Integer(container.created_at as int),
                integer_or_null(container.started_at),
            ],
    {
        let mut p: Vec<SqlValue> = Vec::new();
        p.push(text(&container.id));
        p.push(opt_text(&container.name));
        p.push(text(&container.image_id));
        p.push(text(&container.jail_name));
        p.push(text(&container.dataset));
        p.push(SqlValue::Text(container.state.as_str().to_owned()));
        p.push(text(&container.restart_policy));
        p.push(text(&container.mounts));
        p.push(text(&container.port_mappings));
        p.push(opt_text(&container.ip));
        p.push(SqlValue::Integer(container.created_at));
        p.push(
            match container.started_at {
                Some(n) => SqlValue::Integer(n),
                None => SqlValue::Null,
            },
        );
        let r = statement(
            "INSERT INTO containers (id, name, image_id, jail_name, dataset, state, restart_policy, mounts, port_mappings, ip, created_at, started_at)
             VALUES (?1, ?2, ?3, ?4, ?5, ?6, ?7, ?8, ?9, ?10, ?11, ?12)",
            p,
        );
        assert(r.bound() =~= seq![
            SqlView::Text(container.id@),
            text_or_null(opt_view(container.name)),
            SqlView::Text(container.image_id@),
            SqlView::Text(container.jail_name@),
            SqlView::Text(container.dataset@),
            SqlView::Text(container.state.name()),
            SqlView::Text(container.restart_policy@),
            SqlView::Text(container.mounts@),
            SqlView::Text(container.port_mappings@),
            text_or_null(opt_view(container.ip)),
            SqlView::Integer(container.created_at as int),
            integer_or_null(container.started_at),
        ]);
        r
    }

    /// The statement that reads a container by its identifier.
    pub fn get_container(&self, id: &str) -> (r: Statement)
        ensures
            r.sql@ == CONTAINER_COLUMNS@ + " WHERE id = ?1"@,
            r.bound() == seq![SqlView::Text(id@)],
    {
        JailStore::by_key(concat2(CONTAINER_COLUMNS, " WHERE id = ?1").as_str(), id)
    }

    /// The statement that reads a container by its name.
    pub fn get_container_by_name(&self, name: &str) -> (r: Statement)
        ensures
            r.sql@ == CONTAINER_COLUMNS@ + " WHERE name = ?1"@,
            r.bound() == seq![SqlView::Text(name@)],
    {
        JailStore::by_key(concat2(CONTAINER_COLUMNS, " WHERE name = ?1").as_str(), name)
    }

    /// The statement that reads every container.
    pub fn list_containers(&self) -> (r: Statement)
        ensures
            r.sql@ == CONTAINER_COLUMNS@,
            r.bound() == Seq::<SqlView>::empty(),
    {
        JailStore::plain(CONTAINER_COLUMNS)
    }

    /// The statement that sets the state of a container.
    pub fn update_container(&self, id: &str, state: ContainerState) -> (r: Statement)
        ensures
            r.sql@ == "UPDATE containers SET state = ?1 WHERE id = ?2"@,
            r.bound() == seq![SqlView::Text(state.name()), SqlView::Text(id@)],
    {
        JailStore::set_state("UPDATE containers SET state = ?1 WHERE id = ?2", state.as_str(), id)
    }

    /// The statement that deletes a container.
    pub fn delete_container(&self, id: &str) -> (r: Statement)
        ensures
            r.sql@ == "DELETE FROM containers WHERE id = ?1"@,
            r.bound() == seq![SqlView::Text(id@)],
    {
        JailStore::by_key("DELETE FROM containers WHERE id = ?1", id)
    }
}

} // verus!
