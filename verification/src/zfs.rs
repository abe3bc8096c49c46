//! The ZFS driver: which `zfs` and `zpool` commands manage datasets,
//! snapshots and clones, and how their outcome is read.
//!
//! Arguments are handed to the programs as they are; no shell reads them.

use crate::command::{no_args, push_arg, push_owned, CommandOutput, HostCommand};
use crate::number::{parse_u64, parse_upto};
use crate::text::{
    chars_of, concat2, concat3, contains, has_infix, has_prefix, is_text, lines, slice, split,
    split_at_char, split_lines, starts_with, str_views, string_of, trim, trimmed, views,
};
use vstd::prelude::*;

verus! {

/// Why a ZFS operation failed.
#[derive(Debug, PartialEq, Eq)]
pub enum ZfsError {
    CommandFailed(String),
    DatasetNotFound(String),
    DatasetExists(String),
    SnapshotNotFound(String),
    InvalidPath(String),
    InvalidSnapshot(String),
    Io(String),
    Utf8Error(String),
}

impl ZfsError {
    /// The error as one line of text.
    pub open spec fn text(self) -> Seq<char> {
        match self {
            ZfsError::CommandFailed(m) => "ZFS command failed: "@ + m@,
            ZfsError::DatasetNotFound(m) => "Dataset not found: "@ + m@,
            ZfsError::DatasetExists(m) => "Dataset already exists: "@ + m@,
            ZfsError::SnapshotNotFound(m) => "Snapshot not found: "@ + m@,
            ZfsError::InvalidPath(m) => "Invalid dataset path: "@ + m@,
            ZfsError::InvalidSnapshot(m) => "Invalid snapshot name: "@ + m@,
            ZfsError::Io(m) => "IO error: "@ + m@,
            ZfsError::Utf8Error(m) => "UTF-8 conversion error: "@ + m@,
        }
    }

    /// The error as one line of text.
    pub fn to_string(&self) -> (r: String)
        ensures
            r@ == self.text(),
    {
        match self {
            ZfsError::CommandFailed(m) => concat2("ZFS command failed: ", m.as_str()),
            ZfsError::DatasetNotFound(m) => concat2("Dataset not found: ", m.as_str()),
            ZfsError::DatasetExists(m) => concat2("Dataset already exists: ", m.as_str()),
            ZfsError::SnapshotNotFound(m) => concat2("Snapshot not found: ", m.as_str()),
            ZfsError::InvalidPath(m) => concat2("Invalid dataset path: ", m.as_str()),
            ZfsError::InvalidSnapshot(m) => concat2("Invalid snapshot name: ", m.as_str()),
            ZfsError::Io(m) => concat2("IO error: ", m.as_str()),
            ZfsError::Utf8Error(m) => concat2("UTF-8 conversion error: ", m.as_str()),
        }
    }
}

/// A handle on a pool.
#[derive(Debug, PartialEq, Eq)]
pub struct Zfs {
    pool: String,
}

/// The pool of a dataset path: its first component.
pub open spec fn pool_of(path: Seq<char>) -> Seq<char> {
    split(path, '/')[0]
}

/// Whether `name` is one of the first `n` lines.
pub open spec fn line_among(ls: Seq<Seq<char>>, n: int, name: Seq<char>) -> bool {
    exists|i: int| 0 <= i < n && i < ls.len() && #[trigger] ls[i] == name
}

/// The lines that are not empty once trimmed, trimmed, among the first `n`.
pub open spec fn trimmed_lines(ls: Seq<Seq<char>>, n: int) -> Seq<Seq<char>>
    decreases n,
{
    if n <= 0 {
        Seq::empty()
    } else if trimmed(ls[n - 1]).len() == 0 {
        trimmed_lines(ls, n - 1)
    } else {
        trimmed_lines(ls, n - 1).push(trimmed(ls[n - 1]))
    }
}

/// A snapshot's name without the `dataset@` before it, if it has that.
pub open spec fn snapshot_name(line: Seq<char>, dataset: Seq<char>) -> Seq<char> {
    let p = dataset + "@"@;
    if has_prefix(line, p) {
        line.skip(p.len() as int)
    } else {
        line
    }
}

/// The snapshot names on the first `n` lines of a listing: each line
/// trimmed and without `dataset@`, empty names left out.
pub open spec fn snapshot_names(ls: Seq<Seq<char>>, n: int, dataset: Seq<char>) -> Seq<Seq<char>>
    decreases n,
{
    if n <= 0 {
        Seq::empty()
    } else {
        let name = snapshot_name(trimmed(ls[n - 1]), dataset);
        if name.len() == 0 {
            snapshot_names(ls, n - 1, dataset)
        } else {
            snapshot_names(ls, n - 1, dataset).push(name)
        }
    }
}

/// The error of a command that failed: what was attempted, then what the
/// command wrote to standard error.
fn failed(attempt: String, output: &CommandOutput) -> (e: ZfsError)
    ensures
        e matches ZfsError::CommandFailed(m) && m@ == attempt@ + output.stderr@,
{
    ZfsError::CommandFailed(concat2(attempt.as_str(), output.stderr.as_str()))
}

/// Whether the error says that a command failed while attempting `attempt`.
pub open spec fn is_failure(r: Result<(), ZfsError>, attempt: Seq<char>, output: CommandOutput)
    -> bool {
    r matches Err(ZfsError::CommandFailed(m)) && m@ == attempt + output.stderr@
}

/// Success if the command succeeded, and else the failure of `attempt`.
fn expect_success(attempt: String, output: &CommandOutput) -> (r: Result<(), ZfsError>)
    ensures
        output.success ==> r is Ok,
        !output.success ==> is_failure(r, attempt@, *output),
{
    if output.success {
        Ok(())
    } else {
        Err(failed(attempt, output))
    }
}

fn quoted(before: &str, name: &str, after: &str) -> (r: String)
    ensures
        r@ == before@ + name@ + after@,
{
    concat3(before, name, after)
}

fn zfs3(a: &str, b: &str, c: &str) -> (r: HostCommand)
    ensures
        r.line() == seq!["zfs"@, a@, b@, c@],
        r.input() is None,
{
    let mut v = no_args();
    push_arg(&mut v, a);
    push_arg(&mut v, b);
    push_arg(&mut v, c);
    let r = HostCommand::new("zfs", v);
    assert(r.line() =~= seq!["zfs"@, a@, b@, c@]);
    r
}

fn zfs2(a: &str, b: &str) -> (r: HostCommand)
    ensures
        r.line() == seq!["zfs"@, a@, b@],
        r.input() is None,
{
    let mut v = no_args();
    push_arg(&mut v, a);
    push_arg(&mut v, b);
    let r = HostCommand::new("zfs", v);
    assert(r.line() =~= seq!["zfs"@, a@, b@]);
    r
}

/// `zfs list` for one column of one dataset, with the given options before
/// the column.
fn zfs_list(column: &str, parsable: bool, dataset: &str) -> (r: HostCommand)
    ensures
        r.line() == if parsable {
            seq!["zfs"@, "list"@, "-o"@, column@, "-H"@, "-p"@, dataset@]
        } else {
            seq!["zfs"@, "list"@, "-o"@, column@, "-H"@, dataset@]
        },
        r.input() is None,
{
    let mut v = no_args();
    push_arg(&mut v, "list");
    push_arg(&mut v, "-o");
    push_arg(&mut v, column);
    push_arg(&mut v, "-H");
    if parsable {
        push_arg(&mut v, "-p");
    }
    push_arg(&mut v, dataset);
    let r = HostCommand::new("zfs", v);
    proof {
        if parsable {
            assert(r.line() =~= seq!["zfs"@, "list"@, "-o"@, column@, "-H"@, "-p"@, dataset@]);
        } else {
            assert(r.line() =~= seq!["zfs"@, "list"@, "-o"@, column@, "-H"@, dataset@]);
        }
    }
    r
}

/// The three commands that mount a dataset, and the directory to create
/// before the last of them.
#[derive(Debug, PartialEq, Eq)]
pub struct MountPlan {
    pub set_canmount: HostCommand,
    pub set_mountpoint: HostCommand,
    /// The mount point, to be created with its parents.
    pub directory: String,
    pub mount: HostCommand,
}

/// The three commands that unmount a dataset.
#[derive(Debug, PartialEq, Eq)]
pub struct UnmountPlan {
    pub unmount: HostCommand,
    pub reset_mountpoint: HostCommand,
    pub reset_canmount: HostCommand,
}

/// The steps of mounting and unmounting.
#[derive(Debug, Clone, Copy, PartialEq, Eq, Structural)]
pub enum MountStep {
    SetCanmount,
    SetMountpoint,
    Mount,
    Unmount,
    ResetMountpoint,
    ResetCanmount,
}

impl MountStep {
    /// What the step attempts, for the error message.
    pub open spec fn attempt(self, dataset: Seq<char>) -> Seq<char> {
        match self {
            MountStep::SetCanmount => "Failed to set canmount for '"@ + dataset + "': "@,
            MountStep::SetMountpoint => "Failed to set mountpoint for '"@ + dataset + "': "@,
            MountStep::Mount => "Failed to mount '"@ + dataset + "': "@,
            MountStep::Unmount => "Failed to unmount '"@ + dataset + "': "@,
            MountStep::ResetMountpoint => "Failed to reset mountpoint for '"@ + dataset + "': "@,
            MountStep::ResetCanmount => "Failed to reset canmount for '"@ + dataset + "': "@,
        }
    }
}

impl Zfs {
    /// The pool's name.
    pub closed spec fn pool_name(&self) -> Seq<char> {
        self.pool@
    }

    /// The command that lists the pools, one name per line.
    pub fn list_pools() -> (c: HostCommand)
        ensures
            c.line() == seq!["zpool"@, "list"@, "-o"@, "name"@, "-H"@],
            c.input() is None,
    {
        let mut v = no_args();
        push_arg(&mut v, "list");
        push_arg(&mut v, "-o");
        push_arg(&mut v, "name");
        push_arg(&mut v, "-H");
        let c = HostCommand::new("zpool", v);
        assert(c.line() =~= seq!["zpool"@, "list"@, "-o"@, "name"@, "-H"@]);
        c
    }

    /// A handle on the pool of a dataset path, given what `list_pools`
    /// printed: the pool is the path's first component and has to be listed.
    pub fn new(pool_or_dataset: &str, pools: &CommandOutput) -> (r: Result<Zfs, ZfsError>)
        ensures
            !pools.success ==> (r matches Err(ZfsError::CommandFailed(m)) && m@
                == "Failed to list ZFS pools"@),
            pools.success && line_among(
                lines(pools.stdout@),
                lines(pools.stdout@).len() as int,
                pool_of(pool_or_dataset@),
            ) ==> (r matches Ok(z) && z.pool_name() == pool_of(pool_or_dataset@)),
            pools.success && !line_among(
                lines(pools.stdout@),
                lines(pools.stdout@).len() as int,
                pool_of(pool_or_dataset@),
            ) ==> (r matches Err(ZfsError::DatasetNotFound(m)) && m@ == "Pool '"@ + pool_of(
                pool_or_dataset@,
            ) + "' not found"@),
    {
        let parts = split_at_char(&chars_of(pool_or_dataset), '/');
        proof {
            crate::text::lemma_split_nonempty(pool_or_dataset@, '/');
        }
        assert(views(parts@)[0] == parts@[0]@);
        let pool = &parts[0];
        if !pools.success {
            return Err(ZfsError::CommandFailed("Failed to list ZFS pools".to_owned()));
        }
        let ls = split_lines(&chars_of(pools.stdout.as_str()));
        let ghost sl = lines(pools.stdout@);
        let mut i: usize = 0;
        while i < ls.len()
            invariant
                i <= ls.len(),
                views(ls@) == sl,
                sl == lines(pools.stdout@),
                pools.success,
                pool@ == pool_of(pool_or_dataset@),
                !line_among(sl, i as int, pool@),
            decreases ls.len() - i,
        {
            assert(views(ls@)[i as int] == ls@[i as int]@);
            if crate::text::same_chars(&ls[i], pool) {
                assert(sl[i as int] == pool@);
                assert(line_among(sl, sl.len() as int, pool@));
                return Ok(Zfs { pool: string_of(pool) });
            }
            assert(sl[i as int] != pool@);
            i += 1;
        }
        Err(ZfsError::DatasetNotFound(quoted("Pool '", string_of(pool).as_str(), "' not found")))
    }

    /// A second handle on the same pool.
    pub fn duplicate(&self) -> (r: Zfs)
        ensures
            r.pool_name() == self.pool_name(),
    {
        Zfs { pool: self.pool.clone() }
    }

    /// The pool's name.
    pub fn pool(&self) -> (r: &str)
        ensures
            r@ == self.pool_name(),
    {
        self.pool.as_str()
    }

    /// The command whose success says that a dataset exists.
    pub fn dataset_exists(&self, dataset: &str) -> (c: HostCommand)
        ensures
            c.line() == seq!["zfs"@, "list"@, "-o"@, "name"@, "-H"@, dataset@],
            c.input() is None,
    {
        zfs_list("name", false, dataset)
    }

    /// The command whose success says that a snapshot exists.
    pub fn snapshot_exists(&self, snapshot: &str) -> (c: HostCommand)
        ensures
            c.line() == seq![
                "zfs"@,
                "list"@,
                "-t"@,
                "snapshot"@,
                "-o"@,
                "name"@,
                "-H"@,
                snapshot@,
            ],
            c.input() is None,
    {
        let mut v = no_args();
        push_arg(&mut v, "list");
        push_arg(&mut v, "-t");
        push_arg(&mut v, "snapshot");
        push_arg(&mut v, "-o");
        push_arg(&mut v, "name");
        push_arg(&mut v, "-H");
        push_arg(&mut v, snapshot);
        let c = HostCommand::new("zfs", v);
        assert(c.line() =~= seq![
            "zfs"@,
            "list"@,
            "-t"@,
            "snapshot"@,
            "-o"@,
            "name"@,
            "-H"@,
            snapshot@,
        ]);
        c
    }

    /// Reads an existence check: the thing exists if the command ran and
    /// succeeded. A check never fails.
    pub fn found(&self, outcome: Option<&CommandOutput>) -> (r: bool)
        ensures
            r == (outcome matches Some(o) && o.success),
    {
        match outcome {
            Some(o) => o.success,
            None => false,
        }
    }

    /// The command that creates a dataset with its ancestors, not mounted.
    /// A dataset that exists is not created again.
    pub fn create_dataset(&self, path: &str, present: bool) -> (r: Result<HostCommand, ZfsError>)
        ensures
            present ==> (r matches Err(ZfsError::DatasetExists(m)) && m@ == path@),
            !present ==> (r matches Ok(c) && c.input() is None && c.line() == seq![
                "zfs"@,
                "create"@,
                "-p"@,
                "-o"@,
                "canmount=off"@,
                path@,
            ]),
    {
        if present {
            return Err(ZfsError::DatasetExists(path.to_owned()));
        }
        let mut v = no_args();
        push_arg(&mut v, "create");
        push_arg(&mut v, "-p");
        push_arg(&mut v, "-o");
        push_arg(&mut v, "canmount=off");
        push_arg(&mut v, path);
        let c = HostCommand::new("zfs", v);
        assert(c.line() =~= seq!["zfs"@, "create"@, "-p"@, "-o"@, "canmount=off"@, path@]);
        Ok(c)
    }

    /// Reads how creating a dataset went.
    pub fn dataset_created(&self, path: &str, output: &CommandOutput) -> (r: Result<(), ZfsError>)
        ensures
            output.success ==> r is Ok,
            !output.success ==> is_failure(
                r,
                "Failed to create dataset '"@ + path@ + "': "@,
                *output,
            ),
    {
        expect_success(quoted("Failed to create dataset '", path, "': "), output)
    }

    /// How to mount a dataset at a mount point: allow mounting by hand, set
    /// the mount point, create its directory, mount.
    pub fn mount_dataset(&self, dataset: &str, mountpoint: &str) -> (r: MountPlan)
        ensures
            r.set_canmount.line() == seq!["zfs"@, "set"@, "canmount=noauto"@, dataset@],
            r.set_mountpoint.line() == seq!["zfs"@, "set"@, "mountpoint="@ + mountpoint@, dataset@],
            r.directory@ == mountpoint@,
            r.mount.line() == seq!["zfs"@, "mount"@, dataset@],
            r.set_canmount.input() is None,
            r.set_mountpoint.input() is None,
            r.mount.input() is None,
    {
        MountPlan {
            set_canmount: zfs3("set", "canmount=noauto", dataset),
            set_mountpoint: zfs3("set", concat2("mountpoint=", mountpoint).as_str(), dataset),
            directory: mountpoint.to_owned(),
            mount: zfs2("mount", dataset),
        }
    }

    /// How to unmount a dataset: unmount by force, then set the mount point
    /// to none and forbid mounting.
    pub fn unmount_dataset(&self, dataset: &str) -> (r: UnmountPlan)
        ensures
            r.unmount.line() == seq!["zfs"@, "unmount"@, "-f"@, dataset@],
            r.reset_mountpoint.line() == seq!["zfs"@, "set"@, "mountpoint=none"@, dataset@],
            r.reset_canmount.line() == seq!["zfs"@, "set"@, "canmount=off"@, dataset@],
            r.unmount.input() is None,
            r.reset_mountpoint.input() is None,
            r.reset_canmount.input() is None,
    {
        UnmountPlan {
            unmount: zfs3("unmount", "-f", dataset),
            reset_mountpoint: zfs3("set", "mountpoint=none", dataset),
            reset_canmount: zfs3("set", "canmount=off", dataset),
        }
    }

    /// Reads how one step of mounting or unmounting went. A mount that
    /// fails because the dataset is "already mounted" counts as done.
    pub fn mount_step_done(&self, step: MountStep, dataset: &str, output: &CommandOutput) -> (r:
        Result<(), ZfsError>)
        ensures
            output.success ==> r is Ok,
            !output.success && step == MountStep::Mount && has_infix(
                output.stderr@,
                "already mounted"@,
            ) ==> r is Ok,
            !output.success && !(step == MountStep::Mount && has_infix(
                output.stderr@,
                "already mounted"@,
            )) ==> is_failure(r, step.attempt(dataset@), *output),
    {
        if output.success {
            return Ok(());
        }
        match step {
            MountStep::SetCanmount => Err(
                failed(quoted("Failed to set canmount for '", dataset, "': "), output),
            ),
            MountStep::SetMountpoint => Err(
                failed(quoted("Failed to set mountpoint for '", dataset, "': "), output),
            ),
            MountStep::Mount => {
                if contains(&chars_of(output.stderr.as_str()), &chars_of("already mounted")) {
                    Ok(())
                } else {
                    Err(failed(quoted("Failed to mount '", dataset, "': "), output))
                }
            },
            MountStep::Unmount => Err(
                failed(quoted("Failed to unmount '", dataset, "': "), output),
            ),
            MountStep::ResetMountpoint => Err(
                failed(quoted("Failed to reset mountpoint for '", dataset, "': "), output),
            ),
            MountStep::ResetCanmount => Err(
                failed(quoted("Failed to reset canmount for '", dataset, "': "), output),
            ),
        }
    }

    /// The command whose output says whether a dataset is mounted.
    pub fn is_dataset_mounted(&self, dataset: &str) -> (c: HostCommand)
        ensures
            c.line() == seq!["zfs"@, "list"@, "-H"@, "-o"@, "mounted"@, dataset@],
            c.input() is None,
    {
        let mut v = no_args();
        push_arg(&mut v, "list");
        push_arg(&mut v, "-H");
        push_arg(&mut v, "-o");
        push_arg(&mut v, "mounted");
        push_arg(&mut v, dataset);
        let c = HostCommand::new("zfs", v);
        assert(c.line() =~= seq!["zfs"@, "list"@, "-H"@, "-o"@, "mounted"@, dataset@]);
        c
    }

    /// Reads whether a dataset is mounted: the command ran, succeeded and
    /// printed `yes`.
    pub fn mounted(&self, outcome: Option<&CommandOutput>) -> (r: bool)
        ensures
            r == (outcome matches Some(o) && o.success && trimmed(o.stdout@) == "yes"@),
    {
        match outcome {
            Some(o) => o.success && is_text(&trim(&chars_of(o.stdout.as_str())), "yes"),
            None => false,
        }
    }

    /// The command that takes a snapshot of a dataset, which has to exist.
    pub fn create_snapshot(&self, dataset: &str, name: &str, dataset_exists: bool) -> (r: Result<
        HostCommand,
        ZfsError,
    >)
        ensures
            !dataset_exists ==> (r matches Err(ZfsError::DatasetNotFound(m)) && m@ == dataset@),
            dataset_exists ==> (r matches Ok(c) && c.input() is None && c.line() == seq![
                "zfs"@,
                "snapshot"@,
                dataset@ + "@"@ + name@,
            ]),
    {
        if !dataset_exists {
            return Err(ZfsError::DatasetNotFound(dataset.to_owned()));
        }
        Ok(zfs2("snapshot", concat3(dataset, "@", name).as_str()))
    }

    /// Reads how taking a snapshot went.
    pub fn snapshot_created(&self, dataset: &str, name: &str, output: &CommandOutput) -> (r: Result<
        (),
        ZfsError,
    >)
        ensures
            output.success ==> r is Ok,
            !output.success ==> is_failure(
                r,
                "Failed to create snapshot '"@ + (dataset@ + "@"@ + name@) + "': "@,
                *output,
            ),
    {
        let snapshot = concat3(dataset, "@", name);
        expect_success(quoted("Failed to create snapshot '", snapshot.as_str(), "': "), output)
    }

    /// The command that clones a snapshot into a new dataset. The snapshot
    /// has to exist, the target must not.
    pub fn clone_snapshot(
        &self,
        snapshot: &str,
        target: &str,
        snapshot_exists: bool,
        target_exists: bool,
    ) -> (r: Result<HostCommand, ZfsError>)
        ensures
            !snapshot_exists ==> (r matches Err(ZfsError::SnapshotNotFound(m)) && m@ == snapshot@),
            snapshot_exists && target_exists ==> (r matches Err(ZfsError::DatasetExists(m)) && m@
                == target@),
            snapshot_exists && !target_exists ==> (r matches Ok(c) && c.input() is None && c.line()
                == seq!["zfs"@, "clone"@, snapshot@, target@]),
    {
        if !snapshot_exists {
            return Err(ZfsError::SnapshotNotFound(snapshot.to_owned()));
        }
        if target_exists {
            return Err(ZfsError::DatasetExists(target.to_owned()));
        }
        Ok(zfs3("clone", snapshot, target))
    }

    /// Reads how cloning went.
    pub fn snapshot_cloned(&self, snapshot: &str, target: &str, output: &CommandOutput) -> (r:
        Result<(), ZfsError>)
        ensures
            output.success ==> r is Ok,
            !output.success ==> is_failure(
                r,
                "Failed to clone snapshot '"@ + snapshot@ + "' to '"@ + target@ + "': "@,
                *output,
            ),
    {
        let mut m = concat3("Failed to clone snapshot '", snapshot, "' to '");
        m.append(target);
        m.append("': ");
        expect_success(m, output)
    }

    /// The command that destroys a dataset or snapshot with everything
    /// below it. The caller makes sure that no clone depends on it.
    pub fn destroy(&self, path: &str) -> (c: HostCommand)
        ensures
            c.line() == seq!["zfs"@, "destroy"@, "-r"@, path@],
            c.input() is None,
    {
        zfs3("destroy", "-r", path)
    }

    /// Reads how destroying went. A failure that says "does not exist"
    /// means that there was nothing to destroy.
    pub fn destroyed(&self, path: &str, output: &CommandOutput) -> (r: Result<(), ZfsError>)
        ensures
            output.success ==> r is Ok,
            !output.success && has_infix(output.stderr@, "does not exist"@) ==> (r matches Err(
                ZfsError::DatasetNotFound(m),
            ) && m@ == path@),
            !output.success && !has_infix(output.stderr@, "does not exist"@) ==> is_failure(
                r,
                "Failed to destroy '"@ + path@ + "': "@,
                *output,
            ),
    {
        if output.success {
            return Ok(());
        }
        if contains(&chars_of(output.stderr.as_str()), &chars_of("does not exist")) {
            return Err(ZfsError::DatasetNotFound(path.to_owned()));
        }
        Err(failed(quoted("Failed to destroy '", path, "': "), output))
    }

    /// The command that prints the mount point of a dataset.
    pub fn get_mountpoint(&self, dataset: &str) -> (c: HostCommand)
        ensures
            c.line() == seq!["zfs"@, "list"@, "-o"@, "mountpoint"@, "-H"@, dataset@],
            c.input() is None,
    {
        zfs_list("mountpoint", false, dataset)
    }

    /// Reads the mount point of a dataset.
    pub fn mountpoint_read(&self, dataset: &str, output: &CommandOutput) -> (r: Result<
        String,
        ZfsError,
    >)
        ensures
            output.success ==> (r matches Ok(p) && p@ == trimmed(output.stdout@)),
            !output.success ==> (r matches Err(ZfsError::CommandFailed(m)) && m@
                == "Failed to get mountpoint for '"@ + dataset@ + "': "@ + output.stderr@),
    {
        if output.success {
            Ok(string_of(&trim(&chars_of(output.stdout.as_str()))))
        } else {
            Err(failed(quoted("Failed to get mountpoint for '", dataset, "': "), output))
        }
    }

    /// The command that lists the snapshots of a dataset, oldest first. The
    /// dataset has to exist.
    pub fn list_snapshots(&self, dataset: &str, dataset_exists: bool) -> (r: Result<
        HostCommand,
        ZfsError,
    >)
        ensures
            !dataset_exists ==> (r matches Err(ZfsError::DatasetNotFound(m)) && m@ == dataset@),
            dataset_exists ==> (r matches Ok(c) && c.input() is None && c.line() == seq![
                "zfs"@,
                "list"@,
                "-t"@,
                "snapshot"@,
                "-o"@,
                "name"@,
                "-H"@,
                "-s"@,
                "creation"@,
                dataset@ + "@*"@,
            ]),
    {
        if !dataset_exists {
            return Err(ZfsError::DatasetNotFound(dataset.to_owned()));
        }
        let mut v = no_args();
        push_arg(&mut v, "list");
        push_arg(&mut v, "-t");
        push_arg(&mut v, "snapshot");
        push_arg(&mut v, "-o");
        push_arg(&mut v, "name");
        push_arg(&mut v, "-H");
        push_arg(&mut v, "-s");
        push_arg(&mut v, "creation");
        push_owned(&mut v, concat2(dataset, "@*"));
        let c = HostCommand::new("zfs", v);
        assert(c.line() =~= seq![
            "zfs"@,
            "list"@,
            "-t"@,
            "snapshot"@,
            "-o"@,
            "name"@,
            "-H"@,
            "-s"@,
            "creation"@,
            dataset@ + "@*"@,
        ]);
        Ok(c)
    }

    /// Reads a listing of snapshots into snapshot names.
    pub fn snapshots_listed(&self, dataset: &str, output: &CommandOutput) -> (r: Result<
        Vec<String>,
        ZfsError,
    >)
        ensures
            output.success ==> (r matches Ok(v) && str_views(v@) == snapshot_names(
                lines(output.stdout@),
                lines(output.stdout@).len() as int,
                dataset@,
            )),
            !output.success ==> (r matches Err(ZfsError::CommandFailed(m)) && m@
                == "Failed to list snapshots for '"@ + dataset@ + "': "@ + output.stderr@),
    {
        if !output.success {
            return Err(failed(quoted("Failed to list snapshots for '", dataset, "': "), output));
        }
        let ls = split_lines(&chars_of(output.stdout.as_str()));
        let prefix = chars_of(concat2(dataset, "@").as_str());
        let ghost sl = lines(output.stdout@);
        let mut out: Vec<String> = Vec::new();
        let mut i: usize = 0;
        assert(str_views(out@) =~= Seq::<Seq<char>>::empty());
        while i < ls.len()
            invariant
                i <= ls.len(),
                views(ls@) == sl,
                prefix@ == dataset@ + "@"@,
                str_views(out@) == snapshot_names(sl, i as int, dataset@),
            decreases ls.len() - i,
        {
            assert(views(ls@)[i as int] == ls@[i as int]@);
            let t = trim(&ls[i]);
            let name: Vec<char> = if starts_with(&t, &prefix) {
                let n = slice(&t, prefix.len(), t.len());
                assert(n@ =~= t@.skip(prefix@.len() as int));
                n
            } else {
                t
            };
            if name.len() > 0 {
                let ghost before = str_views(out@);
                out.push(string_of(&name));
                assert(str_views(out@) =~= before.push(name@));
            }
            i += 1;
        }
        Ok(out)
    }

    /// The command that sets a property of a dataset, which has to exist.
    pub fn set_property(&self, dataset: &str, prop: &str, value: &str, dataset_exists: bool) -> (r:
        Result<HostCommand, ZfsError>)
        ensures
            !dataset_exists ==> (r matches Err(ZfsError::DatasetNotFound(m)) && m@ == dataset@),
            dataset_exists ==> (r matches Ok(c) && c.input() is None && c.line() == seq![
                "zfs"@,
                "set"@,
                prop@ + "="@ + value@,
                dataset@,
            ]),
    {
        if !dataset_exists {
            return Err(ZfsError::DatasetNotFound(dataset.to_owned()));
        }
        Ok(zfs3("set", concat3(prop, "=", value).as_str(), dataset))
    }

    /// Reads how setting a property went.
    pub fn property_set(&self, dataset: &str, prop: &str, output: &CommandOutput) -> (r: Result<
        (),
        ZfsError,
    >)
        ensures
            output.success ==> r is Ok,
            !output.success ==> is_failure(
                r,
                "Failed to set property '"@ + prop@ + "' on '"@ + dataset@ + "': "@,
                *output,
            ),
    {
        let mut m = concat3("Failed to set property '", prop, "' on '");
        m.append(dataset);
        m.append("': ");
        expect_success(m, output)
    }

    /// The command that prints a property of a dataset, which has to exist.
    pub fn get_property(&self, dataset: &str, prop: &str, dataset_exists: bool) -> (r: Result<
        HostCommand,
        ZfsError,
    >)
        ensures
            !dataset_exists ==> (r matches Err(ZfsError::DatasetNotFound(m)) && m@ == dataset@),
            dataset_exists ==> (r matches Ok(c) && c.input() is None && c.line() == seq![
                "zfs"@,
                "get"@,
                "-H"@,
                "-o"@,
                "value"@,
                prop@,
                dataset@,
            ]),
    {
        if !dataset_exists {
            return Err(ZfsError::DatasetNotFound(dataset.to_owned()));
        }
        let mut v = no_args();
        push_arg(&mut v, "get");
        push_arg(&mut v, "-H");
        push_arg(&mut v, "-o");
        push_arg(&mut v, "value");
        push_arg(&mut v, prop);
        push_arg(&mut v, dataset);
        let c = HostCommand::new("zfs", v);
        assert(c.line() =~= seq!["zfs"@, "get"@, "-H"@, "-o"@, "value"@, prop@, dataset@]);
        Ok(c)
    }

    /// Reads the value of a property.
    pub fn property_read(&self, dataset: &str, prop: &str, output: &CommandOutput) -> (r: Result<
        String,
        ZfsError,
    >)
        ensures
            output.success ==> (r matches Ok(p) && p@ == trimmed(output.stdout@)),
            !output.success ==> (r matches Err(ZfsError::CommandFailed(m)) && m@
                == "Failed to get property '"@ + prop@ + "' from '"@ + dataset@ + "': "@
                + output.stderr@),
    {
        if output.success {
            Ok(string_of(&trim(&chars_of(output.stdout.as_str()))))
        } else {
            let mut m = concat3("Failed to get property '", prop, "' from '");
            m.append(dataset);
            m.append("': ");
            Err(failed(m, output))
        }
    }

    /// The command that lists the datasets at and below a path.
    pub fn list_datasets(&self, path: &str) -> (c: HostCommand)
        ensures
            c.line() == seq!["zfs"@, "list"@, "-o"@, "name"@, "-H"@, "-r"@, path@],
            c.input() is None,
    {
        let mut v = no_args();
        push_arg(&mut v, "list");
        push_arg(&mut v, "-o");
        push_arg(&mut v, "name");
        push_arg(&mut v, "-H");
        push_arg(&mut v, "-r");
        push_arg(&mut v, path);
        let c = HostCommand::new("zfs", v);
        assert(c.line() =~= seq!["zfs"@, "list"@, "-o"@, "name"@, "-H"@, "-r"@, path@]);
        c
    }

    /// Reads a listing of datasets: its lines, trimmed, empty ones left out.
    pub fn datasets_listed(&self, path: &str, output: &CommandOutput) -> (r: Result<
        Vec<String>,
        ZfsError,
    >)
        ensures
            output.success ==> (r matches Ok(v) && str_views(v@) == trimmed_lines(
                lines(output.stdout@),
                lines(output.stdout@).len() as int,
            )),
            !output.success ==> (r matches Err(ZfsError::CommandFailed(m)) && m@
                == "Failed to list datasets under '"@ + path@ + "': "@ + output.stderr@),
    {
        if !output.success {
            return Err(failed(quoted("Failed to list datasets under '", path, "': "), output));
        }
        let ls = split_lines(&chars_of(output.stdout.as_str()));
        let ghost sl = lines(output.stdout@);
        let mut out: Vec<String> = Vec::new();
        let mut i: usize = 0;
        assert(str_views(out@) =~= Seq::<Seq<char>>::empty());
        while i < ls.len()
            invariant
                i <= ls.len(),
                views(ls@) == sl,
                str_views(out@) == trimmed_lines(sl, i as int),
            decreases ls.len() - i,
        {
            assert(views(ls@)[i as int] == ls@[i as int]@);
            let t = trim(&ls[i]);
            if t.len() > 0 {
                let ghost before = str_views(out@);
                out.push(string_of(&t));
                assert(str_views(out@) =~= before.push(t@));
            }
            i += 1;
        }
        Ok(out)
    }

    /// The command that rolls a dataset back to a snapshot, destroying
    /// later snapshots. The snapshot has to exist.
    pub fn rollback(&self, dataset: &str, snapshot: &str, snapshot_exists: bool) -> (r: Result<
        HostCommand,
        ZfsError,
    >)
        ensures
            !snapshot_exists ==> (r matches Err(ZfsError::SnapshotNotFound(m)) && m@ == dataset@
                + "@"@ + snapshot@),
            snapshot_exists ==> (r matches Ok(c) && c.input() is None && c.line() == seq![
                "zfs"@,
                "rollback"@,
                "-r"@,
                dataset@ + "@"@ + snapshot@,
            ]),
    {
        let path = concat3(dataset, "@", snapshot);
        if !snapshot_exists {
            return Err(ZfsError::SnapshotNotFound(path));
        }
        Ok(zfs3("rollback", "-r", path.as_str()))
    }

    /// Reads how rolling back went.
    pub fn rolled_back(&self, dataset: &str, snapshot: &str, output: &CommandOutput) -> (r: Result<
        (),
        ZfsError,
    >)
        ensures
            output.success ==> r is Ok,
            !output.success ==> is_failure(
                r,
                "Failed to rollback to snapshot '"@ + (dataset@ + "@"@ + snapshot@) + "': "@,
                *output,
            ),
    {
        let path = concat3(dataset, "@", snapshot);
        expect_success(quoted("Failed to rollback to snapshot '", path.as_str(), "': "), output)
    }

    /// The command that prints the space a dataset uses, in bytes. The
    /// dataset has to exist.
    pub fn get_used_space(&self, dataset: &str, dataset_exists: bool) -> (r: Result<
        HostCommand,
        ZfsError,
    >)
        ensures
            !dataset_exists ==> (r matches Err(ZfsError::DatasetNotFound(m)) && m@ == dataset@),
            dataset_exists ==> (r matches Ok(c) && c.input() is None && c.line() == seq![
                "zfs"@,
                "list"@,
                "-o"@,
                "used"@,
                "-H"@,
                "-p"@,
                dataset@,
            ]),
    {
        if !dataset_exists {
            return Err(ZfsError::DatasetNotFound(dataset.to_owned()));
        }
        Ok(zfs_list("used", true, dataset))
    }

    /// The command that prints the space left to a dataset, in bytes. The
    /// dataset has to exist.
    pub fn get_available_space(&self, dataset: &str, dataset_exists: bool) -> (r: Result<
        HostCommand,
        ZfsError,
    >)
        ensures
            !dataset_exists ==> (r matches Err(ZfsError::DatasetNotFound(m)) && m@ == dataset@),
            dataset_exists ==> (r matches Ok(c) && c.input() is None && c.line() == seq![
                "zfs"@,
                "list"@,
                "-o"@,
                "avail"@,
                "-H"@,
                "-p"@,
                dataset@,
            ]),
    {
        if !dataset_exists {
            return Err(ZfsError::DatasetNotFound(dataset.to_owned()));
        }
        Ok(zfs_list("avail", true, dataset))
    }

    /// Reads a number of bytes that a space query printed. `what` is `used`
    /// or `available`.
    pub fn space_read(&self, what: &str, dataset: &str, output: &CommandOutput) -> (r: Result<
        u64,
        ZfsError,
    >)
        ensures
            !output.success ==> (r matches Err(ZfsError::CommandFailed(m)) && m@ == "Failed to get "@
                + what@ + " space for '"@ + dataset@ + "': "@ + output.stderr@),
            output.success ==> match parse_upto(trimmed(output.stdout@), u64::MAX as nat) {
                Some(n) => r == Ok::<u64, ZfsError>(n as u64),
                None => r matches Err(ZfsError::CommandFailed(m)) && m@ == "Failed to parse "@
                    + what@ + " space value: "@ + trimmed(output.stdout@),
            },
    {
        if !output.success {
            let mut m = concat3("Failed to get ", what, " space for '");
            m.append(dataset);
            m.append("': ");
            return Err(failed(m, output));
        }
        let t = trim(&chars_of(output.stdout.as_str()));
        match parse_u64(&t) {
            Some(n) => Ok(n),
            None => {
                let mut m = concat3("Failed to parse ", what, " space value: ");
                m.append(string_of(&t).as_str());
                Err(ZfsError::CommandFailed(m))
            },
        }
    }

    /// The command that promotes a clone, which has to exist.
    pub fn promote(&self, dataset: &str, dataset_exists: bool) -> (r: Result<HostCommand, ZfsError>)
        ensures
            !dataset_exists ==> (r matches Err(ZfsError::DatasetNotFound(m)) && m@ == dataset@),
            dataset_exists ==> (r matches Ok(c) && c.input() is None && c.line() == seq![
                "zfs"@,
                "promote"@,
                dataset@,
            ]),
    {
        if !dataset_exists {
            return Err(ZfsError::DatasetNotFound(dataset.to_owned()));
        }
        Ok(zfs2("promote", dataset))
    }

    /// Reads how promoting went.
    pub fn promoted(&self, dataset: &str, output: &CommandOutput) -> (r: Result<(), ZfsError>)
        ensures
            output.success ==> r is Ok,
            !output.success ==> is_failure(
                r,
                "Failed to promote dataset '"@ + dataset@ + "': "@,
                *output,
            ),
    {
        expect_success(quoted("Failed to promote dataset '", dataset, "': "), output)
    }

    /// The command that renames a dataset. The old name has to exist, the
    /// new one must not.
    pub fn rename(&self, old_name: &str, new_name: &str, old_exists: bool, new_exists: bool) -> (r:
        Result<HostCommand, ZfsError>)
        ensures
            !old_exists ==> (r matches Err(ZfsError::DatasetNotFound(m)) && m@ == old_name@),
            old_exists && new_exists ==> (r matches Err(ZfsError::DatasetExists(m)) && m@
                == new_name@),
            old_exists && !new_exists ==> (r matches Ok(c) && c.input() is None && c.line() == seq![
                "zfs"@,
                "rename"@,
                old_name@,
                new_name@,
            ]),
    {
        if !old_exists {
            return Err(ZfsError::DatasetNotFound(old_name.to_owned()));
        }
        if new_exists {
            return Err(ZfsError::DatasetExists(new_name.to_owned()));
        }
        Ok(zfs3("rename", old_name, new_name))
    }

    /// Reads how renaming went.
    pub fn renamed(&self, old_name: &str, new_name: &str, output: &CommandOutput) -> (r: Result<
        (),
        ZfsError,
    >)
        ensures
            output.success ==> r is Ok,
            !output.success ==> is_failure(
                r,
                "Failed to rename dataset from '"@ + old_name@ + "' to '"@ + new_name@ + "': "@,
                *output,
            ),
    {
        let mut m = concat3("Failed to rename dataset from '", old_name, "' to '");
        m.append(new_name);
        m.append("': ");
        expect_success(m, output)
    }
}

} // verus!
