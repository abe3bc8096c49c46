//! Installing a base system into a jail root: configuration, progress,
//! mirror addresses, checksum verification and the default files.
//!
//! Downloading and unpacking are the caller's work; what to fetch, what to
//! compare and what to write is decided here.

use crate::jail::{opt_str_view, opt_view};
use crate::number::{one_decimal, push_one_decimal, rounded_tenths, tenths_of};
use crate::path::{file_name, file_name_of, join, joined};
use crate::strmap::StringMap;
use crate::text::{
    chars_of, concat2, concat3, lower, split_words, str_eq, string_of, to_lower, views,
    words,
};
use vstd::prelude::*;

verus! {

/// How a jail is to be bootstrapped.
#[derive(Debug, PartialEq)]
pub struct BootstrapConfig {
    /// Release to install, such as `15.0-RELEASE`; detected if absent.
    pub version: Option<String>,
    /// Architecture, such as `amd64`; detected if absent.
    pub architecture: Option<String>,
    /// Mirror to use in place of the official one.
    pub mirror: Option<String>,
    /// Download again even if the tarball is cached.
    pub no_cache: bool,
    /// Files to write in place of the default configuration, by path.
    pub config_overrides: Option<StringMap>,
}

impl Default for BootstrapConfig {
    fn default() -> (r: Self)
        ensures
            r.version is None,
            r.architecture is None,
            r.mirror is None,
            !r.no_cache,
            r.config_overrides is None,
    {
        BootstrapConfig {
            version: None,
            architecture: None,
            mirror: None,
            no_cache: false,
            config_overrides: None,
        }
    }
}

/// Where a bootstrap stands.
#[derive(Debug, PartialEq, Eq)]
pub enum BootstrapStatus {
    Initializing,
    Downloading,
    Verifying,
    Extracting,
    Configuring,
    Complete,
    Failed(String),
}

/// One progress report of a bootstrap.
#[derive(Debug, PartialEq, Eq)]
pub struct BootstrapProgress {
    pub status: BootstrapStatus,
    /// Percentage, 0 to 100.
    pub progress: u8,
    pub current_step: String,
    pub version: String,
    pub architecture: String,
}

/// Whether two statuses say the same.
pub open spec fn same_status(a: BootstrapStatus, b: BootstrapStatus) -> bool {
    match (a, b) {
        (BootstrapStatus::Initializing, BootstrapStatus::Initializing) => true,
        (BootstrapStatus::Downloading, BootstrapStatus::Downloading) => true,
        (BootstrapStatus::Verifying, BootstrapStatus::Verifying) => true,
        (BootstrapStatus::Extracting, BootstrapStatus::Extracting) => true,
        (BootstrapStatus::Configuring, BootstrapStatus::Configuring) => true,
        (BootstrapStatus::Complete, BootstrapStatus::Complete) => true,
        (BootstrapStatus::Failed(x), BootstrapStatus::Failed(y)) => x@ == y@,
        _ => false,
    }
}

/// Whether two reports say the same.
pub open spec fn same_report(a: BootstrapProgress, b: BootstrapProgress) -> bool {
    same_status(a.status, b.status) && a.progress == b.progress && a.current_step@
        == b.current_step@ && a.version@ == b.version@ && a.architecture@ == b.architecture@
}

impl BootstrapProgress {
    /// A copy of the report.
    pub fn duplicate(&self) -> (r: BootstrapProgress)
        ensures
            same_report(r, *self),
    {
        BootstrapProgress {
            status: match &self.status {
                BootstrapStatus::Initializing => BootstrapStatus::Initializing,
                BootstrapStatus::Downloading => BootstrapStatus::Downloading,
                BootstrapStatus::Verifying => BootstrapStatus::Verifying,
                BootstrapStatus::Extracting => BootstrapStatus::Extracting,
                BootstrapStatus::Configuring => BootstrapStatus::Configuring,
                BootstrapStatus::Complete => BootstrapStatus::Complete,
                BootstrapStatus::Failed(m) => BootstrapStatus::Failed(m.clone()),
            },
            progress: self.progress,
            current_step: self.current_step.clone(),
            version: self.version.clone(),
            architecture: self.architecture.clone(),
        }
    }
}

/// Why a bootstrap failed.
#[derive(Debug, PartialEq, Eq)]
pub enum BootstrapError {
    DownloadFailed(String),
    ChecksumMismatch { expected: String, actual: String },
    DiskSpaceInsufficient { required: u64, available: u64 },
    ExtractionFailed(String),
    JailAlreadyBootstrapped(String),
    InvalidVersion(String),
    InvalidArchitecture(String),
    Io(String),
    Http(String),
    Database(String),
}

/// The largest total size of cached tarballs before eviction is due: 2 GiB.
pub const CACHE_LIMIT_BYTES: u64 = 2147483648;

/// The directory of cached tarballs.
#[derive(Debug, PartialEq, Eq)]
pub struct BootstrapCache {
    cache_dir: String,
    db_path: String,
    max_size_bytes: u64,
}

impl BootstrapCache {
    /// The cache directory.
    pub closed spec fn dir(&self) -> Seq<char> {
        self.cache_dir@
    }

    /// The size above which eviction is due.
    pub closed spec fn limit(&self) -> nat {
        self.max_size_bytes as nat
    }

    /// A cache in `cache_dir`, with the 2 GiB limit.
    pub fn new(cache_dir: &str) -> (r: Result<BootstrapCache, BootstrapError>)
        ensures
            r matches Ok(c) && c.dir() == cache_dir@ && c.limit() == CACHE_LIMIT_BYTES,
    {
        Ok(
            BootstrapCache {
                cache_dir: cache_dir.to_owned(),
                db_path: join(cache_dir, "cache.db"),
                max_size_bytes: CACHE_LIMIT_BYTES,
            },
        )
    }

    /// A cache in `/var/cache/kawakaze`.
    pub fn with_default_path() -> (r: Result<BootstrapCache, BootstrapError>)
        ensures
            r matches Ok(c) && c.dir() == "/var/cache/kawakaze"@ && c.limit() == CACHE_LIMIT_BYTES,
    {
        BootstrapCache::new("/var/cache/kawakaze")
    }

    /// Where the tarball of `key` is kept: `<dir>/<key>/base.txz`.
    pub fn entry_path(&self, key: &str) -> (r: String)
        ensures
            r@ == joined(joined(self.dir(), key@), "base.txz"@),
    {
        let d = join(self.cache_dir.as_str(), key);
        join(d.as_str(), "base.txz")
    }

    /// The cached tarball of `key`, given whether its file exists.
    pub fn get(&self, key: &str, file_exists: bool) -> (r: Option<String>)
        ensures
            file_exists ==> (r matches Some(p) && p@ == joined(
                joined(self.dir(), key@),
                "base.txz"@,
            )),
            !file_exists ==> r is None,
    {
        if file_exists {
            Some(self.entry_path(key))
        } else {
            None
        }
    }

    /// Whether tarballs of `total_size` bytes in all exceed the limit.
    pub fn over_limit(&self, total_size: u64) -> (r: bool)
        ensures
            r == (total_size > self.limit()),
    {
        total_size > self.max_size_bytes
    }
}

/// The key under which a release for an architecture is cached.
pub fn cache_key(version: &str, architecture: &str) -> (r: String)
    ensures
        r@ == version@ + "-"@ + architecture@,
{
    concat3(version, "-", architecture)
}

/// The release that is assumed where none is configured or detected.
pub open spec fn default_version() -> Seq<char> {
    "15.0-RELEASE"@
}

/// The release to install: the configured one; else the host's release with
/// `-RELEASE` appended; else `15.0-RELEASE`.
pub open spec fn version_for(configured: Option<Seq<char>>, host_release: Option<Seq<char>>) -> Seq<
    char,
> {
    match configured {
        Some(v) => v,
        None => match host_release {
            Some(r) => r + "-RELEASE"@,
            None => default_version(),
        },
    }
}

/// Picks the release to install. `host_release` is what `uname` reports on a
/// FreeBSD host, and absent elsewhere.
pub fn detect_version(config: &BootstrapConfig, host_release: Option<&str>) -> (r: Result<
    String,
    BootstrapError,
>)
    ensures
        r matches Ok(v) && v@ == version_for(
            opt_view(config.version),
            match host_release {
                Some(s) => Some(s@),
                None => None,
            },
        ),
{
    match &config.version {
        Some(v) => Ok(v.clone()),
        None => match host_release {
            Some(rel) => Ok(concat2(rel, "-RELEASE")),
            None => Ok("15.0-RELEASE".to_owned()),
        },
    }
}

/// The processor family the program was built for.
#[derive(Debug, Clone, Copy, PartialEq, Eq, Structural)]
pub enum BuildTarget {
    X86_64,
    Aarch64,
    Other,
}

/// The architecture name for what `uname` calls the machine.
pub open spec fn machine_architecture(machine: Seq<char>) -> Seq<char> {
    if machine == "aarch64"@ {
        "arm64"@
    } else if machine == "arm64"@ {
        "aarch64"@
    } else {
        machine
    }
}

/// The architecture to install, or nothing if it cannot be told.
pub open spec fn architecture_for(
    configured: Option<Seq<char>>,
    host_machine: Option<Seq<char>>,
    target: BuildTarget,
) -> Option<Seq<char>> {
    match configured {
        Some(a) => Some(a),
        None => match host_machine {
            Some(m) => Some(machine_architecture(m)),
            None => match target {
                BuildTarget::X86_64 => Some("amd64"@),
                BuildTarget::Aarch64 => Some("aarch64"@),
                BuildTarget::Other => None,
            },
        },
    }
}

/// Picks the architecture to install. `host_machine` is what `uname` reports
/// on a FreeBSD host, and absent elsewhere.
pub fn detect_architecture(
    config: &BootstrapConfig,
    host_machine: Option<&str>,
    target: BuildTarget,
) -> (r: Result<String, BootstrapError>)
    ensures
        match architecture_for(
            opt_view(config.architecture),
            match host_machine {
                Some(s) => Some(s@),
                None => None,
            },
            target,
        ) {
            Some(a) => r matches Ok(v) && v@ == a,
            None => r matches Err(BootstrapError::InvalidArchitecture(m)) && m@
                == "Could not detect architecture"@,
        },
{
    match &config.architecture {
        Some(a) => Ok(a.clone()),
        None => match host_machine {
            Some(m) => {
                if str_eq(m, "aarch64") {
                    Ok("arm64".to_owned())
                } else if str_eq(m, "arm64") {
                    Ok("aarch64".to_owned())
                } else {
                    Ok(m.to_owned())
                }
            },
            None => match target {
                BuildTarget::X86_64 => Ok("amd64".to_owned()),
                BuildTarget::Aarch64 => Ok("aarch64".to_owned()),
                BuildTarget::Other => Err(
                    BootstrapError::InvalidArchitecture("Could not detect architecture".to_owned()),
                ),
            },
        },
    }
}

/// The directory of an architecture on a mirror.
pub open spec fn architecture_path(architecture: Seq<char>) -> Seq<char> {
    if architecture == "amd64"@ {
        "amd64/amd64"@
    } else if architecture == "i386"@ {
        "i386/i386"@
    } else if architecture == "aarch64"@ {
        "arm64/aarch64"@
    } else if architecture == "arm64"@ {
        "arm64/aarch64"@
    } else {
        architecture
    }
}

/// The mirror used where none is configured.
pub open spec fn default_mirror() -> Seq<char> {
    "https://download.freebsd.org/releases"@
}

/// The address of a release file: `<mirror>/<arch path>/<version>/<file>`.
pub open spec fn mirror_url(
    mirror: Option<Seq<char>>,
    version: Seq<char>,
    architecture: Seq<char>,
    file: Seq<char>,
) -> Seq<char> {
    (match mirror {
        Some(m) => m,
        None => default_mirror(),
    }) + "/"@ + architecture_path(architecture) + "/"@ + version + "/"@ + file
}

/// The address from which `file` of a release is fetched.
pub fn build_mirror_url(config: &BootstrapConfig, version: &str, architecture: &str, file: &str) -> (r:
    String)
    ensures
        r@ == mirror_url(opt_view(config.mirror), version@, architecture@, file@),
{
    let mut out: String = match &config.mirror {
        Some(m) => m.clone(),
        None => "https://download.freebsd.org/releases".to_owned(),
    };
    out.append("/");
    if str_eq(architecture, "amd64") {
        out.append("amd64/amd64");
    } else if str_eq(architecture, "i386") {
        out.append("i386/i386");
    } else if str_eq(architecture, "aarch64") {
        out.append("arm64/aarch64");
    } else if str_eq(architecture, "arm64") {
        out.append("arm64/aarch64");
    } else {
        out.append(architecture);
    }
    out.append("/");
    out.append(version);
    out.append("/");
    out.append(file);
    out
}

/// The percentage to report while downloading: from 10 to 45, in proportion
/// to what has arrived. Nothing is reported when the size is unknown.
pub open spec fn download_percent(downloaded: nat, total: nat) -> Option<nat> {
    if total == 0 {
        None
    } else if downloaded >= total {
        Some(45)
    } else {
        Some(10 + downloaded * 35 / total)
    }
}

/// Executable form of [`download_percent`].
pub fn download_progress(downloaded: u64, total: u64) -> (r: Option<u8>)
    ensures
        match r {
            Some(p) => download_percent(downloaded as nat, total as nat) == Some(p as nat) && 10
                <= p <= 45,
            None => download_percent(downloaded as nat, total as nat) is None,
        },
{
    if total == 0 {
        None
    } else if downloaded >= total {
        Some(45)
    } else {
        let scaled: u128 = downloaded as u128 * 35;
        let share: u128 = scaled / (total as u128);
        assert(share < 35) by (nonlinear_arith)
            requires
                share == scaled / (total as u128),
                scaled == downloaded as u128 * 35,
                downloaded < total,
                total > 0,
        ;
        Some((10 + share) as u8)
    }
}

/// The more has arrived, the higher the percentage.
pub proof fn lemma_download_percent_monotone(a: nat, b: nat, total: nat)
    requires
        a <= b,
        total > 0,
    ensures
        download_percent(a, total)->0 <= download_percent(b, total)->0,
        10 <= download_percent(a, total)->0 <= 45,
{
    if a < total {
        assert(a * 35 / total < 35) by (nonlinear_arith)
            requires
                a < total,
                total > 0,
        ;
        assert(a * 35 / total >= 0) by (nonlinear_arith)
            requires
                total > 0,
        ;
    }
    if b < total {
        assert(a * 35 / total <= b * 35 / total) by (nonlinear_arith)
            requires
                a <= b,
                total > 0,
        ;
    }
}

/// The checksum named in a checksum file: its first word.
pub open spec fn checksum_in(content: Seq<char>) -> Option<Seq<char>> {
    let w = words(content);
    if w.len() == 0 {
        None
    } else {
        Some(w[0])
    }
}

/// Reads the checksum from the text of a checksum file, which holds the
/// checksum and then the file's name.
pub fn parse_checksum(content: &str) -> (r: Result<String, BootstrapError>)
    ensures
        match checksum_in(content@) {
            Some(c) => r matches Ok(s) && s@ == c,
            None => r matches Err(BootstrapError::DownloadFailed(m)) && m@
                == "Invalid checksum format"@,
        },
{
    let v = chars_of(content);
    let parts = split_words(&v);
    if parts.len() == 0 {
        Err(BootstrapError::DownloadFailed("Invalid checksum format".to_owned()))
    } else {
        assert(views(parts@)[0] == parts@[0]@);
        Ok(string_of(&parts[0]))
    }
}

/// The SHA-256 digest of a sequence of bytes.
pub uninterp spec fn sha256(data: Seq<u8>) -> Seq<u8>;

/// Computes a SHA-256 digest.
///
/// Trusted: `sha2::Sha256::digest` (the `Digest` trait's one-shot function),
/// whose result depends on the bytes alone.
#[verifier::external_body]
fn sha256_digest(data: &[u8]) -> (r: Vec<u8>)
    ensures
        r@ == sha256(data@),
{
    <sha2::Sha256 as sha2::Digest>::digest(data).to_vec()
}

/// The lower-case hexadecimal digit for a value below sixteen.
pub open spec fn hex_digit(n: int) -> char {
    if n < 10 {
        ((48 + n) as u8) as char
    } else {
        ((87 + n) as u8) as char
    }
}

/// Bytes written as lower-case hexadecimal digits, two per byte, high half
/// first.
pub open spec fn hex_of(data: Seq<u8>) -> Seq<char> {
    Seq::new(
        2 * data.len(),
        |i: int|
            if i % 2 == 0 {
                hex_digit(data[i / 2] as int / 16)
            } else {
                hex_digit(data[i / 2] as int % 16)
            },
    )
}

/// Writes bytes as hexadecimal text.
///
/// Trusted: `hex::encode`, which maps each byte to two digits from
/// `0123456789abcdef`, the high four bits first.
#[verifier::external_body]
fn hex_encode(data: &Vec<u8>) -> (r: String)
    ensures
        r@ == hex_of(data@),
{
    hex::encode(data)
}

/// Whether two texts are equal once ASCII capitals are made small.
pub open spec fn same_ignoring_case(a: Seq<char>, b: Seq<char>) -> bool {
    lower(a) == lower(b)
}

/// Compares a computed digest with the expected checksum, ignoring the case
/// of ASCII letters.
pub fn check_digest(actual: String, expected: &str) -> (r: Result<(), BootstrapError>)
    ensures
        same_ignoring_case(actual@, expected@) ==> r is Ok,
        !same_ignoring_case(actual@, expected@) ==> (r matches Err(
            BootstrapError::ChecksumMismatch { expected: e, actual: a },
        ) && e@ == expected@ && a@ == actual@),
{
    let a = to_lower(&chars_of(actual.as_str()));
    let e = to_lower(&chars_of(expected));
    let same = a.len() == e.len() && crate::text::matches_at(&a, &e, 0);
    proof {
        if a.len() == e.len() {
            assert(a@.subrange(0, 0 + e.len()) =~= a@);
        }
    }
    if same {
        Ok(())
    } else {
        Err(BootstrapError::ChecksumMismatch { expected: expected.to_owned(), actual })
    }
}

/// Verifies a downloaded file against its checksum: the SHA-256 digest of
/// `contents`, written in hexadecimal, must equal `expected` but for the case
/// of letters.
pub fn verify_checksum(contents: &[u8], expected: &str) -> (r: Result<(), BootstrapError>)
    ensures
        same_ignoring_case(hex_of(sha256(contents@)), expected@) ==> r is Ok,
        !same_ignoring_case(hex_of(sha256(contents@)), expected@) ==> (r matches Err(
            BootstrapError::ChecksumMismatch { expected: e, actual: a },
        ) && e@ == expected@ && a@ == hex_of(sha256(contents@))),
{
    let digest = sha256_digest(contents);
    let actual = hex_encode(&digest);
    check_digest(actual, expected)
}

/// The default `/etc/rc.conf` of a jail.
pub open spec fn rc_conf_text(jail_name: Seq<char>) -> Seq<char> {
    "# Basic RC configuration for "@ + jail_name
        + "\nsendmail_enable=\"NO\"\nsendmail_submit_enable=\"NO\"\nsendmail_outbound_enable=\"NO\"\nsshd_enable=\"YES\"\ncron_enable=\"YES\"\n"@
}

/// The default `/etc/hosts` of a jail.
pub open spec fn hosts_text(hostname: Seq<char>) -> Seq<char> {
    "127.0.0.1 localhost localhost.localdomain "@ + hostname
        + "\n::1 localhost localhost.localdomain\n"@
}

/// The name of the jail that lives at `jail_path`: the path's last component.
pub open spec fn jail_name_of(jail_path: Seq<char>) -> Seq<char> {
    match file_name_of(jail_path) {
        Some(c) => c,
        None => Seq::<char>::empty(),
    }
}

/// The default `/etc/rc.conf`: no sendmail, with sshd and cron.
pub fn create_default_rc_conf(jail_path: &str) -> (r: String)
    ensures
        r@ == rc_conf_text(jail_name_of(jail_path@)),
{
    let name = file_name(jail_path);
    concat3(
        "# Basic RC configuration for ",
        name.as_str(),
        "\nsendmail_enable=\"NO\"\nsendmail_submit_enable=\"NO\"\nsendmail_outbound_enable=\"NO\"\nsshd_enable=\"YES\"\ncron_enable=\"YES\"\n",
    )
}

/// The default `/etc/resolv.conf`: two public name servers.
pub fn create_default_resolv_conf() -> (r: String)
    ensures
        r@ == "nameserver 1.1.1.1\nnameserver 8.8.8.8\n"@,
{
    "nameserver 1.1.1.1\nnameserver 8.8.8.8\n".to_owned()
}

/// The default `/etc/hosts`: localhost and the jail's name.
pub fn create_default_hosts(jail_path: &str) -> (r: String)
    ensures
        r@ == hosts_text(jail_name_of(jail_path@)),
{
    let name = file_name(jail_path);
    concat3(
        "127.0.0.1 localhost localhost.localdomain ",
        name.as_str(),
        "\n::1 localhost localhost.localdomain\n",
    )
}

/// One file to write below a jail's root.
#[derive(Debug, PartialEq, Eq)]
pub struct ConfigFile {
    /// Where to write, the jail's root included.
    pub path: String,
    pub content: String,
}

/// The files as pairs of path and content.
pub open spec fn files_view(fs: Seq<ConfigFile>) -> Seq<(Seq<char>, Seq<char>)> {
    Seq::new(fs.len(), |i: int| (fs[i].path@, fs[i].content@))
}

/// The overrides as files below the root, in the order of the overrides.
pub open spec fn override_files(root: Seq<char>, pairs: Seq<(Seq<char>, Seq<char>)>) -> Seq<
    (Seq<char>, Seq<char>),
> {
    Seq::new(pairs.len(), |i: int| (joined(root, pairs[i].0), pairs[i].1))
}

/// The three default files below the root.
pub open spec fn default_files(root: Seq<char>) -> Seq<(Seq<char>, Seq<char>)> {
    let etc = joined(root, "etc"@);
    seq![
        (joined(etc, "rc.conf"@), rc_conf_text(jail_name_of(root))),
        (joined(etc, "resolv.conf"@), "nameserver 1.1.1.1\nnameserver 8.8.8.8\n"@),
        (joined(etc, "hosts"@), hosts_text(jail_name_of(root))),
    ]
}

/// The configuration files to write into a bootstrapped jail: the configured
/// overrides as they are, or else the three default files.
pub fn create_config_files(jail_path: &str, config: &BootstrapConfig) -> (r: Vec<ConfigFile>)
    ensures
        match config.config_overrides {
            Some(m) => files_view(r@) == override_files(jail_path@, m.pairs()),
            None => files_view(r@) == default_files(jail_path@),
        },
{
    let mut out: Vec<ConfigFile> = Vec::new();
    match &config.config_overrides {
        Some(m) => {
            let n = m.len();
            let mut i: usize = 0;
            while i < n
                invariant
                    i <= n,
                    n == m.pairs().len(),
                    out.len() == i,
                    forall|j: int|
                        0 <= j < i ==> (#[trigger] out@[j]).path@ == joined(jail_path@, m.pairs()[j].0)
                            && out@[j].content@ == m.pairs()[j].1,
                decreases n - i,
            {
                out.push(
                    ConfigFile {
                        path: join(jail_path, m.key_at(i).as_str()),
                        content: m.value_at(i).clone(),
                    },
                );
                i += 1;
            }
            assert(files_view(out@) =~= override_files(jail_path@, m.pairs()));
        },
        None => {
            let etc = join(jail_path, "etc");
            out.push(
                ConfigFile {
                    path: join(etc.as_str(), "rc.conf"),
                    content: create_default_rc_conf(jail_path),
                },
            );
            out.push(
                ConfigFile {
                    path: join(etc.as_str(), "resolv.conf"),
                    content: create_default_resolv_conf(),
                },
            );
            out.push(
                ConfigFile {
                    path: join(etc.as_str(), "hosts"),
                    content: create_default_hosts(jail_path),
                },
            );
            assert(files_view(out@) =~= default_files(jail_path@));
        },
    }
    out
}

/// The file whose presence marks a jail root as bootstrapped.
pub fn bootstrap_marker(jail_path: &str) -> (r: String)
    ensures
        r@ == joined(jail_path@, "bin/sh"@),
{
    join(jail_path, "bin/sh")
}

/// A size in mebibytes with one decimal place, such as `1.5 MB`.
pub open spec fn megabytes_text(bytes: nat) -> Seq<char> {
    one_decimal(rounded_tenths(bytes, 1048576)) + " MB"@
}

/// Writes a size in mebibytes, rounded to one decimal place.
pub fn bytes_to_mb(bytes: u64) -> (r: String)
    ensures
        r@ == megabytes_text(bytes as nat),
{
    let mut v: Vec<char> = Vec::new();
    push_one_decimal(&mut v, tenths_of(bytes, 1048576));
    let mut out = string_of(&v);
    out.append(" MB");
    assert(out@ =~= megabytes_text(bytes as nat));
    out
}

} // verus!

verus! {

/// Where a bootstrap run stands.
#[derive(Debug, Clone, Copy, PartialEq, Eq, Structural)]
pub enum Phase {
    /// Not started.
    Idle,
    /// Waiting to hear whether the tarball is cached.
    CacheLookup,
    /// Waiting for the tarball to arrive.
    Downloading,
    /// Waiting for the checksum file.
    Verifying,
    /// Waiting for the tarball to be unpacked.
    Extracting,
    /// Waiting for the configuration files to be written.
    Configuring,
    /// Finished well.
    Complete,
    /// Finished with an error.
    Failed,
}

/// What a bootstrap asks of the host next.
#[derive(Debug, PartialEq, Eq)]
pub enum BootstrapStep {
    /// Say whether this file exists.
    LookInCache { path: String },
    /// Fetch `url` into the file `to`, within `timeout_secs`; report what
    /// arrives on the way.
    Download { url: String, to: String, timeout_secs: u64 },
    /// Fetch the checksum file within `timeout_secs`, and read the tarball.
    FetchChecksum { url: String, tarball: String, timeout_secs: u64 },
    /// Unpack the xz-compressed tarball into the directory, on a worker
    /// thread. With `cache_as`, copy the tarball there first, and ignore
    /// the copy's failure.
    Extract { tarball: String, into: String, cache_as: Option<String> },
    /// Write these files, creating their directories.
    WriteFiles { files: Vec<ConfigFile> },
    /// Nothing: wait for the next event.
    Wait,
    /// Nothing more: the run is over.
    Finished { outcome: Result<(), BootstrapError> },
}

/// What the host reports to a bootstrap.
#[derive(Debug, PartialEq, Eq)]
#[allow(inconsistent_fields)]
pub enum BootstrapEvent {
    /// Whether the file asked for exists.
    CacheLooked { found: bool },
    /// So many bytes of so many have arrived.
    Received { downloaded: u64, total: u64 },
    /// The download ended.
    Downloaded { outcome: Result<(), BootstrapError> },
    /// The checksum file and the tarball were read.
    ChecksumFetched { outcome: Result<(String, Vec<u8>), BootstrapError> },
    /// Unpacking ended.
    Extracted { outcome: Result<(), String> },
    /// Writing the files ended.
    FilesWritten { outcome: Result<(), String> },
}

/// The seconds that the download of the tarball may take.
pub const TARBALL_TIMEOUT_SECS: u64 = 600;

/// The seconds that the download of the checksum may take.
pub const CHECKSUM_TIMEOUT_SECS: u64 = 30;

/// One bootstrap of one jail root.
#[derive(Debug)]
pub struct Bootstrap {
    jail_path: String,
    config: BootstrapConfig,
    cache: Option<BootstrapCache>,
    version: String,
    architecture: String,
    tarball: String,
    phase: Phase,
    percent: u8,
}

/// The percentages of a list of reports.
pub open spec fn percents(reports: Seq<BootstrapProgress>) -> Seq<int> {
    Seq::new(reports.len(), |i: int| reports[i].progress as int)
}

/// Whether percentages start at or above `from`, never fall and never
/// exceed one hundred.
pub open spec fn rising_from(ps: Seq<int>, from: int) -> bool {
    &&& forall|i: int| 0 <= i < ps.len() ==> from <= #[trigger] ps[i] <= 100
    &&& forall|i: int, j: int| 0 <= i <= j < ps.len() ==> ps[i] <= ps[j]
}

/// Whether reports rise from `from` and end at `current`, if there are any.
pub open spec fn reported(reports: Seq<BootstrapProgress>, from: int, current: int) -> bool {
    &&& rising_from(percents(reports), from)
    &&& from <= current <= 100
    &&& reports.len() > 0 ==> reports.last().progress == current
}

/// The percentage that is shown when `asked` is to be reported after
/// `last`: reports never fall.
pub open spec fn shown_percent(last: int, asked: int) -> int {
    if asked >= last {
        asked
    } else {
        last
    }
}

/// Whether `p` reports `status` at `percent` with the text `step`, in a
/// bootstrap that was asked for by `config`: the report shows the release
/// and the architecture that were asked for, or `unknown`.
pub open spec fn is_report(
    p: BootstrapProgress,
    config: BootstrapConfig,
    status: BootstrapStatus,
    percent: int,
    step: Seq<char>,
) -> bool {
    &&& p.status == status
    &&& p.progress == percent
    &&& p.current_step@ == step
    &&& p.version@ == match config.version {
        Some(v) => v@,
        None => "unknown"@,
    }
    &&& p.architecture@ == match config.architecture {
        Some(a) => a@,
        None => "unknown"@,
    }
}

/// Where the tarball of a release is cached, if the cache is used.
pub open spec fn cache_entry_of(
    config: BootstrapConfig,
    cache_dir: Option<Seq<char>>,
    version: Seq<char>,
    architecture: Seq<char>,
) -> Option<Seq<char>> {
    if config.no_cache {
        None
    } else {
        match cache_dir {
            Some(d) => Some(joined(joined(d, version + "-"@ + architecture), "base.txz"@)),
            None => None,
        }
    }
}

/// The configuration files of a bootstrap: the overrides as they are, or
/// else the three default files.
pub open spec fn files_of(root: Seq<char>, config: BootstrapConfig) -> Seq<(Seq<char>, Seq<char>)> {
    match config.config_overrides {
        Some(m) => override_files(root, m.pairs()),
        None => default_files(root),
    }
}

impl Bootstrap {
    /// Where the run stands.
    pub closed spec fn phase(&self) -> Phase {
        self.phase
    }

    /// The percentage last reported.
    pub closed spec fn percent(&self) -> int {
        self.percent as int
    }

    /// The jail root.
    pub closed spec fn root(&self) -> Seq<char> {
        self.jail_path@
    }

    /// What was asked for.
    pub closed spec fn settings(&self) -> BootstrapConfig {
        self.config
    }

    /// The directory of the cache, if there is one.
    pub closed spec fn cache_dir(&self) -> Option<Seq<char>> {
        match self.cache {
            Some(c) => Some(c.dir()),
            None => None,
        }
    }

    /// The release that is installed; empty until the run has begun.
    pub closed spec fn release(&self) -> Seq<char> {
        self.version@
    }

    /// The architecture that is installed; empty until the run has begun.
    pub closed spec fn architecture(&self) -> Seq<char> {
        self.architecture@
    }

    /// Where the tarball is; empty until the run has begun.
    pub closed spec fn tarball(&self) -> Seq<char> {
        self.tarball@
    }

    /// Whether two states are of one bootstrap: the same root, the same
    /// settings, the same cache.
    pub open spec fn same_run(&self, other: &Bootstrap) -> bool {
        self.root() == other.root() && self.settings() == other.settings() && self.cache_dir()
            == other.cache_dir()
    }

    /// Whether two states differ in phase and percentage at most.
    pub open spec fn same_files(&self, other: &Bootstrap) -> bool {
        self.same_run(other) && self.release() == other.release() && self.architecture()
            == other.architecture() && self.tarball() == other.tarball()
    }

    #[verifier::type_invariant]
    spec fn percent_in_range(&self) -> bool {
        self.percent <= 100
    }

    /// A bootstrap of the jail root at `jail_path`, with the cache in
    /// `/var/cache/kawakaze`.
    pub fn new(jail_path: &str, config: BootstrapConfig) -> (r: Result<Bootstrap, BootstrapError>)
        ensures
            r matches Ok(b) && b.phase() == Phase::Idle && b.percent() == 0 && b.root()
                == jail_path@ && b.settings() == config && b.cache_dir() == Some(
                "/var/cache/kawakaze"@,
            ) && b.release().len() == 0 && b.architecture().len() == 0 && b.tarball().len() == 0,
    {
        let cache = match BootstrapCache::with_default_path() {
            Ok(c) => Some(c),
            Err(_) => None,
        };
        Ok(
            Bootstrap {
                jail_path: jail_path.to_owned(),
                config,
                cache,
                version: String::new(),
                architecture: String::new(),
                tarball: String::new(),
                phase: Phase::Idle,
                percent: 0,
            },
        )
    }

    /// Whether a jail root holds a base system, given whether its `bin/sh`
    /// exists.
    pub fn is_bootstrapped(marker_exists: bool) -> (r: bool)
        ensures
            r == marker_exists,
    {
        marker_exists
    }

    /// Makes a report. The percentage is the one asked for, or the one last
    /// reported if that is higher.
    fn emit(
        &mut self,
        reports: &mut Vec<BootstrapProgress>,
        status: BootstrapStatus,
        progress: u8,
        step: &str,
        Ghost(from): Ghost<int>,
    )
        requires
            progress <= 100,
            reported(old(reports)@, from, old(self).percent()),
        ensures
            reported(final(reports)@, from, final(self).percent()),
            final(reports)@ == old(reports)@.push(final(reports)@.last()),
            is_report(
                final(reports)@.last(),
                old(self).settings(),
                status,
                shown_percent(old(self).percent(), progress as int),
                step@,
            ),
            final(self).percent() == shown_percent(old(self).percent(), progress as int),
            final(self).phase() == old(self).phase(),
            final(self).same_files(old(self)),
    {
        proof {
            use_type_invariant(&*self);
        }
        let shown: u8 = if progress >= self.percent {
            progress
        } else {
            self.percent
        };
        self.percent = shown;
        let p = BootstrapProgress {
            status,
            progress: shown,
            current_step: step.to_owned(),
            version: match &self.config.version {
                Some(v) => v.clone(),
                None => "unknown".to_owned(),
            },
            architecture: match &self.config.architecture {
                Some(a) => a.clone(),
                None => "unknown".to_owned(),
            },
        };
        let ghost before = reports@;
        reports.push(p);
        proof {
            let now = percents(reports@);
            let was = percents(before);
            assert(reports@ =~= before.push(reports@.last()));
            assert forall|i: int| 0 <= i < now.len() implies from <= #[trigger] now[i] <= 100 by {
                if i < before.len() {
                    assert(was[i] == now[i]);
                }
            }
            assert forall|i: int, j: int| 0 <= i <= j < now.len() implies now[i] <= now[j] by {
                if j < before.len() {
                    assert(was[i] <= was[j]);
                } else if i < before.len() {
                    assert(was[i] <= was[before.len() - 1]);
                }
            }
        }
    }

    fn fail(&mut self, e: BootstrapError) -> (r: BootstrapStep)
        ensures
            r == (BootstrapStep::Finished { outcome: Err(e) }),
            final(self).phase() == Phase::Failed,
            final(self).percent() == old(self).percent(),
            final(self).same_files(old(self)),
    {
        proof {
            use_type_invariant(&*self);
        }
        self.phase = Phase::Failed;
        BootstrapStep::Finished { outcome: Err(e) }
    }

    fn fail_with(&mut self, reason: &str) -> (r: BootstrapStep)
        ensures
            r matches BootstrapStep::Finished { outcome: Err(BootstrapError::Io(m)) } && m@
                == reason@,
            final(self).phase() == Phase::Failed,
            final(self).percent() == old(self).percent(),
            final(self).same_files(old(self)),
    {
        self.fail(BootstrapError::Io(reason.to_owned()))
    }

    fn set_phase(&mut self, phase: Phase)
        ensures
            final(self).phase() == phase,
            final(self).percent() == old(self).percent(),
            final(self).same_files(old(self)),
    {
        proof {
            use_type_invariant(&*self);
        }
        self.phase = phase;
    }

    fn cache_entry(&self) -> (r: Option<String>)
        ensures
            opt_view(r) == cache_entry_of(
                self.settings(),
                self.cache_dir(),
                self.release(),
                self.architecture(),
            ),
    {
        if self.config.no_cache {
            None
        } else {
            match &self.cache {
                Some(c) => Some(
                    c.entry_path(cache_key(self.version.as_str(), self.architecture.as_str()).as_str()),
                ),
                None => None,
            }
        }
    }

    fn download_step(&mut self, reports: &mut Vec<BootstrapProgress>, Ghost(from): Ghost<int>) -> (r:
        BootstrapStep)
        requires
            reported(old(reports)@, from, old(self).percent()),
        ensures
            reported(final(reports)@, from, final(self).percent()),
            final(reports)@ == old(reports)@.push(final(reports)@.last()),
            downloading(old(self), final(self), final(reports)@.last(), r),
    {
        proof {
            use_type_invariant(&*self);
        }
        let url = build_mirror_url(
            &self.config,
            self.version.as_str(),
            self.architecture.as_str(),
            "base.txz",
        );
        let mut text = concat3(
            "Downloading FreeBSD base system for ",
            self.version.as_str(),
            " (",
        );
        text.append(self.architecture.as_str());
        text.append(")");
        self.emit(reports, BootstrapStatus::Downloading, 10, text.as_str(), Ghost(from));
        proof {
            use_type_invariant(&*self);
        }
        self.phase = Phase::Downloading;
        self.tarball = join(self.jail_path.as_str(), ".bootstrap_temp");
        BootstrapStep::Download {
            url,
            to: self.tarball.clone(),
            timeout_secs: TARBALL_TIMEOUT_SECS,
        }
    }

    fn extract_step(
        &mut self,
        reports: &mut Vec<BootstrapProgress>,
        cache_as: Option<String>,
        Ghost(from): Ghost<int>,
    ) -> (r: BootstrapStep)
        requires
            reported(old(reports)@, from, old(self).percent()),
        ensures
            reported(final(reports)@, from, final(self).percent()),
            final(reports)@ == old(reports)@.push(final(reports)@.last()),
            extracting(old(self), final(self), final(reports)@.last(), r, opt_view(cache_as)),
    {
        self.emit(
            reports,
            BootstrapStatus::Extracting,
            65,
            "Extracting FreeBSD base system...",
            Ghost(from),
        );
        self.set_phase(Phase::Extracting);
        BootstrapStep::Extract {
            tarball: self.tarball.clone(),
            into: self.jail_path.clone(),
            cache_as,
        }
    }

    /// Starts the run. A jail root that holds a base system is refused.
    /// Release and architecture are settled, the first report is made, and
    /// the result says what to ask of the host first: a look into the
    /// cache, or the download.
    pub fn run(
        &mut self,
        already_bootstrapped: bool,
        host_release: Option<&str>,
        host_machine: Option<&str>,
        target: BuildTarget,
    ) -> (r: (Vec<BootstrapProgress>, BootstrapStep))
        ensures
            reported(r.0@, old(self).percent(), final(self).percent()),
            started(
                old(self),
                final(self),
                already_bootstrapped,
                opt_str_view(host_release),
                opt_str_view(host_machine),
                target,
                r.0@,
                r.1,
            ),
    {
        proof {
            use_type_invariant(&*self);
        }
        let ghost from = self.percent();
        let mut reports: Vec<BootstrapProgress> = Vec::new();
        if already_bootstrapped {
            let step = self.fail(BootstrapError::JailAlreadyBootstrapped(self.jail_path.clone()));
            return (reports, step);
        }
        let version = match detect_version(&self.config, host_release) {
            Ok(v) => v,
            Err(e) => {
                let step = self.fail(e);
                return (reports, step);
            },
        };
        let architecture = match detect_architecture(&self.config, host_machine, target) {
            Ok(a) => a,
            Err(e) => {
                let step = self.fail(e);
                return (reports, step);
            },
        };
        self.version = version;
        self.architecture = architecture;
        proof {
            use_type_invariant(&*self);
        }
        self.emit(
            &mut reports,
            BootstrapStatus::Initializing,
            0,
            "Initializing bootstrap...",
            Ghost(from),
        );
        match self.cache_entry() {
            Some(path) => {
                self.set_phase(Phase::CacheLookup);
                proof {
                    use_type_invariant(&*self);
                }
                self.tarball = path.clone();
                (reports, BootstrapStep::LookInCache { path })
            },
            None => {
                let ghost first = reports@[0];
                let step = self.download_step(&mut reports, Ghost(from));
                assert(reports@[0] == first);
                (reports, step)
            },
        }
    }

    /// Takes what the host reports and says what to ask of it next. The
    /// reports made on the way never fall below what was reported before;
    /// an event that does not fit the run's phase ends the run.
    pub fn advance(&mut self, event: BootstrapEvent) -> (r: (Vec<BootstrapProgress>, BootstrapStep))
        ensures
            reported(r.0@, old(self).percent(), final(self).percent()),
            advanced(old(self), final(self), event, r.0@, r.1),
    {
        proof {
            use_type_invariant(&*self);
        }
        let ghost from = self.percent();
        let mut reports: Vec<BootstrapProgress> = Vec::new();
        let phase = self.phase;
        match event {
            BootstrapEvent::CacheLooked { found } => {
                if phase == Phase::CacheLookup {
                    if found {
                        let step = self.extract_step(&mut reports, None, Ghost(from));
                        (reports, step)
                    } else {
                        let step = self.download_step(&mut reports, Ghost(from));
                        (reports, step)
                    }
                } else {
                    let step = self.fail_with("Unexpected cache answer");
                    (reports, step)
                }
            },
            BootstrapEvent::Received { downloaded, total } => {
                if phase == Phase::Downloading {
                    match download_progress(downloaded, total) {
                        Some(p) => {
                            let mut text = concat3(
                                "Downloading... (",
                                bytes_to_mb(downloaded).as_str(),
                                "/",
                            );
                            text.append(bytes_to_mb(total).as_str());
                            text.append(")");
                            self.emit(
                                &mut reports,
                                BootstrapStatus::Downloading,
                                p,
                                text.as_str(),
                                Ghost(from),
                            );
                        },
                        None => {},
                    }
                    (reports, BootstrapStep::Wait)
                } else {
                    let step = self.fail_with("Unexpected download report");
                    (reports, step)
                }
            },
            BootstrapEvent::Downloaded { outcome } => {
                if phase == Phase::Downloading {
                    match outcome {
                        Ok(()) => {
                            self.emit(
                                &mut reports,
                                BootstrapStatus::Verifying,
                                50,
                                "Verifying checksum...",
                                Ghost(from),
                            );
                            self.set_phase(Phase::Verifying);
                            let url = build_mirror_url(
                                &self.config,
                                self.version.as_str(),
                                self.architecture.as_str(),
                                "base.txz.sha256",
                            );
                            (
                                reports,
                                BootstrapStep::FetchChecksum {
                                    url,
                                    tarball: self.tarball.clone(),
                                    timeout_secs: CHECKSUM_TIMEOUT_SECS,
                                },
                            )
                        },
                        Err(e) => {
                            let step = self.fail(e);
                            (reports, step)
                        },
                    }
                } else {
                    let step = self.fail_with("Unexpected download end");
                    (reports, step)
                }
            },
            BootstrapEvent::ChecksumFetched { outcome } => {
                if phase == Phase::Verifying {
                    match outcome {
                        Ok((text, contents)) => {
                            let expected = match parse_checksum(text.as_str()) {
                                Ok(c) => c,
                                Err(e) => {
                                    let step = self.fail(e);
                                    return (reports, step);
                                },
                            };
                            match verify_checksum(contents.as_slice(), expected.as_str()) {
                                Ok(()) => {
                                    self.emit(
                                        &mut reports,
                                        BootstrapStatus::Verifying,
                                        60,
                                        "Checksum verified",
                                        Ghost(from),
                                    );
                                    let ghost first = reports@[0];
                                    let cache_as = self.cache_entry();
                                    let step = self.extract_step(&mut reports, cache_as, Ghost(from));
                                    assert(reports@[0] == first);
                                    (reports, step)
                                },
                                Err(e) => {
                                    let step = self.fail(e);
                                    (reports, step)
                                },
                            }
                        },
                        Err(e) => {
                            let step = self.fail(e);
                            (reports, step)
                        },
                    }
                } else {
                    let step = self.fail_with("Unexpected checksum");
                    (reports, step)
                }
            },
            BootstrapEvent::Extracted { outcome } => {
                if phase == Phase::Extracting {
                    match outcome {
                        Ok(()) => {
                            self.emit(
                                &mut reports,
                                BootstrapStatus::Extracting,
                                90,
                                "Extraction complete",
                                Ghost(from),
                            );
                            let ghost first = reports@[0];
                            self.emit(
                                &mut reports,
                                BootstrapStatus::Configuring,
                                92,
                                "Creating configuration files...",
                                Ghost(from),
                            );
                            assert(reports@[0] == first);
                            self.set_phase(Phase::Configuring);
                            let files = create_config_files(self.jail_path.as_str(), &self.config);
                            (reports, BootstrapStep::WriteFiles { files })
                        },
                        Err(m) => {
                            let step = self.fail(BootstrapError::ExtractionFailed(m));
                            (reports, step)
                        },
                    }
                } else {
                    let step = self.fail_with("Unexpected extraction end");
                    (reports, step)
                }
            },
            BootstrapEvent::FilesWritten { outcome } => {
                if phase == Phase::Configuring {
                    match outcome {
                        Ok(()) => {
                            self.emit(
                                &mut reports,
                                BootstrapStatus::Configuring,
                                98,
                                "Configuration files created",
                                Ghost(from),
                            );
                            let ghost first = reports@[0];
                            self.emit(
                                &mut reports,
                                BootstrapStatus::Complete,
                                100,
                                "Bootstrap completed successfully",
                                Ghost(from),
                            );
                            assert(reports@[0] == first);
                            self.set_phase(Phase::Complete);
                            (reports, BootstrapStep::Finished { outcome: Ok(()) })
                        },
                        Err(m) => {
                            let step = self.fail(BootstrapError::Io(m));
                            (reports, step)
                        },
                    }
                } else {
                    let step = self.fail_with("Unexpected end of writing");
                    (reports, step)
                }
            },
        }
    }
}

/// Whether a run has ended in failure with nothing reported: the state is
/// as it was, but for the phase.
pub open spec fn stopped(
    before: &Bootstrap,
    after: &Bootstrap,
    reports: Seq<BootstrapProgress>,
) -> bool {
    reports.len() == 0 && after.phase() == Phase::Failed && after.percent() == before.percent()
        && after.same_files(before)
}

/// Whether a run has ended because an event came in the wrong phase.
pub open spec fn stopped_for(
    before: &Bootstrap,
    after: &Bootstrap,
    reports: Seq<BootstrapProgress>,
    step: BootstrapStep,
    reason: Seq<char>,
) -> bool {
    stopped(before, after, reports) && (step matches BootstrapStep::Finished {
        outcome: Err(BootstrapError::Io(m)),
    } && m@ == reason)
}

/// Whether a run has turned to downloading: the download is reported at
/// ten percent, and the tarball is to be fetched from the mirror to
/// `.bootstrap_temp` below the jail root within 600 seconds.
pub open spec fn downloading(
    before: &Bootstrap,
    after: &Bootstrap,
    report: BootstrapProgress,
    step: BootstrapStep,
) -> bool {
    &&& after.same_run(before)
    &&& after.release() == before.release()
    &&& after.architecture() == before.architecture()
    &&& after.phase() == Phase::Downloading
    &&& after.percent() == shown_percent(before.percent(), 10)
    &&& after.tarball() == joined(before.root(), ".bootstrap_temp"@)
    &&& is_report(
        report,
        before.settings(),
        BootstrapStatus::Downloading,
        after.percent(),
        "Downloading FreeBSD base system for "@ + before.release() + " ("@ + before.architecture()
            + ")"@,
    )
    &&& step matches BootstrapStep::Download { url, to, timeout_secs } && url@ == mirror_url(
        opt_view(before.settings().mirror),
        before.release(),
        before.architecture(),
        "base.txz"@,
    ) && to@ == after.tarball() && timeout_secs == 600
}

/// Whether a run has turned to unpacking: that is reported at 65 percent,
/// and the tarball is to be unpacked into the jail root, after it was
/// copied to `cache_as` where that is given.
pub open spec fn extracting(
    before: &Bootstrap,
    after: &Bootstrap,
    report: BootstrapProgress,
    step: BootstrapStep,
    cache_as: Option<Seq<char>>,
) -> bool {
    &&& after.same_files(before)
    &&& after.phase() == Phase::Extracting
    &&& after.percent() == shown_percent(before.percent(), 65)
    &&& is_report(
        report,
        before.settings(),
        BootstrapStatus::Extracting,
        after.percent(),
        "Extracting FreeBSD base system..."@,
    )
    &&& step matches BootstrapStep::Extract { tarball, into, cache_as: c } && tarball@
        == before.tarball() && into@ == before.root() && opt_view(c) == cache_as
}

/// What the start of a run gives. A jail root that holds a base system is
/// refused, and so is a host whose architecture cannot be told. Else the
/// release and the architecture are settled and the start is reported;
/// with a cache the tarball is looked for there, without one it is
/// downloaded.
pub open spec fn started(
    before: &Bootstrap,
    after: &Bootstrap,
    already_bootstrapped: bool,
    host_release: Option<Seq<char>>,
    host_machine: Option<Seq<char>>,
    target: BuildTarget,
    reports: Seq<BootstrapProgress>,
    step: BootstrapStep,
) -> bool {
    let config = before.settings();
    if already_bootstrapped {
        stopped(before, after, reports) && (step matches BootstrapStep::Finished {
            outcome: Err(BootstrapError::JailAlreadyBootstrapped(m)),
        } && m@ == before.root())
    } else {
        match architecture_for(opt_view(config.architecture), host_machine, target) {
            None => stopped(before, after, reports) && (step matches BootstrapStep::Finished {
                outcome: Err(BootstrapError::InvalidArchitecture(m)),
            } && m@ == "Could not detect architecture"@),
            Some(architecture) => {
                let version = version_for(opt_view(config.version), host_release);
                &&& after.same_run(before)
                &&& after.release() == version
                &&& after.architecture() == architecture
                &&& reports.len() >= 1
                &&& is_report(
                    reports[0],
                    config,
                    BootstrapStatus::Initializing,
                    before.percent(),
                    "Initializing bootstrap..."@,
                )
                &&& match cache_entry_of(config, before.cache_dir(), version, architecture) {
                    Some(path) => {
                        &&& reports.len() == 1
                        &&& after.phase() == Phase::CacheLookup
                        &&& after.percent() == before.percent()
                        &&& after.tarball() == path
                        &&& step matches BootstrapStep::LookInCache { path: p } && p@ == path
                    },
                    None => {
                        &&& reports.len() == 2
                        &&& after.phase() == Phase::Downloading
                        &&& after.percent() == shown_percent(before.percent(), 10)
                        &&& after.tarball() == joined(before.root(), ".bootstrap_temp"@)
                        &&& is_report(
                            reports[1],
                            config,
                            BootstrapStatus::Downloading,
                            after.percent(),
                            "Downloading FreeBSD base system for "@ + version + " ("@
                                + architecture + ")"@,
                        )
                        &&& step matches BootstrapStep::Download { url, to, timeout_secs } && url@
                            == mirror_url(
                            opt_view(config.mirror),
                            version,
                            architecture,
                            "base.txz"@,
                        ) && to@ == after.tarball() && timeout_secs == 600
                    },
                }
            },
        }
    }
}

/// What an event gives. An event that does not fit the phase ends the run,
/// and so does a failure that the host reports. Else: a tarball found in
/// the cache is unpacked, one not found is downloaded; what arrives of a
/// download is reported between 10 and 45 percent; a finished download is
/// verified against the checksum file of the mirror, fetched within 30
/// seconds; a verified tarball is cached and unpacked; after unpacking the
/// configuration files are written; after writing the run is complete.
pub open spec fn advanced(
    before: &Bootstrap,
    after: &Bootstrap,
    event: BootstrapEvent,
    reports: Seq<BootstrapProgress>,
    step: BootstrapStep,
) -> bool {
    let config = before.settings();
    let last = before.percent();
    match event {
        BootstrapEvent::CacheLooked { found } => if before.phase() != Phase::CacheLookup {
            stopped_for(before, after, reports, step, "Unexpected cache answer"@)
        } else if found {
            reports.len() == 1 && extracting(before, after, reports[0], step, None)
        } else {
            reports.len() == 1 && downloading(before, after, reports[0], step)
        },
        BootstrapEvent::Received { downloaded, total } => if before.phase()
            != Phase::Downloading {
            stopped_for(before, after, reports, step, "Unexpected download report"@)
        } else {
            &&& step is Wait
            &&& after.phase() == Phase::Downloading
            &&& after.same_files(before)
            &&& match download_percent(downloaded as nat, total as nat) {
                Some(p) => reports.len() == 1 && after.percent() == shown_percent(last, p as int)
                    && is_report(
                    reports[0],
                    config,
                    BootstrapStatus::Downloading,
                    after.percent(),
                    "Downloading... ("@ + megabytes_text(downloaded as nat) + "/"@ + megabytes_text(
                        total as nat,
                    ) + ")"@,
                ),
                None => reports.len() == 0 && after.percent() == last,
            }
        },
        BootstrapEvent::Downloaded { outcome } => if before.phase() != Phase::Downloading {
            stopped_for(before, after, reports, step, "Unexpected download end"@)
        } else {
            match outcome {
                Err(e) => stopped(before, after, reports) && step == (BootstrapStep::Finished {
                    outcome: Err(e),
                }),
                Ok(()) => {
                    &&& after.same_files(before)
                    &&& after.phase() == Phase::Verifying
                    &&& after.percent() == shown_percent(last, 50)
                    &&& reports.len() == 1
                    &&& is_report(
                        reports[0],
                        config,
                        BootstrapStatus::Verifying,
                        after.percent(),
                        "Verifying checksum..."@,
                    )
                    &&& step matches BootstrapStep::FetchChecksum { url, tarball, timeout_secs }
                        && url@ == mirror_url(
                        opt_view(config.mirror),
                        before.release(),
                        before.architecture(),
                        "base.txz.sha256"@,
                    ) && tarball@ == before.tarball() && timeout_secs == 30
                },
            }
        },
        BootstrapEvent::ChecksumFetched { outcome } => if before.phase() != Phase::Verifying {
            stopped_for(before, after, reports, step, "Unexpected checksum"@)
        } else {
            match outcome {
                Err(e) => stopped(before, after, reports) && step == (BootstrapStep::Finished {
                    outcome: Err(e),
                }),
                Ok(fetched) => match checksum_in(fetched.0@) {
                    None => stopped(before, after, reports) && (
                    step matches BootstrapStep::Finished {
                        outcome: Err(BootstrapError::DownloadFailed(m)),
                    } && m@ == "Invalid checksum format"@),
                    Some(expected) => if same_ignoring_case(
                        hex_of(sha256(fetched.1@)),
                        expected,
                    ) {
                        &&& reports.len() == 2
                        &&& is_report(
                            reports[0],
                            config,
                            BootstrapStatus::Verifying,
                            shown_percent(last, 60),
                            "Checksum verified"@,
                        )
                        &&& after.same_files(before)
                        &&& after.phase() == Phase::Extracting
                        &&& after.percent() == shown_percent(shown_percent(last, 60), 65)
                        &&& is_report(
                            reports[1],
                            config,
                            BootstrapStatus::Extracting,
                            after.percent(),
                            "Extracting FreeBSD base system..."@,
                        )
                        &&& step matches BootstrapStep::Extract { tarball, into, cache_as }
                            && tarball@ == before.tarball() && into@ == before.root() && opt_view(
                            cache_as,
                        ) == cache_entry_of(
                            config,
                            before.cache_dir(),
                            before.release(),
                            before.architecture(),
                        )
                    } else {
                        stopped(before, after, reports) && (step matches BootstrapStep::Finished {
                            outcome: Err(BootstrapError::ChecksumMismatch { expected: e, actual: a }),
                        } && e@ == expected && a@ == hex_of(sha256(fetched.1@)))
                    },
                },
            }
        },
        BootstrapEvent::Extracted { outcome } => if before.phase() != Phase::Extracting {
            stopped_for(before, after, reports, step, "Unexpected extraction end"@)
        } else {
            match outcome {
                Err(m) => stopped(before, after, reports) && (step matches BootstrapStep::Finished {
                    outcome: Err(BootstrapError::ExtractionFailed(x)),
                } && x@ == m@),
                Ok(()) => {
                    &&& after.same_files(before)
                    &&& after.phase() == Phase::Configuring
                    &&& after.percent() == shown_percent(shown_percent(last, 90), 92)
                    &&& reports.len() == 2
                    &&& is_report(
                        reports[0],
                        config,
                        BootstrapStatus::Extracting,
                        shown_percent(last, 90),
                        "Extraction complete"@,
                    )
                    &&& is_report(
                        reports[1],
                        config,
                        BootstrapStatus::Configuring,
                        after.percent(),
                        "Creating configuration files..."@,
                    )
                    &&& step matches BootstrapStep::WriteFiles { files } && files_view(files@)
                        == files_of(before.root(), config)
                },
            }
        },
        BootstrapEvent::FilesWritten { outcome } => if before.phase() != Phase::Configuring {
            stopped_for(before, after, reports, step, "Unexpected end of writing"@)
        } else {
            match outcome {
                Err(m) => stopped(before, after, reports) && (step matches BootstrapStep::Finished {
                    outcome: Err(BootstrapError::Io(x)),
                } && x@ == m@),
                Ok(()) => {
                    &&& after.same_files(before)
                    &&& after.phase() == Phase::Complete
                    &&& after.percent() == 100
                    &&& reports.len() == 2
                    &&& is_report(
                        reports[0],
                        config,
                        BootstrapStatus::Configuring,
                        shown_percent(last, 98),
                        "Configuration files created"@,
                    )
                    &&& is_report(
                        reports[1],
                        config,
                        BootstrapStatus::Complete,
                        100,
                        "Bootstrap completed successfully"@,
                    )
                    &&& step == (BootstrapStep::Finished { outcome: Ok(()) })
                },
            }
        },
    }
}

} // verus!
