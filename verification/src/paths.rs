//! Where the two workers and their logs live, relative to the launcher's own
//! install directory.
//!
//! Paths are plain strings here. The resolver only says where a file should
//! be; whether it is there is asked elsewhere.
use vstd::prelude::*;

verus! {

/// The naming convention of the host for executables and directory separators.
#[derive(Clone, Copy, Debug, PartialEq, Eq, Structural)]
pub enum Platform {
    /// No suffix on executables, `/` between path components.
    Posix,
    /// `.exe` on executables, `\` between path components (`/` is understood too).
    Windows,
}

/// One of the two workers that the launcher keeps alive.
#[derive(Clone, Copy, Debug, PartialEq, Eq, Structural)]
pub enum Worker {
    /// The main application; supervised in the background.
    Roseline,
    /// The web front-end; supervised on the primary control flow.
    RoselineWeb,
}

/// A worker as the supervisor sees it: a name for notices, an executable to
/// run and a log file to write to. It is made by resolving and only read
/// afterwards.
#[derive(Clone, Debug, PartialEq, Eq)]
pub struct WorkerSpec {
    name: String,
    executable_path: String,
    log_path: String,
}

/// The mathematical content of a [`WorkerSpec`].
pub struct WorkerSpecView {
    pub name: Seq<char>,
    pub executable_path: Seq<char>,
    pub log_path: Seq<char>,
}

impl View for WorkerSpec {
    type V = WorkerSpecView;

    closed spec fn view(&self) -> WorkerSpecView {
        WorkerSpecView {
            name: self.name@,
            executable_path: self.executable_path@,
            log_path: self.log_path@,
        }
    }
}

impl WorkerSpec {
    /// The name under which notices speak of the worker.
    pub fn name(&self) -> (name: &str)
        ensures
            name@ == self@.name,
    {
        self.name.as_str()
    }

    /// Where the worker's executable is expected.
    pub fn executable_path(&self) -> (path: &str)
        ensures
            path@ == self@.executable_path,
    {
        self.executable_path.as_str()
    }

    /// Where the worker's log is written.
    pub fn log_path(&self) -> (path: &str)
        ensures
            path@ == self@.log_path,
    {
        self.log_path.as_str()
    }
}

/// The separator that the platform writes between path components.
pub open spec fn separator(platform: Platform) -> Seq<char> {
    match platform {
        Platform::Posix => "/"@,
        Platform::Windows => "\\"@,
    }
}

/// Whether the platform reads `c` as a separator.
pub open spec fn is_separator(platform: Platform, c: char) -> bool {
    c == '/' || (platform == Platform::Windows && c == '\\')
}

/// A file name placed in a directory: the separator is written unless the
/// directory is empty or already ends with one. A bare drive prefix such as
/// `C:` is a directory like any other here and gets its separator.
pub open spec fn joined(dir: Seq<char>, file: Seq<char>, platform: Platform) -> Seq<char> {
    if dir.len() == 0 || is_separator(platform, dir.last()) {
        dir + file
    } else {
        dir + separator(platform) + file
    }
}

/// What the platform appends to the name of an executable.
pub open spec fn exe_suffix(platform: Platform) -> Seq<char> {
    match platform {
        Platform::Posix => Seq::<char>::empty(),
        Platform::Windows => ".exe"@,
    }
}

/// The file name that a worker's executable and log are derived from.
pub open spec fn base_name(worker: Worker) -> Seq<char> {
    match worker {
        Worker::Roseline => "roseline"@,
        Worker::RoselineWeb => "roseline-web"@,
    }
}

/// The name under which notices speak of a worker.
pub open spec fn display_name(worker: Worker) -> Seq<char> {
    match worker {
        Worker::Roseline => "Roseline"@,
        Worker::RoselineWeb => "Roseline-web"@,
    }
}

/// The file name of a worker's executable on a platform.
pub open spec fn exe_file_name(worker: Worker, platform: Platform) -> Seq<char> {
    base_name(worker) + exe_suffix(platform)
}

/// The file name of a worker's log: the same on every platform.
pub open spec fn log_file_name(worker: Worker) -> Seq<char> {
    base_name(worker) + ".log"@
}

/// The spec of a worker installed in `dir`.
pub open spec fn resolved(worker: Worker, dir: Seq<char>, platform: Platform) -> WorkerSpecView {
    WorkerSpecView {
        name: display_name(worker),
        executable_path: joined(dir, exe_file_name(worker, platform), platform),
        log_path: joined(dir, log_file_name(worker), platform),
    }
}

/// `whole` ends with `tail`.
pub open spec fn ends_with(whole: Seq<char>, tail: Seq<char>) -> bool {
    tail.len() <= whole.len() && whole.subrange(whole.len() - tail.len(), whole.len() as int)
        == tail
}

/// `whole` starts with `head`.
pub open spec fn starts_with(whole: Seq<char>, head: Seq<char>) -> bool {
    head.len() <= whole.len() && whole.subrange(0, head.len() as int) == head
}

fn base_name_of(worker: Worker) -> (s: &'static str)
    ensures
        s@ == base_name(worker),
{
    match worker {
        Worker::Roseline => "roseline",
        Worker::RoselineWeb => "roseline-web",
    }
}

/// The name under which notices speak of a worker.
pub fn display_name_of(worker: Worker) -> (s: &'static str)
    ensures
        s@ == display_name(worker),
{
    match worker {
        Worker::Roseline => "Roseline",
        Worker::RoselineWeb => "Roseline-web",
    }
}

/// Places a file name in a directory.
pub fn join(dir: &str, file: &str, platform: Platform) -> (path: String)
    ensures
        path@ == joined(dir@, file@, platform),
{
    let n: usize = dir.unicode_len();
    let mut path = String::from_str(dir);
    let needs_separator = if n == 0 {
        false
    } else {
        let last = dir.get_char(n - 1);
        !(last == '/' || (platform == Platform::Windows && last == '\\'))
    };
    if needs_separator {
        match platform {
            Platform::Posix => path.append("/"),
            Platform::Windows => path.append("\\"),
        }
    }
    path.append(file);
    path
}

/// Computes where one worker's executable and log should be.
pub fn resolve_worker(worker: Worker, install_dir: &str, platform: Platform) -> (spec: WorkerSpec)
    ensures
        spec@ == resolved(worker, install_dir@, platform),
{
    let mut exe_name = String::from_str(base_name_of(worker));
    match platform {
        Platform::Posix => {},
        Platform::Windows => exe_name.append(".exe"),
    }
    let mut log_name = String::from_str(base_name_of(worker));
    log_name.append(".log");
    assert(exe_name@ =~= exe_file_name(worker, platform));
    WorkerSpec {
        name: String::from_str(display_name_of(worker)),
        executable_path: join(install_dir, exe_name.as_str(), platform),
        log_path: join(install_dir, log_name.as_str(), platform),
    }
}

/// Computes the paths of both workers from the launcher's install directory.
pub struct PathResolver {
    install_dir: String,
    platform: Platform,
}

impl PathResolver {
    /// The directory that paths are resolved against.
    pub closed spec fn dir(&self) -> Seq<char> {
        self.install_dir@
    }

    /// The platform whose naming is applied.
    pub closed spec fn host(&self) -> Platform {
        self.platform
    }

    /// A resolver for the directory that holds the launcher's own executable.
    pub fn new(install_dir: String, platform: Platform) -> (r: Self)
        ensures
            r.dir() == install_dir@,
            r.host() == platform,
    {
        PathResolver { install_dir, platform }
    }

    /// The specs of both workers, the background one first. Both are always
    /// produced: nothing is asked of the file system.
    pub fn resolve(&self) -> (specs: (WorkerSpec, WorkerSpec))
        ensures
            specs.0@ == resolved(Worker::Roseline, self.dir(), self.host()),
            specs.1@ == resolved(Worker::RoselineWeb, self.dir(), self.host()),
    {
        (
            resolve_worker(Worker::Roseline, self.install_dir.as_str(), self.platform),
            resolve_worker(Worker::RoselineWeb, self.install_dir.as_str(), self.platform),
        )
    }
}

/// The four paths of the launcher, in the order log, executable, web log, web
/// executable.
pub fn get_dirs(install_dir: &str, platform: Platform) -> (dirs: (String, String, String, String))
    ensures
        dirs.0@ == resolved(Worker::Roseline, install_dir@, platform).log_path,
        dirs.1@ == resolved(Worker::Roseline, install_dir@, platform).executable_path,
        dirs.2@ == resolved(Worker::RoselineWeb, install_dir@, platform).log_path,
        dirs.3@ == resolved(Worker::RoselineWeb, install_dir@, platform).executable_path,
{
    let roseline = resolve_worker(Worker::Roseline, install_dir, platform);
    let roseline_web = resolve_worker(Worker::RoselineWeb, install_dir, platform);
    (
        roseline.log_path,
        roseline.executable_path,
        roseline_web.log_path,
        roseline_web.executable_path,
    )
}

/// Every resolved path lies in the install directory and ends with the
/// worker's file name: the executable carries the platform's suffix, which is
/// `.exe` on Windows and nothing on Posix, and the log carries `.log` on both.
pub proof fn lemma_resolved_paths(worker: Worker, dir: Seq<char>, platform: Platform)
    ensures
        starts_with(resolved(worker, dir, platform).executable_path, dir),
        starts_with(resolved(worker, dir, platform).log_path, dir),
        ends_with(resolved(worker, dir, platform).executable_path, exe_file_name(worker, platform)),
        ends_with(resolved(worker, dir, platform).log_path, log_file_name(worker)),
        platform == Platform::Windows ==> ends_with(
            resolved(worker, dir, platform).executable_path,
            ".exe"@,
        ),
        platform == Platform::Posix ==> ends_with(
            resolved(worker, dir, platform).executable_path,
            base_name(worker),
        ),
        ends_with(resolved(worker, dir, platform).log_path, ".log"@),
        !ends_with(resolved(worker, dir, platform).log_path, ".exe"@),
{
    let exe = resolved(worker, dir, platform).executable_path;
    let log = resolved(worker, dir, platform).log_path;
    let exe_name = exe_file_name(worker, platform);
    let log_name = log_file_name(worker);
    reveal_strlit("/");
    reveal_strlit("\\");
    assert(exe.subrange(0, dir.len() as int) =~= dir);
    assert(log.subrange(0, dir.len() as int) =~= dir);
    assert(exe.subrange(exe.len() - exe_name.len(), exe.len() as int) =~= exe_name);
    assert(log.subrange(log.len() - log_name.len(), log.len() as int) =~= log_name);
    assert(log.subrange(log.len() - ".log"@.len(), log.len() as int) =~= ".log"@);
    reveal_strlit(".log");
    reveal_strlit(".exe");
    assert(".log"@[1] == 'l' && ".exe"@[1] == 'e');
    if platform == Platform::Windows {
        assert(exe.subrange(exe.len() - ".exe"@.len(), exe.len() as int) =~= ".exe"@);
    } else {
        assert(exe_name =~= base_name(worker));
    }
}

/// Resolving is a function of the install directory and the platform alone:
/// two resolvers for the same directory on the same platform give the same
/// paths.
pub proof fn lemma_same_directory_same_paths(a: PathResolver, b: PathResolver, worker: Worker)
    requires
        a.dir() == b.dir(),
        a.host() == b.host(),
    ensures
        resolved(worker, a.dir(), a.host()) == resolved(worker, b.dir(), b.host()),
{
}

} // verus!
