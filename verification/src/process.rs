//! Process host: the registry of managed child processes and the decision
//! logic behind every host-callable process operation.
//!
//! The host operations cross a capability-security boundary: sandboxed driver
//! code supplies only a process id, never an OS handle.  The verified core
//! keeps the bookkeeping (which pids are registered, and under which slot the
//! embedding program stores the OS handles); the embedding program performs
//! the actual OS work and reports its outcome back as a plain event value.

use vstd::prelude::*;
use vstd::string::StrSliceExecFns;
use vstd::string::StringExecFns;

verus! {

broadcast use vstd::std_specs::hash::group_hash_axioms;

/// A parent-directory segment `..` stands in `s` at position `i`: the two
/// dots begin the path or follow a separator, and end the path or precede
/// a separator.
pub open spec fn dotdot_at(s: Seq<char>, i: int) -> bool {
    &&& 0 <= i
    &&& i + 2 <= s.len()
    &&& s[i] == '.'
    &&& s[i + 1] == '.'
    &&& (i == 0 || s[i - 1] == '/')
    &&& (i + 2 == s.len() || s[i + 2] == '/')
}

/// A relative path is confined when it is not absolute and holds no
/// parent-directory segment: joined below a sandbox root it can then never
/// name a location outside that root.
pub open spec fn path_is_confined(s: Seq<char>) -> bool {
    &&& s.len() > 0 ==> s[0] != '/'
    &&& forall|i: int| !dotdot_at(s, i)
}

/// Scans a relative path for the two ways it could escape a sandbox root:
/// a leading separator or a `..` segment.
pub fn check_path_confined(path: &str) -> (r: bool)
    ensures
        r == path_is_confined(path@),
{
    let n = path.unicode_len();
    if n > 0 && path.get_char(0) == '/' {
        return false;
    }
    let mut i: usize = 0;
    while i < n
        invariant
            n == path@.len(),
            i <= n,
            forall|k: int| k < i ==> !dotdot_at(path@, k),
        decreases n - i,
    {
        if n - i >= 2 {
            let c0 = path.get_char(i);
            let c1 = path.get_char(i + 1);
            let before_ok = i == 0 || path.get_char(i - 1) == '/';
            let after_ok = n - i == 2 || path.get_char(i + 2) == '/';
            if c0 == '.' && c1 == '.' && before_ok && after_ok {
                proof {
                    assert(dotdot_at(path@, i as int));
                }
                return false;
            }
        }
        i = i + 1;
    }
    true
}

/// The concatenation `root / rest`, the single joining rule every resolved
/// location is built with.
pub open spec fn joined(root: Seq<char>, rest: Seq<char>) -> Seq<char> {
    root + seq!['/'] + rest
}

/// Root-prefix verification: whatever the relative part, a joined location
/// begins with its sandbox root and the separator.  Together with
/// [`path_is_confined`] (no `..` segment, no absolute path) this is what
/// confines a guest request to its sandbox.
pub proof fn lemma_joined_keeps_root_prefix(root: Seq<char>, rest: Seq<char>)
    ensures
        joined(root, rest).subrange(0, root.len() as int + 1) =~= root + seq!['/'],
        joined(root, rest).len() == root.len() + 1 + rest.len(),
{
}

/// Appends `/` and `rest` to `root`.
fn join2(root: &str, rest: &str) -> (r: String)
    ensures
        r@ == joined(root@, rest@),
{
    proof {
        reveal_strlit("/");
        assert("/"@ =~= seq!['/']);
    }
    let mut out = String::new();
    out.append(root);
    out.append("/");
    out.append(rest);
    proof {
        assert(out@ =~= joined(root@, rest@));
    }
    out
}

/// Which buffered output stream of a process a read request targets.
pub enum StdReader {
    Stdout,
    Stderr,
}

/// One environment variable handed to a spawned process.
pub struct KeyValue {
    pub key: String,
    pub value: String,
}

/// The sandbox root a guest-supplied location is resolved against.
pub enum Reference {
    /// Relative to the controller's own working directory; not per-driver.
    Controller,
    /// Relative to the data sandbox root, namespaced by the driver's name.
    Data,
    /// Relative to the config sandbox root, namespaced by the driver's name.
    Configs,
}

/// A guest request for a filesystem location: a root selector plus a
/// relative path.
pub struct Directory {
    pub reference: Reference,
    pub path: String,
}

/// Every failure a host-callable process operation can report.
#[derive(Debug)]
pub enum ProcessError {
    /// The OS refused to launch the command.
    SpawnFailed(String),
    /// A piped stream handle of the freshly spawned process was unavailable.
    StdoutUnavailable,
    StderrUnavailable,
    StdinUnavailable,
    /// The given pid is not registered.
    NotFound,
    /// The OS kill signal failed.
    KillFailed(String),
    /// Polling the process status failed.
    WaitFailed(String),
    /// Reading from a stream failed.
    ReadFailed(String),
    /// Writing to stdin failed.
    WriteFailed(String),
    /// The registry lock was poisoned; the call fails, the host survives.
    LockFailed,
    /// The requested relative path could escape its sandbox root.
    PathNotConfined,
}

/// What the OS reported when the embedding program tried to launch a
/// process with piped stdin/stdout/stderr.
pub enum SpawnOutcome {
    /// The process started and was assigned this pid.
    Spawned(u32),
    /// The launch itself failed.
    LaunchFailed(String),
    /// The process started but a stream handle was unavailable.
    NoStdout,
    NoStderr,
    NoStdin,
}

/// What the OS reported when the embedding program polled the process at
/// the pid's slot.
pub enum PollEvent {
    /// The process has not exited yet.
    StillRunning,
    /// The process exited; the code is absent when the OS reports an exit
    /// without one (for instance a signal-terminated process).
    Exited(Option<i32>),
    /// The poll itself failed.
    Failed(String),
}

/// Result of a non-blocking wait, with "still running", "pid not
/// registered" and "exited without a code" all kept distinguishable.
#[derive(Debug)]
pub enum WaitStatus {
    /// The pid is not registered with this host.
    Unknown,
    /// The process is registered and has not exited yet.
    Running,
    /// The process exited with this code.
    Exited(i32),
    /// The process exited, but the OS reported no exit code (for instance
    /// a termination by signal).
    ExitedWithoutCode,
}

/// The UTF-8 byte length of a piece of text: the count that line reads
/// report.
pub open spec fn byte_len(s: Seq<char>) -> nat {
    vstd::utf8::encode_utf8(s).len()
}

/// The per-driver process host: the registry of live processes plus the
/// sandbox roots its directory requests are resolved against.
///
/// The registry maps each registered pid to the slot under which the
/// embedding program keeps the OS handles (child process, buffered
/// stdin writer, buffered stdout/stderr readers) for that pid.
/// An entry exists iff the process was spawned and has not since been
/// removed by `kill_process` or `drop_process`.
pub struct WasmDriverState {
    /// pid -> handle slot.
    pub registry: std::collections::HashMap<u32, u64>,
    /// The slot the next spawned process will be stored under.
    pub next_slot: u64,
    /// Root of the per-driver data sandboxes.
    pub data_directory: String,
    /// Root of the per-driver config sandboxes.
    pub config_directory: String,
}

impl WasmDriverState {
    /// True when `post` differs from `pre` at most in the registry and the
    /// slot counter: the sandbox roots never change after construction.
    pub open spec fn roots_unchanged(pre: Self, post: Self) -> bool {
        &&& post.data_directory == pre.data_directory
        &&& post.config_directory == pre.config_directory
    }

    /// A fresh host with no registered processes.
    pub fn new(data_directory: String, config_directory: String) -> (r: Self)
        ensures
            r.registry@ == Map::<u32, u64>::empty(),
            r.next_slot == 0,
            r.data_directory == data_directory,
            r.config_directory == config_directory,
    {
        WasmDriverState {
            registry: std::collections::HashMap::new(),
            next_slot: 0,
            data_directory,
            config_directory,
        }
    }

    /// The location a guest request resolves to: the controller's working
    /// directory for `Controller` requests, else the per-driver sandbox
    /// under the data or config root, each joined with the relative path.
    pub open spec fn resolved_location(self, driver_name: Seq<char>, directory: Directory) -> Seq<
        char,
    > {
        match directory.reference {
            Reference::Controller => joined(seq!['.'], directory.path@),
            Reference::Data => joined(joined(self.data_directory@, driver_name), directory.path@),
            Reference::Configs => joined(
                joined(self.config_directory@, driver_name),
                directory.path@,
            ),
        }
    }

    /// Maps a guest-supplied logical location to a concrete path.  A path
    /// that is absolute or holds a parent-directory segment is rejected, so
    /// a resolved location always stays below its root; every confined path
    /// resolves successfully.
    pub fn get_directory(&self, driver_name: &str, directory: &Directory) -> (r: Result<
        String,
        ProcessError,
    >)
        ensures
            path_is_confined(directory.path@) ==> (r matches Ok(p) && p@
                == self.resolved_location(driver_name@, *directory)),
            !path_is_confined(directory.path@) ==> r == Err::<String, ProcessError>(
                ProcessError::PathNotConfined,
            ),
    {
        if !check_path_confined(directory.path.as_str()) {
            return Err(ProcessError::PathNotConfined);
        }
        proof {
            reveal_strlit(".");
            assert("."@ =~= seq!['.']);
        }
        match directory.reference {
            Reference::Controller => Ok(join2(".", directory.path.as_str())),
            Reference::Data => {
                let base = join2(self.data_directory.as_str(), driver_name);
                Ok(join2(base.as_str(), directory.path.as_str()))
            },
            Reference::Configs => {
                let base = join2(self.config_directory.as_str(), driver_name);
                Ok(join2(base.as_str(), directory.path.as_str()))
            },
        }
    }

    /// The slot the handles of `pid` are stored under, if `pid` is
    /// registered.  The embedding program consults this before performing
    /// any OS work on behalf of a host operation.
    pub fn process_slot(&self, pid: u32) -> (r: Option<u64>)
        ensures
            match r {
                Some(slot) => self.registry@.contains_key(pid) && self.registry@[pid] == slot,
                None => !self.registry@.contains_key(pid),
            },
    {
        match self.registry.get(&pid) {
            Some(slot) => Some(*slot),
            None => None,
        }
    }

    /// Registers the outcome of a spawn attempt.  On a successful launch the
    /// new pid is registered under the next free slot and returned; every
    /// failure is passed through as the matching tagged error and leaves the
    /// registry untouched.
    pub fn spawn_process(&mut self, outcome: SpawnOutcome) -> (r: Result<u32, ProcessError>)
        requires
            old(self).next_slot < u64::MAX,
        ensures
            Self::roots_unchanged(*old(self), *final(self)),
            match outcome {
                SpawnOutcome::Spawned(pid) => {
                    &&& r == Ok::<u32, ProcessError>(pid)
                    &&& final(self).registry@ == old(self).registry@.insert(
                        pid,
                        old(self).next_slot,
                    )
                    &&& final(self).next_slot == old(self).next_slot + 1
                },
                SpawnOutcome::LaunchFailed(m) => {
                    &&& r == Err::<u32, ProcessError>(ProcessError::SpawnFailed(m))
                    &&& final(self).registry@ == old(self).registry@
                    &&& final(self).next_slot == old(self).next_slot
                },
                SpawnOutcome::NoStdout => {
                    &&& r == Err::<u32, ProcessError>(ProcessError::StdoutUnavailable)
                    &&& final(self).registry@ == old(self).registry@
                    &&& final(self).next_slot == old(self).next_slot
                },
                SpawnOutcome::NoStderr => {
                    &&& r == Err::<u32, ProcessError>(ProcessError::StderrUnavailable)
                    &&& final(self).registry@ == old(self).registry@
                    &&& final(self).next_slot == old(self).next_slot
                },
                SpawnOutcome::NoStdin => {
                    &&& r == Err::<u32, ProcessError>(ProcessError::StdinUnavailable)
                    &&& final(self).registry@ == old(self).registry@
                    &&& final(self).next_slot == old(self).next_slot
                },
            },
    {
        match outcome {
            SpawnOutcome::Spawned(pid) => {
                let slot = self.next_slot;
                self.registry.insert(pid, slot);
                self.next_slot = slot + 1;
                Ok(pid)
            },
            SpawnOutcome::LaunchFailed(m) => Err(ProcessError::SpawnFailed(m)),
            SpawnOutcome::NoStdout => Err(ProcessError::StdoutUnavailable),
            SpawnOutcome::NoStderr => Err(ProcessError::StderrUnavailable),
            SpawnOutcome::NoStdin => Err(ProcessError::StdinUnavailable),
        }
    }

    /// Best-effort terminate: the pid is deregistered, and the outcome of
    /// the OS kill (performed by the embedding program on the handles at the
    /// pid's slot) decides the result.  An absent pid is a success: killing
    /// an unknown process is an idempotent no-op.
    pub fn kill_process(&mut self, pid: u32, io: Option<Result<(), String>>) -> (r: Result<
        (),
        ProcessError,
    >)
        requires
            old(self).registry@.contains_key(pid) ==> io is Some,
        ensures
            Self::roots_unchanged(*old(self), *final(self)),
            final(self).next_slot == old(self).next_slot,
            !old(self).registry@.contains_key(pid) ==> {
                &&& r == Ok::<(), ProcessError>(())
                &&& final(self).registry@ == old(self).registry@
            },
            old(self).registry@.contains_key(pid) ==> {
                &&& final(self).registry@ == old(self).registry@.remove(pid)
                &&& match io {
                    Some(Ok(())) => r == Ok::<(), ProcessError>(()),
                    Some(Err(m)) => r == Err::<(), ProcessError>(ProcessError::KillFailed(m)),
                    None => false,
                }
            },
    {
        match self.registry.remove(&pid) {
            None => Ok(()),
            Some(_) => match io {
                Some(Ok(())) => Ok(()),
                Some(Err(m)) => Err(ProcessError::KillFailed(m)),
                None => {
                    proof {
                        assert(false);
                    }
                    Err(ProcessError::LockFailed)
                },
            },
        }
    }

    /// Removes the bookkeeping for `pid` without signalling the process;
    /// returns whether an entry existed.
    pub fn drop_process(&mut self, pid: u32) -> (r: bool)
        ensures
            Self::roots_unchanged(*old(self), *final(self)),
            final(self).next_slot == old(self).next_slot,
            r == old(self).registry@.contains_key(pid),
            final(self).registry@ == old(self).registry@.remove(pid),
            !old(self).registry@.contains_key(pid) ==> final(self).registry@ == old(
                self,
            ).registry@,
    {
        proof {
            if !self.registry@.contains_key(pid) {
                assert(self.registry@.remove(pid) =~= self.registry@);
            }
        }
        match self.registry.remove(&pid) {
            Some(_) => true,
            None => false,
        }
    }

    /// Non-blocking status poll.  `polled` is what the OS reported for the
    /// handles at the pid's slot; it is absent exactly when the pid is not
    /// registered, and that case yields `Unknown` rather than being
    /// conflated with a still-running process.
    pub fn try_wait(&self, pid: u32, polled: Option<PollEvent>) -> (r: Result<
        WaitStatus,
        ProcessError,
    >)
        requires
            self.registry@.contains_key(pid) ==> polled is Some,
        ensures
            !self.registry@.contains_key(pid) ==> r == Ok::<WaitStatus, ProcessError>(
                WaitStatus::Unknown,
            ),
            self.registry@.contains_key(pid) ==> match polled {
                Some(PollEvent::StillRunning) => r == Ok::<WaitStatus, ProcessError>(
                    WaitStatus::Running,
                ),
                Some(PollEvent::Exited(Some(code))) => r == Ok::<WaitStatus, ProcessError>(
                    WaitStatus::Exited(code),
                ),
                Some(PollEvent::Exited(None)) => r == Ok::<WaitStatus, ProcessError>(
                    WaitStatus::ExitedWithoutCode,
                ),
                Some(PollEvent::Failed(m)) => r == Err::<WaitStatus, ProcessError>(
                    ProcessError::WaitFailed(m),
                ),
                None => false,
            },
    {
        if !self.registry.contains_key(&pid) {
            return Ok(WaitStatus::Unknown);
        }
        match polled {
            Some(PollEvent::StillRunning) => Ok(WaitStatus::Running),
            Some(PollEvent::Exited(Some(code))) => Ok(WaitStatus::Exited(code)),
            Some(PollEvent::Exited(None)) => Ok(WaitStatus::ExitedWithoutCode),
            Some(PollEvent::Failed(m)) => Err(ProcessError::WaitFailed(m)),
            None => {
                proof {
                    assert(false);
                }
                Err(ProcessError::LockFailed)
            },
        }
    }

    /// Blocking line read from the selected stream of a registered process.
    /// `io` is the line the embedding program read from the handles at the
    /// pid's slot; the byte count reported beside it is computed here, so a
    /// successful result always carries the UTF-8 length of its own line
    /// (saturated at the counter's width).  An unregistered pid is an
    /// error.
    pub fn read_line(&self, pid: u32, io: Option<Result<String, String>>) -> (r: Result<
        (u32, String),
        ProcessError,
    >)
        requires
            self.registry@.contains_key(pid) ==> io is Some,
        ensures
            !self.registry@.contains_key(pid) ==> r == Err::<(u32, String), ProcessError>(
                ProcessError::NotFound,
            ),
            self.registry@.contains_key(pid) ==> match io {
                Some(Ok(line)) => r matches Ok(p) && p.1 == line && (byte_len(line@) <= u32::MAX
                    ==> p.0 == byte_len(line@)),
                Some(Err(m)) => r == Err::<(u32, String), ProcessError>(
                    ProcessError::ReadFailed(m),
                ),
                None => false,
            },
    {
        if !self.registry.contains_key(&pid) {
            return Err(ProcessError::NotFound);
        }
        match io {
            Some(Ok(line)) => {
                let bytes = line.as_str().len();
                let count: u32 = if bytes > u32::MAX as usize {
                    u32::MAX
                } else {
                    bytes as u32
                };
                Ok((count, line))
            },
            Some(Err(m)) => Err(ProcessError::ReadFailed(m)),
            None => {
                proof {
                    assert(false);
                }
                Err(ProcessError::LockFailed)
            },
        }
    }

    /// Whether the selected stream of a registered process still buffers
    /// data; an unregistered pid is an error.
    pub fn has_data_left(&self, pid: u32, io: Option<Result<bool, String>>) -> (r: Result<
        bool,
        ProcessError,
    >)
        requires
            self.registry@.contains_key(pid) ==> io is Some,
        ensures
            !self.registry@.contains_key(pid) ==> r == Err::<bool, ProcessError>(
                ProcessError::NotFound,
            ),
            self.registry@.contains_key(pid) ==> match io {
                Some(Ok(b)) => r == Ok::<bool, ProcessError>(b),
                Some(Err(m)) => r == Err::<bool, ProcessError>(ProcessError::ReadFailed(m)),
                None => false,
            },
    {
        if !self.registry.contains_key(&pid) {
            return Err(ProcessError::NotFound);
        }
        match io {
            Some(Ok(b)) => Ok(b),
            Some(Err(m)) => Err(ProcessError::ReadFailed(m)),
            None => {
                proof {
                    assert(false);
                }
                Err(ProcessError::LockFailed)
            },
        }
    }

    /// Bounded read from the selected stream of a registered process: at
    /// most `buf_size` bytes come back, whatever the embedding program
    /// read, and the reported count always equals the returned buffer's
    /// length.  An unregistered pid is an error.
    pub fn read(&self, pid: u32, buf_size: u32, io: Option<Result<Vec<u8>, String>>) -> (r: Result<
        (u32, Vec<u8>),
        ProcessError,
    >)
        requires
            self.registry@.contains_key(pid) ==> io is Some,
        ensures
            !self.registry@.contains_key(pid) ==> r == Err::<(u32, Vec<u8>), ProcessError>(
                ProcessError::NotFound,
            ),
            self.registry@.contains_key(pid) ==> match io {
                Some(Ok(data)) => r matches Ok(p) && p.1@ == (if data@.len() <= buf_size {
                    data@
                } else {
                    data@.subrange(0, buf_size as int)
                }) && p.0 == p.1@.len() && p.0 <= buf_size,
                Some(Err(m)) => r == Err::<(u32, Vec<u8>), ProcessError>(
                    ProcessError::ReadFailed(m),
                ),
                None => false,
            },
    {
        if !self.registry.contains_key(&pid) {
            return Err(ProcessError::NotFound);
        }
        match io {
            Some(Ok(data)) => {
                let mut data = data;
                if data.len() > buf_size as usize {
                    data.truncate(buf_size as usize);
                }
                let count = data.len() as u32;
                Ok((count, data))
            },
            Some(Err(m)) => Err(ProcessError::ReadFailed(m)),
            None => {
                proof {
                    assert(false);
                }
                Err(ProcessError::LockFailed)
            },
        }
    }

    /// Read of everything left in the selected stream of a registered
    /// process; the reported count always equals the returned buffer's
    /// length (saturated at the counter's width).  An unregistered pid is
    /// an error.
    pub fn read_to_end(&self, pid: u32, io: Option<Result<Vec<u8>, String>>) -> (r: Result<
        (u32, Vec<u8>),
        ProcessError,
    >)
        requires
            self.registry@.contains_key(pid) ==> io is Some,
        ensures
            !self.registry@.contains_key(pid) ==> r == Err::<(u32, Vec<u8>), ProcessError>(
                ProcessError::NotFound,
            ),
            self.registry@.contains_key(pid) ==> match io {
                Some(Ok(data)) => r matches Ok(p) && p.1 == data && (data@.len() <= u32::MAX
                    ==> p.0 == data@.len()) && (data@.len() > u32::MAX ==> p.0 == u32::MAX),
                Some(Err(m)) => r == Err::<(u32, Vec<u8>), ProcessError>(
                    ProcessError::ReadFailed(m),
                ),
                None => false,
            },
    {
        if !self.registry.contains_key(&pid) {
            return Err(ProcessError::NotFound);
        }
        match io {
            Some(Ok(data)) => {
                let count: u32 = if data.len() > u32::MAX as usize {
                    u32::MAX
                } else {
                    data.len() as u32
                };
                Ok((count, data))
            },
            Some(Err(m)) => Err(ProcessError::ReadFailed(m)),
            None => {
                proof {
                    assert(false);
                }
                Err(ProcessError::LockFailed)
            },
        }
    }

    /// Blocking write of a full buffer to the stdin of a registered
    /// process; an unregistered pid is an error.
    pub fn write_stdin(&self, pid: u32, io: Option<Result<(), String>>) -> (r: Result<
        (),
        ProcessError,
    >)
        requires
            self.registry@.contains_key(pid) ==> io is Some,
        ensures
            !self.registry@.contains_key(pid) ==> r == Err::<(), ProcessError>(
                ProcessError::NotFound,
            ),
            self.registry@.contains_key(pid) ==> match io {
                Some(Ok(())) => r == Ok::<(), ProcessError>(()),
                Some(Err(m)) => r == Err::<(), ProcessError>(ProcessError::WriteFailed(m)),
                None => false,
            },
    {
        if !self.registry.contains_key(&pid) {
            return Err(ProcessError::NotFound);
        }
        match io {
            Some(Ok(())) => Ok(()),
            Some(Err(m)) => Err(ProcessError::WriteFailed(m)),
            None => {
                proof {
                    assert(false);
                }
                Err(ProcessError::LockFailed)
            },
        }
    }
}

} // verus!
