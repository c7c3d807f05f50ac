//! Single-instance arbitration for one machine.
//!
//! For a given application key, at most one process at a time is recognized
//! as the *primary* instance; every other process started under the same key
//! learns that it is *secondary* and can read the primary's published
//! metadata (process id and a free-form info string). A secondary may also
//! send a short wake payload to the primary over a local channel.
//!
//! The OS-level exclusivity primitive and all file and socket traffic live
//! outside this crate; here stand the decision rules of the protocol: how
//! metadata is encoded and parsed, how an instance is classified as primary
//! or secondary, and how the wake-channel dispatch loop reacts to each
//! event. A [`host::Host`] value models a machine's lock table and metadata
//! files, so the whole arbitration protocol can be exercised and proved over
//! simulated processes.

use vstd::prelude::*;

pub mod digits;
pub mod host;
pub mod meta;
pub mod strategy;
pub mod wake;

use crate::meta::{meta_info, meta_pid, parse_meta};
use vstd::string::StringExecFns;

verus! {

/// Fatal failures of instance creation.
///
/// Contention (another process already holds the key) is not an error: it is
/// reported as a secondary instance.
#[derive(Debug, Clone, Copy, PartialEq, Eq, Structural)]
pub enum SingleError {
    /// The metadata write failed after exclusivity was already acquired:
    /// the caller holds the lock but is undiscoverable, so the attempt must
    /// be aborted.
    SingleWrite,
    /// The OS reported an invalid handle while creating the named lock
    /// object: the key could not be validated, a hard error rather than a
    /// contention outcome.
    InvalidCheck,
}

impl SingleError {
    /// The human-readable description of this error.
    pub fn message(&self) -> (r: &'static str)
        ensures
            *self == SingleError::SingleWrite ==> r@ == "pid and info write err!"@,
            *self == SingleError::InvalidCheck ==> r@ == "invalid lock handle!"@,
    {
        match self {
            SingleError::SingleWrite => "pid and info write err!",
            SingleError::InvalidCheck => "invalid lock handle!",
        }
    }
}

/// The metadata file path derived from a key: the key with `.info` appended.
pub open spec fn info_path_spec(path: Seq<char>) -> Seq<char> {
    path + ".info"@
}

/// The wake-channel endpoint name derived from a key: the key with `.ipc`
/// appended, distinct from both the lock resource and the metadata file.
pub open spec fn ipc_path_spec(path: Seq<char>) -> Seq<char> {
    path + ".ipc"@
}

/// Derives the metadata file path for a key.
pub fn info_path(path: &str) -> (r: String)
    ensures
        r@ == info_path_spec(path@),
{
    path.to_owned().concat(".info")
}

/// Derives the wake-channel endpoint name for a key.
pub fn ipc_path(path: &str) -> (r: String)
    ensures
        r@ == ipc_path_spec(path@),
{
    path.to_owned().concat(".ipc")
}

/// The outcome of one instance-creation attempt: whether this process is the
/// primary, the recognized primary's process id and info string, and the
/// names derived from the key. The process that holds the OS exclusivity
/// resource keeps it alongside this record for its lifetime.
#[derive(Debug)]
pub struct Single {
    /// Whether this process is the primary instance for the key.
    pub is_single: bool,
    /// The recognized primary's process id: this process's own id for a
    /// primary, the published id (when readable) for a secondary.
    pub pid: Option<u32>,
    /// The recognized primary's info string.
    pub info: String,
    /// The key: also the lock resource path.
    pub path: String,
    /// The metadata file path derived from the key.
    pub path_info: String,
    /// The wake-channel endpoint name derived from the key.
    pub path_ipc: String,
}

impl Single {
    /// The instance record for the process that newly acquired exclusivity
    /// for `path`: primary, under its own process id and info string.
    pub fn primary(path: &str, info: &str, pid: u32) -> (s: Single)
        ensures
            s.is_single,
            s.pid == Some(pid),
            s.info@ == info@,
            s.path@ == path@,
            s.path_info@ == info_path_spec(path@),
            s.path_ipc@ == ipc_path_spec(path@),
    {
        Single {
            is_single: true,
            pid: Some(pid),
            info: info.to_owned(),
            path: path.to_owned(),
            path_info: info_path(path),
            path_ipc: ipc_path(path),
        }
    }

    /// The instance record for a process that found the key already held:
    /// secondary, with the pid and info recovered from the metadata content
    /// it could read, or with no pid and an empty info string when the
    /// metadata file was absent or unreadable. A read failure never fails
    /// the creation of a secondary instance.
    pub fn secondary(path: &str, content: Option<&str>) -> (s: Single)
        ensures
            !s.is_single,
            s.path@ == path@,
            s.path_info@ == info_path_spec(path@),
            s.path_ipc@ == ipc_path_spec(path@),
            content matches Some(c) ==> s.pid == meta_pid(c@) && s.info@ == meta_info(c@),
            content is None ==> s.pid is None && s.info@ == Seq::<char>::empty(),
    {
        let (pid, info) = match content {
            Some(c) => parse_meta(c),
            None => (None, String::new()),
        };
        Single {
            is_single: false,
            pid,
            info,
            path: path.to_owned(),
            path_info: info_path(path),
            path_ipc: ipc_path(path),
        }
    }
}

/// What an instance is created from: the key, the info string to publish,
/// and whether a wake channel should be opened for the primary.
pub struct SingleBuild {
    /// The info string a primary publishes beside its process id.
    pub info: String,
    /// The key: lock resource path, and stem of the derived names.
    pub path: String,
    /// Whether the primary should listen on the wake channel.
    pub wake: bool,
}

impl Default for SingleBuild {
    /// An empty build request: empty key and info, no wake channel.
    fn default() -> (s: SingleBuild)
        ensures
            s.info@ == Seq::<char>::empty(),
            s.path@ == Seq::<char>::empty(),
            !s.wake,
    {
        SingleBuild { info: String::new(), path: String::new(), wake: false }
    }
}

impl SingleBuild {
    /// A build request for the given key, with an empty info string and no
    /// wake channel.
    pub fn new(path: &str) -> (s: SingleBuild)
        ensures
            s.path@ == path@,
            s.info@ == Seq::<char>::empty(),
            !s.wake,
    {
        let mut s = SingleBuild::default();
        s.path = path.to_owned();
        s
    }

    /// Replaces the info string to publish.
    pub fn with_info(self, info: String) -> (s: SingleBuild)
        ensures
            s.info == info,
            s.path == self.path,
            s.wake == self.wake,
    {
        SingleBuild { info, path: self.path, wake: self.wake }
    }

    /// Requests a wake channel for the primary.
    pub fn with_ipc(self) -> (s: SingleBuild)
        ensures
            s.wake,
            s.path == self.path,
            s.info == self.info,
    {
        SingleBuild { wake: true, path: self.path, info: self.info }
    }
}

/// The message text recovered from a caught panic payload, given the
/// payload's text under each representation a panic commonly carries: an
/// owned string, else a borrowed one, else a fixed fallback message.
pub fn panic_msg(owned: Option<String>, borrowed: Option<&str>) -> (r: String)
    ensures
        owned matches Some(s) ==> r@ == s@,
        owned is None ==> (borrowed matches Some(s) ==> r@ == s@),
        owned is None && borrowed is None ==> r@ == "panic 未提供错误信息"@,
{
    match owned {
        Some(s) => s,
        None => match borrowed {
            Some(s) => s.to_owned(),
            None => "panic 未提供错误信息".to_owned(),
        },
    }
}

} // verus!
