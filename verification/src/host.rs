//! A machine model of the arbitration protocol.
//!
//! The OS supplies two facilities the protocol rests on: an atomic,
//! crash-safe exclusive lock per key, and a metadata file per key. A
//! [`Host`] value models both — a lock table mapping each held key to its
//! holder's process id, and a file store mapping paths to contents — so the
//! whole create / publish / read / release protocol can be run and proved
//! over simulated processes racing for one key.

use crate::meta::{encode_meta, lemma_publish_read_exact, meta_content, meta_info, meta_pid};
use crate::strategy::AcquireFault;
use crate::{info_path, info_path_spec, ipc_path_spec, Single, SingleBuild, SingleError};
use vstd::hash_map::StringHashMap;
use vstd::pervasive::unreached;
use vstd::prelude::*;

verus! {

/// The content view of a file store: each stored path mapped to the
/// character sequence of its content.
pub open spec fn file_contents(m: Map<Seq<char>, String>) -> Map<Seq<char>, Seq<char>> {
    Map::new(|p: Seq<char>| m.contains_key(p), |p: Seq<char>| m[p]@)
}

/// One machine: the keys currently locked, each with its holder's process
/// id, and the metadata files on disk.
pub struct Host {
    /// The lock table: key to holder process id. The OS keeps at most one
    /// holder per key; a map states exactly that.
    pub locks: StringHashMap<u32>,
    /// The file store: path to content.
    pub files: StringHashMap<String>,
}

/// Whether a process attempting `key` on host `h` would become primary.
pub open spec fn can_become_primary(h: Host, key: Seq<char>) -> bool {
    !h.locks@.contains_key(key)
}

/// Both of the host's facilities are untouched.
pub open spec fn host_unchanged(pre: Host, post: Host) -> bool {
    &&& post.locks@ == pre.locks@
    &&& post.files@ == pre.files@
}

/// What a primary creation leaves behind: `s` is the primary instance under
/// the caller's own pid and info, the lock table gained the key under that
/// pid, and the metadata file carries exactly the encoded record.
pub open spec fn primary_created(pre: Host, post: Host, build: SingleBuild, pid: u32, s: Single) -> bool {
    &&& s.is_single
    &&& s.pid == Some(pid)
    &&& s.info@ == build.info@
    &&& s.path@ == build.path@
    &&& s.path_info@ == info_path_spec(build.path@)
    &&& s.path_ipc@ == ipc_path_spec(build.path@)
    &&& post.locks@ == pre.locks@.insert(build.path@, pid)
    &&& file_contents(post.files@) == file_contents(pre.files@).insert(
        info_path_spec(build.path@),
        meta_content(pid, build.info@),
    )
}

/// What a secondary creation observes: `s` is a secondary instance carrying
/// whatever pid and info the metadata file offers — or no pid and an empty
/// info string when there is no file — and nothing on the host is disturbed.
pub open spec fn secondary_created(pre: Host, post: Host, build: SingleBuild, s: Single) -> bool {
    &&& !s.is_single
    &&& s.path@ == build.path@
    &&& s.path_info@ == info_path_spec(build.path@)
    &&& s.path_ipc@ == ipc_path_spec(build.path@)
    &&& host_unchanged(pre, post)
    &&& pre.files@.contains_key(info_path_spec(build.path@)) ==> {
        &&& s.pid == meta_pid(pre.files@[info_path_spec(build.path@)]@)
        &&& s.info@ == meta_info(pre.files@[info_path_spec(build.path@)]@)
    }
    &&& !pre.files@.contains_key(info_path_spec(build.path@)) ==> {
        &&& s.pid is None
        &&& s.info@ == Seq::<char>::empty()
    }
}

impl Host {
    /// A machine with no held locks and no metadata files.
    pub fn new() -> (h: Host)
        ensures
            h.locks@ == Map::<Seq<char>, u32>::empty(),
            h.files@ == Map::<Seq<char>, String>::empty(),
    {
        Host { locks: StringHashMap::new(), files: StringHashMap::new() }
    }

    /// Attempts to atomically claim exclusivity for `key` on behalf of
    /// process `pid`: succeeds exactly when no live holder owns the key,
    /// and never disturbs another key's lock.
    pub fn try_acquire(&mut self, key: &str, pid: u32) -> (acquired: bool)
        ensures
            acquired == can_become_primary(*old(self), key@),
            acquired ==> final(self).locks@ == old(self).locks@.insert(key@, pid),
            !acquired ==> final(self).locks@ == old(self).locks@,
            final(self).files@ == old(self).files@,
    {
        if self.locks.contains_key(key) {
            false
        } else {
            self.locks.insert(key.to_owned(), pid);
            true
        }
    }

    /// Releases the lock for `key`: what dropping the holder's instance
    /// does, and equally what the OS does when the holding process dies,
    /// normally or abruptly.
    pub fn release(&mut self, key: &str)
        ensures
            final(self).locks@ == old(self).locks@.remove(key@),
            final(self).files@ == old(self).files@,
    {
        self.locks.remove(key);
    }

    /// Writes `content` at `path`, replacing any previous file there.
    pub fn publish(&mut self, path: &str, content: String)
        ensures
            final(self).files@ == old(self).files@.insert(path@, content),
            final(self).locks@ == old(self).locks@,
    {
        self.files.insert(path.to_owned(), content);
    }

    /// Reads the file at `path`, if one exists.
    pub fn read_file(&self, path: &str) -> (r: Option<&String>)
        ensures
            match r {
                Some(c) => self.files@.contains_key(path@) && *c == self.files@[path@],
                None => !self.files@.contains_key(path@),
            },
    {
        self.files.get(path)
    }

    /// One process's instance-creation attempt, every step of the guard's
    /// state machine included. `publish_ok` is the one event the disk
    /// decides: whether the durable metadata write succeeds.
    ///
    /// When no one holds the key, the caller acquires it and publishes; a
    /// failed publish is the distinguished fatal outcome — the caller held
    /// exclusivity but would be undiscoverable, so the lock is released on
    /// the way out and the attempt aborts, never continuing as an
    /// inconsistent primary. Otherwise the caller becomes primary, or
    /// secondary when the key is held, recovering whatever pid and info the
    /// metadata file offers; neither read trouble nor contention is an
    /// error.
    pub fn create_checked(&mut self, build: &SingleBuild, pid: u32, publish_ok: bool) -> (r:
        Result<Single, SingleError>)
        ensures
            can_become_primary(*old(self), build.path@) && !publish_ok ==> {
                &&& r == Err::<Single, SingleError>(SingleError::SingleWrite)
                &&& host_unchanged(*old(self), *final(self))
            },
            can_become_primary(*old(self), build.path@) && publish_ok ==> (r matches Ok(s)
                && primary_created(*old(self), *final(self), *build, pid, s)),
            !can_become_primary(*old(self), build.path@) ==> (r matches Ok(s)
                && secondary_created(*old(self), *final(self), *build, s)),
    {
        let path_info = info_path(build.path.as_str());
        if self.try_acquire(build.path.as_str(), pid) {
            if !publish_ok {
                self.release(build.path.as_str());
                proof {
                    assert(self.locks@ =~= old(self).locks@);
                }
                return Err(SingleError::SingleWrite);
            }
            let content = encode_meta(pid, build.info.as_str());
            self.publish(path_info.as_str(), content);
            proof {
                assert(file_contents(self.files@) =~= file_contents(old(self).files@).insert(
                    info_path_spec(build.path@),
                    meta_content(pid, build.info@),
                ));
            }
            Ok(Single::primary(build.path.as_str(), build.info.as_str(), pid))
        } else {
            match self.read_file(path_info.as_str()) {
                Some(content) => Ok(
                    Single::secondary(build.path.as_str(), Some(content.as_str())),
                ),
                None => Ok(Single::secondary(build.path.as_str(), None)),
            }
        }
    }

    /// One process's instance-creation attempt, decided in one step against
    /// this host, with the metadata write succeeding.
    ///
    /// When no one holds the key, the caller becomes primary: the lock table
    /// gains the key under `pid`, and the metadata file carries exactly the
    /// encoded pid and info before the call returns. When the key is held,
    /// the caller becomes secondary and recovers whatever pid and info the
    /// metadata file offers, with nothing on the host disturbed.
    pub fn create(&mut self, build: &SingleBuild, pid: u32) -> (s: Single)
        ensures
            s.is_single == can_become_primary(*old(self), build.path@),
            s.is_single ==> primary_created(*old(self), *final(self), *build, pid, s),
            !s.is_single ==> secondary_created(*old(self), *final(self), *build, s),
    {
        match self.create_checked(build, pid, true) {
            Ok(s) => s,
            Err(_) => unreached(),
        }
    }

    /// One process's instance-creation attempt with both OS events the guard
    /// reacts to: whether the lock provider's call completed at all
    /// (`acquire` — a fault is an unexpected failure unrelated to
    /// contention), and whether the durable metadata write succeeded
    /// (`publish_ok`).
    ///
    /// A lock-provider fault propagates as a fatal error with nothing on the
    /// host touched: it never degrades to a secondary outcome, since an
    /// unexpected OS failure is not evidence that someone else owns the key.
    /// When the call completes, the lock table itself decides primary
    /// against secondary, as in [`Host::create_checked`].
    pub fn create_with(
        &mut self,
        build: &SingleBuild,
        pid: u32,
        acquire: Result<(), AcquireFault>,
        publish_ok: bool,
    ) -> (r: Result<Single, CreateError>)
        ensures
            acquire matches Err(f) ==> {
                &&& r == Err::<Single, CreateError>(CreateError::Acquire(f))
                &&& host_unchanged(*old(self), *final(self))
            },
            acquire is Ok && can_become_primary(*old(self), build.path@) && !publish_ok ==> {
                &&& r == Err::<Single, CreateError>(CreateError::Single(SingleError::SingleWrite))
                &&& host_unchanged(*old(self), *final(self))
            },
            acquire is Ok && can_become_primary(*old(self), build.path@) && publish_ok ==> (
            r matches Ok(s) && primary_created(*old(self), *final(self), *build, pid, s)),
            acquire is Ok && !can_become_primary(*old(self), build.path@) ==> (r matches Ok(s)
                && secondary_created(*old(self), *final(self), *build, s)),
    {
        match acquire {
            Err(f) => Err(CreateError::Acquire(f)),
            Ok(()) => match self.create_checked(build, pid, publish_ok) {
                Ok(s) => Ok(s),
                Err(e) => Err(CreateError::Single(e)),
            },
        }
    }
}

/// The fatal ways one creation attempt can end. Contention is in neither:
/// it yields a secondary instance, not an error.
#[derive(Debug, Clone, Copy, PartialEq, Eq, Structural)]
pub enum CreateError {
    /// The lock provider itself failed: fatal, propagated, and never a
    /// fallback to a secondary outcome.
    Acquire(AcquireFault),
    /// A distinguished failure of the guard after acquisition, the metadata
    /// write above all.
    Single(SingleError),
}

/// Mutual exclusion: for any key, once one process's acquisition has
/// succeeded, no further attempt for that key can yield a primary instance
/// until the holder releases — so at most one concurrently-running process
/// holds a primary instance per key at any instant.
pub proof fn lemma_at_most_one_primary(h0: Host, h1: Host, key: Seq<char>, pid: u32)
    requires
        can_become_primary(h0, key),
        h1.locks@ == h0.locks@.insert(key, pid),
    ensures
        !can_become_primary(h1, key),
{
}

/// Release restores availability: after the holder's lock for a key is
/// released — by dropping the instance or by the process dying — the next
/// process attempting that key becomes primary.
pub proof fn lemma_release_enables_next(h1: Host, h2: Host, key: Seq<char>)
    requires
        h2.locks@ == h1.locks@.remove(key),
    ensures
        can_become_primary(h2, key),
{
}

/// Published metadata is read back exactly: once a primary's publish for a
/// key has completed with pid `pid` and info `info`, the metadata file for
/// that key yields exactly that pid and that info to every later reader.
pub proof fn lemma_secondary_reads_primary(h0: Host, h1: Host, key: Seq<char>, pid: u32, info: Seq<char>)
    requires
        file_contents(h1.files@) == file_contents(h0.files@).insert(
            info_path_spec(key),
            meta_content(pid, info),
        ),
    ensures
        h1.files@.contains_key(info_path_spec(key)),
        meta_pid(h1.files@[info_path_spec(key)]@) == Some(pid),
        meta_info(h1.files@[info_path_spec(key)]@) == info,
{
    let ip = info_path_spec(key);
    assert(file_contents(h1.files@).contains_key(ip));
    assert(h1.files@.contains_key(ip));
    assert(h1.files@[ip]@ == file_contents(h1.files@)[ip]);
    assert(file_contents(h1.files@)[ip] == meta_content(pid, info));
    lemma_publish_read_exact(pid, info);
}

} // verus!

