//! The per-platform acquisition strategies' decision rules.
//!
//! One OS strategy backs the lock provider on a given platform — an advisory
//! file lock, an abstract-namespace socket bind, or a named kernel mutex —
//! and all satisfy one contract: a fresh claim makes the caller primary, an
//! existing live holder makes it secondary, and only an unexpected OS
//! failure is an error. The OS calls themselves are I/O; what a strategy
//! decides from the OS's report stands here.

use crate::SingleError;
use vstd::prelude::*;

verus! {

/// The two non-error outcomes every acquisition strategy can report.
#[derive(Debug, Clone, Copy, PartialEq, Eq, Structural)]
pub enum AcquireOutcome {
    /// Exclusivity was newly claimed: the caller is primary and keeps the
    /// resource for its lifetime.
    Acquired,
    /// Another live process already holds the key: the caller is secondary.
    /// Contention is an expected outcome, never an error.
    Contended,
}

/// An unexpected lock-provider failure, unrelated to contention: fatal, and
/// never a secondary outcome. The OS's own error description stays with the
/// caller that made the call.
#[derive(Debug, Clone, Copy, PartialEq, Eq, Structural)]
pub struct AcquireFault;

/// The file-lock strategy's decision, from what the OS reported for the
/// non-blocking exclusive advisory lock attempt.
///
/// A granted lock makes the caller primary. A refusal that means "another
/// process holds the lock" (`is_contention`) makes it secondary — the
/// expected outcome for the second process, never an error. Any other
/// refusal is a fault.
pub fn flock_outcome(locked: bool, is_contention: bool) -> (r: Result<AcquireOutcome, AcquireFault>)
    ensures
        locked ==> r == Ok::<AcquireOutcome, AcquireFault>(AcquireOutcome::Acquired),
        !locked && is_contention ==> r == Ok::<AcquireOutcome, AcquireFault>(
            AcquireOutcome::Contended,
        ),
        !locked && !is_contention ==> r == Err::<AcquireOutcome, AcquireFault>(AcquireFault),
{
    if locked {
        Ok(AcquireOutcome::Acquired)
    } else if is_contention {
        Ok(AcquireOutcome::Contended)
    } else {
        Err(AcquireFault)
    }
}

/// The abstract-socket strategy's decision, from what the OS reported for
/// the bind call.
///
/// A successful bind makes the caller primary, and the bound socket itself
/// is the held resource: its existence, not any accept activity, represents
/// ownership. A name-in-use conflict means another live holder — a
/// secondary outcome, never an error. Any other bind failure is a fault.
pub fn bind_outcome(bound: bool, name_in_use: bool) -> (r: Result<AcquireOutcome, AcquireFault>)
    ensures
        bound ==> r == Ok::<AcquireOutcome, AcquireFault>(AcquireOutcome::Acquired),
        !bound && name_in_use ==> r == Ok::<AcquireOutcome, AcquireFault>(
            AcquireOutcome::Contended,
        ),
        !bound && !name_in_use ==> r == Err::<AcquireOutcome, AcquireFault>(AcquireFault),
{
    if bound {
        Ok(AcquireOutcome::Acquired)
    } else if name_in_use {
        Ok(AcquireOutcome::Contended)
    } else {
        Err(AcquireFault)
    }
}

/// The named-mutex strategy's decision, from what the OS reported for the
/// creation call.
///
/// A null or invalid handle is a hard error — the name could not be
/// validated — and must never pass as a contention outcome. With a usable
/// handle, whether the named object already existed tells a secondary from
/// the primary, since only the creation itself is atomic; an already-existing
/// object's handle is of no further use and is closed by the caller.
pub fn mutex_outcome(handle_valid: bool, already_exists: bool) -> (r: Result<
    AcquireOutcome,
    SingleError,
>)
    ensures
        !handle_valid ==> r == Err::<AcquireOutcome, SingleError>(SingleError::InvalidCheck),
        handle_valid && already_exists ==> r == Ok::<AcquireOutcome, SingleError>(
            AcquireOutcome::Contended,
        ),
        handle_valid && !already_exists ==> r == Ok::<AcquireOutcome, SingleError>(
            AcquireOutcome::Acquired,
        ),
{
    if !handle_valid {
        Err(SingleError::InvalidCheck)
    } else if already_exists {
        Ok(AcquireOutcome::Contended)
    } else {
        Ok(AcquireOutcome::Acquired)
    }
}

} // verus!
