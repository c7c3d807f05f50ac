use single_instance::strategy::{bind_outcome, flock_outcome, mutex_outcome, AcquireFault,
    AcquireOutcome};
use single_instance::{info_path, ipc_path, panic_msg, Single, SingleBuild, SingleError};

#[test]
fn new_build_holds_the_key_and_nothing_else() {
    let b = SingleBuild::new("my.app");
    assert_eq!(b.path, "my.app");
    assert_eq!(b.info, "");
    assert!(!b.wake);
}

#[test]
fn default_build_is_empty() {
    let b = SingleBuild::default();
    assert_eq!(b.path, "");
    assert_eq!(b.info, "");
    assert!(!b.wake);
}

#[test]
fn with_info_replaces_only_the_info() {
    let b = SingleBuild::new("my.app").with_info("version 3".to_string());
    assert_eq!(b.path, "my.app");
    assert_eq!(b.info, "version 3");
    assert!(!b.wake);
}

#[test]
fn with_ipc_requests_the_wake_channel() {
    let b = SingleBuild::new("my.app").with_info("v".to_string()).with_ipc();
    assert!(b.wake);
    assert_eq!(b.path, "my.app");
    assert_eq!(b.info, "v");
}

#[test]
fn derived_names_append_fixed_suffixes() {
    assert_eq!(info_path("app.lock"), "app.lock.info");
    assert_eq!(ipc_path("app.lock"), "app.lock.ipc");
    assert_eq!(info_path(""), ".info");
}

#[test]
fn primary_instance_carries_own_pid_and_info() {
    let s = Single::primary("app.lock", "v1.0", 99);
    assert!(s.is_single);
    assert_eq!(s.pid, Some(99));
    assert_eq!(s.info, "v1.0");
    assert_eq!(s.path_info, "app.lock.info");
    assert_eq!(s.path_ipc, "app.lock.ipc");
}

#[test]
fn secondary_instance_parses_what_it_read() {
    let s = Single::secondary("app.lock", Some("55\nrunning"));
    assert!(!s.is_single);
    assert_eq!(s.pid, Some(55));
    assert_eq!(s.info, "running");
}

#[test]
fn secondary_instance_with_no_metadata_degrades_quietly() {
    let s = Single::secondary("app.lock", None);
    assert!(!s.is_single);
    assert_eq!(s.pid, None);
    assert_eq!(s.info, "");
}

#[test]
fn named_mutex_outcomes_follow_the_contract() {
    // An invalid handle is a hard error, even if the OS also says the name
    // already existed: it must never pass as contention.
    assert_eq!(mutex_outcome(false, false), Err(SingleError::InvalidCheck));
    assert_eq!(mutex_outcome(false, true), Err(SingleError::InvalidCheck));
    assert_eq!(mutex_outcome(true, true), Ok(AcquireOutcome::Contended));
    assert_eq!(mutex_outcome(true, false), Ok(AcquireOutcome::Acquired));
}

#[test]
fn file_lock_outcomes_follow_the_contract() {
    assert_eq!(flock_outcome(true, false), Ok(AcquireOutcome::Acquired));
    // A lock granted at once is primary whatever the contention flag says.
    assert_eq!(flock_outcome(true, true), Ok(AcquireOutcome::Acquired));
    // A would-block refusal is the expected secondary outcome, not an error.
    assert_eq!(flock_outcome(false, true), Ok(AcquireOutcome::Contended));
    // Any other refusal is a fault.
    assert_eq!(flock_outcome(false, false), Err(AcquireFault));
}

#[test]
fn socket_bind_outcomes_follow_the_contract() {
    assert_eq!(bind_outcome(true, false), Ok(AcquireOutcome::Acquired));
    // A name-in-use conflict signals a live holder: secondary, not an error.
    assert_eq!(bind_outcome(false, true), Ok(AcquireOutcome::Contended));
    assert_eq!(bind_outcome(false, false), Err(AcquireFault));
}

#[test]
fn error_messages_are_fixed() {
    assert_eq!(SingleError::SingleWrite.message(), "pid and info write err!");
    assert_eq!(SingleError::InvalidCheck.message(), "invalid lock handle!");
    assert_ne!(SingleError::SingleWrite, SingleError::InvalidCheck);
}

#[test]
fn panic_msg_prefers_the_owned_string() {
    assert_eq!(panic_msg(Some("boom".to_string()), Some("other")), "boom");
    assert_eq!(panic_msg(None, Some("boom str")), "boom str");
    assert_eq!(panic_msg(None, None), "panic 未提供错误信息");
}
