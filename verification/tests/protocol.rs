use single_instance::host::{CreateError, Host};
use single_instance::strategy::AcquireFault;
use single_instance::wake::{dispatch_step, run_dispatch, WakeAction, WakeChannel, WakeFault};
use single_instance::{SingleBuild, SingleError};

#[test]
fn first_process_becomes_primary() {
    let mut host = Host::new();
    let build = SingleBuild::new("app.lock").with_info("v1.0".to_string());
    let a = host.create(&build, 101);
    assert!(a.is_single);
    assert_eq!(a.pid, Some(101));
    assert_eq!(a.info, "v1.0");
    assert_eq!(a.path, "app.lock");
    assert_eq!(a.path_info, "app.lock.info");
    assert_eq!(a.path_ipc, "app.lock.ipc");
}

#[test]
fn second_process_is_secondary_and_reads_primary_metadata() {
    let mut host = Host::new();
    let a_build = SingleBuild::new("app.lock").with_info("v1.0".to_string());
    let a = host.create(&a_build, 101);
    assert!(a.is_single);

    let b_build = SingleBuild::new("app.lock").with_info("v2.0".to_string());
    let b = host.create(&b_build, 202);
    assert!(!b.is_single);
    assert_eq!(b.pid, Some(101));
    assert_eq!(b.info, "v1.0");
}

#[test]
fn at_most_one_primary_among_racing_processes() {
    let mut host = Host::new();
    let mut primaries = 0;
    for pid in 1..=5u32 {
        let build = SingleBuild::new("race.lock").with_info("x".to_string());
        let s = host.create(&build, pid);
        if s.is_single {
            primaries += 1;
        }
    }
    assert_eq!(primaries, 1);
}

#[test]
fn distinct_keys_do_not_contend() {
    let mut host = Host::new();
    let a = host.create(&SingleBuild::new("one.lock"), 1);
    let b = host.create(&SingleBuild::new("two.lock"), 2);
    assert!(a.is_single);
    assert!(b.is_single);
}

#[test]
fn release_lets_the_next_process_become_primary() {
    let mut host = Host::new();
    let a = host.create(&SingleBuild::new("app.lock").with_info("a".to_string()), 101);
    assert!(a.is_single);

    // A's instance is dropped, or A's process dies abruptly: the OS releases
    // the lock either way.
    host.release("app.lock");

    let c = host.create(&SingleBuild::new("app.lock").with_info("c".to_string()), 303);
    assert!(c.is_single);
    assert_eq!(c.pid, Some(303));
}

#[test]
fn reading_metadata_before_it_exists_gives_none_and_empty() {
    let mut host = Host::new();
    // The key is held, but the holder never published metadata.
    let acquired = host.try_acquire("bare.lock", 7);
    assert!(acquired);

    let b = host.create(&SingleBuild::new("bare.lock"), 8);
    assert!(!b.is_single);
    assert_eq!(b.pid, None);
    assert_eq!(b.info, "");
}

#[test]
fn failed_publish_aborts_and_releases_the_lock() {
    let mut host = Host::new();
    let build = SingleBuild::new("app.lock").with_info("v1.0".to_string());

    // The durable metadata write fails right after acquisition: the attempt
    // must abort with the distinguished error, not continue as an
    // undiscoverable primary.
    let r = host.create_checked(&build, 101, false);
    assert_eq!(r.unwrap_err(), SingleError::SingleWrite);

    // The lock was released on the way out, so the next attempt succeeds.
    let s = host.create(&build, 102);
    assert!(s.is_single);
    assert_eq!(s.pid, Some(102));
}

#[test]
fn acquisition_fault_is_fatal_and_never_degrades_to_secondary() {
    let mut host = Host::new();
    let build = SingleBuild::new("app.lock").with_info("v1.0".to_string());

    // The lock provider's call itself fails: the attempt aborts fatally;
    // nothing is held, published, or reported as secondary.
    let r = host.create_with(&build, 101, Err(AcquireFault), true);
    assert_eq!(r.unwrap_err(), CreateError::Acquire(AcquireFault));

    // The host was untouched, so the next attempt becomes primary.
    let s = host.create(&build, 102);
    assert!(s.is_single);
    assert_eq!(s.pid, Some(102));
}

#[test]
fn create_with_completed_acquisition_matches_create() {
    let mut host = Host::new();
    let build = SingleBuild::new("app.lock").with_info("v1.0".to_string());
    let a = host.create_with(&build, 7, Ok(()), true).unwrap();
    assert!(a.is_single);
    let b = host.create_with(&build, 8, Ok(()), true).unwrap();
    assert!(!b.is_single);
    assert_eq!(b.pid, Some(7));
    assert_eq!(b.info, "v1.0");
    let w = host.create_with(&SingleBuild::new("other.lock"), 9, Ok(()), false);
    assert_eq!(w.unwrap_err(), CreateError::Single(SingleError::SingleWrite));
}

#[test]
fn checked_create_with_working_disk_matches_create() {
    let mut host = Host::new();
    let build = SingleBuild::new("app.lock").with_info("v1.0".to_string());
    let a = host.create_checked(&build, 7, true).unwrap();
    assert!(a.is_single);
    let b = host.create_checked(&build, 8, true).unwrap();
    assert!(!b.is_single);
    assert_eq!(b.pid, Some(7));
    assert_eq!(b.info, "v1.0");
}

#[test]
fn wake_payload_reaches_the_callback_unmodified() {
    let mut channel = WakeChannel::new();
    let payload: Vec<u8> = vec![0, 255, 10, 13, 102, 111, 99, 117, 115];
    channel.send(&payload).unwrap();

    let received = channel.accept().unwrap();
    assert_eq!(received, payload);

    match dispatch_step(Ok(received)) {
        WakeAction::Deliver(delivered) => assert_eq!(delivered, payload),
        WakeAction::Skip => panic!("a readable payload must be delivered"),
    }
}

#[test]
fn wake_payloads_arrive_in_order() {
    let mut channel = WakeChannel::new();
    channel.send(b"first").unwrap();
    channel.send(b"second").unwrap();
    assert_eq!(channel.accept().unwrap(), b"first");
    assert_eq!(channel.accept().unwrap(), b"second");
    assert_eq!(channel.accept(), None);
}

#[test]
fn fault_in_one_iteration_does_not_block_the_next_delivery() {
    let fault = WakeFault { message: "read failed".to_string() };
    let events = vec![Err(fault), Ok(b"focus".to_vec())];
    let delivered = run_dispatch(events);
    assert_eq!(delivered, vec![b"focus".to_vec()]);
}

#[test]
fn dispatch_delivers_every_readable_payload_in_order() {
    let events = vec![
        Ok(b"one".to_vec()),
        Err(WakeFault { message: "reset".to_string() }),
        Ok(b"two".to_vec()),
        Err(WakeFault { message: "caught fault".to_string() }),
        Ok(b"three".to_vec()),
    ];
    let delivered = run_dispatch(events);
    assert_eq!(delivered, vec![b"one".to_vec(), b"two".to_vec(), b"three".to_vec()]);
}

#[test]
fn faulted_iteration_is_skipped() {
    let fault = WakeFault { message: "broken pipe".to_string() };
    match dispatch_step(Err(fault)) {
        WakeAction::Skip => {},
        WakeAction::Deliver(_) => panic!("a fault must not reach the callback as a payload"),
    }
}

#[test]
fn full_scenario_two_processes_and_a_wake() {
    let mut host = Host::new();

    // Process A creates the instance.
    let a_build = SingleBuild::new("app.lock").with_info("v1.0".to_string()).with_ipc();
    let a = host.create(&a_build, 41);
    assert!(a.is_single);
    assert_eq!(a.pid, Some(41));

    // Process B creates with the same key.
    let b = host.create(&SingleBuild::new("app.lock"), 42);
    assert!(!b.is_single);
    assert_eq!(b.pid, Some(41));
    assert_eq!(b.info, "v1.0");

    // B sends a wake payload; A's callback receives it exactly.
    let mut channel = WakeChannel::new();
    channel.send(b"focus").unwrap();
    let event = Ok(channel.accept().unwrap());
    match dispatch_step(event) {
        WakeAction::Deliver(p) => assert_eq!(p, b"focus".to_vec()),
        WakeAction::Skip => panic!("the payload must be delivered"),
    }
}
