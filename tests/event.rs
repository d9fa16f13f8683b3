use cross_process_event::event::{wait_request, Action, CrossProcessAsyncEvent, Registration, INFINITE};
use cross_process_event::outcome::{
    creation_of, open_error_of, Creation, CreationError, OpenError, ERROR_ALREADY_EXISTS,
};

fn opened(handle: isize) -> CrossProcessAsyncEvent {
    CrossProcessAsyncEvent::try_open(Ok(handle)).unwrap()
}

#[test]
fn open_of_missing_name_is_not_found() {
    assert_eq!(open_error_of(0x8007_0002u32 as i32), OpenError::NotFound);
}

#[test]
fn open_of_guarded_object_is_permission_denied() {
    assert_eq!(open_error_of(0x8007_0005u32 as i32), OpenError::PermissionDenied);
}

#[test]
fn open_of_other_failure_keeps_code() {
    let code = 0x8007_0006u32 as i32;
    assert_eq!(open_error_of(code), OpenError::Os(code));
    assert_eq!(open_error_of(2), OpenError::Os(2));
}

#[test]
fn open_refused_is_an_error_without_object() {
    let r = CrossProcessAsyncEvent::try_open(Err(0x8007_0002u32 as i32));
    assert_eq!(r.err(), Some(OpenError::NotFound));
}

#[test]
fn open_of_nonexistent_evt_is_not_found() {
    let r = CrossProcessAsyncEvent::try_open(Err(0x8007_0002u32 as i32));
    assert!(matches!(r, Err(OpenError::NotFound)));
}

#[test]
fn open_without_access_is_permission_denied() {
    let r = CrossProcessAsyncEvent::try_open(Err(0x8007_0005u32 as i32));
    assert_eq!(r.err(), Some(OpenError::PermissionDenied));
    let r = CrossProcessAsyncEvent::try_open(Err(0));
    assert_eq!(r.err(), Some(OpenError::Os(0)));
}

#[test]
fn open_answered_gives_unregistered_object() {
    let e = opened(7);
    assert_eq!(e.handle(), 7);
    assert_eq!(e.registration(), None);
}

#[test]
fn create_reports_existing_object() {
    let (e, how) = CrossProcessAsyncEvent::try_create(Ok(42), ERROR_ALREADY_EXISTS).unwrap();
    assert_eq!(e.handle(), 42);
    assert_eq!(e.registration(), None);
    assert_eq!(how, Creation::AlreadyExisted);
}

#[test]
fn create_reports_new_object() {
    let (_, how) = CrossProcessAsyncEvent::try_create(Ok(42), 0).unwrap();
    assert_eq!(how, Creation::Created);
}

#[test]
fn create_refused_is_an_os_error() {
    let code = 0x8007_0005u32 as i32;
    let r = CrossProcessAsyncEvent::try_create(Err(code), 0);
    assert_eq!(r.err(), Some(CreationError::Os(code)));
}

#[test]
fn two_creates_report_one_join() {
    let first = creation_of(0);
    let second = creation_of(183);
    assert_eq!(first, Creation::Created);
    assert_eq!(second, Creation::AlreadyExisted);
}

#[test]
fn subscription_waits_forever_and_persists() {
    let w = wait_request();
    assert_eq!(w.timeout, INFINITE);
    assert_eq!(w.timeout, u32::MAX);
    assert!(!w.execute_once);
}

#[test]
fn refused_registration_releases_new_storage() {
    let mut e = opened(7);
    let step = e.register_callback(1, None);
    assert!(!step.registered);
    assert_eq!(step.actions, vec![Action::ReleaseCallback(1)]);
    assert_eq!(e.registration(), None);
}

#[test]
fn first_registration_needs_nothing_more() {
    let mut e = opened(7);
    let step = e.register_callback(1, Some(100));
    assert!(step.registered);
    assert!(step.actions.is_empty());
    assert_eq!(e.registration(), Some(Registration { wait: 100, callback: 1 }));
}

#[test]
fn replacing_revokes_before_releasing() {
    let mut e = opened(7);
    e.register_callback(1, Some(100));
    let step = e.register_callback(2, Some(200));
    assert!(step.registered);
    assert_eq!(step.actions, vec![Action::RevokeWait(100), Action::ReleaseCallback(1)]);
    assert_eq!(e.registration(), Some(Registration { wait: 200, callback: 2 }));
}

#[test]
fn refused_replacement_keeps_previous() {
    let mut e = opened(7);
    e.register_callback(1, Some(100));
    let step = e.register_callback(2, None);
    assert!(!step.registered);
    assert_eq!(step.actions, vec![Action::ReleaseCallback(2)]);
    assert_eq!(e.registration(), Some(Registration { wait: 100, callback: 1 }));
}

#[test]
fn storage_in_use_is_not_registered_twice() {
    let mut e = opened(7);
    e.register_callback(1, Some(100));
    let step = e.register_callback(1, Some(300));
    assert!(!step.registered);
    assert_eq!(step.actions, vec![Action::RevokeWait(300)]);
    assert_eq!(e.registration(), Some(Registration { wait: 100, callback: 1 }));
    let step = e.register_callback(1, None);
    assert!(!step.registered);
    assert!(step.actions.is_empty());
}

#[test]
fn unregister_revokes_then_releases() {
    let mut e = opened(7);
    e.register_callback(1, Some(100));
    assert_eq!(e.unregister(), vec![Action::RevokeWait(100), Action::ReleaseCallback(1)]);
    assert_eq!(e.registration(), None);
    assert!(e.unregister().is_empty());
}

#[test]
fn teardown_closes_handle_last() {
    let mut e = opened(7);
    e.register_callback(1, Some(100));
    assert_eq!(
        e.teardown(),
        vec![Action::RevokeWait(100), Action::ReleaseCallback(1), Action::CloseHandle(7)]
    );
    assert_eq!(opened(9).teardown(), vec![Action::CloseHandle(9)]);
}

#[test]
fn subscription_stays_for_repeated_signals() {
    let (mut e, _) = CrossProcessAsyncEvent::try_create(Ok(5), 0).unwrap();
    assert!(e.register_callback(1, Some(100)).registered);
    for _ in 0..3 {
        assert_eq!(e.registration(), Some(Registration { wait: 100, callback: 1 }));
    }
}
