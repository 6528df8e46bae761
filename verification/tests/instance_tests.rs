use esedb::instance::{JetInstance, ShutdownCall, TeardownStep};
use esedb::wide_string::WideString;

#[test]
fn test_new_instance_is_never_started() {
    let inst = JetInstance::new();
    assert!(inst.is_never_started());
    assert!(!inst.initialized());
}

#[test]
fn test_init_engine_stores_handle() {
    let mut inst = JetInstance::new();
    assert!(inst.init_engine(0, 0x1234).is_ok());
    assert_eq!(0x1234, inst.handle());
    assert!(!inst.initialized());

    let mut failed = JetInstance::new();
    let e = failed.init_engine(-1011, 0x1).unwrap_err();
    assert_eq!(-1011, e.code);
    assert!(failed.is_never_started());
}

#[test]
fn test_parameters_before_init() {
    let mut inst = JetInstance::new();
    inst.init_engine(0, 0x1234).unwrap();
    assert!(inst.set_int_parameter(64, 8192, 0).is_ok());
    let name = WideString::from_str("system");
    assert!(inst.set_string_parameter(0, &name, 0).is_ok());
    assert_eq!(-1003, inst.set_int_parameter(0, 0, -1003).unwrap_err().code);
}

#[test]
fn test_init_success_is_live() {
    let mut inst = JetInstance::new();
    inst.init_engine(0, 0x1234).unwrap();
    assert!(inst.init(0).is_ok());
    assert!(inst.initialized());
    assert_eq!(0x1234, inst.handle());
}

#[test]
fn test_failed_init_means_no_shutdown_call() {
    let mut inst = JetInstance::new();
    inst.init_engine(0, 0x1234).unwrap();
    let e = inst.init(-1032).unwrap_err();
    assert_eq!(-1032, e.code);
    assert!(inst.is_never_started());
    // Teardown of a never-started instance performs no shutdown call.
    assert!(matches!(inst.begin_teardown(), TeardownStep::Done));
}

#[test]
fn test_teardown_graceful_then_forced() {
    let mut inst = JetInstance::new();
    inst.init_engine(0, 0x1234).unwrap();
    inst.init(0).unwrap();

    // The graceful path is always tried first.
    assert!(matches!(
        inst.begin_teardown(),
        TeardownStep::Call(ShutdownCall::Graceful)
    ));
    // When it succeeds, no other shutdown call follows.
    assert!(matches!(inst.after_graceful(0), TeardownStep::Done));
    // When it fails, the forced path is owed, exactly once.
    assert!(matches!(
        inst.after_graceful(-1),
        TeardownStep::Call(ShutdownCall::Forced)
    ));
    assert!(inst.after_forced(0).is_ok());
    // Failure of the last fallback is surfaced, never swallowed.
    assert_eq!(-1116, inst.after_forced(-1116).unwrap_err().code);
}

#[test]
fn test_create_session() {
    let mut inst = JetInstance::new();
    inst.init_engine(0, 0x1234).unwrap();
    inst.init(0).unwrap();
    let s = inst.create_session(0, 0x55).unwrap();
    assert_eq!(0x55, s.raw());
    assert_eq!(-1101, inst.create_session(-1101, 0).unwrap_err().code);
}
