use openentry_ext::block_info::UnlockInfo;
use openentry_ext::executor::ExecutorBehaviour;
use openentry_ext::shutdown_type::ShutdownType;
use openentry_ext::vm_config::{ExecutorKind, ThreadingKind, VMConfig};

#[test]
fn shutdown_codes() {
    assert_eq!(ShutdownType::NoShutdown.code(), 0);
    assert_eq!(ShutdownType::Gracefully.code(), 1);
    assert_eq!(ShutdownType::Restarting.code(), 2);
    assert_eq!(ShutdownType::Error.code(), 3);
}

#[test]
fn shutdown_code_round_trip() {
    for t in [ShutdownType::NoShutdown, ShutdownType::Gracefully, ShutdownType::Restarting, ShutdownType::Error] {
        assert_eq!(ShutdownType::from_code(t.code()), Some(t));
    }
    assert_eq!(ShutdownType::from_code(4), None);
    assert_eq!(ShutdownType::from_code(255), None);
}

#[test]
fn executor_kind_codes() {
    let kinds = [
        ExecutorKind::Atomic,
        ExecutorKind::SysLockInst,
        ExecutorKind::SpinLockInst,
        ExecutorKind::SysLockBlock,
        ExecutorKind::SpinLockBlock,
    ];
    for (i, k) in kinds.iter().enumerate() {
        assert_eq!(k.code() as usize, i);
        assert!(ExecutorKind::from_code(k.code()) == Some(*k));
    }
    assert!(ExecutorKind::from_code(5).is_none());
}

#[test]
fn threading_kind_codes() {
    let kinds = [ThreadingKind::Single, ThreadingKind::Managed, ThreadingKind::Unmanaged];
    for (i, k) in kinds.iter().enumerate() {
        assert_eq!(k.code() as usize, i);
        assert!(ThreadingKind::from_code(k.code()) == Some(*k));
    }
    assert!(ThreadingKind::from_code(3).is_none());
}

#[test]
fn vm_config_holds_its_fields() {
    let conf = VMConfig {
        executor_kind: ExecutorKind::SpinLockBlock,
        threading_kind: ThreadingKind::Managed,
        max_threads: 16,
        stack_size: 4096,
    };
    assert!(conf.executor_kind == ExecutorKind::SpinLockBlock);
    assert!(conf.threading_kind == ThreadingKind::Managed);
    assert_eq!(conf.max_threads, 16);
    assert_eq!(conf.stack_size, 4096);
}

#[test]
fn plain_values_carry_their_fields() {
    match UnlockInfo::Addr(0x40) {
        UnlockInfo::Addr(a) => assert_eq!(a, 0x40),
        UnlockInfo::Current => panic!("wrong variant"),
    }
    match ExecutorBehaviour::Shutdown(ShutdownType::Gracefully) {
        ExecutorBehaviour::Shutdown(t) => assert_eq!(t, ShutdownType::Gracefully),
        ExecutorBehaviour::Continue => panic!("wrong variant"),
    }
}
