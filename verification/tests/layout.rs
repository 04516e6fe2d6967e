use openentry_ext::bindings::{Binding, BindingGroup, Bindings};
use openentry_ext::{id, init};

fn all_bindings() -> Vec<Binding> {
    vec![
        Binding::RuntimeDispatchExtensionEvent,
        Binding::RuntimeSendExtensionEvent,
        Binding::RuntimeDisposeThread,
        Binding::RuntimeShutdown,
        Binding::MemoryPtr,
        Binding::ExtensionsIter,
        Binding::ExtensionsAll,
        Binding::ExtensionsGet,
        Binding::ExtensionFunctionCall,
        Binding::ExtensionInterruptCall,
        Binding::ExtensionDispatchEvent,
        Binding::ExtensionInit,
        Binding::BlockInfoGet,
        Binding::StackDispose,
        Binding::StackPtr,
        Binding::ExecutorLockSys,
        Binding::ExecutorLockSpin,
        Binding::VirtualThreadGetExtension,
        Binding::VirtualThreadGetBlockInfo,
        Binding::VirtualThreadShouldStop,
        Binding::VirtualThreadSetFlag,
        Binding::VirtualThreadGetFlag,
        Binding::VirtualThreadSub32,
        Binding::VirtualThreadAdd32,
        Binding::VirtualThreadIncInst,
        Binding::VirtualThreadPush,
        Binding::VirtualThreadPop,
        Binding::VirtualThreadShutdown,
        Binding::VirtualThreadDispose,
        Binding::VMValueFrom,
        Binding::VMValueAsStr,
        Binding::VMValueAsFloat,
        Binding::VMStrStrEq,
        Binding::VMStrParse,
        Binding::VMStrFrom,
        Binding::VMStrAsVmValue,
        Binding::VMStrPtr,
        Binding::VMStrAsStr,
        Binding::VMStrLen,
        Binding::RuntimeSetErrorData,
        Binding::RuntimeSpawn,
        Binding::VirtualThreadGetTempVmstrs,
        Binding::VirtualThreadSetErrorData,
        Binding::VirtualThreadSpawn,
        Binding::VMStrFromStr,
        Binding::VMStrDrop,
        Binding::VirtualThreadGetMemU64,
        Binding::VirtualThreadGetMemU32,
        Binding::VirtualThreadGetMemU16,
        Binding::VirtualThreadGetMemU8,
        Binding::VirtualThreadGetMemAbsoluteU64,
        Binding::VirtualThreadGetMemAbsoluteU32,
        Binding::VirtualThreadGetMemAbsoluteU16,
        Binding::VirtualThreadGetMemAbsoluteU8,
        Binding::VirtualThreadSetMemAbsoluteU64,
        Binding::VirtualThreadSetMemAbsoluteU32,
        Binding::VirtualThreadSetMemAbsoluteU16,
        Binding::VirtualThreadSetMemAbsoluteU8,
        Binding::VirtualThreadSetRegU64,
        Binding::VirtualThreadSetRegU32,
        Binding::VirtualThreadSetRegU16,
        Binding::VirtualThreadSetRegU8,
        Binding::VirtualThreadGetRegU64,
        Binding::VirtualThreadGetRegU32,
        Binding::VirtualThreadGetRegU16,
        Binding::VirtualThreadGetRegU8,
        Binding::VMStrPush,
        Binding::VMStrClonedPush,
        Binding::ExtensionDataLock,
    ]
}

#[test]
fn group_runs_follow_each_other() {
    assert_eq!(BindingGroup::Immediate.base(), 0);
    assert_eq!(BindingGroup::Immediate.len(), 39);
    assert_eq!(BindingGroup::Awaitable.base(), 39);
    assert_eq!(BindingGroup::Awaitable.len(), 7);
    assert_eq!(BindingGroup::Late.base(), 46);
    assert_eq!(BindingGroup::Late.len(), 23);
}

#[test]
fn first_and_last_slot_of_each_run() {
    assert_eq!(Binding::RuntimeDispatchExtensionEvent.slot(), 0);
    assert_eq!(Binding::RuntimeShutdown.slot(), 3);
    assert_eq!(Binding::MemoryPtr.slot(), 4);
    assert_eq!(Binding::BlockInfoGet.slot(), 12);
    assert_eq!(Binding::VirtualThreadPop.slot(), 26);
    assert_eq!(Binding::VMStrLen.slot(), 38);
    assert_eq!(Binding::RuntimeSetErrorData.slot(), 39);
    assert_eq!(Binding::VMStrDrop.slot(), 45);
    assert_eq!(Binding::VirtualThreadGetMemU64.slot(), 46);
    assert_eq!(Binding::VirtualThreadGetMemU8.slot(), 49);
    assert_eq!(Binding::VirtualThreadGetRegU8.slot(), 65);
    assert_eq!(Binding::VMStrPush.slot(), 66);
    assert_eq!(Binding::VMStrClonedPush.slot(), 67);
    assert_eq!(Binding::ExtensionDataLock.slot(), 68);
}

#[test]
fn placement_of_late_entries() {
    assert_eq!(Binding::VirtualThreadSetMemAbsoluteU64.placement(), (BindingGroup::Late, 8));
    assert_eq!(Binding::VMStrFromStr.placement(), (BindingGroup::Awaitable, 5));
    assert_eq!(Binding::ExtensionInit.placement(), (BindingGroup::Immediate, 11));
}

#[test]
fn slots_are_distinct_and_fill_the_table() {
    let all = all_bindings();
    let mut seen = vec![false; 69];
    for b in all.iter() {
        let s = b.slot();
        assert!(s < 69);
        assert!(!seen[s], "slot {} used twice", s);
        seen[s] = true;
    }
    assert!(seen.iter().all(|x| *x));
}

#[test]
fn init_reads_each_function_from_its_slot() {
    let table: Vec<usize> = (0..69).map(|i| 1000 + 3 * i).collect();
    let bindings: Bindings = init(&table, 17);
    for b in all_bindings() {
        assert_eq!(bindings.address(b), 1000 + 3 * b.slot());
    }
    assert_eq!(id(&bindings), 17);
}

#[test]
fn init_ignores_slots_past_the_table() {
    let mut table: Vec<usize> = (0..69).map(|i| i + 1).collect();
    table.push(9999);
    table.push(8888);
    let bindings = init(&table, 0);
    assert_eq!(bindings.address(Binding::ExtensionDataLock), 69);
    assert_eq!(bindings.address(Binding::RuntimeDispatchExtensionEvent), 1);
    assert_eq!(id(&bindings), 0);
}

#[test]
fn id_is_the_one_given_to_init() {
    let table = vec![0usize; 69];
    assert_eq!(id(&init(&table, u32::MAX)), u32::MAX);
    assert_eq!(id(&init(&table, 3)), 3);
}
