use vstd::prelude::*;

verus! {

/// One entry of the function table that the host runtime hands to an
/// extension: each names a host function that the extension calls.
#[derive(Debug, PartialEq, Eq, Clone, Copy, Structural)]
pub enum Binding {
    RuntimeDispatchExtensionEvent,
    RuntimeSendExtensionEvent,
    RuntimeDisposeThread,
    RuntimeShutdown,
    MemoryPtr,
    ExtensionsIter,
    ExtensionsAll,
    ExtensionsGet,
    ExtensionFunctionCall,
    ExtensionInterruptCall,
    ExtensionDispatchEvent,
    ExtensionInit,
    BlockInfoGet,
    StackDispose,
    StackPtr,
    ExecutorLockSys,
    ExecutorLockSpin,
    VirtualThreadGetExtension,
    VirtualThreadGetBlockInfo,
    VirtualThreadShouldStop,
    VirtualThreadSetFlag,
    VirtualThreadGetFlag,
    VirtualThreadSub32,
    VirtualThreadAdd32,
    VirtualThreadIncInst,
    VirtualThreadPush,
    VirtualThreadPop,
    VirtualThreadShutdown,
    VirtualThreadDispose,
    VMValueFrom,
    VMValueAsStr,
    VMValueAsFloat,
    VMStrStrEq,
    VMStrParse,
    VMStrFrom,
    VMStrAsVmValue,
    VMStrPtr,
    VMStrAsStr,
    VMStrLen,
    RuntimeSetErrorData,
    RuntimeSpawn,
    VirtualThreadGetTempVmstrs,
    VirtualThreadSetErrorData,
    VirtualThreadSpawn,
    VMStrFromStr,
    VMStrDrop,
    VirtualThreadGetMemU64,
    VirtualThreadGetMemU32,
    VirtualThreadGetMemU16,
    VirtualThreadGetMemU8,
    VirtualThreadGetMemAbsoluteU64,
    VirtualThreadGetMemAbsoluteU32,
    VirtualThreadGetMemAbsoluteU16,
    VirtualThreadGetMemAbsoluteU8,
    VirtualThreadSetMemAbsoluteU64,
    VirtualThreadSetMemAbsoluteU32,
    VirtualThreadSetMemAbsoluteU16,
    VirtualThreadSetMemAbsoluteU8,
    VirtualThreadSetRegU64,
    VirtualThreadSetRegU32,
    VirtualThreadSetRegU16,
    VirtualThreadSetRegU8,
    VirtualThreadGetRegU64,
    VirtualThreadGetRegU32,
    VirtualThreadGetRegU16,
    VirtualThreadGetRegU8,
    VMStrPush,
    VMStrClonedPush,
    ExtensionDataLock,
}

/// The three runs of the table, in the order in which they follow each other:
/// the declared plain functions, the functions that return a future, and the
/// functions read at fixed offsets after those.
#[derive(Debug, PartialEq, Eq, Clone, Copy, Structural)]
pub enum BindingGroup {
    Immediate,
    Awaitable,
    Late,
}

/// Number of entries in each run.
pub open spec fn group_len(g: BindingGroup) -> nat {
    match g {
        BindingGroup::Immediate => 39,
        BindingGroup::Awaitable => 7,
        BindingGroup::Late => 23,
    }
}

/// Slot of the first entry of each run: the runs follow each other with no gap.
pub open spec fn group_base(g: BindingGroup) -> nat {
    match g {
        BindingGroup::Immediate => 0,
        BindingGroup::Awaitable => group_len(BindingGroup::Immediate),
        BindingGroup::Late => group_len(BindingGroup::Immediate) + group_len(BindingGroup::Awaitable),
    }
}

/// Number of slots of the table that an extension reads.
pub open spec fn binding_count() -> nat {
    group_base(BindingGroup::Late) + group_len(BindingGroup::Late)
}

/// The order in which each run lists its functions.
pub open spec fn declared_binding(g: BindingGroup, i: int) -> Option<Binding> {
    match g {
        BindingGroup::Immediate => {
            if i == 0 {
                Some(Binding::RuntimeDispatchExtensionEvent)
            } else if i == 1 {
                Some(Binding::RuntimeSendExtensionEvent)
            } else if i == 2 {
                Some(Binding::RuntimeDisposeThread)
            } else if i == 3 {
                Some(Binding::RuntimeShutdown)
            } else if i == 4 {
                Some(Binding::MemoryPtr)
            } else if i == 5 {
                Some(Binding::ExtensionsIter)
            } else if i == 6 {
                Some(Binding::ExtensionsAll)
            } else if i == 7 {
                Some(Binding::ExtensionsGet)
            } else if i == 8 {
                Some(Binding::ExtensionFunctionCall)
            } else if i == 9 {
                Some(Binding::ExtensionInterruptCall)
            } else if i == 10 {
                Some(Binding::ExtensionDispatchEvent)
            } else if i == 11 {
                Some(Binding::ExtensionInit)
            } else if i == 12 {
                Some(Binding::BlockInfoGet)
            } else if i == 13 {
                Some(Binding::StackDispose)
            } else if i == 14 {
                Some(Binding::StackPtr)
            } else if i == 15 {
                Some(Binding::ExecutorLockSys)
            } else if i == 16 {
                Some(Binding::ExecutorLockSpin)
            } else if i == 17 {
                Some(Binding::VirtualThreadGetExtension)
            } else if i == 18 {
                Some(Binding::VirtualThreadGetBlockInfo)
            } else if i == 19 {
                Some(Binding::VirtualThreadShouldStop)
            } else if i == 20 {
                Some(Binding::VirtualThreadSetFlag)
            } else if i == 21 {
                Some(Binding::VirtualThreadGetFlag)
            } else if i == 22 {
                Some(Binding::VirtualThreadSub32)
            } else if i == 23 {
                Some(Binding::VirtualThreadAdd32)
            } else if i == 24 {
                Some(Binding::VirtualThreadIncInst)
            } else if i == 25 {
                Some(Binding::VirtualThreadPush)
            } else if i == 26 {
                Some(Binding::VirtualThreadPop)
            } else if i == 27 {
                Some(Binding::VirtualThreadShutdown)
            } else if i == 28 {
                Some(Binding::VirtualThreadDispose)
            } else if i == 29 {
                Some(Binding::VMValueFrom)
            } else if i == 30 {
                Some(Binding::VMValueAsStr)
            } else if i == 31 {
                Some(Binding::VMValueAsFloat)
            } else if i == 32 {
                Some(Binding::VMStrStrEq)
            } else if i == 33 {
                Some(Binding::VMStrParse)
            } else if i == 34 {
                Some(Binding::VMStrFrom)
            } else if i == 35 {
                Some(Binding::VMStrAsVmValue)
            } else if i == 36 {
                Some(Binding::VMStrPtr)
            } else if i == 37 {
                Some(Binding::VMStrAsStr)
            } else if i == 38 {
                Some(Binding::VMStrLen)
            } else {
                None
            }
        },
        BindingGroup::Awaitable => {
            if i == 0 {
                Some(Binding::RuntimeSetErrorData)
            } else if i == 1 {
                Some(Binding::RuntimeSpawn)
            } else if i == 2 {
                Some(Binding::VirtualThreadGetTempVmstrs)
            } else if i == 3 {
                Some(Binding::VirtualThreadSetErrorData)
            } else if i == 4 {
                Some(Binding::VirtualThreadSpawn)
            } else if i == 5 {
                Some(Binding::VMStrFromStr)
            } else if i == 6 {
                Some(Binding::VMStrDrop)
            } else {
                None
            }
        },
        BindingGroup::Late => {
            if i == 0 {
                Some(Binding::VirtualThreadGetMemU64)
            } else if i == 1 {
                Some(Binding::VirtualThreadGetMemU32)
            } else if i == 2 {
                Some(Binding::VirtualThreadGetMemU16)
            } else if i == 3 {
                Some(Binding::VirtualThreadGetMemU8)
            } else if i == 4 {
                Some(Binding::VirtualThreadGetMemAbsoluteU64)
            } else if i == 5 {
                Some(Binding::VirtualThreadGetMemAbsoluteU32)
            } else if i == 6 {
                Some(Binding::VirtualThreadGetMemAbsoluteU16)
            } else if i == 7 {
                Some(Binding::VirtualThreadGetMemAbsoluteU8)
            } else if i == 8 {
                Some(Binding::VirtualThreadSetMemAbsoluteU64)
            } else if i == 9 {
                Some(Binding::VirtualThreadSetMemAbsoluteU32)
            } else if i == 10 {
                Some(Binding::VirtualThreadSetMemAbsoluteU16)
            } else if i == 11 {
                Some(Binding::VirtualThreadSetMemAbsoluteU8)
            } else if i == 12 {
                Some(Binding::VirtualThreadSetRegU64)
            } else if i == 13 {
                Some(Binding::VirtualThreadSetRegU32)
            } else if i == 14 {
                Some(Binding::VirtualThreadSetRegU16)
            } else if i == 15 {
                Some(Binding::VirtualThreadSetRegU8)
            } else if i == 16 {
                Some(Binding::VirtualThreadGetRegU64)
            } else if i == 17 {
                Some(Binding::VirtualThreadGetRegU32)
            } else if i == 18 {
                Some(Binding::VirtualThreadGetRegU16)
            } else if i == 19 {
                Some(Binding::VirtualThreadGetRegU8)
            } else if i == 20 {
                Some(Binding::VMStrPush)
            } else if i == 21 {
                Some(Binding::VMStrClonedPush)
            } else if i == 22 {
                Some(Binding::ExtensionDataLock)
            } else {
                None
            }
        },
    }
}

/// The run of each function and its position in that run.
pub open spec fn placement(b: Binding) -> (BindingGroup, int) {
    match b {
        Binding::RuntimeDispatchExtensionEvent => (BindingGroup::Immediate, 0),
        Binding::RuntimeSendExtensionEvent => (BindingGroup::Immediate, 1),
        Binding::RuntimeDisposeThread => (BindingGroup::Immediate, 2),
        Binding::RuntimeShutdown => (BindingGroup::Immediate, 3),
        Binding::MemoryPtr => (BindingGroup::Immediate, 4),
        Binding::ExtensionsIter => (BindingGroup::Immediate, 5),
        Binding::ExtensionsAll => (BindingGroup::Immediate, 6),
        Binding::ExtensionsGet => (BindingGroup::Immediate, 7),
        Binding::ExtensionFunctionCall => (BindingGroup::Immediate, 8),
        Binding::ExtensionInterruptCall => (BindingGroup::Immediate, 9),
        Binding::ExtensionDispatchEvent => (BindingGroup::Immediate, 10),
        Binding::ExtensionInit => (BindingGroup::Immediate, 11),
        Binding::BlockInfoGet => (BindingGroup::Immediate, 12),
        Binding::StackDispose => (BindingGroup::Immediate, 13),
        Binding::StackPtr => (BindingGroup::Immediate, 14),
        Binding::ExecutorLockSys => (BindingGroup::Immediate, 15),
        Binding::ExecutorLockSpin => (BindingGroup::Immediate, 16),
        Binding::VirtualThreadGetExtension => (BindingGroup::Immediate, 17),
        Binding::VirtualThreadGetBlockInfo => (BindingGroup::Immediate, 18),
        Binding::VirtualThreadShouldStop => (BindingGroup::Immediate, 19),
        Binding::VirtualThreadSetFlag => (BindingGroup::Immediate, 20),
        Binding::VirtualThreadGetFlag => (BindingGroup::Immediate, 21),
        Binding::VirtualThreadSub32 => (BindingGroup::Immediate, 22),
        Binding::VirtualThreadAdd32 => (BindingGroup::Immediate, 23),
        Binding::VirtualThreadIncInst => (BindingGroup::Immediate, 24),
        Binding::VirtualThreadPush => (BindingGroup::Immediate, 25),
        Binding::VirtualThreadPop => (BindingGroup::Immediate, 26),
        Binding::VirtualThreadShutdown => (BindingGroup::Immediate, 27),
        Binding::VirtualThreadDispose => (BindingGroup::Immediate, 28),
        Binding::VMValueFrom => (BindingGroup::Immediate, 29),
        Binding::VMValueAsStr => (BindingGroup::Immediate, 30),
        Binding::VMValueAsFloat => (BindingGroup::Immediate, 31),
        Binding::VMStrStrEq => (BindingGroup::Immediate, 32),
        Binding::VMStrParse => (BindingGroup::Immediate, 33),
        Binding::VMStrFrom => (BindingGroup::Immediate, 34),
        Binding::VMStrAsVmValue => (BindingGroup::Immediate, 35),
        Binding::VMStrPtr => (BindingGroup::Immediate, 36),
        Binding::VMStrAsStr => (BindingGroup::Immediate, 37),
        Binding::VMStrLen => (BindingGroup::Immediate, 38),
        Binding::RuntimeSetErrorData => (BindingGroup::Awaitable, 0),
        Binding::RuntimeSpawn => (BindingGroup::Awaitable, 1),
        Binding::VirtualThreadGetTempVmstrs => (BindingGroup::Awaitable, 2),
        Binding::VirtualThreadSetErrorData => (BindingGroup::Awaitable, 3),
        Binding::VirtualThreadSpawn => (BindingGroup::Awaitable, 4),
        Binding::VMStrFromStr => (BindingGroup::Awaitable, 5),
        Binding::VMStrDrop => (BindingGroup::Awaitable, 6),
        Binding::VirtualThreadGetMemU64 => (BindingGroup::Late, 0),
        Binding::VirtualThreadGetMemU32 => (BindingGroup::Late, 1),
        Binding::VirtualThreadGetMemU16 => (BindingGroup::Late, 2),
        Binding::VirtualThreadGetMemU8 => (BindingGroup::Late, 3),
        Binding::VirtualThreadGetMemAbsoluteU64 => (BindingGroup::Late, 4),
        Binding::VirtualThreadGetMemAbsoluteU32 => (BindingGroup::Late, 5),
        Binding::VirtualThreadGetMemAbsoluteU16 => (BindingGroup::Late, 6),
        Binding::VirtualThreadGetMemAbsoluteU8 => (BindingGroup::Late, 7),
        Binding::VirtualThreadSetMemAbsoluteU64 => (BindingGroup::Late, 8),
        Binding::VirtualThreadSetMemAbsoluteU32 => (BindingGroup::Late, 9),
        Binding::VirtualThreadSetMemAbsoluteU16 => (BindingGroup::Late, 10),
        Binding::VirtualThreadSetMemAbsoluteU8 => (BindingGroup::Late, 11),
        Binding::VirtualThreadSetRegU64 => (BindingGroup::Late, 12),
        Binding::VirtualThreadSetRegU32 => (BindingGroup::Late, 13),
        Binding::VirtualThreadSetRegU16 => (BindingGroup::Late, 14),
        Binding::VirtualThreadSetRegU8 => (BindingGroup::Late, 15),
        Binding::VirtualThreadGetRegU64 => (BindingGroup::Late, 16),
        Binding::VirtualThreadGetRegU32 => (BindingGroup::Late, 17),
        Binding::VirtualThreadGetRegU16 => (BindingGroup::Late, 18),
        Binding::VirtualThreadGetRegU8 => (BindingGroup::Late, 19),
        Binding::VMStrPush => (BindingGroup::Late, 20),
        Binding::VMStrClonedPush => (BindingGroup::Late, 21),
        Binding::ExtensionDataLock => (BindingGroup::Late, 22),
    }
}

/// The slot of the table that holds a function.
pub open spec fn slot_of(b: Binding) -> int {
    group_base(placement(b).0) + placement(b).1
}

impl BindingGroup {
    /// Number of entries in this run.
    pub fn len(self) -> (n: usize)
        ensures
            n == group_len(self),
    {
        match self {
            BindingGroup::Immediate => 39,
            BindingGroup::Awaitable => 7,
            BindingGroup::Late => 23,
        }
    }

    /// Slot of the first entry of this run.
    pub fn base(self) -> (s: usize)
        ensures
            s == group_base(self),
    {
        match self {
            BindingGroup::Immediate => 0,
            BindingGroup::Awaitable => BindingGroup::Immediate.len(),
            BindingGroup::Late => BindingGroup::Immediate.len() + BindingGroup::Awaitable.len(),
        }
    }
}

impl Binding {
    /// The run of this function and its position in that run.
    pub fn placement(self) -> (p: (BindingGroup, usize))
        ensures
            p.0 == placement(self).0,
            p.1 == placement(self).1,
    {
        match self {
            Binding::RuntimeDispatchExtensionEvent => (BindingGroup::Immediate, 0),
            Binding::RuntimeSendExtensionEvent => (BindingGroup::Immediate, 1),
            Binding::RuntimeDisposeThread => (BindingGroup::Immediate, 2),
            Binding::RuntimeShutdown => (BindingGroup::Immediate, 3),
            Binding::MemoryPtr => (BindingGroup::Immediate, 4),
            Binding::ExtensionsIter => (BindingGroup::Immediate, 5),
            Binding::ExtensionsAll => (BindingGroup::Immediate, 6),
            Binding::ExtensionsGet => (BindingGroup::Immediate, 7),
            Binding::ExtensionFunctionCall => (BindingGroup::Immediate, 8),
            Binding::ExtensionInterruptCall => (BindingGroup::Immediate, 9),
            Binding::ExtensionDispatchEvent => (BindingGroup::Immediate, 10),
            Binding::ExtensionInit => (BindingGroup::Immediate, 11),
            Binding::BlockInfoGet => (BindingGroup::Immediate, 12),
            Binding::StackDispose => (BindingGroup::Immediate, 13),
            Binding::StackPtr => (BindingGroup::Immediate, 14),
            Binding::ExecutorLockSys => (BindingGroup::Immediate, 15),
            Binding::ExecutorLockSpin => (BindingGroup::Immediate, 16),
            Binding::VirtualThreadGetExtension => (BindingGroup::Immediate, 17),
            Binding::VirtualThreadGetBlockInfo => (BindingGroup::Immediate, 18),
            Binding::VirtualThreadShouldStop => (BindingGroup::Immediate, 19),
            Binding::VirtualThreadSetFlag => (BindingGroup::Immediate, 20),
            Binding::VirtualThreadGetFlag => (BindingGroup::Immediate, 21),
            Binding::VirtualThreadSub32 => (BindingGroup::Immediate, 22),
            Binding::VirtualThreadAdd32 => (BindingGroup::Immediate, 23),
            Binding::VirtualThreadIncInst => (BindingGroup::Immediate, 24),
            Binding::VirtualThreadPush => (BindingGroup::Immediate, 25),
            Binding::VirtualThreadPop => (BindingGroup::Immediate, 26),
            Binding::VirtualThreadShutdown => (BindingGroup::Immediate, 27),
            Binding::VirtualThreadDispose => (BindingGroup::Immediate, 28),
            Binding::VMValueFrom => (BindingGroup::Immediate, 29),
            Binding::VMValueAsStr => (BindingGroup::Immediate, 30),
            Binding::VMValueAsFloat => (BindingGroup::Immediate, 31),
            Binding::VMStrStrEq => (BindingGroup::Immediate, 32),
            Binding::VMStrParse => (BindingGroup::Immediate, 33),
            Binding::VMStrFrom => (BindingGroup::Immediate, 34),
            Binding::VMStrAsVmValue => (BindingGroup::Immediate, 35),
            Binding::VMStrPtr => (BindingGroup::Immediate, 36),
            Binding::VMStrAsStr => (BindingGroup::Immediate, 37),
            Binding::VMStrLen => (BindingGroup::Immediate, 38),
            Binding::RuntimeSetErrorData => (BindingGroup::Awaitable, 0),
            Binding::RuntimeSpawn => (BindingGroup::Awaitable, 1),
            Binding::VirtualThreadGetTempVmstrs => (BindingGroup::Awaitable, 2),
            Binding::VirtualThreadSetErrorData => (BindingGroup::Awaitable, 3),
            Binding::VirtualThreadSpawn => (BindingGroup::Awaitable, 4),
            Binding::VMStrFromStr => (BindingGroup::Awaitable, 5),
            Binding::VMStrDrop => (BindingGroup::Awaitable, 6),
            Binding::VirtualThreadGetMemU64 => (BindingGroup::Late, 0),
            Binding::VirtualThreadGetMemU32 => (BindingGroup::Late, 1),
            Binding::VirtualThreadGetMemU16 => (BindingGroup::Late, 2),
            Binding::VirtualThreadGetMemU8 => (BindingGroup::Late, 3),
            Binding::VirtualThreadGetMemAbsoluteU64 => (BindingGroup::Late, 4),
            Binding::VirtualThreadGetMemAbsoluteU32 => (BindingGroup::Late, 5),
            Binding::VirtualThreadGetMemAbsoluteU16 => (BindingGroup::Late, 6),
            Binding::VirtualThreadGetMemAbsoluteU8 => (BindingGroup::Late, 7),
            Binding::VirtualThreadSetMemAbsoluteU64 => (BindingGroup::Late, 8),
            Binding::VirtualThreadSetMemAbsoluteU32 => (BindingGroup::Late, 9),
            Binding::VirtualThreadSetMemAbsoluteU16 => (BindingGroup::Late, 10),
            Binding::VirtualThreadSetMemAbsoluteU8 => (BindingGroup::Late, 11),
            Binding::VirtualThreadSetRegU64 => (BindingGroup::Late, 12),
            Binding::VirtualThreadSetRegU32 => (BindingGroup::Late, 13),
            Binding::VirtualThreadSetRegU16 => (BindingGroup::Late, 14),
            Binding::VirtualThreadSetRegU8 => (BindingGroup::Late, 15),
            Binding::VirtualThreadGetRegU64 => (BindingGroup::Late, 16),
            Binding::VirtualThreadGetRegU32 => (BindingGroup::Late, 17),
            Binding::VirtualThreadGetRegU16 => (BindingGroup::Late, 18),
            Binding::VirtualThreadGetRegU8 => (BindingGroup::Late, 19),
            Binding::VMStrPush => (BindingGroup::Late, 20),
            Binding::VMStrClonedPush => (BindingGroup::Late, 21),
            Binding::ExtensionDataLock => (BindingGroup::Late, 22),
        }
    }

    /// The slot of the table that holds this function.
    pub fn slot(self) -> (s: usize)
        ensures
            s == slot_of(self),
            s < binding_count(),
    {
        proof {
            lemma_placement_is_declared(self);
        }
        let (group, index) = self.placement();
        group.base() + index
    }
}

/// Each function stands in its run at the position that `placement` gives.
pub proof fn lemma_placement_is_declared(b: Binding)
    ensures
        0 <= placement(b).1 < group_len(placement(b).0),
        declared_binding(placement(b).0, placement(b).1) == Some(b),
        0 <= slot_of(b) < binding_count(),
{
}

/// A run lists exactly its positions below its length, and `placement`
/// finds each listed function where it is listed.
pub proof fn lemma_declared_is_placed(g: BindingGroup, i: int)
    ensures
        declared_binding(g, i) is Some <==> 0 <= i < group_len(g),
        declared_binding(g, i) matches Some(b) ==> placement(b) == (g, i),
{
}

/// Two different functions never share a slot.
pub proof fn lemma_slots_distinct(a: Binding, b: Binding)
    requires
        a != b,
    ensures
        slot_of(a) != slot_of(b),
{
    lemma_placement_is_declared(a);
    lemma_placement_is_declared(b);
    if placement(a) == placement(b) {
        assert(declared_binding(placement(a).0, placement(a).1) == Some(b));
    }
}

/// Every slot below the count holds some function: the table has no gap.
pub proof fn lemma_slots_fill_table(s: int)
    requires
        0 <= s < binding_count(),
    ensures
        exists|b: Binding| slot_of(b) == s,
{
    let (g, i) = if s < group_base(BindingGroup::Awaitable) {
        (BindingGroup::Immediate, s)
    } else if s < group_base(BindingGroup::Late) {
        (BindingGroup::Awaitable, s - group_base(BindingGroup::Awaitable))
    } else {
        (BindingGroup::Late, s - group_base(BindingGroup::Late))
    };
    lemma_declared_is_placed(g, i);
    let b = declared_binding(g, i).unwrap();
    assert(slot_of(b) == s);
}

/// The host's function table as an extension sees it once it is loaded: the
/// address of each function, and the id that the host gave the extension.
pub struct Bindings {
    extension_id: u32,
    addresses: Vec<usize>,
}

impl Bindings {
    #[verifier::type_invariant]
    spec fn holds_every_slot(self) -> bool {
        self.addresses.len() == binding_count()
    }

    /// The id that the host gave the extension.
    pub closed spec fn spec_extension_id(self) -> u32 {
        self.extension_id
    }

    /// The address stored for each slot of the table.
    pub closed spec fn table(self) -> Seq<usize> {
        self.addresses@
    }

    /// Reads the first `binding_count()` slots of the host's table.
    pub(crate) fn load(table: &[usize], extension_id: u32) -> (b: Bindings)
        requires
            table@.len() >= binding_count(),
        ensures
            b.table() == table@.subrange(0, binding_count() as int),
            b.spec_extension_id() == extension_id,
    {
        let count: usize = BindingGroup::Late.base() + BindingGroup::Late.len();
        let mut addresses: Vec<usize> = Vec::new();
        let mut i: usize = 0;
        while i < count
            invariant
                count == binding_count(),
                count <= table@.len(),
                i <= count,
                addresses@ == table@.subrange(0, i as int),
            decreases count - i,
        {
            addresses.push(table[i]);
            i = i + 1;
            assert(addresses@ == table@.subrange(0, i as int));
        }
        Bindings { extension_id, addresses }
    }

    /// The id that the host gave the extension.
    pub(crate) fn extension_id(&self) -> (id: u32)
        ensures
            id == self.spec_extension_id(),
    {
        self.extension_id
    }

    /// The address of the host function `b`.
    pub fn address(&self, b: Binding) -> (a: usize)
        ensures
            self.table().len() == binding_count(),
            a == self.table()[slot_of(b)],
    {
        proof {
            use_type_invariant(self);
        }
        self.addresses[b.slot()]
    }
}

/// Once a table is loaded, each function is read from its own slot of the
/// table that the host handed over.
pub proof fn lemma_loaded_address(bindings: Bindings, table: Seq<usize>, b: Binding)
    requires
        table.len() >= binding_count(),
        bindings.table() == table.subrange(0, binding_count() as int),
    ensures
        bindings.table()[slot_of(b)] == table[slot_of(b)],
{
    lemma_placement_is_declared(b);
}

} // verus!
