use vstd::prelude::*;

verus! {

/// How the host runs the instructions of a virtual thread, and which lock it
/// takes for that. The host stores it as a byte (see [`ExecutorKind::code`]).
#[derive(Clone, Copy, PartialEq, Eq, Structural)]
pub enum ExecutorKind {
    Atomic,
    SysLockInst,
    SpinLockInst,
    SysLockBlock,
    SpinLockBlock,
}

/// How the host schedules virtual threads. The host stores it as a byte
/// (see [`ThreadingKind::code`]).
#[derive(Clone, Copy, PartialEq, Eq, Structural)]
pub enum ThreadingKind {
    Single,
    Managed,
    Unmanaged,
}

/// The configuration that a program archive carries.
pub struct VMConfig {
    pub executor_kind: ExecutorKind,
    pub threading_kind: ThreadingKind,
    pub max_threads: u16,
    pub stack_size: u64,
}

/// The byte that stands for each executor kind.
pub open spec fn executor_kind_code(k: ExecutorKind) -> u8 {
    match k {
        ExecutorKind::Atomic => 0,
        ExecutorKind::SysLockInst => 1,
        ExecutorKind::SpinLockInst => 2,
        ExecutorKind::SysLockBlock => 3,
        ExecutorKind::SpinLockBlock => 4,
    }
}

/// The byte that stands for each threading kind.
pub open spec fn threading_kind_code(k: ThreadingKind) -> u8 {
    match k {
        ThreadingKind::Single => 0,
        ThreadingKind::Managed => 1,
        ThreadingKind::Unmanaged => 2,
    }
}

impl ExecutorKind {
    /// The byte that stands for this executor kind.
    pub fn code(self) -> (c: u8)
        ensures
            c == executor_kind_code(self),
    {
        match self {
            ExecutorKind::Atomic => 0,
            ExecutorKind::SysLockInst => 1,
            ExecutorKind::SpinLockInst => 2,
            ExecutorKind::SysLockBlock => 3,
            ExecutorKind::SpinLockBlock => 4,
        }
    }

    /// The executor kind that a byte stands for, if any.
    pub fn from_code(c: u8) -> (k: Option<ExecutorKind>)
        ensures
            k matches Some(e) ==> executor_kind_code(e) == c,
            k is None <==> c > 4,
    {
        match c {
            0 => Some(ExecutorKind::Atomic),
            1 => Some(ExecutorKind::SysLockInst),
            2 => Some(ExecutorKind::SpinLockInst),
            3 => Some(ExecutorKind::SysLockBlock),
            4 => Some(ExecutorKind::SpinLockBlock),
            _ => None,
        }
    }
}

impl ThreadingKind {
    /// The byte that stands for this threading kind.
    pub fn code(self) -> (c: u8)
        ensures
            c == threading_kind_code(self),
    {
        match self {
            ThreadingKind::Single => 0,
            ThreadingKind::Managed => 1,
            ThreadingKind::Unmanaged => 2,
        }
    }

    /// The threading kind that a byte stands for, if any.
    pub fn from_code(c: u8) -> (k: Option<ThreadingKind>)
        ensures
            k matches Some(t) ==> threading_kind_code(t) == c,
            k is None <==> c > 2,
    {
        match c {
            0 => Some(ThreadingKind::Single),
            1 => Some(ThreadingKind::Managed),
            2 => Some(ThreadingKind::Unmanaged),
            _ => None,
        }
    }
}

/// Distinct executor kinds have distinct bytes, so reading a byte back gives
/// the kind it was made from.
pub proof fn lemma_executor_kind_code_injective(a: ExecutorKind, b: ExecutorKind)
    ensures
        executor_kind_code(a) == executor_kind_code(b) ==> a == b,
        executor_kind_code(a) <= 4,
{
}

/// Distinct threading kinds have distinct bytes, so reading a byte back gives
/// the kind it was made from.
pub proof fn lemma_threading_kind_code_injective(a: ThreadingKind, b: ThreadingKind)
    ensures
        threading_kind_code(a) == threading_kind_code(b) ==> a == b,
        threading_kind_code(a) <= 2,
{
}

} // verus!
