use vstd::prelude::*;

verus! {

/// How a virtual machine run ends. The host stores it as a byte
/// (see [`ShutdownType::code`]).
#[derive(Debug, PartialEq, Eq, Clone, Copy, Structural)]
pub enum ShutdownType {
    NoShutdown,
    Gracefully,
    Restarting,
    Error,
}

/// The byte that stands for each shutdown type.
pub open spec fn shutdown_code(t: ShutdownType) -> u8 {
    match t {
        ShutdownType::NoShutdown => 0,
        ShutdownType::Gracefully => 1,
        ShutdownType::Restarting => 2,
        ShutdownType::Error => 3,
    }
}

impl ShutdownType {
    /// The byte that stands for this shutdown type.
    pub fn code(self) -> (c: u8)
        ensures
            c == shutdown_code(self),
    {
        match self {
            ShutdownType::NoShutdown => 0,
            ShutdownType::Gracefully => 1,
            ShutdownType::Restarting => 2,
            ShutdownType::Error => 3,
        }
    }

    /// The shutdown type that a byte stands for, if any.
    pub fn from_code(c: u8) -> (t: Option<ShutdownType>)
        ensures
            t matches Some(s) ==> shutdown_code(s) == c,
            t is None <==> c > 3,
    {
        match c {
            0 => Some(ShutdownType::NoShutdown),
            1 => Some(ShutdownType::Gracefully),
            2 => Some(ShutdownType::Restarting),
            3 => Some(ShutdownType::Error),
            _ => None,
        }
    }
}

/// Distinct shutdown types have distinct bytes, so reading a byte back gives
/// the shutdown type it was made from.
pub proof fn lemma_shutdown_code_injective(a: ShutdownType, b: ShutdownType)
    ensures
        shutdown_code(a) == shutdown_code(b) ==> a == b,
        shutdown_code(a) <= 3,
{
}

} // verus!
