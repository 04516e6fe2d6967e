use vstd::prelude::*;

verus! {

/// Where a blocked instruction resumes: at the current instruction, or at
/// the given address.
pub enum UnlockInfo {
    Current,
    Addr(u64),
}

} // verus!
