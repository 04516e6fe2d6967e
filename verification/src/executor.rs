use vstd::prelude::*;

use crate::shutdown_type::ShutdownType;

verus! {

/// What the host does after an extension function returns: carry on with
/// the thread, or shut the virtual machine down.
pub enum ExecutorBehaviour {
    Continue,
    Shutdown(ShutdownType),
}

} // verus!
