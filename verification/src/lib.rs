//! Verified core of the OpenEntry extension interface: the value types that
//! the host runtime and an extension exchange, the layout of the host's
//! function table, and the bookkeeping that an extension does on top of it.

pub mod bindings;
pub mod block_info;
pub mod event;
pub mod executor;
pub mod extension_data;
pub mod shutdown_type;
pub mod vm_config;

use vstd::prelude::*;
use crate::bindings::{binding_count, Bindings};

verus! {

/// Loads the host's function table for the extension with id `id`: every
/// host function is then read from its own slot of `table`, and [`id`]
/// gives back `id`.
pub fn init(table: &[usize], id: u32) -> (b: Bindings)
    requires
        table@.len() >= binding_count(),
    ensures
        b.table() == table@.subrange(0, binding_count() as int),
        b.spec_extension_id() == id,
{
    Bindings::load(table, id)
}

/// The id that the host gave this extension when it loaded it.
pub fn id(bindings: &Bindings) -> (r: u32)
    ensures
        r == bindings.spec_extension_id(),
{
    bindings.extension_id()
}

} // verus!
