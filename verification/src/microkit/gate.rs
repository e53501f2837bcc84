//! The TrustGraph-Gate PD binary's seL4 IPC buffer.
use vstd::prelude::*;

verus! {

/// seL4 IPC buffer that every Microkit PD provides (512-byte aligned in the
/// PD image).
pub struct SeL4IpcBuffer {
    pub words: [usize; 64],
}

} // verus!
