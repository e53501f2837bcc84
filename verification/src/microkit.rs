//! Driver and engine protection domains of the Microkit build: their state,
//! what each notification and protected call does to it, the status it
//! answers and the lines it logs to the debug console, plus the scheduling
//! and timing contracts of the stack.
use vstd::prelude::*;

pub mod arpi;
pub mod axon_bridge;
pub mod bindings;
pub mod dbg;
pub mod edisondb;
pub mod gate;
pub mod genesis;
pub mod haniel;
pub mod input;
pub mod mcs;
pub mod network;
pub mod onyxia;
pub mod storage;
pub mod usb;
pub mod wcet;

verus! {

/// The operation code of a protected call: the top byte of its message info.
pub open spec fn op_code(msginfo: u64) -> u8 {
    ((msginfo >> 56u64) & 0xFF) as u8
}

/// The operation code of a protected call: the top byte of its message info.
pub fn op_of(msginfo: u64) -> (r: u8)
    ensures
        r == op_code(msginfo),
{
    ((msginfo >> 56u64) & 0xFF) as u8
}

/// The second byte of a message info: the data tier of a database call.
pub open spec fn tier_byte(msginfo: u64) -> u8 {
    ((msginfo >> 48u64) & 0xFF) as u8
}

/// The second byte of a message info: the data tier of a database call.
pub fn tier_of(msginfo: u64) -> (r: u8)
    ensures
        r == tier_byte(msginfo),
{
    ((msginfo >> 48u64) & 0xFF) as u8
}

} // verus!
