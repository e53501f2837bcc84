//! AXON-Bridge PD start-up: AXON runs only once its ABI token has been
//! validated.
use vstd::prelude::*;

verus! {

/// The verdict of the ABI token check.
#[derive(Clone, Copy, Debug, PartialEq, Eq, Structural)]
pub enum AbiVerdict {
    Valid,
    Invalid,
}

/// What a start-up with a valid token logs.
pub open spec fn axon_bridge_init_log() -> Seq<&'static str> {
    seq![
        "AXON-Bridge: ABI token validation\n",
        "AXON-Bridge: ABI token VALID\n",
        "AXON-Bridge: capability registry initialized\n",
        "AXON-Bridge: @constant_time contracts active\n",
        "AXON-Bridge: AXON-STUB-001 FFI stubs registered\n",
    ]
}

/// Start-up, given the verdict on the ABI token: a valid token brings up the
/// capability registry and the FFI stubs; the PD halts on an invalid one.
pub fn axon_bridge_init(verdict: AbiVerdict) -> (log: Vec<&'static str>)
    requires
        verdict == AbiVerdict::Valid,
    ensures
        log@ == axon_bridge_init_log(),
{
    let mut log: Vec<&'static str> = Vec::new();
    log.push("AXON-Bridge: ABI token validation\n");
    match verdict {
        AbiVerdict::Valid => {
            log.push("AXON-Bridge: ABI token VALID\n");
        },
        AbiVerdict::Invalid => {
            log.push("AXON-Bridge: ABI token INVALID — halting\n");
            return log;
        },
    }
    log.push("AXON-Bridge: capability registry initialized\n");
    log.push("AXON-Bridge: @constant_time contracts active\n");
    log.push("AXON-Bridge: AXON-STUB-001 FFI stubs registered\n");
    assert(log@ =~= axon_bridge_init_log());
    log
}

} // verus!
