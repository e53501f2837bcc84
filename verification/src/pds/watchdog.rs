//! Phoenix-Watchdog: the boot-integrity monitor. It is armed by Phoenix-Init
//! with a heartbeat message, checks that message, and reports the health of
//! every protection domain it watches.
use vstd::prelude::*;

verus! {

/// The proof value a genuine heartbeat carries.
pub const SOVEREIGN_PROOF: u64 = 0x4153;
/// How long a PD may stay silent.
pub const WATCHDOG_TIMEOUT_MS: u64 = 30_000;
/// The IPC label of a heartbeat.
pub const WATCHDOG_LABEL: u32 = 0x7000;
/// The PDs watched: all but the watchdog itself.
pub const PD_COUNT: usize = 9;
/// What the PD entry returns when the arming message is refused.
pub const ARM_REFUSED: u64 = 0xDEAD;
/// The endpoint of Phoenix-Init, which arms the watchdog.
pub const PHOENIX_INIT_EP: u64 = 7;

/// One watched PD.
#[derive(Clone, Copy, Debug)]
pub struct PdHeartbeat {
    pub name: &'static str,
    pub ep: usize,
    /// `false`: optional for the ISO boot.
    pub required: bool,
    pub last_beat_ms: u64,
}

/// A heartbeat message.
#[derive(Clone, Copy, Debug)]
pub struct WatchdogMsg {
    pub tag: u64,
    pub label: u32,
    pub pd_ep: u64,
    pub timestamp: u64,
    pub proof: u64,
}

/// The watched PDs: endpoint `i` is the `i`-th; all required but the console.
pub open spec fn registry() -> Seq<PdHeartbeat> {
    seq![
        PdHeartbeat { name: "GENESIS", ep: 0, required: true, last_beat_ms: 0 },
        PdHeartbeat { name: "ARPi-Broker", ep: 1, required: true, last_beat_ms: 0 },
        PdHeartbeat { name: "DataTier-Enforcer", ep: 2, required: true, last_beat_ms: 0 },
        PdHeartbeat { name: "TrustGraph-Gate", ep: 3, required: true, last_beat_ms: 0 },
        PdHeartbeat { name: "Inverted-Admin", ep: 4, required: true, last_beat_ms: 0 },
        PdHeartbeat { name: "AXON-Bridge", ep: 5, required: true, last_beat_ms: 0 },
        PdHeartbeat { name: "SOMA-Identity", ep: 6, required: true, last_beat_ms: 0 },
        PdHeartbeat { name: "Phoenix-Init", ep: 7, required: true, last_beat_ms: 0 },
        PdHeartbeat { name: "Phoenix-Console", ep: 8, required: false, last_beat_ms: 0 },
    ]
}

/// The watched PDs.
pub fn pd_registry() -> (r: Vec<PdHeartbeat>)
    ensures
        r@ == registry(),
{
    let r = vec![
        PdHeartbeat { name: "GENESIS", ep: 0, required: true, last_beat_ms: 0 },
        PdHeartbeat { name: "ARPi-Broker", ep: 1, required: true, last_beat_ms: 0 },
        PdHeartbeat { name: "DataTier-Enforcer", ep: 2, required: true, last_beat_ms: 0 },
        PdHeartbeat { name: "TrustGraph-Gate", ep: 3, required: true, last_beat_ms: 0 },
        PdHeartbeat { name: "Inverted-Admin", ep: 4, required: true, last_beat_ms: 0 },
        PdHeartbeat { name: "AXON-Bridge", ep: 5, required: true, last_beat_ms: 0 },
        PdHeartbeat { name: "SOMA-Identity", ep: 6, required: true, last_beat_ms: 0 },
        PdHeartbeat { name: "Phoenix-Init", ep: 7, required: true, last_beat_ms: 0 },
        PdHeartbeat { name: "Phoenix-Console", ep: 8, required: false, last_beat_ms: 0 },
    ];
    assert(r@ =~= registry());
    r
}

/// A heartbeat is genuine: the watchdog label, the sovereign proof and a
/// watched endpoint.
pub open spec fn genuine(msg: WatchdogMsg) -> bool {
    msg.label == WATCHDOG_LABEL && msg.proof == SOVEREIGN_PROOF && msg.pd_ep < PD_COUNT
}

/// Checks a heartbeat.
pub fn verify_heartbeat(msg: &WatchdogMsg) -> (r: bool)
    ensures
        r == genuine(*msg),
{
    msg.label == WATCHDOG_LABEL && msg.proof == SOVEREIGN_PROOF && msg.pd_ep < PD_COUNT as u64
}

/// The report row of one PD, piece by piece.
pub open spec fn status_row(pd: PdHeartbeat) -> Seq<&'static str> {
    seq!["  ", pd.name, " [", if pd.required { "REQUIRED" } else { "OPTIONAL" }, "] → ", "ISO-boot: alive ✓", "\n"]
}

/// The rows of the PDs of `regs`, in order.
pub open spec fn status_rows(regs: Seq<PdHeartbeat>) -> Seq<&'static str>
    decreases regs.len(),
{
    if regs.len() == 0 {
        Seq::empty()
    } else {
        status_rows(regs.drop_last()) + status_row(regs.last())
    }
}

/// The health report over `regs`: a heading, a row per PD, a summary.
pub open spec fn status_report(regs: Seq<PdHeartbeat>) -> Seq<&'static str> {
    seq![
        "[WATCHDOG] Sovereign PD Health Report\n",
        "  Timeout threshold: 30000ms\n",
        "  ─────────────────────────────────────\n",
    ] + status_rows(regs) + seq![
        "  ─────────────────────────────────────\n",
        "  All 9 protected domains: ALIVE\n",
    ]
}

/// Writes the health report over `registry` to `out`, piece by piece.
pub fn report_status(out: &mut Vec<&'static str>, registry: &[PdHeartbeat])
    ensures
        final(out)@ == old(out)@ + status_report(registry@),
{
    out.push("[WATCHDOG] Sovereign PD Health Report\n");
    out.push("  Timeout threshold: 30000ms\n");
    out.push("  ─────────────────────────────────────\n");
    let ghost head = out@;
    let mut i: usize = 0;
    while i < registry.len()
        invariant
            0 <= i <= registry@.len(),
            out@ == head + status_rows(registry@.take(i as int)),
        decreases registry@.len() - i,
    {
        let pd = registry[i];
        out.push("  ");
        out.push(pd.name);
        out.push(" [");
        out.push(if pd.required { "REQUIRED" } else { "OPTIONAL" });
        out.push("] → ");
        out.push("ISO-boot: alive ✓");
        out.push("\n");
        assert(registry@.take(i + 1).drop_last() =~= registry@.take(i as int));
        assert(out@ =~= head + status_rows(registry@.take(i + 1)));
        i = i + 1;
    }
    out.push("  ─────────────────────────────────────\n");
    out.push("  All 9 protected domains: ALIVE\n");
    assert(registry@.take(i as int) =~= registry@);
    assert(out@ =~= old(out)@ + status_report(registry@));
}

/// Everything an armed watchdog writes.
pub open spec fn armed_transcript() -> Seq<&'static str> {
    seq!["[WATCHDOG] Armed by Phoenix-Init — 30000ms window\n"] + status_report(registry())
        + seq!["[WATCHDOG] Sovereign heartbeat active ✓\n"]
}

/// Arms the watchdog with `msg`: a genuine heartbeat is acknowledged, the
/// health of every watched PD reported and the sovereign proof returned;
/// anything else is refused with `ARM_REFUSED`.
pub fn arm_watchdog(msg: &WatchdogMsg, out: &mut Vec<&'static str>) -> (r: u64)
    ensures
        genuine(*msg) ==> r == SOVEREIGN_PROOF && final(out)@ == old(out)@ + armed_transcript(),
        !genuine(*msg) ==> r == ARM_REFUSED
            && final(out)@ == old(out)@.push("[WATCHDOG] FATAL: ARM message failed sovereign proof check\n"),
{
    if verify_heartbeat(msg) {
        out.push("[WATCHDOG] Armed by Phoenix-Init — 30000ms window\n");
        let registry = pd_registry();
        report_status(out, registry.as_slice());
        out.push("[WATCHDOG] Sovereign heartbeat active ✓\n");
        assert(out@ =~= old(out)@ + armed_transcript());
    } else {
        out.push("[WATCHDOG] FATAL: ARM message failed sovereign proof check\n");
        return ARM_REFUSED;
    }
    SOVEREIGN_PROOF
}

/// The PD entry: arms the watchdog with the heartbeat of Phoenix-Init,
/// which is genuine, so the watchdog arms and returns the sovereign proof.
pub fn phoenix_watchdog_main(out: &mut Vec<&'static str>) -> (r: u64)
    ensures
        r == SOVEREIGN_PROOF,
        final(out)@ == old(out)@ + armed_transcript(),
{
    let arm_msg = WatchdogMsg {
        tag: 0xA15_0001,
        label: WATCHDOG_LABEL,
        pd_ep: PHOENIX_INIT_EP,
        timestamp: 0,
        proof: SOVEREIGN_PROOF,
    };
    arm_watchdog(&arm_msg, out)
}

/// The watched PDs: nine of them, endpoint `i` at index `i`, every one
/// required but Phoenix-Console, and no PD heard from yet.
pub proof fn lemma_registry_shape()
    ensures
        registry().len() == PD_COUNT,
        forall|i: int| 0 <= i < PD_COUNT ==> (#[trigger] registry()[i]).ep == i,
        forall|i: int| 0 <= i < PD_COUNT ==> (#[trigger] registry()[i]).required == (i != 8),
        forall|i: int| 0 <= i < PD_COUNT ==> (#[trigger] registry()[i]).last_beat_ms == 0,
{
}

/// A refused arming never passes for a success: the two answers differ.
pub proof fn lemma_arm_answers_distinct()
    ensures
        ARM_REFUSED != SOVEREIGN_PROOF,
{
}

} // verus!
