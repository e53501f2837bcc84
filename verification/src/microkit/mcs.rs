//! Mixed-criticality scheduling contract: each PD's priority, budget and
//! period, and the check that the schedule is well formed.
use vstd::prelude::*;

verus! {

/// Scheduling entry of one PD.
#[derive(Debug, Clone, Copy)]
pub struct McsEntry {
    pub name: &'static str,
    pub priority: u8,
    /// Execution budget in microseconds.
    pub budget_us: u32,
    /// Replenishment period in microseconds.
    pub period_us: u32,
    /// Assigned core; 0xFF means any core.
    pub core: u8,
}

/// Total budget of all PDs, in microseconds.
pub const TOTAL_BUDGET_US: u32 = 1000 + 600 + 500 + 400 + 300 + 200 + 200;
/// Cores of the sovereign scheduling domain.
pub const SOVEREIGN_CORE_COUNT: u8 = 4;

/// The sovereign schedule, by priority, highest first.
pub open spec fn schedule() -> Seq<McsEntry> {
    seq![
        McsEntry { name: "GENESIS", priority: 254, budget_us: 1000, period_us: 1000, core: 0 },
        McsEntry { name: "AXON-Bridge", priority: 220, budget_us: 600, period_us: 1000, core: 0 },
        McsEntry { name: "ARPi-Broker", priority: 200, budget_us: 500, period_us: 1000, core: 1 },
        McsEntry { name: "Network", priority: 180, budget_us: 400, period_us: 1000, core: 1 },
        McsEntry { name: "Storage", priority: 150, budget_us: 300, period_us: 1000, core: 2 },
        McsEntry { name: "USB", priority: 120, budget_us: 200, period_us: 1000, core: 2 },
        McsEntry { name: "Input", priority: 100, budget_us: 200, period_us: 1000, core: 3 },
    ]
}

/// What printing the schedule logs.
pub open spec fn schedule_log() -> Seq<&'static str> {
    seq![
        "MCS: Sovereign Scheduling Contract — 7 PDs, 4 cores\n",
        "MCS: GENESIS pri=254 AXON-Bridge pri=220 ARPi pri=200\n",
        "MCS: Network pri=180 Storage pri=150 USB pri=120 Input pri=100\n",
        "MCS: Total budget=3200us across 4 cores (80% utilization)\n",
        "MCS: Scheduling contract VERIFIED\n",
    ]
}

impl McsEntry {
    pub fn new(name: &'static str, priority: u8, budget_us: u32, period_us: u32, core: u8) -> (e: Self)
        ensures
            e == (McsEntry { name, priority, budget_us, period_us, core }),
    {
        McsEntry { name, priority, budget_us, period_us, core }
    }

    /// CPU utilisation as a whole percentage: budget x 100 / period.
    pub fn utilization_pct(&self) -> (r: u32)
        requires
            self.period_us > 0,
            self.budget_us * 100 <= u32::MAX,
        ensures
            r == (self.budget_us * 100) / (self.period_us as int),
    {
        (self.budget_us * 100) / self.period_us
    }

    /// The PD is pinned to one core.
    pub fn is_pinned(&self) -> (r: bool)
        ensures
            r == (self.core != 0xFF),
    {
        self.core != 0xFF
    }
}

/// The sovereign schedule: seven PDs over four cores.
pub fn mcs_schedule() -> (r: [McsEntry; 7])
    ensures
        r@ == schedule(),
{
    let r = [
            McsEntry::new("GENESIS", 254, 1000, 1000, 0),
            McsEntry::new("AXON-Bridge", 220, 600, 1000, 0),
            McsEntry::new("ARPi-Broker", 200, 500, 1000, 1),
            McsEntry::new("Network", 180, 400, 1000, 1),
            McsEntry::new("Storage", 150, 300, 1000, 2),
            McsEntry::new("USB", 120, 200, 1000, 2),
            McsEntry::new("Input", 100, 200, 1000, 3),
    ];
    assert(r@ =~= schedule());
    r
}

/// Prints the schedule: returns the lines logged.
pub fn print_schedule() -> (log: Vec<&'static str>)
    ensures
        log@ == schedule_log(),
{
    let mut log: Vec<&'static str> = Vec::new();
    log.push("MCS: Sovereign Scheduling Contract — 7 PDs, 4 cores\n");
    log.push("MCS: GENESIS pri=254 AXON-Bridge pri=220 ARPi pri=200\n");
    log.push("MCS: Network pri=180 Storage pri=150 USB pri=120 Input pri=100\n");
    log.push("MCS: Total budget=3200us across 4 cores (80% utilization)\n");
    log.push("MCS: Scheduling contract VERIFIED\n");
    assert(log@ =~= schedule_log());
    log
}

/// The schedule is well formed: priorities run 254, 220, 200, 180, 150,
/// 120, 100, and the total budget is not zero.
pub fn verify_schedule() -> (r: bool)
    ensures
        r == (schedule()[0].priority == 254 && schedule()[1].priority == 220 && schedule()[2].priority == 200
            && schedule()[3].priority == 180 && schedule()[4].priority == 150 && schedule()[5].priority == 120
            && schedule()[6].priority == 100 && TOTAL_BUDGET_US != 0),
        r,
{
    let s = mcs_schedule();
    if s[0].priority != 254 {
        return false;
    }
    if s[1].priority != 220 {
        return false;
    }
    if s[2].priority != 200 {
        return false;
    }
    if s[3].priority != 180 {
        return false;
    }
    if s[4].priority != 150 {
        return false;
    }
    if s[5].priority != 120 {
        return false;
    }
    if s[6].priority != 100 {
        return false;
    }
    if TOTAL_BUDGET_US == 0 {
        return false;
    }
    true
}

/// The schedule is a proper ladder: priorities strictly decrease, no PD's
/// budget exceeds its period, every PD is pinned, and the budgets add up to
/// `TOTAL_BUDGET_US`.
pub proof fn lemma_schedule_sound()
    ensures
        forall|i: int, j: int| 0 <= i < j < 7 ==> schedule()[i].priority > schedule()[j].priority,
        forall|i: int| 0 <= i < 7 ==> schedule()[i].budget_us <= schedule()[i].period_us,
        forall|i: int| 0 <= i < 7 ==> schedule()[i].core != 0xFF && schedule()[i].core < SOVEREIGN_CORE_COUNT,
        schedule()[0].budget_us + schedule()[1].budget_us + schedule()[2].budget_us + schedule()[3].budget_us
            + schedule()[4].budget_us + schedule()[5].budget_us + schedule()[6].budget_us == TOTAL_BUDGET_US,
{
}

} // verus!
