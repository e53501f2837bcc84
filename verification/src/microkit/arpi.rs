//! ARPi-Broker PD: commissions its route table once the AXON ABI token is
//! known, and turns IPC routing on when GENESIS signals it.
use vstd::prelude::*;

verus! {

/// The channel GENESIS signals on.
pub const CH_GENESIS: u8 = 1;

/// What the broker logs when it starts.
pub open spec fn arpi_init_log() -> Seq<&'static str> {
    seq![
        "ARPi-Broker PD: initializing\n",
        "ARPi-Broker: commissioning route table\n",
        "ARPi-Broker: ABI token validated\n",
        "ARPi-Broker: sovereign IPC READY\n",
    ]
}

/// What the Microkit broker PD logs when it starts.
pub open spec fn arpi_pd_init_log() -> Seq<&'static str> {
    seq![
        "ARPi-Broker PD: initializing\n",
        "ARPi-Broker: route table commissioned\n",
        "ARPi-Broker: ABI token validated\n",
        "ARPi-Broker: sovereign IPC READY\n",
    ]
}

/// What a notification on `channel` logs: routing turns on at the GENESIS
/// signal; other channels log nothing.
pub open spec fn arpi_notify_log(channel: u8) -> Seq<&'static str> {
    if channel == CH_GENESIS {
        seq!["ARPi-Broker: GENESIS signal received\n", "ARPi-Broker: IPC routing ACTIVE\n"]
    } else {
        Seq::empty()
    }
}

/// Start-up with the AXON ABI token `abi_token`, which must be set.
pub fn arpi_init(abi_token: u64) -> (log: Vec<&'static str>)
    requires
        abi_token != 0,
    ensures
        log@ == arpi_init_log(),
{
    let mut log: Vec<&'static str> = Vec::new();
    log.push("ARPi-Broker PD: initializing\n");
    log.push("ARPi-Broker: commissioning route table\n");
    log.push("ARPi-Broker: ABI token validated\n");
    log.push("ARPi-Broker: sovereign IPC READY\n");
    assert(log@ =~= arpi_init_log());
    log
}

/// Start-up of the Microkit broker PD with the AXON ABI token `abi_token`,
/// which must be set.
pub fn arpi_pd_init(abi_token: u64) -> (log: Vec<&'static str>)
    requires
        abi_token != 0,
    ensures
        log@ == arpi_pd_init_log(),
{
    let mut log: Vec<&'static str> = Vec::new();
    log.push("ARPi-Broker PD: initializing\n");
    log.push("ARPi-Broker: route table commissioned\n");
    log.push("ARPi-Broker: ABI token validated\n");
    log.push("ARPi-Broker: sovereign IPC READY\n");
    assert(log@ =~= arpi_pd_init_log());
    log
}

/// A notification on `channel`.
pub fn arpi_notified(channel: u8) -> (log: Vec<&'static str>)
    ensures
        log@ == arpi_notify_log(channel),
{
    let mut log: Vec<&'static str> = Vec::new();
    if channel == CH_GENESIS {
        log.push("ARPi-Broker: GENESIS signal received\n");
        log.push("ARPi-Broker: IPC routing ACTIVE\n");
        assert(log@ =~= arpi_notify_log(channel));
    }
    log
}

} // verus!
