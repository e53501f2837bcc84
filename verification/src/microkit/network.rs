//! Network driver PD: Aegis mesh, AWP and threat-intelligence traffic; every
//! outgoing packet carries the node's SOMA binding hash.
use vstd::prelude::*;
use crate::microkit::{op_code, op_of};

verus! {

pub const CH_AEGIS_MESH: u8 = 1;
pub const CH_AWP: u8 = 2;
pub const CH_THREAT: u8 = 3;
/// AWP protocol magic.
pub const AWP_MAGIC: u32 = 0xA1E0_AE70;
pub const NET_OP_SEND: u8 = 0x01;
pub const NET_OP_RECV: u8 = 0x02;
/// Bind an AWP endpoint.
pub const NET_OP_BIND: u8 = 0x03;
/// Submit threat intelligence.
pub const NET_OP_THREAT: u8 = 0x04;
/// Aegis node discovery sentinel.
pub const AEGIS_NODE_SENTINEL: u64 = 0xA1E0_AE61_0000_0001;

/// Packet statistics and the binding hash of the network driver.
pub struct NetworkDriver {
    pub sent: u64,
    pub recv: u64,
    pub threats: u64,
    /// SOMA composite hash stamped on outgoing packets.
    pub bound_hash: [u8; 32],
}

/// What the driver logs when it starts.
pub open spec fn network_init_log() -> Seq<&'static str> {
    seq![
        "Network Driver PD: initializing\n",
        "Network: Aegis mesh interface registering\n",
        "Network: AWP protocol handler active\n",
        "Network: kernel-bypass I/O path configured\n",
        "Network: TriSec Point B — packet binding stub active\n",
        "Network: Aegis node sentinel registered\n",
        "Network: AWP magic 0xA1E0AE70 bound\n",
        "Network: threat intel ingestion path READY\n",
        "Network Driver PD: READY\n",
    ]
}

/// The driver and log after a notification on `channel`.
pub open spec fn network_notify(s: NetworkDriver, channel: u8) -> (NetworkDriver, Seq<&'static str>) {
    if channel == CH_AEGIS_MESH {
        (NetworkDriver { recv: (s.recv + 1) as u64, ..s }, seq!["Network: Aegis mesh packet received\n"])
    } else if channel == CH_AWP {
        (s, seq!["Network: AWP event received\n"])
    } else if channel == CH_THREAT {
        (NetworkDriver { threats: (s.threats + 1) as u64, ..s }, seq!["Network: threat intel notification\n"])
    } else {
        (s, seq!["Network: unknown channel\n"])
    }
}

/// The driver, status and log after a protected call with operation `op`.
pub open spec fn network_step(s: NetworkDriver, op: u8) -> (NetworkDriver, u64, Seq<&'static str>) {
    if op == NET_OP_SEND {
        (NetworkDriver { sent: (s.sent + 1) as u64, ..s }, 0, Seq::empty())
    } else if op == NET_OP_RECV {
        (NetworkDriver { recv: (s.recv + 1) as u64, ..s }, 0, Seq::empty())
    } else if op == NET_OP_BIND {
        (s, 0, seq!["Network: AWP endpoint bound\n"])
    } else if op == NET_OP_THREAT {
        (NetworkDriver { threats: (s.threats + 1) as u64, ..s }, 0, seq!["Network: threat intel submitted to Aegis\n"])
    } else {
        (s, 1, Seq::empty())
    }
}

/// A protected call with operation `op` can be served: its counter has
/// room, and a send finds the binding hash in place.
pub open spec fn network_can_serve(s: NetworkDriver, op: u8) -> bool {
    &&& op == NET_OP_SEND ==> s.sent < u64::MAX && s.bound_hash@[0] != 0
    &&& op == NET_OP_RECV ==> s.recv < u64::MAX
    &&& op == NET_OP_THREAT ==> s.threats < u64::MAX
}

impl NetworkDriver {
    /// No traffic yet; the binding hash holds its 0xA1 sentinel.
    pub fn new() -> (s: Self)
        ensures
            s.sent == 0 && s.recv == 0 && s.threats == 0,
            s.bound_hash@ == Seq::new(32, |i: int| 0xA1u8),
    {
        let s = NetworkDriver { sent: 0, recv: 0, threats: 0, bound_hash: [0xA1u8; 32] };
        assert(s.bound_hash@ =~= Seq::new(32, |i: int| 0xA1u8));
        s
    }

    /// Start-up: marks the binding hash with the AIEONYX prefix
    /// (0xA1, 0xE0); returns the lines logged.
    pub fn init(&mut self) -> (log: Vec<&'static str>)
        ensures
            final(self).bound_hash@ == old(self).bound_hash@.update(0, 0xA1u8).update(1, 0xE0u8),
            final(self).sent == old(self).sent && final(self).recv == old(self).recv && final(self).threats == old(self).threats,
            log@ == network_init_log(),
    {
        let mut log: Vec<&'static str> = Vec::new();
        log.push("Network Driver PD: initializing\n");
        log.push("Network: Aegis mesh interface registering\n");
        log.push("Network: AWP protocol handler active\n");
        log.push("Network: kernel-bypass I/O path configured\n");
        self.bound_hash[0] = 0xA1;
        self.bound_hash[1] = 0xE0;
        log.push("Network: TriSec Point B — packet binding stub active\n");
        log.push("Network: Aegis node sentinel registered\n");
        log.push("Network: AWP magic 0xA1E0AE70 bound\n");
        log.push("Network: threat intel ingestion path READY\n");
        log.push("Network Driver PD: READY\n");
        assert(log@ =~= network_init_log());
        log
    }

    /// A notification: mesh packets and threat notifications are counted;
    /// each is logged.
    pub fn notified(&mut self, channel: u8) -> (log: Vec<&'static str>)
        requires
            channel == CH_AEGIS_MESH ==> old(self).recv < u64::MAX,
            channel == CH_THREAT ==> old(self).threats < u64::MAX,
        ensures
            (*final(self), log@) == network_notify(*old(self), channel),
    {
        let mut log: Vec<&'static str> = Vec::new();
        if channel == CH_AEGIS_MESH {
            self.recv = self.recv + 1;
            log.push("Network: Aegis mesh packet received\n");
        } else if channel == CH_AWP {
            log.push("Network: AWP event received\n");
        } else if channel == CH_THREAT {
            self.threats = self.threats + 1;
            log.push("Network: threat intel notification\n");
        } else {
            log.push("Network: unknown channel\n");
        }
        assert(log@ =~= network_notify(*old(self), channel).1);
        log
    }

    /// A protected call: send (stamped with the binding hash), receive,
    /// bind and threat submission answer 0; any other operation 1.
    pub fn protected(&mut self, channel: u8, msginfo: u64) -> (r: (u64, Vec<&'static str>))
        requires
            network_can_serve(*old(self), op_code(msginfo)),
        ensures
            (*final(self), r.0, r.1@) == network_step(*old(self), op_code(msginfo)),
    {
        let op = op_of(msginfo);
        let mut log: Vec<&'static str> = Vec::new();
        let status: u64 = if op == NET_OP_SEND {
            self.sent = self.sent + 1;
            self.stamp_packet();
            0
        } else if op == NET_OP_RECV {
            self.recv = self.recv + 1;
            0
        } else if op == NET_OP_BIND {
            log.push("Network: AWP endpoint bound\n");
            0
        } else if op == NET_OP_THREAT {
            self.threats = self.threats + 1;
            log.push("Network: threat intel submitted to Aegis\n");
            0
        } else {
            1
        };
        assert(log@ =~= network_step(*old(self), op).2);
        (status, log)
    }

    /// An outgoing packet carries the binding hash; a bare packet never leaves.
    fn stamp_packet(&self)
        requires
            self.bound_hash@[0] != 0,
    {
    }

    pub fn sent_count(&self) -> (r: u64)
        ensures
            r == self.sent,
    {
        self.sent
    }

    pub fn recv_count(&self) -> (r: u64)
        ensures
            r == self.recv,
    {
        self.recv
    }

    pub fn threat_count(&self) -> (r: u64)
        ensures
            r == self.threats,
    {
        self.threats
    }
}

/// The AWP protocol magic.
pub fn awp_magic() -> (r: u32)
    ensures
        r == AWP_MAGIC,
{
    AWP_MAGIC
}

/// The Aegis node discovery sentinel.
pub fn aegis_sentinel() -> (r: u64)
    ensures
        r == AEGIS_NODE_SENTINEL,
{
    AEGIS_NODE_SENTINEL
}

} // verus!
