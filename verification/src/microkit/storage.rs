//! Storage driver PD: dispatches the block operations EdisonDB asks for.
use vstd::prelude::*;
use crate::microkit::{op_code, op_of};

verus! {

/// Read a block.
pub const OP_READ: u8 = 0x01;
/// Write a block.
pub const OP_WRITE: u8 = 0x02;
/// Flush the write-ahead log.
pub const OP_SYNC: u8 = 0x03;
/// Erase (GDPR Art.17).
pub const OP_ERASE: u8 = 0x04;
pub const STATUS_OK: u64 = 0x00;
pub const STATUS_ERR: u64 = 0x01;
pub const STATUS_BUSY: u64 = 0x02;
/// Block size, aligned to the seL4 page size.
pub const BLOCK_SIZE: usize = 4096;

/// Operation counts of the storage driver.
pub struct StorageDriver {
    pub reads: u64,
    pub writes: u64,
    pub erases: u64,
}

/// What the driver logs when it starts.
pub open spec fn storage_init_log() -> Seq<&'static str> {
    seq![
        "Storage Driver PD: initializing\n",
        "Storage: NVMe/eMMC driver stub active\n",
        "Storage: DataTier-Enforcer boundary active\n",
        "Storage: GDPR Art.17 erasure path registered\n",
        "Storage: WAL sync path registered\n",
        "Storage: EdisonDB mount point ready\n",
        "Storage Driver PD: READY\n",
    ]
}

/// The counter a protected call with operation `op` increments has room.
pub open spec fn storage_has_room(s: StorageDriver, op: u8) -> bool {
    &&& op == OP_READ ==> s.reads < u64::MAX
    &&& op == OP_WRITE ==> s.writes < u64::MAX
    &&& op == OP_ERASE ==> s.erases < u64::MAX
}

/// The driver, status and log after a protected call with operation `op`.
pub open spec fn storage_step(s: StorageDriver, op: u8) -> (StorageDriver, u64, Seq<&'static str>) {
    if op == OP_READ {
        (StorageDriver { reads: (s.reads + 1) as u64, ..s }, STATUS_OK, Seq::empty())
    } else if op == OP_WRITE {
        (StorageDriver { writes: (s.writes + 1) as u64, ..s }, STATUS_OK, Seq::empty())
    } else if op == OP_SYNC {
        (s, STATUS_OK, seq!["Storage: WAL sync\n"])
    } else if op == OP_ERASE {
        (StorageDriver { erases: (s.erases + 1) as u64, ..s }, STATUS_OK, seq!["Storage: GDPR Art.17 erasure executed\n"])
    } else {
        (s, STATUS_ERR, Seq::empty())
    }
}

impl StorageDriver {
    pub fn new() -> (s: Self)
        ensures
            s.reads == 0 && s.writes == 0 && s.erases == 0,
    {
        StorageDriver { reads: 0, writes: 0, erases: 0 }
    }

    /// Start-up: the lines logged.
    pub fn init() -> (log: Vec<&'static str>)
        ensures
            log@ == storage_init_log(),
    {
        let mut log: Vec<&'static str> = Vec::new();
        log.push("Storage Driver PD: initializing\n");
        log.push("Storage: NVMe/eMMC driver stub active\n");
        log.push("Storage: DataTier-Enforcer boundary active\n");
        log.push("Storage: GDPR Art.17 erasure path registered\n");
        log.push("Storage: WAL sync path registered\n");
        log.push("Storage: EdisonDB mount point ready\n");
        log.push("Storage Driver PD: READY\n");
        assert(log@ =~= storage_init_log());
        log
    }

    /// A notification is a write-ahead-log sync from EdisonDB.
    pub fn notified(channel: u8) -> (log: Vec<&'static str>)
        ensures
            log@ == seq!["Storage: WAL sync notification received\n"],
    {
        let mut log: Vec<&'static str> = Vec::new();
        log.push("Storage: WAL sync notification received\n");
        assert(log@ =~= seq!["Storage: WAL sync notification received\n"]);
        log
    }

    /// A protected call: read, write and erase are counted, sync and erase
    /// are logged; every known operation answers OK, any other ERR.
    pub fn protected(&mut self, channel: u8, msginfo: u64) -> (r: (u64, Vec<&'static str>))
        requires
            storage_has_room(*old(self), op_code(msginfo)),
        ensures
            (*final(self), r.0, r.1@) == storage_step(*old(self), op_code(msginfo)),
    {
        let op = op_of(msginfo);
        let mut log: Vec<&'static str> = Vec::new();
        let status = if op == OP_READ {
            self.reads = self.reads + 1;
            STATUS_OK
        } else if op == OP_WRITE {
            self.writes = self.writes + 1;
            STATUS_OK
        } else if op == OP_SYNC {
            log.push("Storage: WAL sync\n");
            STATUS_OK
        } else if op == OP_ERASE {
            self.erases = self.erases + 1;
            log.push("Storage: GDPR Art.17 erasure executed\n");
            STATUS_OK
        } else {
            STATUS_ERR
        };
        assert(log@ =~= storage_step(*old(self), op).2);
        (status, log)
    }
}

} // verus!
