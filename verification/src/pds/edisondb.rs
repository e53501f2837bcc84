//! EdisonDB protection domain: serves database requests from the other PDs,
//! each one only after ARPi authentication.
use vstd::prelude::*;
use crate::common::{PdId, AXON_PROOF};

verus! {

pub const EDISONDB_PD_ID: u8 = 0x41;
pub const SOVEREIGN_PROOF: u64 = AXON_PROOF;
pub const MAX_KEY_LEN: usize = 64;
pub const MAX_VALUE_SIZE: usize = 512;
pub const MAX_ENTRIES: usize = 256;
pub const ARPI_HEADER_LEN: usize = 78;

pub const RESP_OK: u32 = 0xD000;
pub const RESP_NOT_FOUND: u32 = 0xD001;
pub const RESP_DENIED: u32 = 0xD002;
pub const RESP_TIER_MISMATCH: u32 = 0xD003;
pub const RESP_PROOF_FAIL: u32 = 0xD004;

/// Storage tier of a record.
#[derive(Debug, Clone, Copy, PartialEq, Eq, Structural)]
pub enum DataTier {
    /// Encrypted at rest.
    Critical,
    /// Stored with an ARPi provenance header.
    Personal,
    /// Ephemeral.
    Noise,
}

/// A request to the database PD.
#[derive(Debug, Clone, Copy, PartialEq, Eq, Structural)]
pub enum EdbRequest {
    Read { tier: DataTier },
    Write { tier: DataTier },
    Delete,
    EntryCount,
}

/// The database PD's answer.
#[derive(Debug, Clone, Copy, PartialEq, Eq, Structural)]
pub enum EdbResponse {
    /// Read succeeded; the value is in the payload.
    Value { tier: DataTier, size: u32 },
    Written,
    Deleted,
    Count(u32),
    NotFound,
    /// The caller was not authenticated, or the PD is not Ready.
    Denied,
    ProofViolation,
}

/// Phase of the database PD.
#[derive(Debug, Clone, Copy, PartialEq, Eq, Structural)]
pub enum EdbPhase {
    AwaitingBoot,
    Ready,
    ProcessingRequest,
    Faulted,
}

/// The database protection domain.
pub struct EdisonDbPd {
    pub phase: EdbPhase,
    pub entries: u32,
    pub reads: u64,
    pub writes: u64,
    pub proof: u64,
    /// ARPi sessions authenticated this boot.
    pub arpi_auths: u32,
}

/// The PD can serve one authenticated request without a counter overflowing.
pub open spec fn can_serve(pd: EdisonDbPd) -> bool {
    pd.proof == SOVEREIGN_PROOF && pd.arpi_auths < u32::MAX && pd.reads < u64::MAX && pd.writes < u64::MAX
}

/// The PD and the response after serving `req` for an authenticated caller.
pub open spec fn serve(pd: EdisonDbPd, req: EdbRequest) -> (EdisonDbPd, EdbResponse) {
    let pd1 = EdisonDbPd { arpi_auths: (pd.arpi_auths + 1) as u32, ..pd };
    match req {
        EdbRequest::Read { tier } => (EdisonDbPd { reads: (pd.reads + 1) as u64, ..pd1 }, EdbResponse::Value { tier, size: 8 }),
        EdbRequest::Write { tier } => (
            EdisonDbPd {
                writes: (pd.writes + 1) as u64,
                entries: if pd.entries < MAX_ENTRIES { (pd.entries + 1) as u32 } else { pd.entries },
                ..pd1
            },
            EdbResponse::Written,
        ),
        EdbRequest::Delete => (
            EdisonDbPd { entries: if pd.entries > 0 { (pd.entries - 1) as u32 } else { 0 }, ..pd1 },
            EdbResponse::Deleted,
        ),
        EdbRequest::EntryCount => (pd1, EdbResponse::Count(pd.entries)),
    }
}

impl EdisonDbPd {
    pub fn new() -> (pd: Self)
        ensures
            pd == (EdisonDbPd { phase: EdbPhase::AwaitingBoot, entries: 0, reads: 0, writes: 0, proof: SOVEREIGN_PROOF, arpi_auths: 0 }),
    {
        EdisonDbPd { phase: EdbPhase::AwaitingBoot, entries: 0, reads: 0, writes: 0, proof: SOVEREIGN_PROOF, arpi_auths: 0 }
    }

    /// Boot signal: moves AwaitingBoot to Ready; refused in any other phase.
    pub fn on_boot_signal(&mut self) -> (r: Result<(), &'static str>)
        requires
            old(self).phase == EdbPhase::AwaitingBoot ==> old(self).proof == SOVEREIGN_PROOF,
        ensures
            old(self).phase != EdbPhase::AwaitingBoot ==> r == Err::<(), &'static str>("EdisonDB-PD: BOOT_SIGNAL in wrong phase")
                && *final(self) == *old(self),
            old(self).phase == EdbPhase::AwaitingBoot ==> r == Ok::<(), &'static str>(())
                && *final(self) == (EdisonDbPd { phase: EdbPhase::Ready, ..*old(self) }),
    {
        if self.phase != EdbPhase::AwaitingBoot {
            return Err("EdisonDB-PD: BOOT_SIGNAL in wrong phase");
        }
        self.assert_proof();
        self.phase = EdbPhase::Ready;
        Ok(())
    }

    /// Serves one request. Outside the Ready phase, or for a caller that did
    /// not pass ARPi authentication, the answer is `Denied` and nothing
    /// changes. Otherwise the authentication is counted and: a read answers
    /// the tier with an 8-byte value; a write adds an entry (up to
    /// `MAX_ENTRIES`); a delete removes one (down to zero); a count reports
    /// the entries. The PD is Ready again afterwards.
    pub fn handle_request(&mut self, req: EdbRequest, arpi_authenticated: bool) -> (r: EdbResponse)
        requires
            old(self).phase == EdbPhase::Ready && arpi_authenticated ==> can_serve(*old(self)),
        ensures
            !(old(self).phase == EdbPhase::Ready && arpi_authenticated) ==> r == EdbResponse::Denied && *final(self) == *old(self),
            old(self).phase == EdbPhase::Ready && arpi_authenticated ==> (*final(self), r) == serve(*old(self), req),
    {
        if self.phase != EdbPhase::Ready {
            return EdbResponse::Denied;
        }
        if !arpi_authenticated {
            return EdbResponse::Denied;
        }
        self.assert_proof();
        self.phase = EdbPhase::ProcessingRequest;
        self.arpi_auths = self.arpi_auths + 1;
        let resp = match req {
            EdbRequest::Read { tier } => {
                self.reads = self.reads + 1;
                EdbResponse::Value { tier, size: 8 }
            },
            EdbRequest::Write { tier } => {
                self.writes = self.writes + 1;
                if self.entries < MAX_ENTRIES as u32 {
                    self.entries = self.entries + 1;
                }
                EdbResponse::Written
            },
            EdbRequest::Delete => {
                if self.entries > 0 {
                    self.entries = self.entries - 1;
                }
                EdbResponse::Deleted
            },
            EdbRequest::EntryCount => EdbResponse::Count(self.entries),
        };
        self.phase = EdbPhase::Ready;
        resp
    }

    /// A critical-tier read always needs the DataTier-Enforcer session key.
    pub fn critical_tier_requires_key(&self) -> (r: bool)
        ensures
            r,
    {
        true
    }

    /// The protection-domain slot the database runs in.
    pub fn pd_id() -> (r: PdId)
        ensures
            r == PdId::DataTierEnforcer,
    {
        PdId::DataTierEnforcer
    }

    fn assert_proof(&self)
        requires
            self.proof == SOVEREIGN_PROOF,
    {
    }
}

impl Default for EdisonDbPd {
    fn default() -> (pd: Self)
        ensures
            pd == (EdisonDbPd { phase: EdbPhase::AwaitingBoot, entries: 0, reads: 0, writes: 0, proof: SOVEREIGN_PROOF, arpi_auths: 0 }),
    {
        EdisonDbPd::new()
    }
}

/// Serving any request keeps the entry count within `MAX_ENTRIES` and
/// leaves the sovereign proof untouched.
pub proof fn lemma_serve_bounded(pd: EdisonDbPd, req: EdbRequest)
    requires
        pd.entries <= MAX_ENTRIES,
    ensures
        serve(pd, req).0.entries <= MAX_ENTRIES,
        serve(pd, req).0.proof == pd.proof,
        serve(pd, req).0.phase == pd.phase,
{
}

/// A write followed by a delete leaves the entry count as it was, when
/// there was room for the write.
pub proof fn lemma_write_delete_roundtrip(pd: EdisonDbPd, tier: DataTier)
    requires
        pd.entries < MAX_ENTRIES,
        can_serve(pd),
        pd.arpi_auths < u32::MAX - 1,
    ensures
        serve(serve(pd, EdbRequest::Write { tier }).0, EdbRequest::Delete).0.entries == pd.entries,
{
}

} // verus!
