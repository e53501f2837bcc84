//! Data-leaves binding: every outgoing packet is stamped with the node's
//! composite hash, its data tier and a monotonic sequence; incoming headers
//! are checked for magic, hash and sequence.
use vstd::prelude::*;
use crate::common::{DataTier, tier_code};
use crate::soma::composite::{CompositeHash, COMPOSITE_HASH_SIZE, any_byte_nonzero};

verus! {

/// Binding mode of a transfer. Critical data always uses `Full`.
#[derive(Debug, Clone, Copy, PartialEq, Eq, Structural)]
pub enum BindingMode {
    /// Composite hash and three-key threshold enforced.
    Full,
    /// Hash stamped, threshold not enforced.
    Provenance,
    /// No binding; never permitted for Critical data.
    Open,
}

/// Strength rank of a mode: lower is stronger.
pub open spec fn mode_rank(m: BindingMode) -> u8 {
    match m {
        BindingMode::Full => 0,
        BindingMode::Provenance => 1,
        BindingMode::Open => 2,
    }
}

/// The minimum mode permitted for a tier.
pub open spec fn minimum_mode(t: DataTier) -> BindingMode {
    match t {
        DataTier::Critical => BindingMode::Full,
        DataTier::Personal => BindingMode::Full,
        DataTier::Noise => BindingMode::Provenance,
    }
}

impl BindingMode {
    /// The minimum permitted mode for a data tier: Critical and Personal data
    /// need `Full`, Noise needs `Provenance`.
    pub fn minimum_for_tier(tier: DataTier) -> (r: Self)
        ensures
            r == minimum_mode(tier),
    {
        match tier {
            DataTier::Critical => BindingMode::Full,
            DataTier::Personal => BindingMode::Full,
            DataTier::Noise => BindingMode::Provenance,
        }
    }

    fn rank(self) -> (r: u8)
        ensures
            r == mode_rank(self),
    {
        match self {
            BindingMode::Full => 0,
            BindingMode::Provenance => 1,
            BindingMode::Open => 2,
        }
    }

    /// Returns true if this mode is at least as strong as the tier's minimum.
    pub fn satisfies_tier(self, tier: DataTier) -> (r: bool)
        ensures
            r == (mode_rank(self) <= mode_rank(minimum_mode(tier))),
    {
        let min = Self::minimum_for_tier(tier);
        self.rank() <= min.rank()
    }
}

/// A bound packet header, prepended to every outgoing payload (48 bytes).
#[derive(Debug, Clone, Copy, PartialEq, Eq)]
pub struct BoundPacketHeader {
    /// Binding marker.
    pub magic: u16,
    /// Data tier of the payload.
    pub tier: u8,
    /// Monotonic binding sequence.
    pub seq: u64,
    /// Composite hash of the originating node.
    pub hash: [u8; COMPOSITE_HASH_SIZE],
}

/// Binding marker carried by every header.
pub const BINDING_MAGIC: u16 = 0xA1E0;

/// Size of a header in bytes.
pub const BINDING_HEADER_SIZE: usize = 48;

impl BoundPacketHeader {
    pub const MAGIC: u16 = 0xA1E0;
    pub const SIZE: usize = 48;

    pub fn new(tier: DataTier, seq: u64, hash: &CompositeHash) -> (h: Self)
        ensures
            h.magic == BINDING_MAGIC,
            h.tier == tier_code(tier),
            h.seq == seq,
            h.hash@ == hash.bytes(),
    {
        BoundPacketHeader { magic: BINDING_MAGIC, tier: tier.as_u8(), seq, hash: *hash.as_bytes() }
    }

    pub fn is_valid_magic(&self) -> (r: bool)
        ensures
            r == (self.magic == BINDING_MAGIC),
    {
        self.magic == BINDING_MAGIC
    }

    /// Returns true if the embedded hash is not all zero.
    pub fn has_valid_hash(&self) -> (r: bool)
        ensures
            r == any_byte_nonzero(self.hash@),
    {
        let mut i: usize = 0;
        while i < COMPOSITE_HASH_SIZE
            invariant
                0 <= i <= COMPOSITE_HASH_SIZE,
                self.hash@.len() == COMPOSITE_HASH_SIZE,
                forall|j: int| 0 <= j < i ==> self.hash@[j] == 0,
            decreases COMPOSITE_HASH_SIZE - i,
        {
            if self.hash[i] != 0 {
                assert(self.hash@[i as int] != 0);
                return true;
            }
            i = i + 1;
        }
        false
    }
}

/// Error of the binding engine.
#[derive(Debug, Clone, Copy, PartialEq, Eq, Structural)]
pub enum BindingError {
    NodeHashNotRegistered,
    InvalidHash,
    InvalidMagic,
    ZeroSequence,
}

/// Outcome of checking an incoming header: the first failed check, in the
/// order magic, hash, sequence.
pub open spec fn verify_outcome(h: BoundPacketHeader) -> Result<(), BindingError> {
    if h.magic != BINDING_MAGIC {
        Err(BindingError::InvalidMagic)
    } else if !any_byte_nonzero(h.hash@) {
        Err(BindingError::InvalidHash)
    } else if h.seq == 0 {
        Err(BindingError::ZeroSequence)
    } else {
        Ok(())
    }
}

/// Binding engine: stamps outgoing data and verifies incoming headers.
pub struct BindingEngine {
    node_hash: Option<CompositeHash>,
    out_seq: u64,
    bound: u64,
    verified: u64,
    violations: u64,
}

impl BindingEngine {
    /// The registered node hash, if any.
    pub closed spec fn node_hash(self) -> Option<CompositeHash> {
        self.node_hash
    }

    /// The last outgoing sequence number.
    pub closed spec fn out_seq(self) -> u64 {
        self.out_seq
    }

    /// Packets stamped.
    pub closed spec fn bound(self) -> u64 {
        self.bound
    }

    /// Incoming headers accepted.
    pub closed spec fn verified(self) -> u64 {
        self.verified
    }

    /// Incoming headers rejected.
    pub closed spec fn violations(self) -> u64 {
        self.violations
    }

    /// The counters: last sequence, stamped, verified, rejected.
    pub open spec fn counters(self) -> (u64, u64, u64, u64) {
        (self.out_seq(), self.bound(), self.verified(), self.violations())
    }

    pub fn new() -> (e: Self)
        ensures
            e.node_hash() is None,
            e.out_seq() == 0 && e.bound() == 0 && e.verified() == 0 && e.violations() == 0,
    {
        BindingEngine { node_hash: None, out_seq: 0, bound: 0, verified: 0, violations: 0 }
    }

    /// Registers this node's composite hash; an all-zero hash is rejected.
    pub fn register_node_hash(&mut self, hash: CompositeHash) -> (r: Result<(), BindingError>)
        ensures
            r is Ok <==> any_byte_nonzero(hash.bytes()),
            r is Ok ==> r == Ok::<(), BindingError>(()),
            r is Err ==> r == Err::<(), BindingError>(BindingError::InvalidHash) && *final(self) == *old(self),
            r is Ok ==> final(self).node_hash() == Some(hash) && final(self).counters() == old(self).counters(),
    {
        if !hash.is_valid() {
            return Err(BindingError::InvalidHash);
        }
        self.node_hash = Some(hash);
        Ok(())
    }

    /// Stamps an outgoing packet: the next sequence number and the node hash.
    pub fn stamp_outgoing(&mut self, tier: DataTier) -> (r: Result<BoundPacketHeader, BindingError>)
        requires
            old(self).out_seq() < u64::MAX,
            old(self).bound() < u64::MAX,
        ensures
            r is Err <==> old(self).node_hash() is None,
            r is Err ==> r == Err::<BoundPacketHeader, BindingError>(BindingError::NodeHashNotRegistered)
                && *final(self) == *old(self),
            r matches Ok(h) ==> {
                &&& final(self).out_seq() == old(self).out_seq() + 1
                &&& final(self).bound() == old(self).bound() + 1
                &&& final(self).node_hash() == old(self).node_hash()
                &&& final(self).verified() == old(self).verified()
                &&& final(self).violations() == old(self).violations()
                &&& h.magic == BINDING_MAGIC
                &&& h.tier == tier_code(tier)
                &&& h.seq == final(self).out_seq()
                &&& h.hash@ == old(self).node_hash().unwrap().bytes()
            },
    {
        let hash = match self.node_hash {
            Some(h) => h,
            None => return Err(BindingError::NodeHashNotRegistered),
        };
        self.out_seq = self.out_seq + 1;
        self.bound = self.bound + 1;
        Ok(BoundPacketHeader::new(tier, self.out_seq, &hash))
    }

    /// Verifies an incoming header: magic, non-zero hash, non-zero sequence.
    /// Each rejection is counted as a violation, each acceptance as verified.
    pub fn verify_incoming(&mut self, header: &BoundPacketHeader) -> (r: Result<(), BindingError>)
        requires
            old(self).violations() < u64::MAX,
            old(self).verified() < u64::MAX,
        ensures
            r == verify_outcome(*header),
            final(self).node_hash() == old(self).node_hash(),
            final(self).out_seq() == old(self).out_seq(),
            final(self).bound() == old(self).bound(),
            r is Ok ==> final(self).verified() == old(self).verified() + 1 && final(self).violations() == old(self).violations(),
            r is Err ==> final(self).violations() == old(self).violations() + 1 && final(self).verified() == old(self).verified(),
    {
        if !header.is_valid_magic() {
            self.violations = self.violations + 1;
            return Err(BindingError::InvalidMagic);
        }
        if !header.has_valid_hash() {
            self.violations = self.violations + 1;
            return Err(BindingError::InvalidHash);
        }
        if header.seq == 0 {
            self.violations = self.violations + 1;
            return Err(BindingError::ZeroSequence);
        }
        self.verified = self.verified + 1;
        Ok(())
    }

    pub fn bound_count(&self) -> (r: u64)
        ensures
            r == self.bound(),
    {
        self.bound
    }

    pub fn verified_count(&self) -> (r: u64)
        ensures
            r == self.verified(),
    {
        self.verified
    }

    pub fn violation_count(&self) -> (r: u64)
        ensures
            r == self.violations(),
    {
        self.violations
    }

    pub fn is_registered(&self) -> (r: bool)
        ensures
            r == self.node_hash() is Some,
    {
        self.node_hash.is_some()
    }

    pub fn current_seq(&self) -> (r: u64)
        ensures
            r == self.out_seq(),
    {
        self.out_seq
    }
}

/// Critical data can never leave under `Open` or `Provenance`; every tier
/// accepts `Full`.
pub proof fn lemma_critical_needs_full(m: BindingMode, t: DataTier)
    ensures
        mode_rank(BindingMode::Full) <= mode_rank(minimum_mode(t)),
        t == DataTier::Critical ==> (mode_rank(m) <= mode_rank(minimum_mode(t)) <==> m == BindingMode::Full),
{
}

/// A header stamped by a registered engine whose hash is non-zero passes the
/// incoming check: stamping and verifying round-trip.
pub proof fn lemma_stamped_header_verifies(h: BoundPacketHeader, hash: CompositeHash)
    requires
        h.magic == BINDING_MAGIC,
        h.hash@ == hash.bytes(),
        any_byte_nonzero(hash.bytes()),
        h.seq > 0,
    ensures
        verify_outcome(h) is Ok,
{
}

} // verus!
