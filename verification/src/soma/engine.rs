//! The SOMA engine: composite identity, three-key threshold and data-leaves
//! binding combined into one sovereign gate.
use vstd::prelude::*;
use crate::common::DataTier;
use crate::soma::composite::{CompositeHash, IdentityLayers, IdentityError, composite_bytes, any_byte_nonzero};
use crate::soma::threshold::{ThresholdRegistry, ThresholdResult, KeySlotId, ThresholdError, ThresholdKeySlot};
use crate::soma::binding::{BindingEngine, BoundPacketHeader, BindingError, verify_outcome, BINDING_MAGIC};

verus! {

/// Result of commissioning.
#[derive(Debug, Clone, Copy, PartialEq, Eq, Structural)]
pub enum SomaResult {
    Ready,
    IdentityIncomplete,
    ThresholdIncomplete,
    BindingFailed,
}

/// Error of the SOMA engine.
#[derive(Debug, Clone, Copy, PartialEq, Eq, Structural)]
pub enum SomaError {
    NotCommissioned,
    Identity(IdentityError),
    Threshold(ThresholdError),
    Binding(BindingError),
}

/// The SOMA identity engine.
pub struct Soma {
    layers: Option<IdentityLayers>,
    hash: Option<CompositeHash>,
    threshold: ThresholdRegistry,
    binding: BindingEngine,
    commissioned: bool,
}

impl Soma {
    pub closed spec fn layers(self) -> Option<IdentityLayers> {
        self.layers
    }

    pub closed spec fn hash(self) -> Option<CompositeHash> {
        self.hash
    }

    pub closed spec fn threshold(self) -> ThresholdRegistry {
        self.threshold
    }

    pub closed spec fn binding(self) -> BindingEngine {
        self.binding
    }

    pub closed spec fn commissioned(self) -> bool {
        self.commissioned
    }

    pub fn new() -> (s: Self)
        ensures
            s.layers() is None,
            s.hash() is None,
            !s.commissioned(),
            forall|id: KeySlotId| #[trigger] s.threshold().slot(id) == (ThresholdKeySlot { slot_id: id, fingerprint: 0, enrolled: false }),
            s.binding().node_hash() is None,
            s.binding().counters() == (0u64, 0u64, 0u64, 0u64),
    {
        Soma {
            layers: None,
            hash: None,
            threshold: ThresholdRegistry::new(),
            binding: BindingEngine::new(),
            commissioned: false,
        }
    }

    /// Commissions the engine: derives the composite hash, enrolls the three
    /// key fingerprints in order (OS, EdisonDB, owner) and registers the hash
    /// for binding. Stops at the first failure, keeping what was done before it.
    pub fn commission(&mut self, layers: IdentityLayers, os_fp: u64, edb_fp: u64, owner_fp: u64) -> (r: Result<SomaResult, SomaError>)
        ensures
            final(self).binding().counters() == old(self).binding().counters(),
            !layers.spec_complete() ==> r == Err::<SomaResult, SomaError>(SomaError::Identity(IdentityError::IncompleteIdentity))
                && *final(self) == *old(self),
            layers.spec_complete() && os_fp == 0 ==> r == Err::<SomaResult, SomaError>(SomaError::Threshold(ThresholdError::ZeroFingerprint))
                && *final(self) == *old(self),
            layers.spec_complete() && os_fp != 0 && edb_fp == 0 ==> r == Err::<SomaResult, SomaError>(SomaError::Threshold(ThresholdError::ZeroFingerprint))
                && final(self).threshold().slot(KeySlotId::OsKey) == (ThresholdKeySlot { slot_id: KeySlotId::OsKey, fingerprint: os_fp, enrolled: true })
                && final(self).threshold().slot(KeySlotId::EdisonDbKey) == old(self).threshold().slot(KeySlotId::EdisonDbKey)
                && final(self).threshold().slot(KeySlotId::OwnerKey) == old(self).threshold().slot(KeySlotId::OwnerKey)
                && final(self).binding() == old(self).binding() && final(self).hash() == old(self).hash()
                && final(self).layers() == old(self).layers() && final(self).commissioned() == old(self).commissioned(),
            layers.spec_complete() && os_fp != 0 && edb_fp != 0 && owner_fp == 0 ==> r == Err::<SomaResult, SomaError>(SomaError::Threshold(ThresholdError::ZeroFingerprint))
                && final(self).threshold().slot(KeySlotId::OsKey) == (ThresholdKeySlot { slot_id: KeySlotId::OsKey, fingerprint: os_fp, enrolled: true })
                && final(self).threshold().slot(KeySlotId::EdisonDbKey) == (ThresholdKeySlot { slot_id: KeySlotId::EdisonDbKey, fingerprint: edb_fp, enrolled: true })
                && final(self).threshold().slot(KeySlotId::OwnerKey) == old(self).threshold().slot(KeySlotId::OwnerKey)
                && final(self).binding() == old(self).binding() && final(self).hash() == old(self).hash()
                && final(self).layers() == old(self).layers() && final(self).commissioned() == old(self).commissioned(),
            layers.spec_complete() && os_fp != 0 && edb_fp != 0 && owner_fp != 0 ==> {
                &&& final(self).threshold().slot(KeySlotId::OsKey) == (ThresholdKeySlot { slot_id: KeySlotId::OsKey, fingerprint: os_fp, enrolled: true })
                &&& final(self).threshold().slot(KeySlotId::EdisonDbKey) == (ThresholdKeySlot { slot_id: KeySlotId::EdisonDbKey, fingerprint: edb_fp, enrolled: true })
                &&& final(self).threshold().slot(KeySlotId::OwnerKey) == (ThresholdKeySlot { slot_id: KeySlotId::OwnerKey, fingerprint: owner_fp, enrolled: true })
                &&& !any_byte_nonzero(composite_bytes(layers)) ==> r == Err::<SomaResult, SomaError>(SomaError::Binding(BindingError::InvalidHash))
                    && final(self).binding() == old(self).binding() && final(self).hash() == old(self).hash()
                    && final(self).layers() == old(self).layers() && final(self).commissioned() == old(self).commissioned()
                &&& any_byte_nonzero(composite_bytes(layers)) ==> {
                    &&& r == Ok::<SomaResult, SomaError>(SomaResult::Ready)
                    &&& final(self).commissioned()
                    &&& final(self).layers() == Some(layers)
                    &&& final(self).hash() matches Some(h) && h.bytes() == composite_bytes(layers)
                    &&& final(self).binding().node_hash() == final(self).hash()
                }
            },
    {
        let hash = match CompositeHash::derive(&layers) {
            Ok(h) => h,
            Err(e) => return Err(SomaError::Identity(e)),
        };
        if let Err(e) = self.threshold.enroll(KeySlotId::OsKey, os_fp) {
            return Err(SomaError::Threshold(e));
        }
        if let Err(e) = self.threshold.enroll(KeySlotId::EdisonDbKey, edb_fp) {
            return Err(SomaError::Threshold(e));
        }
        if let Err(e) = self.threshold.enroll(KeySlotId::OwnerKey, owner_fp) {
            return Err(SomaError::Threshold(e));
        }
        if self.binding.register_node_hash(hash).is_err() {
            return Err(SomaError::Binding(BindingError::InvalidHash));
        }
        self.layers = Some(layers);
        self.hash = Some(hash);
        self.commissioned = true;
        Ok(SomaResult::Ready)
    }

    /// Stamps an outgoing packet; refused before commissioning.
    pub fn stamp(&mut self, tier: DataTier) -> (r: Result<BoundPacketHeader, SomaError>)
        requires
            old(self).binding().out_seq() < u64::MAX,
            old(self).binding().bound() < u64::MAX,
        ensures
            !old(self).commissioned() ==> r == Err::<BoundPacketHeader, SomaError>(SomaError::NotCommissioned)
                && *final(self) == *old(self),
            old(self).commissioned() && old(self).binding().node_hash() is None ==> r == Err::<BoundPacketHeader, SomaError>(
                SomaError::Binding(BindingError::NodeHashNotRegistered),
            ) && *final(self) == *old(self),
            old(self).commissioned() && old(self).binding().node_hash() is Some ==> (r matches Ok(h) && {
                &&& final(self).binding().out_seq() == old(self).binding().out_seq() + 1
                &&& final(self).binding().bound() == old(self).binding().bound() + 1
                &&& final(self).binding().node_hash() == old(self).binding().node_hash()
                &&& final(self).binding().verified() == old(self).binding().verified()
                &&& final(self).binding().violations() == old(self).binding().violations()
                &&& h.magic == BINDING_MAGIC
                &&& h.tier == crate::common::tier_code(tier)
                &&& h.seq == final(self).binding().out_seq()
                &&& h.hash@ == old(self).binding().node_hash().unwrap().bytes()
            }),
            final(self).commissioned() == old(self).commissioned(),
            final(self).hash() == old(self).hash(),
            final(self).layers() == old(self).layers(),
            final(self).threshold() == old(self).threshold(),
    {
        if !self.commissioned {
            return Err(SomaError::NotCommissioned);
        }
        match self.binding.stamp_outgoing(tier) {
            Ok(h) => Ok(h),
            Err(e) => Err(SomaError::Binding(e)),
        }
    }

    /// Verifies an incoming bound header.
    pub fn verify(&mut self, header: &BoundPacketHeader) -> (r: Result<(), SomaError>)
        requires
            old(self).binding().violations() < u64::MAX,
            old(self).binding().verified() < u64::MAX,
        ensures
            r is Ok <==> verify_outcome(*header) is Ok,
            verify_outcome(*header) matches Err(e) ==> r == Err::<(), SomaError>(SomaError::Binding(e)),
            final(self).binding().node_hash() == old(self).binding().node_hash(),
            final(self).binding().out_seq() == old(self).binding().out_seq(),
            final(self).binding().bound() == old(self).binding().bound(),
            r is Ok ==> final(self).binding().verified() == old(self).binding().verified() + 1
                && final(self).binding().violations() == old(self).binding().violations(),
            r is Err ==> final(self).binding().violations() == old(self).binding().violations() + 1
                && final(self).binding().verified() == old(self).binding().verified(),
            final(self).commissioned() == old(self).commissioned(),
            final(self).hash() == old(self).hash(),
            final(self).layers() == old(self).layers(),
            final(self).threshold() == old(self).threshold(),
    {
        match self.binding.verify_incoming(header) {
            Ok(()) => Ok(()),
            Err(e) => Err(SomaError::Binding(e)),
        }
    }

    /// Checks presented key fingerprints against the threshold.
    pub fn check_threshold(&self, presented: &[u64]) -> (r: ThresholdResult)
        ensures
            r == self.threshold().spec_check(presented@),
    {
        self.threshold.check_threshold(presented)
    }

    pub fn is_commissioned(&self) -> (r: bool)
        ensures
            r == self.commissioned(),
    {
        self.commissioned
    }

    pub fn composite_hash(&self) -> (r: Option<&CompositeHash>)
        ensures
            r is Some <==> self.hash() is Some,
            r matches Some(h) ==> *h == self.hash().unwrap(),
    {
        match &self.hash {
            Some(h) => Some(h),
            None => None,
        }
    }

    pub fn threshold_complete(&self) -> (r: bool)
        ensures
            r == self.threshold().spec_complete(),
    {
        self.threshold.is_complete()
    }

    pub fn bound_count(&self) -> (r: u64)
        ensures
            r == self.binding().bound(),
    {
        self.binding.bound_count()
    }

    pub fn violation_count(&self) -> (r: u64)
        ensures
            r == self.binding().violations(),
    {
        self.binding.violation_count()
    }
}

} // verus!
