//! Identifiers and constants shared by every protection domain of the stack:
//! protection-domain identities, data tiers, the sovereign proof value, the
//! display surface geometry and the display engine's capability policy.
use vstd::prelude::*;

verus! {

/// Sovereign proof value: `axon_main()` returns it on every node and every PD.
pub const AXON_PROOF: u64 = 0x4153;

/// Width in pixels of the sovereign display surface.
pub const SURFACE_WIDTH: u32 = 1280;

/// Height in pixels of the sovereign display surface.
pub const SURFACE_HEIGHT: u32 = 720;

/// Mandatory and optional protection domains of a sovereign node.
#[derive(Debug, Clone, Copy, PartialEq, Eq, Structural)]
pub enum PdId {
    Genesis,
    ArpiBroker,
    DataTierEnforcer,
    TrustGraphGate,
    InvertedAdmin,
    AxonBridge,
    GpuCap,
}

/// Wire identifier of each protection domain.
pub open spec fn pd_code(pd: PdId) -> u8 {
    match pd {
        PdId::Genesis => 0x01,
        PdId::ArpiBroker => 0x02,
        PdId::DataTierEnforcer => 0x03,
        PdId::TrustGraphGate => 0x04,
        PdId::InvertedAdmin => 0x05,
        PdId::AxonBridge => 0x06,
        PdId::GpuCap => 0x07,
    }
}

impl PdId {
    /// The byte that identifies this protection domain on the wire.
    pub fn as_u8(self) -> (r: u8)
        ensures
            r == pd_code(self),
    {
        match self {
            PdId::Genesis => 0x01,
            PdId::ArpiBroker => 0x02,
            PdId::DataTierEnforcer => 0x03,
            PdId::TrustGraphGate => 0x04,
            PdId::InvertedAdmin => 0x05,
            PdId::AxonBridge => 0x06,
            PdId::GpuCap => 0x07,
        }
    }
}

/// Classification of a piece of data by sensitivity.
#[derive(Debug, Clone, Copy, PartialEq, Eq, Structural)]
pub enum DataTier {
    /// Ephemeral public data.
    Noise,
    /// Personal data, consent-gated.
    Personal,
    /// Critical data, vault-only.
    Critical,
}

/// Wire identifier of each data tier: 0, 1, 2 in order of sensitivity. This
/// is this crate's model of the tier byte of the AIEONYX common types, whose
/// decoder is not part of this crate; the values are assumed, not derived.
pub open spec fn tier_code(t: DataTier) -> u8 {
    match t {
        DataTier::Noise => 0x00,
        DataTier::Personal => 0x01,
        DataTier::Critical => 0x02,
    }
}

/// The tier a wire byte names; a byte that names no tier is read as
/// Critical, the most restrictive. This decoding is an assumed model of the
/// AIEONYX common types' decoder (see `tier_code`), in particular for bytes
/// above 2.
pub open spec fn tier_from_code(b: u8) -> DataTier {
    if b == 0x00 {
        DataTier::Noise
    } else if b == 0x01 {
        DataTier::Personal
    } else {
        DataTier::Critical
    }
}

impl DataTier {
    /// The tier a wire byte names; unknown bytes are read as Critical (the
    /// assumed model of `tier_from_code`).
    pub fn from_u8(b: u8) -> (t: DataTier)
        ensures
            t == tier_from_code(b),
    {
        if b == 0x00 {
            DataTier::Noise
        } else if b == 0x01 {
            DataTier::Personal
        } else {
            DataTier::Critical
        }
    }

    /// The byte that identifies this tier on the wire.
    pub fn as_u8(self) -> (r: u8)
        ensures
            r == tier_code(self),
    {
        match self {
            DataTier::Noise => 0x00,
            DataTier::Personal => 0x01,
            DataTier::Critical => 0x02,
        }
    }
}

/// Capabilities a protection domain may ask of the display engine.
#[derive(Debug, Clone, Copy, PartialEq, Eq, Structural)]
pub enum HanielCap {
    DisplaySurface,
    FontRead,
    Network,
    StorageWrite,
}

/// Error raised when the display engine is asked for a capability it does not hold.
#[derive(Debug, Clone, Copy, PartialEq, Eq, Structural)]
pub enum HanielError {
    CapabilityDenied,
}

/// Capability policy of the display engine: it renders and reads fonts,
/// and never touches the network or storage.
pub open spec fn haniel_policy(cap: HanielCap) -> bool {
    cap == HanielCap::DisplaySurface || cap == HanielCap::FontRead
}

/// Returns whether the display engine holds `cap`.
pub fn cap_granted(cap: HanielCap) -> (r: bool)
    ensures
        r == haniel_policy(cap),
{
    match cap {
        HanielCap::DisplaySurface => true,
        HanielCap::FontRead => true,
        HanielCap::Network => false,
        HanielCap::StorageWrite => false,
    }
}

/// Checks that the display engine holds `cap`.
pub fn assert_cap(cap: HanielCap) -> (r: Result<(), HanielError>)
    ensures
        r is Ok <==> haniel_policy(cap),
        r is Err ==> r == Err::<(), HanielError>(HanielError::CapabilityDenied),
{
    if cap_granted(cap) {
        Ok(())
    } else {
        Err(HanielError::CapabilityDenied)
    }
}

/// Returns true when `proof` is the sovereign proof value.
pub fn verify_sovereign_proof(proof: u64) -> (r: bool)
    ensures
        r == (proof == AXON_PROOF),
{
    proof == AXON_PROOF
}

} // verus!
