//! Capability tokens: proof that a capability edge (source PD, destination PD,
//! capability) has been granted.
use vstd::prelude::*;
use crate::common::DataTier;

verus! {

/// Capabilities that can be granted between protection domains.
#[derive(Debug, Clone, Copy, PartialEq, Eq, Structural)]
pub enum CapabilityType {
    /// Read access to a PD's data.
    Read,
    /// Write access to a PD's data.
    Write,
    /// Execute a PD's sovereign function.
    Execute,
    /// Delegate a capability to a third PD.
    Delegate,
    /// Cross-tier data tier upgrade.
    TierUpgrade,
    /// Admin action authorization.
    AdminAction,
}

/// Wire identifier of each capability type.
pub open spec fn cap_code(c: CapabilityType) -> u8 {
    match c {
        CapabilityType::Read => 0x01,
        CapabilityType::Write => 0x02,
        CapabilityType::Execute => 0x03,
        CapabilityType::Delegate => 0x04,
        CapabilityType::TierUpgrade => 0x05,
        CapabilityType::AdminAction => 0x06,
    }
}

impl CapabilityType {
    /// The byte that identifies this capability on the wire.
    pub fn as_u8(self) -> (r: u8)
        ensures
            r == cap_code(self),
    {
        match self {
            CapabilityType::Read => 0x01,
            CapabilityType::Write => 0x02,
            CapabilityType::Execute => 0x03,
            CapabilityType::Delegate => 0x04,
            CapabilityType::TierUpgrade => 0x05,
            CapabilityType::AdminAction => 0x06,
        }
    }
}

/// A capability grant token: authorizes `src_pd` to exercise `cap_type` on `dst_pd`.
#[derive(Debug, Clone, Copy)]
pub struct CapToken {
    pub src_pd: u8,
    pub dst_pd: u8,
    pub cap_type: CapabilityType,
    pub tier: DataTier,
    /// Monotonic grant sequence (anti-replay).
    pub seq: u64,
    /// Signature bytes.
    pub sig: [u8; 64],
}

/// True when some byte of `s` is non-zero.
pub open spec fn any_nonzero(s: Seq<u8>) -> bool {
    exists|i: int| 0 <= i < s.len() && s[i] != 0
}

/// Returns true when some byte of `sig` is non-zero.
fn sig_has_nonzero(sig: &[u8; 64]) -> (r: bool)
    ensures
        r == any_nonzero(sig@),
{
    let mut i: usize = 0;
    while i < 64
        invariant
            0 <= i <= 64,
            sig@.len() == 64,
            forall|j: int| 0 <= j < i ==> sig@[j] == 0,
        decreases 64 - i,
    {
        if sig[i] != 0 {
            assert(sig@[i as int] != 0);
            return true;
        }
        i = i + 1;
    }
    false
}

impl CapToken {
    pub fn new(src_pd: u8, dst_pd: u8, cap_type: CapabilityType, tier: DataTier, seq: u64, sig: [u8; 64]) -> (t: Self)
        ensures
            t.src_pd == src_pd,
            t.dst_pd == dst_pd,
            t.cap_type == cap_type,
            t.tier == tier,
            t.seq == seq,
            t.sig == sig,
    {
        CapToken { src_pd, dst_pd, cap_type, tier, seq, sig }
    }

    /// Structural validity: no self-grant, non-zero sequence, non-zero signature.
    pub open spec fn spec_structurally_valid(self) -> bool {
        self.src_pd != self.dst_pd && self.seq > 0 && any_nonzero(self.sig@)
    }

    /// Validates the token's structure.
    pub fn is_structurally_valid(&self) -> (r: bool)
        ensures
            r == self.spec_structurally_valid(),
    {
        self.src_pd != self.dst_pd && self.seq > 0 && sig_has_nonzero(&self.sig)
    }

    /// Returns true if this token grants the tier-upgrade capability.
    pub fn grants_tier_upgrade(&self) -> (r: bool)
        ensures
            r == (self.cap_type == CapabilityType::TierUpgrade),
    {
        self.cap_type == CapabilityType::TierUpgrade
    }
}

/// Token validation result.
#[derive(Debug, Clone, Copy, PartialEq, Eq, Structural)]
pub enum TokenResult {
    Valid,
    SelfGrant,
    ZeroSeq,
    ZeroSignature,
    InvalidCapType,
}

/// Outcome of validating `t`: the first failed check, in the order
/// self-grant, zero sequence, all-zero signature.
pub open spec fn validate_spec(t: CapToken) -> TokenResult {
    if t.src_pd == t.dst_pd {
        TokenResult::SelfGrant
    } else if t.seq == 0 {
        TokenResult::ZeroSeq
    } else if !any_nonzero(t.sig@) {
        TokenResult::ZeroSignature
    } else {
        TokenResult::Valid
    }
}

/// Validates a capability token.
pub fn validate(token: &CapToken) -> (r: TokenResult)
    ensures
        r == validate_spec(*token),
        (r == TokenResult::Valid) == token.spec_structurally_valid(),
{
    if token.src_pd == token.dst_pd {
        return TokenResult::SelfGrant;
    }
    if token.seq == 0 {
        return TokenResult::ZeroSeq;
    }
    if !sig_has_nonzero(&token.sig) {
        return TokenResult::ZeroSignature;
    }
    TokenResult::Valid
}

} // verus!
