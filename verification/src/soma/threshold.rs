//! Three-key threshold: the OS key, the EdisonDB key and the owner key must
//! all be presented to decrypt; any two leave the data as encrypted noise.
use vstd::prelude::*;

verus! {

/// Key slot identifiers.
#[derive(Debug, Clone, Copy, PartialEq, Eq, Structural)]
pub enum KeySlotId {
    /// Key-1: OS key.
    OsKey,
    /// Key-2: EdisonDB-generated key.
    EdisonDbKey,
    /// Key-3: owner key (human-held, never stored).
    OwnerKey,
}

/// Wire identifier of each key slot.
pub open spec fn slot_code(s: KeySlotId) -> u8 {
    match s {
        KeySlotId::OsKey => 0x01,
        KeySlotId::EdisonDbKey => 0x02,
        KeySlotId::OwnerKey => 0x03,
    }
}

impl KeySlotId {
    /// The byte that identifies this slot.
    pub fn as_u8(self) -> (r: u8)
        ensures
            r == slot_code(self),
    {
        match self {
            KeySlotId::OsKey => 0x01,
            KeySlotId::EdisonDbKey => 0x02,
            KeySlotId::OwnerKey => 0x03,
        }
    }
}

/// A key slot: holds a key fingerprint, never the key itself.
#[derive(Debug, Clone, Copy)]
pub struct ThresholdKeySlot {
    pub slot_id: KeySlotId,
    /// First 8 bytes of the key's public key fingerprint.
    pub fingerprint: u64,
    pub enrolled: bool,
}

/// Error of the threshold registry.
#[derive(Debug, Clone, Copy, PartialEq, Eq, Structural)]
pub enum ThresholdError {
    ZeroFingerprint,
}

impl ThresholdKeySlot {
    /// An enrolled slot; a zero fingerprint is rejected.
    pub fn new(slot_id: KeySlotId, fingerprint: u64) -> (r: Result<Self, ThresholdError>)
        ensures
            r is Err <==> fingerprint == 0,
            r is Err ==> r == Err::<ThresholdKeySlot, ThresholdError>(ThresholdError::ZeroFingerprint),
            r matches Ok(k) ==> k == (ThresholdKeySlot { slot_id, fingerprint, enrolled: true }),
    {
        if fingerprint == 0 {
            return Err(ThresholdError::ZeroFingerprint);
        }
        Ok(ThresholdKeySlot { slot_id, fingerprint, enrolled: true })
    }

    /// An empty, unenrolled slot.
    pub fn empty(slot_id: KeySlotId) -> (k: Self)
        ensures
            k == (ThresholdKeySlot { slot_id, fingerprint: 0, enrolled: false }),
    {
        ThresholdKeySlot { slot_id, fingerprint: 0, enrolled: false }
    }
}

/// Result of a threshold check.
#[derive(Debug, Clone, Copy, PartialEq, Eq, Structural)]
pub enum ThresholdResult {
    /// All three keys present: data may be decrypted.
    ThresholdMet,
    /// Only N keys present: data remains encrypted noise.
    PartialMatch(usize),
    /// No key matched.
    NoMatch,
    /// Registry not fully enrolled.
    NotEnrolled,
}

/// Number of `true` among three flags.
pub open spec fn count3(a: bool, b: bool, c: bool) -> nat {
    (if a { 1nat } else { 0nat }) + (if b { 1nat } else { 0nat }) + (if c { 1nat } else { 0nat })
}

/// Outcome for a count of matched keys.
pub open spec fn outcome_of(count: nat) -> ThresholdResult {
    if count == 3 {
        ThresholdResult::ThresholdMet
    } else if count == 2 {
        ThresholdResult::PartialMatch(2)
    } else if count == 1 {
        ThresholdResult::PartialMatch(1)
    } else {
        ThresholdResult::NoMatch
    }
}

/// The three-key threshold registry.
pub struct ThresholdRegistry {
    os_key: ThresholdKeySlot,
    edisondb_key: ThresholdKeySlot,
    owner_key: ThresholdKeySlot,
}

/// Returns true if `xs` contains `v`.
fn slice_contains(xs: &[u64], v: u64) -> (r: bool)
    ensures
        r == xs@.contains(v),
{
    let mut i: usize = 0;
    while i < xs.len()
        invariant
            0 <= i <= xs@.len(),
            forall|j: int| 0 <= j < i ==> xs@[j] != v,
        decreases xs@.len() - i,
    {
        if xs[i] == v {
            assert(xs@[i as int] == v);
            return true;
        }
        i = i + 1;
    }
    false
}

impl ThresholdRegistry {
    /// The slot for `id`.
    pub closed spec fn slot(self, id: KeySlotId) -> ThresholdKeySlot {
        match id {
            KeySlotId::OsKey => self.os_key,
            KeySlotId::EdisonDbKey => self.edisondb_key,
            KeySlotId::OwnerKey => self.owner_key,
        }
    }

    /// All three slots are enrolled.
    pub open spec fn spec_complete(self) -> bool {
        self.slot(KeySlotId::OsKey).enrolled && self.slot(KeySlotId::EdisonDbKey).enrolled
            && self.slot(KeySlotId::OwnerKey).enrolled
    }

    /// Outcome of presenting the fingerprints `presented`.
    pub open spec fn spec_check(self, presented: Seq<u64>) -> ThresholdResult {
        if !self.spec_complete() {
            ThresholdResult::NotEnrolled
        } else {
            outcome_of(
                count3(
                    presented.contains(self.slot(KeySlotId::OsKey).fingerprint),
                    presented.contains(self.slot(KeySlotId::EdisonDbKey).fingerprint),
                    presented.contains(self.slot(KeySlotId::OwnerKey).fingerprint),
                ),
            )
        }
    }

    pub fn new() -> (r: Self)
        ensures
            forall|id: KeySlotId| #[trigger] r.slot(id) == (ThresholdKeySlot { slot_id: id, fingerprint: 0, enrolled: false }),
    {
        ThresholdRegistry {
            os_key: ThresholdKeySlot::empty(KeySlotId::OsKey),
            edisondb_key: ThresholdKeySlot::empty(KeySlotId::EdisonDbKey),
            owner_key: ThresholdKeySlot::empty(KeySlotId::OwnerKey),
        }
    }

    /// Enrolls a key slot with its fingerprint; a zero fingerprint is rejected.
    pub fn enroll(&mut self, slot: KeySlotId, fingerprint: u64) -> (r: Result<(), ThresholdError>)
        ensures
            r is Err <==> fingerprint == 0,
            r is Err ==> r == Err::<(), ThresholdError>(ThresholdError::ZeroFingerprint) && *final(self) == *old(self),
            r is Ok ==> r == Ok::<(), ThresholdError>(()),
            r is Ok ==> final(self).slot(slot) == (ThresholdKeySlot { slot_id: slot, fingerprint, enrolled: true }),
            r is Ok ==> forall|id: KeySlotId| id != slot ==> #[trigger] final(self).slot(id) == old(self).slot(id),
    {
        let key_slot = match ThresholdKeySlot::new(slot, fingerprint) {
            Ok(k) => k,
            Err(e) => return Err(e),
        };
        match slot {
            KeySlotId::OsKey => self.os_key = key_slot,
            KeySlotId::EdisonDbKey => self.edisondb_key = key_slot,
            KeySlotId::OwnerKey => self.owner_key = key_slot,
        }
        Ok(())
    }

    /// Returns true if all three keys are enrolled.
    pub fn is_complete(&self) -> (r: bool)
        ensures
            r == self.spec_complete(),
    {
        self.os_key.enrolled && self.edisondb_key.enrolled && self.owner_key.enrolled
    }

    /// Number of enrolled keys.
    pub fn enrolled_count(&self) -> (r: usize)
        ensures
            r == count3(
                self.slot(KeySlotId::OsKey).enrolled,
                self.slot(KeySlotId::EdisonDbKey).enrolled,
                self.slot(KeySlotId::OwnerKey).enrolled,
            ),
    {
        let mut n: usize = 0;
        if self.os_key.enrolled {
            n = n + 1;
        }
        if self.edisondb_key.enrolled {
            n = n + 1;
        }
        if self.owner_key.enrolled {
            n = n + 1;
        }
        n
    }

    /// Checks whether the presented fingerprints meet the threshold: all three
    /// enrolled keys must be presented.
    pub fn check_threshold(&self, presented: &[u64]) -> (r: ThresholdResult)
        ensures
            r == self.spec_check(presented@),
    {
        if !self.is_complete() {
            return ThresholdResult::NotEnrolled;
        }
        let has_os = slice_contains(presented, self.os_key.fingerprint);
        let has_edb = slice_contains(presented, self.edisondb_key.fingerprint);
        let has_own = slice_contains(presented, self.owner_key.fingerprint);
        let mut count: usize = 0;
        if has_os {
            count = count + 1;
        }
        if has_edb {
            count = count + 1;
        }
        if has_own {
            count = count + 1;
        }
        if count == 3 {
            ThresholdResult::ThresholdMet
        } else if count == 2 {
            ThresholdResult::PartialMatch(2)
        } else if count == 1 {
            ThresholdResult::PartialMatch(1)
        } else {
            ThresholdResult::NoMatch
        }
    }

    /// Revokes a key slot (key rotation or owner change).
    pub fn revoke(&mut self, slot: KeySlotId)
        ensures
            final(self).slot(slot) == (ThresholdKeySlot { enrolled: false, ..old(self).slot(slot) }),
            forall|id: KeySlotId| id != slot ==> #[trigger] final(self).slot(id) == old(self).slot(id),
    {
        match slot {
            KeySlotId::OsKey => self.os_key.enrolled = false,
            KeySlotId::EdisonDbKey => self.edisondb_key.enrolled = false,
            KeySlotId::OwnerKey => self.owner_key.enrolled = false,
        }
    }

    /// Whether a slot is enrolled.
    pub fn slot_enrolled(&self, slot: KeySlotId) -> (r: bool)
        ensures
            r == self.slot(slot).enrolled,
    {
        match slot {
            KeySlotId::OsKey => self.os_key.enrolled,
            KeySlotId::EdisonDbKey => self.edisondb_key.enrolled,
            KeySlotId::OwnerKey => self.owner_key.enrolled,
        }
    }
}

/// The threshold is met exactly when the registry is complete and all three
/// enrolled fingerprints are presented; presenting two of them is never enough.
pub proof fn lemma_threshold_needs_all_three(reg: ThresholdRegistry, presented: Seq<u64>)
    ensures
        reg.spec_check(presented) == ThresholdResult::ThresholdMet <==> (reg.spec_complete()
            && presented.contains(reg.slot(KeySlotId::OsKey).fingerprint)
            && presented.contains(reg.slot(KeySlotId::EdisonDbKey).fingerprint)
            && presented.contains(reg.slot(KeySlotId::OwnerKey).fingerprint)),
{
}

/// After any key is revoked, no set of presented fingerprints meets the threshold.
pub proof fn lemma_revoked_blocks_threshold(reg: ThresholdRegistry, presented: Seq<u64>)
    requires
        !reg.spec_complete(),
    ensures
        reg.spec_check(presented) == ThresholdResult::NotEnrolled,
{
}

} // verus!
