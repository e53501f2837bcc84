//! Trust scores: a per-PD trust rating raised by grants received and lowered by
//! revocations. Mandatory PDs start at maximum trust.
use vstd::prelude::*;

verus! {

/// Maximum trust score.
pub const MAX_TRUST: u8 = 100;
/// Minimum trust score.
pub const MIN_TRUST: u8 = 0;
/// Mandatory PDs always start at maximum trust.
pub const MANDATORY_TRUST: u8 = 100;
/// New optional PDs start at baseline trust.
pub const BASELINE_TRUST: u8 = 50;
/// Capacity of the trust registry.
pub const MAX_TRUST_ENTRIES: usize = 16;

/// Per-PD trust entry.
#[derive(Debug, Clone, Copy)]
pub struct TrustEntry {
    pub pd_id: u8,
    pub score: u8,
    pub grants_received: u32,
    pub revocations: u32,
}

/// Score after one grant: two points more, capped at `MAX_TRUST`.
pub open spec fn score_after_grant(score: u8) -> u8 {
    if score + 2 >= MAX_TRUST { MAX_TRUST } else { (score + 2) as u8 }
}

/// Score after one revocation: ten points less, floored at zero.
pub open spec fn score_after_revocation(score: u8) -> u8 {
    if score < 10 { 0 } else { (score - 10) as u8 }
}

impl TrustEntry {
    /// The entry after one grant.
    pub open spec fn granted(self) -> TrustEntry {
        TrustEntry {
            grants_received: (self.grants_received + 1) as u32,
            score: score_after_grant(self.score),
            ..self
        }
    }

    /// The entry after one revocation.
    pub open spec fn revoked(self) -> TrustEntry {
        TrustEntry {
            revocations: (self.revocations + 1) as u32,
            score: score_after_revocation(self.score),
            ..self
        }
    }

    /// A mandatory entry: maximum trust, no history.
    pub open spec fn mandatory(pd_id: u8) -> TrustEntry {
        TrustEntry { pd_id, score: MANDATORY_TRUST, grants_received: 0, revocations: 0 }
    }

    /// An optional entry: baseline trust, no history.
    pub open spec fn optional(pd_id: u8) -> TrustEntry {
        TrustEntry { pd_id, score: BASELINE_TRUST, grants_received: 0, revocations: 0 }
    }

    pub fn new_mandatory(pd_id: u8) -> (e: Self)
        ensures
            e == TrustEntry::mandatory(pd_id),
    {
        TrustEntry { pd_id, score: MANDATORY_TRUST, grants_received: 0, revocations: 0 }
    }

    pub fn new_optional(pd_id: u8) -> (e: Self)
        ensures
            e == TrustEntry::optional(pd_id),
    {
        TrustEntry { pd_id, score: BASELINE_TRUST, grants_received: 0, revocations: 0 }
    }

    /// Records a grant received: the score rises by two, capped at `MAX_TRUST`.
    pub fn record_grant(&mut self)
        requires
            old(self).grants_received < u32::MAX,
        ensures
            *final(self) == old(self).granted(),
    {
        self.grants_received = self.grants_received + 1;
        let raised = self.score.saturating_add(2);
        self.score = if raised < MAX_TRUST { raised } else { MAX_TRUST };
    }

    /// Records a revocation: the score falls by ten, floored at zero.
    pub fn record_revocation(&mut self)
        requires
            old(self).revocations < u32::MAX,
        ensures
            *final(self) == old(self).revoked(),
    {
        self.revocations = self.revocations + 1;
        self.score = self.score.saturating_sub(10);
    }

    /// A PD is trusted when its score is at least the baseline.
    pub fn is_trusted(&self) -> (r: bool)
        ensures
            r == (self.score >= BASELINE_TRUST),
    {
        self.score >= BASELINE_TRUST
    }
}

/// Error of the trust registry and the trust graph.
#[derive(Debug, Clone, Copy, PartialEq, Eq, Structural)]
pub enum TrustError {
    RegistryFull,
    AlreadyRegistered,
    UnknownPd,
}

/// True when some entry of `s` belongs to `pd`.
pub open spec fn has_pd(s: Seq<TrustEntry>, pd: u8) -> bool {
    exists|i: int| 0 <= i < s.len() && s[i].pd_id == pd
}

/// Index of `pd`'s entry in `s` (meaningful when `has_pd(s, pd)`).
pub open spec fn pd_index(s: Seq<TrustEntry>, pd: u8) -> int {
    choose|i: int| 0 <= i < s.len() && s[i].pd_id == pd
}

/// No two entries of `s` belong to the same PD.
pub open spec fn unique_pds(s: Seq<TrustEntry>) -> bool {
    forall|i: int, j: int| 0 <= i < s.len() && 0 <= j < s.len() && i != j ==> s[i].pd_id != s[j].pd_id
}

/// Score of `pd` in `s`, if registered.
pub open spec fn score_of(s: Seq<TrustEntry>, pd: u8) -> Option<u8> {
    if has_pd(s, pd) { Some(s[pd_index(s, pd)].score) } else { None }
}

/// Whether `pd` is registered in `s` with at least baseline trust.
pub open spec fn trusted_in(s: Seq<TrustEntry>, pd: u8) -> bool {
    has_pd(s, pd) && s[pd_index(s, pd)].score >= BASELINE_TRUST
}

/// Entries after `pd` receives a grant (unchanged when `pd` is unknown).
pub open spec fn grant_in(s: Seq<TrustEntry>, pd: u8) -> Seq<TrustEntry> {
    if has_pd(s, pd) { s.update(pd_index(s, pd), s[pd_index(s, pd)].granted()) } else { s }
}

/// Entries after `pd` suffers a revocation (unchanged when `pd` is unknown).
pub open spec fn revoke_in(s: Seq<TrustEntry>, pd: u8) -> Seq<TrustEntry> {
    if has_pd(s, pd) { s.update(pd_index(s, pd), s[pd_index(s, pd)].revoked()) } else { s }
}

/// Counters of `pd`'s entry in `s` leave room for one more grant.
pub open spec fn grant_room(s: Seq<TrustEntry>, pd: u8) -> bool {
    has_pd(s, pd) ==> s[pd_index(s, pd)].grants_received < u32::MAX
}

/// Counters of `pd`'s entry in `s` leave room for one more revocation.
pub open spec fn revocation_room(s: Seq<TrustEntry>, pd: u8) -> bool {
    has_pd(s, pd) ==> s[pd_index(s, pd)].revocations < u32::MAX
}

/// Trust score registry.
pub struct TrustRegistry {
    pub(crate) entries: Vec<TrustEntry>,
}

impl View for TrustRegistry {
    type V = Seq<TrustEntry>;

    closed spec fn view(&self) -> Seq<TrustEntry> {
        self.entries@
    }
}

impl TrustRegistry {
    /// Well-formedness: at most `MAX_TRUST_ENTRIES` entries, one per PD.
    pub open spec fn wf(&self) -> bool {
        self@.len() <= MAX_TRUST_ENTRIES && unique_pds(self@)
    }

    pub fn new() -> (r: Self)
        ensures
            r.wf(),
            r@ == Seq::<TrustEntry>::empty(),
    {
        TrustRegistry { entries: Vec::new() }
    }

    /// Index of `pd_id`'s entry, if any.
    fn find(&self, pd_id: u8) -> (r: Option<usize>)
        requires
            self.wf(),
        ensures
            r is None <==> !has_pd(self@, pd_id),
            r matches Some(i) ==> i == pd_index(self@, pd_id) && i < self@.len()
                && self@[i as int].pd_id == pd_id,
    {
        let mut i: usize = 0;
        while i < self.entries.len()
            invariant
                0 <= i <= self.entries@.len(),
                self.wf(),
                forall|j: int| 0 <= j < i ==> self@[j].pd_id != pd_id,
            decreases self.entries@.len() - i,
        {
            if self.entries[i].pd_id == pd_id {
                assert(self@[i as int].pd_id == pd_id);
                assert(pd_index(self@, pd_id) == i) by {
                    let k = pd_index(self@, pd_id);
                    assert(self@[k].pd_id == pd_id);
                }
                return Some(i);
            }
            i = i + 1;
        }
        None
    }

    /// Registers a PD: mandatory PDs start at maximum trust, optional ones at baseline.
    pub fn register(&mut self, pd_id: u8, mandatory: bool) -> (r: Result<(), TrustError>)
        requires
            old(self).wf(),
        ensures
            final(self).wf(),
            old(self)@.len() >= MAX_TRUST_ENTRIES ==> r == Err::<(), TrustError>(TrustError::RegistryFull),
            old(self)@.len() < MAX_TRUST_ENTRIES && has_pd(old(self)@, pd_id)
                ==> r == Err::<(), TrustError>(TrustError::AlreadyRegistered),
            r is Err ==> final(self)@ == old(self)@,
            r is Ok <==> old(self)@.len() < MAX_TRUST_ENTRIES && !has_pd(old(self)@, pd_id),
            r is Ok ==> r == Ok::<(), TrustError>(()),
            r is Ok ==> final(self)@ == old(self)@.push(
                if mandatory { TrustEntry::mandatory(pd_id) } else { TrustEntry::optional(pd_id) },
            ),
    {
        if self.entries.len() >= MAX_TRUST_ENTRIES {
            return Err(TrustError::RegistryFull);
        }
        if self.find(pd_id).is_some() {
            return Err(TrustError::AlreadyRegistered);
        }
        let e = if mandatory { TrustEntry::new_mandatory(pd_id) } else { TrustEntry::new_optional(pd_id) };
        self.entries.push(e);
        Ok(())
    }

    /// Trust score of a PD, if registered.
    pub fn score(&self, pd_id: u8) -> (r: Option<u8>)
        requires
            self.wf(),
        ensures
            r == score_of(self@, pd_id),
    {
        match self.find(pd_id) {
            Some(i) => Some(self.entries[i].score),
            None => None,
        }
    }

    /// Whether a PD is registered with at least baseline trust.
    pub fn is_trusted(&self, pd_id: u8) -> (r: bool)
        requires
            self.wf(),
        ensures
            r == trusted_in(self@, pd_id),
    {
        match self.find(pd_id) {
            Some(i) => self.entries[i].is_trusted(),
            None => false,
        }
    }

    /// Records a grant received by a PD.
    pub fn record_grant(&mut self, pd_id: u8) -> (r: Result<(), TrustError>)
        requires
            old(self).wf(),
            grant_room(old(self)@, pd_id),
        ensures
            final(self).wf(),
            r is Ok <==> has_pd(old(self)@, pd_id),
            r is Err ==> r == Err::<(), TrustError>(TrustError::UnknownPd),
            final(self)@ == grant_in(old(self)@, pd_id),
    {
        match self.find(pd_id) {
            Some(i) => {
                let mut e = self.entries[i];
                e.record_grant();
                self.entries.set(i, e);
                assert(unique_pds(self@)) by {
                    assert(forall|j: int| 0 <= j < self@.len() ==> self@[j].pd_id == old(self)@[j].pd_id);
                }
                Ok(())
            }
            None => Err(TrustError::UnknownPd),
        }
    }

    /// Records a revocation against a PD.
    pub fn record_revocation(&mut self, pd_id: u8) -> (r: Result<(), TrustError>)
        requires
            old(self).wf(),
            revocation_room(old(self)@, pd_id),
        ensures
            final(self).wf(),
            r is Ok <==> has_pd(old(self)@, pd_id),
            r is Err ==> r == Err::<(), TrustError>(TrustError::UnknownPd),
            final(self)@ == revoke_in(old(self)@, pd_id),
    {
        match self.find(pd_id) {
            Some(i) => {
                let mut e = self.entries[i];
                e.record_revocation();
                self.entries.set(i, e);
                assert(unique_pds(self@)) by {
                    assert(forall|j: int| 0 <= j < self@.len() ==> self@[j].pd_id == old(self)@[j].pd_id);
                }
                Ok(())
            }
            None => Err(TrustError::UnknownPd),
        }
    }

    /// Number of registered PDs.
    pub fn registered_count(&self) -> (r: usize)
        ensures
            r == self@.len(),
    {
        self.entries.len()
    }
}

} // verus!

verus! {

/// Grants never push a score past `MAX_TRUST`, and never lower a score that is
/// within range; revocations never raise a score, lower every positive score,
/// and floor at zero.
pub proof fn lemma_score_bounds(score: u8)
    ensures
        score_after_grant(score) <= MAX_TRUST,
        score <= MAX_TRUST ==> score_after_grant(score) >= score,
        score_after_revocation(score) <= score,
        score > 0 ==> score_after_revocation(score) < score,
        score <= 10 ==> score_after_revocation(score) == 0,
{
}

/// A freshly registered PD is trusted exactly when it is mandatory or starts
/// at baseline; a PD never registered is not trusted.
pub proof fn lemma_registration_trust(s: Seq<TrustEntry>, pd: u8, mandatory: bool)
    requires
        unique_pds(s),
        !has_pd(s, pd),
    ensures
        !trusted_in(s, pd),
        trusted_in(s.push(if mandatory { TrustEntry::mandatory(pd) } else { TrustEntry::optional(pd) }), pd),
        score_of(s.push(if mandatory { TrustEntry::mandatory(pd) } else { TrustEntry::optional(pd) }), pd)
            == Some(if mandatory { MANDATORY_TRUST } else { BASELINE_TRUST }),
{
    let e = if mandatory { TrustEntry::mandatory(pd) } else { TrustEntry::optional(pd) };
    let s2 = s.push(e);
    let n = s.len() as int;
    assert(s2[n].pd_id == pd);
    let k = pd_index(s2, pd);
    assert(k == n) by {
        if k != n {
            assert(s2[k] == s[k]);
        }
    }
}

/// The score after `k` grants in a row from `score`.
pub open spec fn score_after_grants(score: u8, k: nat) -> u8
    decreases k,
{
    if k == 0 { score } else { score_after_grant(score_after_grants(score, (k - 1) as nat)) }
}

/// Grants add two points each, up to the maximum: `k` grants from a score
/// within range give `min(score + 2k, 100)`. So five grants win back exactly
/// what one revocation took from a score between 10 and 100.
pub proof fn lemma_grants_accumulate(score: u8, k: nat)
    requires
        score <= 100,
    ensures
        score_after_grants(score, k) == (if score + 2 * k <= 100 { score + 2 * k } else { 100 }),
        10 <= score ==> score_after_grants(score_after_revocation(score), 5) == score,
    decreases k,
{
    if k > 0 {
        lemma_grants_accumulate(score, (k - 1) as nat);
    }
    if 10 <= score {
        let r = score_after_revocation(score);
        assert(r == score - 10);
        reveal_with_fuel(score_after_grants, 6);
        assert(score_after_grants(r, 1) == r + 2);
        assert(score_after_grants(r, 2) == r + 4);
        assert(score_after_grants(r, 3) == r + 6);
        assert(score_after_grants(r, 4) == r + 8);
        assert(score_after_grants(r, 5) == r + 10);
    }
}

/// One grant recorded on an entry raises its score by exactly two, or to
/// the maximum when fewer than two points are left, and touches nothing but
/// the grant count.
pub proof fn lemma_grant_step(e: TrustEntry)
    requires
        e.score <= 100,
    ensures
        e.score + 2 <= 100 ==> e.granted().score == e.score + 2,
        e.score + 2 > 100 ==> e.granted().score == 100,
        e.granted().grants_received == e.grants_received + 1 || e.grants_received == u32::MAX,
        e.granted().pd_id == e.pd_id && e.granted().revocations == e.revocations,
{
}

} // verus!
