//! The trust graph: the central capability authority. Edges record which
//! capabilities a PD holds on another; tokens are validated against them with
//! anti-replay on the token sequence.
use vstd::prelude::*;
use crate::trustgraph::token::{CapToken, CapabilityType, TokenResult, validate, validate_spec};
use crate::trustgraph::trust_score::{
    TrustEntry, TrustError, TrustRegistry, MAX_TRUST, MAX_TRUST_ENTRIES, has_pd, pd_index, unique_pds, score_of,
    trusted_in, grant_in, revoke_in, grant_room, revocation_room,
};

verus! {

/// Maximum number of edges in the capability graph.
pub const MAX_EDGES: usize = 64;

/// A capability edge in the trust graph.
#[derive(Debug, Clone, Copy)]
pub struct CapEdge {
    pub src_pd: u8,
    pub dst_pd: u8,
    pub cap_type: CapabilityType,
    pub active: bool,
    /// Sequence of the last token validated on this edge.
    pub last_seq: u64,
}

impl CapEdge {
    /// An inactive placeholder edge.
    pub fn empty() -> (e: Self)
        ensures
            e.src_pd == 0 && e.dst_pd == 0 && e.cap_type == CapabilityType::Read,
            !e.active && e.last_seq == 0,
    {
        CapEdge { src_pd: 0, dst_pd: 0, cap_type: CapabilityType::Read, active: false, last_seq: 0 }
    }
}

/// Result of token validation against the graph.
#[derive(Debug, Clone, Copy, PartialEq, Eq, Structural)]
pub enum GraphResult {
    /// Token valid: capability granted.
    Granted,
    /// Token structurally invalid.
    InvalidToken(TokenResult),
    /// No active edge exists for this capability.
    NoEdge,
    /// Token sequence is a replay.
    ReplayDetected,
    /// Source PD not trusted.
    UntrustedSource,
}

/// A freshly added edge: active, no token seen yet.
pub open spec fn new_edge(src: u8, dst: u8, cap: CapabilityType) -> CapEdge {
    CapEdge { src_pd: src, dst_pd: dst, cap_type: cap, active: true, last_seq: 0 }
}

/// `e` is an active edge for (src, dst, cap).
pub open spec fn edge_matches(e: CapEdge, src: u8, dst: u8, cap: CapabilityType) -> bool {
    e.active && e.src_pd == src && e.dst_pd == dst && e.cap_type == cap
}

/// Some active edge for (src, dst, cap) exists.
pub open spec fn has_edge(edges: Seq<CapEdge>, src: u8, dst: u8, cap: CapabilityType) -> bool {
    exists|i: int| 0 <= i < edges.len() && edge_matches(edges[i], src, dst, cap)
}

/// `i` is the first active edge for (src, dst, cap).
pub open spec fn is_first_edge(edges: Seq<CapEdge>, i: int, src: u8, dst: u8, cap: CapabilityType) -> bool {
    &&& 0 <= i < edges.len()
    &&& edge_matches(edges[i], src, dst, cap)
    &&& forall|j: int| 0 <= j < i ==> !edge_matches(#[trigger] edges[j], src, dst, cap)
}

/// Index of the first active edge for (src, dst, cap) (meaningful when one exists).
pub open spec fn first_edge(edges: Seq<CapEdge>, src: u8, dst: u8, cap: CapabilityType) -> int {
    choose|i: int| is_first_edge(edges, i, src, dst, cap)
}

/// Outcome of registering one PD as mandatory in `s`.
pub open spec fn register_outcome(s: Seq<TrustEntry>, pd: u8) -> Result<(), TrustError> {
    if s.len() >= MAX_TRUST_ENTRIES {
        Err(TrustError::RegistryFull)
    } else if has_pd(s, pd) {
        Err(TrustError::AlreadyRegistered)
    } else {
        Ok(())
    }
}

/// Registers each PD of `pds` as mandatory, in order, stopping at the first
/// failure: the entries reached and the outcome.
pub open spec fn register_all(s: Seq<TrustEntry>, pds: Seq<u8>) -> (Seq<TrustEntry>, Result<(), TrustError>)
    decreases pds.len(),
{
    if pds.len() == 0 {
        (s, Ok(()))
    } else {
        match register_outcome(s, pds[0]) {
            Err(e) => (s, Err(e)),
            Ok(_) => register_all(s.push(TrustEntry::mandatory(pds[0])), pds.skip(1)),
        }
    }
}

/// Adds each edge of `es` in order, stopping when the graph is full.
pub open spec fn add_all(edges: Seq<CapEdge>, es: Seq<(u8, u8, CapabilityType)>) -> (Seq<CapEdge>, Result<(), TrustError>)
    decreases es.len(),
{
    if es.len() == 0 {
        (edges, Ok(()))
    } else if edges.len() >= MAX_EDGES {
        (edges, Err(TrustError::RegistryFull))
    } else {
        add_all(edges.push(new_edge(es[0].0, es[0].1, es[0].2)), es.skip(1))
    }
}

/// The PDs registered as mandatory at commissioning: GENESIS, ARPi-Broker,
/// DataTier-Enforcer, TrustGraph-Gate, Inverted-Admin, AXON-Bridge.
pub open spec fn mandatory_pds() -> Seq<u8> {
    seq![0x01u8, 0x02u8, 0x03u8, 0x04u8, 0x05u8, 0x06u8]
}

/// The edges added at commissioning: GENESIS executes on ARPi-Broker, and
/// ARPi-Broker executes on each other mandatory PD.
pub open spec fn commission_edges() -> Seq<(u8, u8, CapabilityType)> {
    seq![
        (0x01u8, 0x02u8, CapabilityType::Execute),
        (0x02u8, 0x03u8, CapabilityType::Execute),
        (0x02u8, 0x04u8, CapabilityType::Execute),
        (0x02u8, 0x05u8, CapabilityType::Execute),
        (0x02u8, 0x06u8, CapabilityType::Execute),
    ]
}

/// The trust graph: central capability authority.
pub struct TrustGraph {
    edges: Vec<CapEdge>,
    trust: TrustRegistry,
}

impl TrustGraph {
    /// The capability edges, in insertion order.
    pub closed spec fn edges(&self) -> Seq<CapEdge> {
        self.edges@
    }

    /// The trust registry's entries.
    pub closed spec fn trust(&self) -> Seq<TrustEntry> {
        self.trust@
    }

    /// Well-formedness: at most `MAX_EDGES` edges and a well-formed registry.
    pub closed spec fn wf(&self) -> bool {
        self.edges@.len() <= MAX_EDGES && self.trust.wf()
    }

    pub proof fn lemma_wf(&self)
        requires
            self.wf(),
        ensures
            self.edges().len() <= MAX_EDGES,
            self.trust().len() <= MAX_TRUST_ENTRIES,
            unique_pds(self.trust()),
    {
    }

    pub fn new() -> (g: Self)
        ensures
            g.wf(),
            g.edges() == Seq::<CapEdge>::empty(),
            g.trust() == Seq::<TrustEntry>::empty(),
    {
        TrustGraph { edges: Vec::new(), trust: TrustRegistry::new() }
    }

    /// Adds an active capability edge.
    pub fn add_edge(&mut self, src_pd: u8, dst_pd: u8, cap_type: CapabilityType) -> (r: Result<(), TrustError>)
        requires
            old(self).wf(),
        ensures
            final(self).wf(),
            final(self).trust() == old(self).trust(),
            r is Ok <==> old(self).edges().len() < MAX_EDGES,
            r is Ok ==> r == Ok::<(), TrustError>(()),
            r is Err ==> r == Err::<(), TrustError>(TrustError::RegistryFull) && final(self).edges() == old(self).edges(),
            r is Ok ==> final(self).edges() == old(self).edges().push(new_edge(src_pd, dst_pd, cap_type)),
    {
        if self.edges.len() >= MAX_EDGES {
            return Err(TrustError::RegistryFull);
        }
        self.edges.push(CapEdge { src_pd, dst_pd, cap_type, active: true, last_seq: 0 });
        Ok(())
    }

    /// Initializes the graph with all mandatory PDs and their core edges.
    pub fn commission(&mut self) -> (r: Result<(), TrustError>)
        requires
            old(self).wf(),
        ensures
            final(self).wf(),
            final(self).trust() == register_all(old(self).trust(), mandatory_pds()).0,
            register_all(old(self).trust(), mandatory_pds()).1 is Err ==> r == register_all(
                old(self).trust(),
                mandatory_pds(),
            ).1 && final(self).edges() == old(self).edges(),
            register_all(old(self).trust(), mandatory_pds()).1 is Ok ==> r == add_all(
                old(self).edges(),
                commission_edges(),
            ).1 && final(self).edges() == add_all(old(self).edges(), commission_edges()).0,
    {
        let mandatory: [u8; 6] = [0x01, 0x02, 0x03, 0x04, 0x05, 0x06];
        assert(mandatory@ =~= mandatory_pds());
        let ghost target = register_all(self.trust@, mandatory_pds());
        assert(self.trust@ == old(self).trust());
        assert(target == register_all(old(self).trust(), mandatory_pds()));
        assert(mandatory_pds().skip(0) =~= mandatory_pds());
        let mut i: usize = 0;
        while i < 6
            invariant
                0 <= i <= 6,
                mandatory@ == mandatory_pds(),
                self.trust.wf(),
                self.edges@.len() <= MAX_EDGES,
                self.edges@ == old(self).edges@,
                register_all(self.trust@, mandatory_pds().skip(i as int)) == target,
                target == register_all(old(self).trust(), mandatory_pds()),
            decreases 6 - i,
        {
            let pd = mandatory[i];
            let ghost before = self.trust@;
            let ghost rest = mandatory_pds().skip(i as int);
            proof {
                assert(rest[0] == pd);
                assert(rest.skip(1) =~= mandatory_pds().skip(i + 1));
            }
            let res = self.trust.register(pd, true);
            proof {
                if before.len() >= MAX_TRUST_ENTRIES {
                    assert(res == Err::<(), TrustError>(TrustError::RegistryFull));
                } else if has_pd(before, pd) {
                    assert(res == Err::<(), TrustError>(TrustError::AlreadyRegistered));
                } else {
                    assert(res is Ok);
                    assert(res == Ok::<(), TrustError>(()));
                    assert(register_outcome(before, pd) == Ok::<(), TrustError>(()));
                }
                assert(register_outcome(before, pd) == res);
            }
            if res.is_err() {
                assert(register_all(before, rest) == (before, res));
                assert(target.1 == res);
                assert(self.trust@ == target.0);
                assert(self.edges@ == old(self).edges@);
                assert(old(self).trust() == old(self).trust@);
                return res;
            }
            i = i + 1;
        }
        assert(mandatory_pds().skip(6) =~= Seq::<u8>::empty());
        assert(target == (self.trust@, Ok::<(), TrustError>(())));
        let ghost etarget = add_all(self.edges@, commission_edges());
        assert(commission_edges().skip(0) =~= commission_edges());
        let srcs: [u8; 5] = [0x01, 0x02, 0x02, 0x02, 0x02];
        let dsts: [u8; 5] = [0x02, 0x03, 0x04, 0x05, 0x06];
        let mut k: usize = 0;
        while k < 5
            invariant
                0 <= k <= 5,
                srcs@ == seq![0x01u8, 0x02u8, 0x02u8, 0x02u8, 0x02u8],
                dsts@ == seq![0x02u8, 0x03u8, 0x04u8, 0x05u8, 0x06u8],
                self.trust.wf(),
                self.trust@ == target.0,
                self.edges@.len() <= MAX_EDGES,
                add_all(self.edges@, commission_edges().skip(k as int)) == etarget,
                target == register_all(old(self).trust(), mandatory_pds()),
                target.1 is Ok,
                etarget == add_all(old(self).edges(), commission_edges()),
            decreases 5 - k,
        {
            proof {
                let rest = commission_edges().skip(k as int);
                assert(rest[0] == (srcs@[k as int], dsts@[k as int], CapabilityType::Execute));
                assert(rest.skip(1) =~= commission_edges().skip(k + 1));
            }
            let ghost ebefore = self.edges@;
            let res = self.add_edge(srcs[k], dsts[k], CapabilityType::Execute);
            if res.is_err() {
                assert(add_all(ebefore, commission_edges().skip(k as int)) == (ebefore, res));
                return res;
            }
            k = k + 1;
        }
        assert(commission_edges().skip(5) =~= Seq::<(u8, u8, CapabilityType)>::empty());
        Ok(())
    }

    /// Index of the first active edge for (src, dst, cap), if any.
    fn find_edge(&self, src_pd: u8, dst_pd: u8, cap_type: CapabilityType) -> (r: Option<usize>)
        ensures
            r is None <==> !has_edge(self.edges@, src_pd, dst_pd, cap_type),
            r matches Some(i) ==> i < self.edges@.len() && i == first_edge(self.edges@, src_pd, dst_pd, cap_type)
                && is_first_edge(self.edges@, i as int, src_pd, dst_pd, cap_type),
    {
        let mut i: usize = 0;
        while i < self.edges.len()
            invariant
                0 <= i <= self.edges@.len(),
                forall|j: int| 0 <= j < i ==> !edge_matches(#[trigger] self.edges@[j], src_pd, dst_pd, cap_type),
            decreases self.edges@.len() - i,
        {
            let e = self.edges[i];
            if e.active && e.src_pd == src_pd && e.dst_pd == dst_pd && e.cap_type == cap_type {
                proof {
                    let s = self.edges@;
                    assert(is_first_edge(s, i as int, src_pd, dst_pd, cap_type));
                    let k = first_edge(s, src_pd, dst_pd, cap_type);
                    assert(is_first_edge(s, k, src_pd, dst_pd, cap_type));
                    if k < i {
                        assert(!edge_matches(s[k], src_pd, dst_pd, cap_type));
                    }
                    if k > i {
                        assert(!edge_matches(s[i as int], src_pd, dst_pd, cap_type));
                    }
                }
                return Some(i);
            }
            i = i + 1;
        }
        None
    }

    /// Validates a capability token against the graph: structure, trusted
    /// source, an active edge, and a sequence above the edge's last one.
    /// On success the edge records the sequence and the destination's trust
    /// entry records a grant.
    pub fn validate_token(&mut self, token: &CapToken) -> (r: GraphResult)
        requires
            old(self).wf(),
            grant_room(old(self).trust(), token.dst_pd),
        ensures
            final(self).wf(),
            ({
                let t = *token;
                let es = old(self).edges();
                let i = first_edge(es, t.src_pd, t.dst_pd, t.cap_type);
                if validate_spec(t) != TokenResult::Valid {
                    r == GraphResult::InvalidToken(validate_spec(t)) && *final(self) == *old(self)
                } else if !trusted_in(old(self).trust(), t.src_pd) {
                    r == GraphResult::UntrustedSource && *final(self) == *old(self)
                } else if !has_edge(es, t.src_pd, t.dst_pd, t.cap_type) {
                    r == GraphResult::NoEdge && *final(self) == *old(self)
                } else if t.seq <= es[i].last_seq {
                    r == GraphResult::ReplayDetected && *final(self) == *old(self)
                } else {
                    &&& r == GraphResult::Granted
                    &&& final(self).edges() == es.update(i, CapEdge { last_seq: t.seq, ..es[i] })
                    &&& final(self).trust() == grant_in(old(self).trust(), t.dst_pd)
                }
            }),
    {
        let tv = validate(token);
        if tv != TokenResult::Valid {
            return GraphResult::InvalidToken(tv);
        }
        if !self.trust.is_trusted(token.src_pd) {
            return GraphResult::UntrustedSource;
        }
        match self.find_edge(token.src_pd, token.dst_pd, token.cap_type) {
            None => GraphResult::NoEdge,
            Some(i) => {
                let mut e = self.edges[i];
                if token.seq <= e.last_seq {
                    return GraphResult::ReplayDetected;
                }
                e.last_seq = token.seq;
                self.edges.set(i, e);
                let _ = self.trust.record_grant(token.dst_pd);
                GraphResult::Granted
            }
        }
    }

    /// Revokes the first active edge for (src, dst, cap) and records a
    /// revocation against the destination.
    pub fn revoke_edge(&mut self, src_pd: u8, dst_pd: u8, cap_type: CapabilityType) -> (r: Result<(), TrustError>)
        requires
            old(self).wf(),
            revocation_room(old(self).trust(), dst_pd),
        ensures
            final(self).wf(),
            r is Ok <==> has_edge(old(self).edges(), src_pd, dst_pd, cap_type),
            r is Err ==> r == Err::<(), TrustError>(TrustError::UnknownPd) && *final(self) == *old(self),
            r is Ok ==> ({
                let es = old(self).edges();
                let i = first_edge(es, src_pd, dst_pd, cap_type);
                &&& final(self).edges() == es.update(i, CapEdge { active: false, ..es[i] })
                &&& final(self).trust() == revoke_in(old(self).trust(), dst_pd)
            }),
    {
        match self.find_edge(src_pd, dst_pd, cap_type) {
            None => Err(TrustError::UnknownPd),
            Some(i) => {
                let mut e = self.edges[i];
                e.active = false;
                self.edges.set(i, e);
                let _ = self.trust.record_revocation(dst_pd);
                Ok(())
            }
        }
    }

    /// Trust score of a PD, if registered.
    pub fn trust_score(&self, pd_id: u8) -> (r: Option<u8>)
        requires
            self.wf(),
        ensures
            r == score_of(self.trust(), pd_id),
    {
        self.trust.score(pd_id)
    }

    /// Number of edges (active or revoked).
    pub fn edge_count(&self) -> (r: usize)
        ensures
            r == self.edges().len(),
    {
        self.edges.len()
    }

    /// Number of registered PDs.
    pub fn registered_pd_count(&self) -> (r: usize)
        ensures
            r == self.trust().len(),
    {
        self.trust.registered_count()
    }
}

} // verus!

verus! {

/// The entries a fresh registry holds after commissioning: the six mandatory
/// PDs, in order, at maximum trust.
pub open spec fn commissioned_entries() -> Seq<TrustEntry> {
    mandatory_pds().map_values(|pd: u8| TrustEntry::mandatory(pd))
}

/// The edges a fresh graph holds after commissioning.
pub open spec fn commissioned_edges() -> Seq<CapEdge> {
    commission_edges().map_values(|e: (u8, u8, CapabilityType)| new_edge(e.0, e.1, e.2))
}

/// Commissioning a fresh graph succeeds: it registers the six mandatory PDs at
/// maximum trust and adds the five core edges.
pub proof fn lemma_commission_fresh()
    ensures
        register_all(Seq::<TrustEntry>::empty(), mandatory_pds()) == (commissioned_entries(), Ok::<(), TrustError>(())),
        add_all(Seq::<CapEdge>::empty(), commission_edges()) == (commissioned_edges(), Ok::<(), TrustError>(())),
        commissioned_entries().len() == 6,
        commissioned_edges().len() == 5,
        forall|i: int| 0 <= i < 6 ==> (#[trigger] commissioned_entries()[i]).score == MAX_TRUST,
{
    let pds = mandatory_pds();
    let full = commissioned_entries();
    assert forall|k: int| 0 <= k <= 6 implies register_all(full.take(k), pds.skip(k)) == (full, Ok::<(), TrustError>(())) by {
        lemma_register_suffix(k);
    }
    assert(full.take(0) =~= Seq::<TrustEntry>::empty());
    assert(pds.skip(0) =~= pds);
    let es = commission_edges();
    let efull = commissioned_edges();
    assert forall|k: int| 0 <= k <= 5 implies add_all(efull.take(k), es.skip(k)) == (efull, Ok::<(), TrustError>(())) by {
        lemma_add_suffix(k);
    }
    assert(efull.take(0) =~= Seq::<CapEdge>::empty());
    assert(es.skip(0) =~= es);
}

proof fn lemma_register_suffix(k: int)
    requires
        0 <= k <= 6,
    ensures
        register_all(commissioned_entries().take(k), mandatory_pds().skip(k)) == (commissioned_entries(), Ok::<(), TrustError>(())),
    decreases 6 - k,
{
    let pds = mandatory_pds();
    let full = commissioned_entries();
    if k == 6 {
        assert(pds.skip(6) =~= Seq::<u8>::empty());
        assert(full.take(6) =~= full);
    } else {
        lemma_register_suffix(k + 1);
        let s = full.take(k);
        let rest = pds.skip(k);
        assert(rest[0] == pds[k]);
        assert(rest.skip(1) =~= pds.skip(k + 1));
        assert(s.push(TrustEntry::mandatory(pds[k])) =~= full.take(k + 1));
        assert(!has_pd(s, pds[k])) by {
            if has_pd(s, pds[k]) {
                let j = choose|j: int| 0 <= j < s.len() && s[j].pd_id == pds[k];
                assert(s[j].pd_id == pds[j]);
            }
        }
        assert(register_outcome(s, pds[k]) is Ok);
    }
}

proof fn lemma_add_suffix(k: int)
    requires
        0 <= k <= 5,
    ensures
        add_all(commissioned_edges().take(k), commission_edges().skip(k)) == (commissioned_edges(), Ok::<(), TrustError>(())),
    decreases 5 - k,
{
    let es = commission_edges();
    let full = commissioned_edges();
    if k == 5 {
        assert(es.skip(5) =~= Seq::<(u8, u8, CapabilityType)>::empty());
        assert(full.take(5) =~= full);
    } else {
        lemma_add_suffix(k + 1);
        let rest = es.skip(k);
        assert(rest[0] == es[k]);
        assert(rest.skip(1) =~= es.skip(k + 1));
        assert(full.take(k).push(new_edge(es[k].0, es[k].1, es[k].2)) =~= full.take(k + 1));
    }
}

/// Commissioning cannot be repeated: once GENESIS is registered, commissioning
/// fails and leaves the registry as it was.
pub proof fn lemma_commission_twice_fails(trust: Seq<TrustEntry>)
    requires
        has_pd(trust, 0x01),
    ensures
        register_all(trust, mandatory_pds()).1 is Err,
        register_all(trust, mandatory_pds()).0 == trust,
{
    assert(mandatory_pds()[0] == 0x01u8);
    assert(register_outcome(trust, 0x01) is Err);
}

/// Anti-replay: once a token is granted on an edge, no token for the same
/// (source, destination, capability) with a sequence at or below it is
/// granted again; it is reported as a replay.
pub proof fn lemma_no_replay(
    es: Seq<CapEdge>,
    trust: Seq<TrustEntry>,
    t: CapToken,
    t2: CapToken,
)
    requires
        unique_pds(trust),
        validate_spec(t) == TokenResult::Valid,
        trusted_in(trust, t.src_pd),
        has_edge(es, t.src_pd, t.dst_pd, t.cap_type),
        t.seq > es[first_edge(es, t.src_pd, t.dst_pd, t.cap_type)].last_seq,
        validate_spec(t2) == TokenResult::Valid,
        t2.src_pd == t.src_pd,
        t2.dst_pd == t.dst_pd,
        t2.cap_type == t.cap_type,
        t2.seq <= t.seq,
    ensures
        ({
            let i = first_edge(es, t.src_pd, t.dst_pd, t.cap_type);
            let es2 = es.update(i, CapEdge { last_seq: t.seq, ..es[i] });
            let trust2 = grant_in(trust, t.dst_pd);
            &&& trusted_in(trust2, t2.src_pd)
            &&& has_edge(es2, t2.src_pd, t2.dst_pd, t2.cap_type)
            &&& t2.seq <= es2[first_edge(es2, t2.src_pd, t2.dst_pd, t2.cap_type)].last_seq
        }),
{
    let i = first_edge(es, t.src_pd, t.dst_pd, t.cap_type);
    lemma_first_edge_exists(es, t.src_pd, t.dst_pd, t.cap_type);
    let es2 = es.update(i, CapEdge { last_seq: t.seq, ..es[i] });
    assert(is_first_edge(es2, i, t.src_pd, t.dst_pd, t.cap_type)) by {
        assert forall|j: int| 0 <= j < i implies !edge_matches(#[trigger] es2[j], t.src_pd, t.dst_pd, t.cap_type) by {
            assert(es2[j] == es[j]);
        }
    }
    let k = first_edge(es2, t.src_pd, t.dst_pd, t.cap_type);
    assert(is_first_edge(es2, k, t.src_pd, t.dst_pd, t.cap_type));
    if k < i {
        assert(!edge_matches(es2[k], t.src_pd, t.dst_pd, t.cap_type));
    }
    if k > i {
        assert(!edge_matches(es2[i], t.src_pd, t.dst_pd, t.cap_type));
    }
    let trust2 = grant_in(trust, t.dst_pd);
    let si = pd_index(trust, t.src_pd);
    if has_pd(trust, t.dst_pd) {
        let di = pd_index(trust, t.dst_pd);
        assert(si != di);
        assert(trust2[si] == trust[si]);
        assert(trust2[si].pd_id == t.src_pd);
        let si2 = pd_index(trust2, t.src_pd);
        assert(trust2[si2].pd_id == t.src_pd);
        assert(trust2.len() == trust.len());
        assert(si2 == si) by {
            if si2 != si {
                if si2 == di {
                    assert(trust2[si2].pd_id == trust[di].pd_id);
                } else {
                    assert(trust2[si2] == trust[si2]);
                }
            }
        }
    }
}

/// Every active edge for (src, dst, cap) has a first one.
pub proof fn lemma_first_edge_exists(es: Seq<CapEdge>, src: u8, dst: u8, cap: CapabilityType)
    requires
        has_edge(es, src, dst, cap),
    ensures
        is_first_edge(es, first_edge(es, src, dst, cap), src, dst, cap),
    decreases es.len(),
{
    let j = choose|j: int| 0 <= j < es.len() && edge_matches(es[j], src, dst, cap);
    if has_edge(es.drop_last(), src, dst, cap) {
        lemma_first_edge_exists(es.drop_last(), src, dst, cap);
        let f = first_edge(es.drop_last(), src, dst, cap);
        assert(is_first_edge(es, f, src, dst, cap)) by {
            assert forall|m: int| 0 <= m < f implies !edge_matches(#[trigger] es[m], src, dst, cap) by {
                assert(es.drop_last()[m] == es[m]);
            }
            assert(es.drop_last()[f] == es[f]);
        }
    } else {
        let last = es.len() - 1;
        assert(j == last) by {
            if j < last {
                assert(es.drop_last()[j] == es[j]);
            }
        }
        assert(is_first_edge(es, last, src, dst, cap)) by {
            assert forall|m: int| 0 <= m < last implies !edge_matches(#[trigger] es[m], src, dst, cap) by {
                assert(es.drop_last()[m] == es[m]);
            }
        }
    }
}

/// Revoking an edge deactivates exactly the first matching edge and leaves
/// every other edge untouched; when it was the only matching edge, tokens for
/// that capability find no edge afterwards.
pub proof fn lemma_revoke_removes_edge(es: Seq<CapEdge>, src: u8, dst: u8, cap: CapabilityType)
    requires
        has_edge(es, src, dst, cap),
        forall|j: int| 0 <= j < es.len() && j != first_edge(es, src, dst, cap) ==> !edge_matches(#[trigger] es[j], src, dst, cap),
    ensures
        ({
            let i = first_edge(es, src, dst, cap);
            !has_edge(es.update(i, CapEdge { active: false, ..es[i] }), src, dst, cap)
        }),
{
    let i = first_edge(es, src, dst, cap);
    lemma_first_edge_exists(es, src, dst, cap);
    let es2 = es.update(i, CapEdge { active: false, ..es[i] });
    assert forall|j: int| 0 <= j < es2.len() implies !edge_matches(#[trigger] es2[j], src, dst, cap) by {
        if j != i {
            assert(es2[j] == es[j]);
        }
    }
}

} // verus!
