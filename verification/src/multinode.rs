//! Multi-node boot coordinator: registers sovereign nodes and the ARPi
//! channels between them, and drives every node through its boot phases.
use vstd::prelude::*;

verus! {

/// Maximum nodes in a sovereign mesh.
pub const MAX_NODES: usize = 16;
/// Phoenix desktop topology: four nodes.
pub const PHOENIX_NODE_COUNT: usize = 4;
/// Sovereign proof value, invariant across all nodes.
pub const AXON_PROOF: u64 = 0x4153;
/// Node type: primary desktop node.
pub const NODE_PRIMARY: u8 = 0x00;
/// Node type: security node.
pub const NODE_BASTION: u8 = 0x01;
/// Node type: data store node.
pub const NODE_DATASTORE: u8 = 0x02;
/// Node type: renderer node.
pub const NODE_RENDERER: u8 = 0x03;
/// Inter-node ARPi channel base.
pub const ARPI_CHANNEL_BASE: u8 = 0x10;
/// Boot timeout in ticks.
pub const BOOT_TIMEOUT_TICKS: u32 = 1000;
/// Number of boot rounds driven by `boot_all`.
pub const BOOT_ROUNDS: usize = 6;

/// Error of the mesh.
#[derive(Debug, PartialEq, Eq, Clone, Copy, Structural)]
pub enum MultinodeError {
    SovereigntyFailed,
    BootTimeout,
    ChannelFailed,
    MeshFull,
    DuplicateNode,
    NodeNotFound,
    InvalidTopology,
    PhoenixNotReady,
}

/// Boot phase of a sovereign node.
#[derive(Debug, Clone, Copy, PartialEq, Eq, Structural)]
pub enum BootPhase {
    Offline,
    Booting,
    Proving,
    PdsReady,
    MeshLinked,
    Online,
}

/// Numeric value of each phase, in boot order.
pub open spec fn phase_code(p: BootPhase) -> u8 {
    match p {
        BootPhase::Offline => 0,
        BootPhase::Booting => 1,
        BootPhase::Proving => 2,
        BootPhase::PdsReady => 3,
        BootPhase::MeshLinked => 4,
        BootPhase::Online => 5,
    }
}

impl BootPhase {
    /// The numeric value of this phase.
    pub fn as_u8(self) -> (r: u8)
        ensures
            r == phase_code(self),
    {
        match self {
            BootPhase::Offline => 0,
            BootPhase::Booting => 1,
            BootPhase::Proving => 2,
            BootPhase::PdsReady => 3,
            BootPhase::MeshLinked => 4,
            BootPhase::Online => 5,
        }
    }
}

/// A single sovereign node in the mesh.
#[derive(Debug, Clone, Copy)]
pub struct SovereignNode {
    pub node_id: u8,
    pub node_type: u8,
    pub phase: BootPhase,
    pub proof: u64,
    pub pd_count: u8,
    pub arpi_chan: u8,
    pub tick_start: u32,
}

/// Number of protection domains a node of each type runs.
pub open spec fn pds_for(node_type: u8) -> u8 {
    if node_type == NODE_PRIMARY {
        6
    } else if node_type == NODE_BASTION {
        3
    } else if node_type == NODE_DATASTORE {
        2
    } else if node_type == NODE_RENDERER {
        2
    } else {
        1
    }
}

/// Advancing `n` at `tick` does not underflow the timeout check.
pub open spec fn advance_safe(n: SovereignNode, tick: u32) -> bool {
    n.phase == BootPhase::PdsReady ==> tick >= n.tick_start
}

/// The timeout check fails for `n` at `tick`.
pub open spec fn timed_out(n: SovereignNode, tick: u32) -> bool {
    n.phase == BootPhase::PdsReady && tick - n.tick_start > BOOT_TIMEOUT_TICKS
}

/// The node after one boot step at `tick` (unchanged on a timeout).
pub open spec fn advanced(n: SovereignNode, tick: u32) -> SovereignNode {
    match n.phase {
        BootPhase::Offline => SovereignNode { phase: BootPhase::Booting, tick_start: tick, ..n },
        BootPhase::Booting => SovereignNode { phase: BootPhase::Proving, proof: AXON_PROOF, ..n },
        BootPhase::Proving => SovereignNode { phase: BootPhase::PdsReady, pd_count: pds_for(n.node_type), ..n },
        BootPhase::PdsReady => if timed_out(n, tick) { n } else { SovereignNode { phase: BootPhase::MeshLinked, ..n } },
        BootPhase::MeshLinked => SovereignNode { phase: BootPhase::Online, ..n },
        BootPhase::Online => n,
    }
}

/// Result of one boot step at `tick`.
pub open spec fn advance_result(n: SovereignNode, tick: u32) -> Result<BootPhase, MultinodeError> {
    if timed_out(n, tick) { Err(MultinodeError::BootTimeout) } else { Ok(advanced(n, tick).phase) }
}

impl SovereignNode {
    /// A new node in the Offline phase.
    pub fn new(node_id: u8, node_type: u8, arpi_chan: u8) -> (n: Self)
        ensures
            n == (SovereignNode { node_id, node_type, phase: BootPhase::Offline, proof: 0, pd_count: 0, arpi_chan, tick_start: 0 }),
    {
        SovereignNode { node_id, node_type, phase: BootPhase::Offline, proof: 0, pd_count: 0, arpi_chan, tick_start: 0 }
    }

    /// Advances the node one boot phase: Offline, Booting (start tick
    /// recorded), Proving (sovereign proof set), PdsReady (PD count set by
    /// node type), MeshLinked (unless more than `BOOT_TIMEOUT_TICKS` ticks
    /// elapsed since boot started), Online. An Online node stays Online.
    pub fn advance(&mut self, tick: u32) -> (r: Result<BootPhase, MultinodeError>)
        requires
            advance_safe(*old(self), tick),
        ensures
            r == advance_result(*old(self), tick),
            *final(self) == advanced(*old(self), tick),
    {
        match self.phase {
            BootPhase::Offline => {
                self.phase = BootPhase::Booting;
                self.tick_start = tick;
                Ok(self.phase)
            },
            BootPhase::Booting => {
                self.proof = AXON_PROOF;
                if self.proof != AXON_PROOF {
                    return Err(MultinodeError::SovereigntyFailed);
                }
                self.phase = BootPhase::Proving;
                Ok(self.phase)
            },
            BootPhase::Proving => {
                self.pd_count = if self.node_type == NODE_PRIMARY {
                    6
                } else if self.node_type == NODE_BASTION {
                    3
                } else if self.node_type == NODE_DATASTORE {
                    2
                } else if self.node_type == NODE_RENDERER {
                    2
                } else {
                    1
                };
                self.phase = BootPhase::PdsReady;
                Ok(self.phase)
            },
            BootPhase::PdsReady => {
                if tick - self.tick_start > BOOT_TIMEOUT_TICKS {
                    return Err(MultinodeError::BootTimeout);
                }
                self.phase = BootPhase::MeshLinked;
                Ok(self.phase)
            },
            BootPhase::MeshLinked => {
                self.phase = BootPhase::Online;
                Ok(self.phase)
            },
            BootPhase::Online => Ok(BootPhase::Online),
        }
    }

    pub fn is_online(&self) -> (r: bool)
        ensures
            r == (self.phase == BootPhase::Online),
    {
        self.phase == BootPhase::Online
    }

    pub fn proof_valid(&self) -> (r: bool)
        ensures
            r == (self.proof == AXON_PROOF),
    {
        self.proof == AXON_PROOF
    }
}

/// An ARPi channel between two sovereign nodes.
#[derive(Debug, Clone, Copy, PartialEq, Eq, Structural)]
pub struct NodeChannel {
    pub src_id: u8,
    pub dst_id: u8,
    pub channel: u8,
    pub active: bool,
}

impl NodeChannel {
    pub fn new(src_id: u8, dst_id: u8, channel: u8) -> (c: Self)
        ensures
            c == (NodeChannel { src_id, dst_id, channel, active: false }),
    {
        NodeChannel { src_id, dst_id, channel, active: false }
    }

    /// Activates the channel; a channel from a node to itself is refused.
    pub fn activate(&mut self) -> (r: Result<(), MultinodeError>)
        ensures
            r is Err <==> old(self).src_id == old(self).dst_id,
            r is Err ==> r == Err::<(), MultinodeError>(MultinodeError::ChannelFailed) && *final(self) == *old(self),
            r is Ok ==> r == Ok::<(), MultinodeError>(()) && *final(self) == (NodeChannel { active: true, ..*old(self) }),
    {
        if self.src_id == self.dst_id {
            return Err(MultinodeError::ChannelFailed);
        }
        self.active = true;
        Ok(())
    }
}

/// One boot round at `tick`: every node not yet Online advances, in order,
/// stopping at the first timeout.
pub open spec fn round(s: Seq<SovereignNode>, tick: u32) -> (Seq<SovereignNode>, Result<(), MultinodeError>)
    decreases s.len(),
{
    if s.len() == 0 {
        (s, Ok(()))
    } else if s[0].phase == BootPhase::Online {
        (seq![s[0]] + round(s.skip(1), tick).0, round(s.skip(1), tick).1)
    } else if timed_out(s[0], tick) {
        (s, Err(MultinodeError::BootTimeout))
    } else {
        (seq![advanced(s[0], tick)] + round(s.skip(1), tick).0, round(s.skip(1), tick).1)
    }
}

/// No node reached in a round at `tick` underflows the timeout check.
pub open spec fn round_safe(s: Seq<SovereignNode>, tick: u32) -> bool
    decreases s.len(),
{
    if s.len() == 0 {
        true
    } else if s[0].phase == BootPhase::Online {
        round_safe(s.skip(1), tick)
    } else {
        advance_safe(s[0], tick) && (!timed_out(s[0], tick) ==> round_safe(s.skip(1), tick))
    }
}

/// `k` boot rounds starting after tick `tick`: the nodes, the last tick used
/// and the outcome. Stops at the first failed round.
pub open spec fn boot_rounds(s: Seq<SovereignNode>, tick: u32, k: nat) -> (Seq<SovereignNode>, u32, Result<(), MultinodeError>)
    decreases k,
{
    if k == 0 {
        (s, tick, Ok(()))
    } else {
        let t = tick.wrapping_add(1);
        let (s1, r1) = round(s, t);
        if r1 is Err {
            (s1, t, r1)
        } else {
            boot_rounds(s1, t, (k - 1) as nat)
        }
    }
}

/// No step of `k` boot rounds underflows the timeout check.
pub open spec fn boot_safe(s: Seq<SovereignNode>, tick: u32, k: nat) -> bool
    decreases k,
{
    if k == 0 {
        true
    } else {
        let t = tick.wrapping_add(1);
        round_safe(s, t) && (round(s, t).1 is Ok ==> boot_safe(round(s, t).0, t, (k - 1) as nat))
    }
}

/// Activates every channel in order, stopping at the first self-link.
pub open spec fn activate_all(c: Seq<NodeChannel>) -> (Seq<NodeChannel>, Result<(), MultinodeError>)
    decreases c.len(),
{
    if c.len() == 0 {
        (c, Ok(()))
    } else if c[0].src_id == c[0].dst_id {
        (c, Err(MultinodeError::ChannelFailed))
    } else {
        (seq![NodeChannel { active: true, ..c[0] }] + activate_all(c.skip(1)).0, activate_all(c.skip(1)).1)
    }
}

/// Number of Online nodes in `s`.
pub open spec fn online_in(s: Seq<SovereignNode>) -> nat
    decreases s.len(),
{
    if s.len() == 0 { 0 } else { online_in(s.drop_last()) + if s.last().phase == BootPhase::Online { 1nat } else { 0nat } }
}

/// Number of nodes in `s` carrying the sovereign proof.
pub open spec fn proven_in(s: Seq<SovereignNode>) -> nat
    decreases s.len(),
{
    if s.len() == 0 { 0 } else { proven_in(s.drop_last()) + if s.last().proof == AXON_PROOF { 1nat } else { 0nat } }
}

/// Number of active channels in `c`.
pub open spec fn active_in(c: Seq<NodeChannel>) -> nat
    decreases c.len(),
{
    if c.len() == 0 { 0 } else { active_in(c.drop_last()) + if c.last().active { 1nat } else { 0nat } }
}

/// Some node of `s` has identifier `id`.
pub open spec fn has_node(s: Seq<SovereignNode>, id: u8) -> bool {
    exists|i: int| 0 <= i < s.len() && s[i].node_id == id
}

/// No two nodes of `s` share an identifier.
pub open spec fn unique_ids(s: Seq<SovereignNode>) -> bool {
    forall|i: int, j: int| 0 <= i < s.len() && 0 <= j < s.len() && i != j ==> s[i].node_id != s[j].node_id
}

/// Multi-node boot coordinator.
pub struct MeshCoordinator {
    nodes: Vec<SovereignNode>,
    channels: Vec<NodeChannel>,
    tick: u32,
}

impl MeshCoordinator {
    /// Registered nodes, in registration order.
    pub closed spec fn nodes(&self) -> Seq<SovereignNode> {
        self.nodes@
    }

    /// Registered channels, in registration order.
    pub closed spec fn channels(&self) -> Seq<NodeChannel> {
        self.channels@
    }

    /// The current boot tick.
    pub closed spec fn spec_tick(&self) -> u32 {
        self.tick
    }

    /// Well-formedness: bounded tables and unique node identifiers.
    pub open spec fn wf(&self) -> bool {
        self.nodes().len() <= MAX_NODES && self.channels().len() <= MAX_NODES && unique_ids(self.nodes())
    }

    pub fn new() -> (m: Self)
        ensures
            m.wf(),
            m.nodes() == Seq::<SovereignNode>::empty(),
            m.channels() == Seq::<NodeChannel>::empty(),
            m.spec_tick() == 0,
    {
        MeshCoordinator { nodes: Vec::new(), channels: Vec::new(), tick: 0 }
    }

    /// Registers a node: refused when the mesh is full or the identifier is taken.
    pub fn register(&mut self, node: SovereignNode) -> (r: Result<(), MultinodeError>)
        requires
            old(self).wf(),
        ensures
            final(self).wf(),
            final(self).channels() == old(self).channels(),
            final(self).spec_tick() == old(self).spec_tick(),
            old(self).nodes().len() >= MAX_NODES ==> r == Err::<(), MultinodeError>(MultinodeError::MeshFull),
            old(self).nodes().len() < MAX_NODES && has_node(old(self).nodes(), node.node_id)
                ==> r == Err::<(), MultinodeError>(MultinodeError::DuplicateNode),
            r is Ok <==> old(self).nodes().len() < MAX_NODES && !has_node(old(self).nodes(), node.node_id),
            r is Ok ==> r == Ok::<(), MultinodeError>(()) && final(self).nodes() == old(self).nodes().push(node),
            r is Err ==> final(self).nodes() == old(self).nodes(),
    {
        if self.nodes.len() >= MAX_NODES {
            return Err(MultinodeError::MeshFull);
        }
        let mut i: usize = 0;
        while i < self.nodes.len()
            invariant
                0 <= i <= self.nodes@.len(),
                self.nodes@.len() < MAX_NODES,
                self.wf(),
                self.nodes@ == old(self).nodes@,
                forall|j: int| 0 <= j < i ==> self.nodes@[j].node_id != node.node_id,
            decreases self.nodes@.len() - i,
        {
            if self.nodes[i].node_id == node.node_id {
                assert(self.nodes@[i as int].node_id == node.node_id);
                return Err(MultinodeError::DuplicateNode);
            }
            i = i + 1;
        }
        self.nodes.push(node);
        Ok(())
    }

    /// Registers an inter-node channel; refused when the channel table is full.
    pub fn add_channel(&mut self, ch: NodeChannel) -> (r: Result<(), MultinodeError>)
        requires
            old(self).wf(),
        ensures
            final(self).wf(),
            final(self).nodes() == old(self).nodes(),
            final(self).spec_tick() == old(self).spec_tick(),
            r is Ok <==> old(self).channels().len() < MAX_NODES,
            r is Ok ==> r == Ok::<(), MultinodeError>(()) && final(self).channels() == old(self).channels().push(ch),
            r is Err ==> r == Err::<(), MultinodeError>(MultinodeError::MeshFull) && final(self).channels() == old(self).channels(),
    {
        if self.channels.len() >= MAX_NODES {
            return Err(MultinodeError::MeshFull);
        }
        self.channels.push(ch);
        Ok(())
    }

    /// Advances the boot tick (wrapping) and returns it.
    pub fn tick(&mut self) -> (r: u32)
        ensures
            r == old(self).spec_tick().wrapping_add(1),
            final(self).spec_tick() == r,
            final(self).nodes() == old(self).nodes(),
            final(self).channels() == old(self).channels(),
    {
        self.tick = self.tick.wrapping_add(1);
        self.tick
    }

    /// One boot round at `tick` over all nodes.
    fn boot_round(&mut self, tick: u32) -> (r: Result<(), MultinodeError>)
        requires
            old(self).wf(),
            round_safe(old(self).nodes(), tick),
        ensures
            final(self).wf(),
            (final(self).nodes(), r) == round(old(self).nodes(), tick),
            final(self).channels() == old(self).channels(),
            final(self).spec_tick() == old(self).spec_tick(),
    {
        let ghost orig = self.nodes@;
        assert(orig.skip(0) =~= orig);
        assert(orig.take(0) =~= Seq::<SovereignNode>::empty());
        let mut j: usize = 0;
        while j < self.nodes.len()
            invariant
                0 <= j <= self.nodes@.len(),
                self.nodes@.len() == orig.len(),
                self.nodes@.len() <= MAX_NODES,
                self.channels@ == old(self).channels@,
                self.channels@.len() <= MAX_NODES,
                self.tick == old(self).tick,
                orig == old(self).nodes@,
                forall|m: int| 0 <= m < orig.len() ==> (#[trigger] self.nodes@[m]).node_id == orig[m].node_id,
                self.nodes@.skip(j as int) == orig.skip(j as int),
                round(orig, tick) == (self.nodes@.take(j as int) + round(orig.skip(j as int), tick).0, round(orig.skip(j as int), tick).1),
                round_safe(orig.skip(j as int), tick),
                unique_ids(orig),
            decreases self.nodes@.len() - j,
        {
            let ghost cur = self.nodes@;
            let ghost rest = orig.skip(j as int);
            proof {
                assert(rest[0] == cur[j as int]) by {
                    assert(cur.skip(j as int)[0] == cur[j as int]);
                }
                assert(rest.skip(1) =~= orig.skip(j + 1));
            }
            let mut node = self.nodes[j];
            if node.phase != BootPhase::Online {
                let res = node.advance(tick);
                match res {
                    Ok(_) => {
                        self.nodes.set(j, node);
                        proof {
                            assert(self.nodes@.skip(j + 1) =~= orig.skip(j + 1)) by {
                                assert forall|m: int| 0 <= m < self.nodes@.len() - (j + 1) implies
                                    #[trigger] self.nodes@.skip(j + 1)[m] == orig.skip(j + 1)[m] by {
                                    assert(cur.skip(j as int)[m + 1] == rest[m + 1]);
                                }
                            }
                            assert(self.nodes@.take(j + 1) =~= cur.take(j as int) + seq![node]);
                            assert(round(orig, tick).0 =~= self.nodes@.take(j + 1) + round(orig.skip(j + 1), tick).0);
                        }
                    },
                    Err(e) => {
                        proof {
                            assert(unique_ids(cur)) by {
                                assert forall|a: int, b: int| 0 <= a < cur.len() && 0 <= b < cur.len() && a != b
                                    implies cur[a].node_id != cur[b].node_id by {
                                    assert(cur[a].node_id == orig[a].node_id);
                                    assert(cur[b].node_id == orig[b].node_id);
                                }
                            }
                            assert(cur =~= cur.take(j as int) + rest) by {
                                assert forall|m: int| j <= m < cur.len() implies #[trigger] cur[m] == rest[m - j] by {
                                    assert(cur.skip(j as int)[m - j] == cur[m]);
                                }
                            }
                        }
                        return Err(e);
                    },
                }
            } else {
                proof {
                    assert(cur.take(j + 1) =~= cur.take(j as int) + seq![node]);
                    assert(round(orig, tick).0 =~= cur.take(j + 1) + round(orig.skip(j + 1), tick).0);
                    assert(cur.skip(j + 1) =~= orig.skip(j + 1)) by {
                        assert forall|m: int| 0 <= m < cur.len() - (j + 1) implies
                            #[trigger] cur.skip(j + 1)[m] == orig.skip(j + 1)[m] by {
                            assert(cur.skip(j as int)[m + 1] == rest[m + 1]);
                        }
                    }
                }
            }
            j = j + 1;
        }
        proof {
            assert(orig.skip(j as int) =~= Seq::<SovereignNode>::empty());
            assert(self.nodes@.take(j as int) =~= self.nodes@);
            let cur = self.nodes@;
            assert(unique_ids(cur)) by {
                assert forall|a: int, b: int| 0 <= a < cur.len() && 0 <= b < cur.len() && a != b
                    implies cur[a].node_id != cur[b].node_id by {
                    assert(cur[a].node_id == orig[a].node_id);
                    assert(cur[b].node_id == orig[b].node_id);
                }
            }
        }
        Ok(())
    }

    /// Activates every channel in order.
    fn activate_channels(&mut self) -> (r: Result<(), MultinodeError>)
        requires
            old(self).wf(),
        ensures
            final(self).wf(),
            (final(self).channels(), r) == activate_all(old(self).channels()),
            final(self).nodes() == old(self).nodes(),
            final(self).spec_tick() == old(self).spec_tick(),
    {
        let ghost orig = self.channels@;
        assert(orig.skip(0) =~= orig);
        assert(orig.take(0) =~= Seq::<NodeChannel>::empty());
        let mut j: usize = 0;
        while j < self.channels.len()
            invariant
                0 <= j <= self.channels@.len(),
                self.channels@.len() == orig.len(),
                orig.len() <= MAX_NODES,
                self.nodes@ == old(self).nodes@,
                self.tick == old(self).tick,
                orig == old(self).channels@,
                unique_ids(self.nodes@),
                self.nodes@.len() <= MAX_NODES,
                self.channels@.skip(j as int) == orig.skip(j as int),
                activate_all(orig) == (self.channels@.take(j as int) + activate_all(orig.skip(j as int)).0, activate_all(orig.skip(j as int)).1),
            decreases self.channels@.len() - j,
        {
            let ghost cur = self.channels@;
            let ghost rest = orig.skip(j as int);
            proof {
                assert(rest[0] == cur[j as int]) by {
                    assert(cur.skip(j as int)[0] == cur[j as int]);
                }
                assert(rest.skip(1) =~= orig.skip(j + 1));
            }
            let mut ch = self.channels[j];
            match ch.activate() {
                Ok(()) => {
                    self.channels.set(j, ch);
                    proof {
                        assert(self.channels@.skip(j + 1) =~= orig.skip(j + 1)) by {
                            assert forall|m: int| 0 <= m < self.channels@.len() - (j + 1) implies
                                #[trigger] self.channels@.skip(j + 1)[m] == orig.skip(j + 1)[m] by {
                                assert(cur.skip(j as int)[m + 1] == rest[m + 1]);
                            }
                        }
                        assert(self.channels@.take(j + 1) =~= cur.take(j as int) + seq![ch]);
                        assert(activate_all(orig).0 =~= self.channels@.take(j + 1) + activate_all(orig.skip(j + 1)).0);
                    }
                },
                Err(e) => {
                    proof {
                        assert(cur =~= cur.take(j as int) + rest) by {
                            assert forall|m: int| j <= m < cur.len() implies #[trigger] cur[m] == rest[m - j] by {
                                assert(cur.skip(j as int)[m - j] == cur[m]);
                            }
                        }
                    }
                    return Err(e);
                },
            }
            j = j + 1;
        }
        proof {
            assert(orig.skip(j as int) =~= Seq::<NodeChannel>::empty());
            assert(self.channels@.take(j as int) =~= self.channels@);
        }
        Ok(())
    }

    /// Boots all registered nodes: six rounds, each at the next tick, in which
    /// every node not yet Online advances one phase; then activates every
    /// channel. Returns the number of Online nodes.
    pub fn boot_all(&mut self) -> (r: Result<usize, MultinodeError>)
        requires
            old(self).wf(),
            boot_safe(old(self).nodes(), old(self).spec_tick(), BOOT_ROUNDS as nat),
        ensures
            final(self).wf(),
            ({
                let (n1, t1, r1) = boot_rounds(old(self).nodes(), old(self).spec_tick(), BOOT_ROUNDS as nat);
                let (c1, r2) = activate_all(old(self).channels());
                &&& final(self).nodes() == n1
                &&& final(self).spec_tick() == t1
                &&& r1 matches Err(e) ==> r == Err::<usize, MultinodeError>(e) && final(self).channels() == old(self).channels()
                &&& r1 is Ok ==> final(self).channels() == c1
                &&& r1 is Ok && r2 is Err ==> r == Err::<usize, MultinodeError>(MultinodeError::ChannelFailed)
                &&& r1 is Ok && r2 is Ok ==> r == Ok::<usize, MultinodeError>(online_in(n1) as usize)
            }),
    {
        let ghost target = boot_rounds(self.nodes@, self.tick, BOOT_ROUNDS as nat);
        let mut k: usize = 0;
        while k < BOOT_ROUNDS
            invariant
                0 <= k <= BOOT_ROUNDS,
                self.wf(),
                self.channels@ == old(self).channels@,
                boot_rounds(self.nodes@, self.tick, (BOOT_ROUNDS - k) as nat) == target,
                boot_safe(self.nodes@, self.tick, (BOOT_ROUNDS - k) as nat),
                target == boot_rounds(old(self).nodes(), old(self).spec_tick(), BOOT_ROUNDS as nat),
            decreases BOOT_ROUNDS - k,
        {
            let tick = self.tick();
            let res = self.boot_round(tick);
            if let Err(e) = res {
                return Err(e);
            }
            k = k + 1;
        }
        let res = self.activate_channels();
        if res.is_err() {
            return Err(MultinodeError::ChannelFailed);
        }
        let n = self.online_count();
        Ok(n)
    }

    /// Number of Online nodes.
    pub fn online_count(&self) -> (r: usize)
        requires
            self.wf(),
        ensures
            r == online_in(self.nodes()),
    {
        let mut n: usize = 0;
        let mut i: usize = 0;
        while i < self.nodes.len()
            invariant
                0 <= i <= self.nodes@.len(),
                self.nodes@.len() <= MAX_NODES,
                n == online_in(self.nodes@.take(i as int)),
                n <= i,
            decreases self.nodes@.len() - i,
        {
            assert(self.nodes@.take(i + 1).drop_last() =~= self.nodes@.take(i as int));
            if self.nodes[i].phase == BootPhase::Online {
                n = n + 1;
            }
            i = i + 1;
        }
        assert(self.nodes@.take(i as int) =~= self.nodes@);
        n
    }

    /// Number of nodes carrying the sovereign proof.
    pub fn proven_count(&self) -> (r: usize)
        requires
            self.wf(),
        ensures
            r == proven_in(self.nodes()),
    {
        let mut n: usize = 0;
        let mut i: usize = 0;
        while i < self.nodes.len()
            invariant
                0 <= i <= self.nodes@.len(),
                self.nodes@.len() <= MAX_NODES,
                n == proven_in(self.nodes@.take(i as int)),
                n <= i,
            decreases self.nodes@.len() - i,
        {
            assert(self.nodes@.take(i + 1).drop_last() =~= self.nodes@.take(i as int));
            if self.nodes[i].proof == AXON_PROOF {
                n = n + 1;
            }
            i = i + 1;
        }
        assert(self.nodes@.take(i as int) =~= self.nodes@);
        n
    }

    /// Number of registered nodes.
    pub fn count(&self) -> (r: usize)
        ensures
            r == self.nodes().len(),
    {
        self.nodes.len()
    }

    /// Current tick.
    pub fn current_tick(&self) -> (r: u32)
        ensures
            r == self.spec_tick(),
    {
        self.tick
    }

    /// The node with identifier `node_id`, if registered.
    pub fn get_node(&self, node_id: u8) -> (r: Option<&SovereignNode>)
        requires
            self.wf(),
        ensures
            r is None <==> !has_node(self.nodes(), node_id),
            r matches Some(n) ==> exists|i: int| 0 <= i < self.nodes().len() && self.nodes()[i] == *n && n.node_id == node_id,
    {
        let mut i: usize = 0;
        while i < self.nodes.len()
            invariant
                0 <= i <= self.nodes@.len(),
                forall|j: int| 0 <= j < i ==> self.nodes@[j].node_id != node_id,
            decreases self.nodes@.len() - i,
        {
            if self.nodes[i].node_id == node_id {
                assert(self.nodes@[i as int].node_id == node_id);
                return Some(&self.nodes[i]);
            }
            i = i + 1;
        }
        None
    }

    /// Number of active channels.
    pub fn active_channel_count(&self) -> (r: usize)
        requires
            self.wf(),
        ensures
            r == active_in(self.channels()),
    {
        let mut n: usize = 0;
        let mut i: usize = 0;
        while i < self.channels.len()
            invariant
                0 <= i <= self.channels@.len(),
                self.channels@.len() <= MAX_NODES,
                n == active_in(self.channels@.take(i as int)),
                n <= i,
            decreases self.channels@.len() - i,
        {
            assert(self.channels@.take(i + 1).drop_last() =~= self.channels@.take(i as int));
            if self.channels[i].active {
                n = n + 1;
            }
            i = i + 1;
        }
        assert(self.channels@.take(i as int) =~= self.channels@);
        n
    }
}

/// Returns true when `proof` is the sovereign proof value.
pub fn verify_sovereign_proof(proof: u64) -> (r: bool)
    ensures
        r == (proof == AXON_PROOF),
{
    proof == AXON_PROOF
}

} // verus!

verus! {

/// A round in which every node can advance moves every node one phase.
pub proof fn lemma_round_all_advance(s: Seq<SovereignNode>, t: u32)
    requires
        forall|i: int| 0 <= i < s.len() ==> (#[trigger] s[i]).phase != BootPhase::Online && !timed_out(s[i], t) && advance_safe(s[i], t),
    ensures
        round(s, t) == (Seq::new(s.len(), |i: int| advanced(s[i], t)), Ok::<(), MultinodeError>(())),
        round_safe(s, t),
    decreases s.len(),
{
    if s.len() > 0 {
        let r = s.skip(1);
        assert forall|i: int| 0 <= i < r.len() implies (#[trigger] r[i]).phase != BootPhase::Online && !timed_out(r[i], t) && advance_safe(r[i], t) by {
            assert(r[i] == s[i + 1]);
        }
        lemma_round_all_advance(r, t);
        assert(s[0] == s[0]);
        assert(seq![advanced(s[0], t)] + Seq::new(r.len(), |i: int| advanced(r[i], t)) =~= Seq::new(s.len(), |i: int| advanced(s[i], t)));
    } else {
        assert(Seq::new(s.len(), |i: int| advanced(s[i], t)) =~= s);
    }
}

/// A round over nodes that are all Online changes nothing.
pub proof fn lemma_round_all_online(s: Seq<SovereignNode>, t: u32)
    requires
        forall|i: int| 0 <= i < s.len() ==> (#[trigger] s[i]).phase == BootPhase::Online,
    ensures
        round(s, t) == (s, Ok::<(), MultinodeError>(())),
        round_safe(s, t),
    decreases s.len(),
{
    if s.len() > 0 {
        let r = s.skip(1);
        assert forall|i: int| 0 <= i < r.len() implies (#[trigger] r[i]).phase == BootPhase::Online by {
            assert(r[i] == s[i + 1]);
        }
        lemma_round_all_online(r, t);
        assert(seq![s[0]] + r =~= s);
    }
}

/// A node that was Offline when boot began at tick `t0`, once fully booted.
pub open spec fn booted(n: SovereignNode, t0: u32) -> SovereignNode {
    SovereignNode {
        phase: BootPhase::Online,
        tick_start: (t0 + 1) as u32,
        proof: AXON_PROOF,
        pd_count: pds_for(n.node_type),
        ..n
    }
}

/// Booting a mesh whose nodes are all Offline succeeds: after the six rounds
/// every node is Online, carries the sovereign proof and runs the PD count of
/// its type, and no step of the boot underflows.
pub proof fn lemma_boot_fresh(s: Seq<SovereignNode>, t0: u32)
    requires
        t0 <= u32::MAX - 6,
        forall|i: int| 0 <= i < s.len() ==> (#[trigger] s[i]).phase == BootPhase::Offline,
    ensures
        boot_safe(s, t0, 6),
        boot_rounds(s, t0, 6) == (Seq::new(s.len(), |i: int| booted(s[i], t0)), (t0 + 6) as u32, Ok::<(), MultinodeError>(())),
{
    let t1 = t0.wrapping_add(1);
    let t2 = t1.wrapping_add(1);
    let t3 = t2.wrapping_add(1);
    let t4 = t3.wrapping_add(1);
    let t5 = t4.wrapping_add(1);
    let t6 = t5.wrapping_add(1);
    assert(t1 == t0 + 1 && t2 == t0 + 2 && t3 == t0 + 3 && t4 == t0 + 4 && t5 == t0 + 5 && t6 == t0 + 6);
    lemma_round_all_advance(s, t1);
    let s1 = Seq::new(s.len(), |i: int| advanced(s[i], t1));
    assert forall|i: int| 0 <= i < s1.len() implies (#[trigger] s1[i]).phase != BootPhase::Online && !timed_out(s1[i], t2) && advance_safe(s1[i], t2) by {}
    lemma_round_all_advance(s1, t2);
    let s2 = Seq::new(s1.len(), |i: int| advanced(s1[i], t2));
    assert forall|i: int| 0 <= i < s2.len() implies (#[trigger] s2[i]).phase != BootPhase::Online && !timed_out(s2[i], t3) && advance_safe(s2[i], t3) by {}
    lemma_round_all_advance(s2, t3);
    let s3 = Seq::new(s2.len(), |i: int| advanced(s2[i], t3));
    assert forall|i: int| 0 <= i < s3.len() implies (#[trigger] s3[i]).phase != BootPhase::Online && !timed_out(s3[i], t4) && advance_safe(s3[i], t4) by {
        assert(s3[i].tick_start == t1);
    }
    lemma_round_all_advance(s3, t4);
    let s4 = Seq::new(s3.len(), |i: int| advanced(s3[i], t4));
    assert forall|i: int| 0 <= i < s4.len() implies (#[trigger] s4[i]).phase != BootPhase::Online && !timed_out(s4[i], t5) && advance_safe(s4[i], t5) by {}
    lemma_round_all_advance(s4, t5);
    let s5 = Seq::new(s4.len(), |i: int| advanced(s4[i], t5));
    assert forall|i: int| 0 <= i < s5.len() implies (#[trigger] s5[i]).phase == BootPhase::Online by {}
    lemma_round_all_online(s5, t6);
    assert(s5 =~= Seq::new(s.len(), |i: int| booted(s[i], t0)));
    assert(boot_rounds(s5, t6, 0) == (s5, t6, Ok::<(), MultinodeError>(())));
    assert(boot_rounds(s5, t5, 1) == (s5, t6, Ok::<(), MultinodeError>(())));
    assert(boot_rounds(s4, t4, 2) == (s5, t6, Ok::<(), MultinodeError>(())));
    assert(boot_rounds(s3, t3, 3) == (s5, t6, Ok::<(), MultinodeError>(())));
    assert(boot_rounds(s2, t2, 4) == (s5, t6, Ok::<(), MultinodeError>(())));
    assert(boot_rounds(s1, t1, 5) == (s5, t6, Ok::<(), MultinodeError>(())));
    assert(boot_safe(s5, t6, 0));
    assert(boot_safe(s5, t5, 1));
    assert(boot_safe(s4, t4, 2));
    assert(boot_safe(s3, t3, 3));
    assert(boot_safe(s2, t2, 4));
    assert(boot_safe(s1, t1, 5));
}

/// Every node of `s` is Online and carries the sovereign proof.
pub proof fn lemma_counts_all_booted(s: Seq<SovereignNode>)
    requires
        forall|i: int| 0 <= i < s.len() ==> (#[trigger] s[i]).phase == BootPhase::Online && s[i].proof == AXON_PROOF,
    ensures
        online_in(s) == s.len(),
        proven_in(s) == s.len(),
    decreases s.len(),
{
    if s.len() > 0 {
        let d = s.drop_last();
        assert forall|i: int| 0 <= i < d.len() implies (#[trigger] d[i]).phase == BootPhase::Online && d[i].proof == AXON_PROOF by {
            assert(d[i] == s[i]);
        }
        lemma_counts_all_booted(d);
    }
}

/// Activating channels none of which links a node to itself activates all of them.
pub proof fn lemma_activate_all_links(c: Seq<NodeChannel>)
    requires
        forall|i: int| 0 <= i < c.len() ==> (#[trigger] c[i]).src_id != c[i].dst_id,
    ensures
        activate_all(c) == (Seq::new(c.len(), |i: int| NodeChannel { active: true, ..c[i] }), Ok::<(), MultinodeError>(())),
        active_in(activate_all(c).0) == c.len(),
    decreases c.len(),
{
    if c.len() > 0 {
        let r = c.skip(1);
        assert forall|i: int| 0 <= i < r.len() implies (#[trigger] r[i]).src_id != r[i].dst_id by {
            assert(r[i] == c[i + 1]);
        }
        lemma_activate_all_links(r);
        let a = Seq::new(c.len(), |i: int| NodeChannel { active: true, ..c[i] });
        assert(seq![NodeChannel { active: true, ..c[0] }] + Seq::new(r.len(), |i: int| NodeChannel { active: true, ..r[i] }) =~= a);
        lemma_all_active_count(a);
    } else {
        assert(Seq::new(c.len(), |i: int| NodeChannel { active: true, ..c[i] }) =~= c);
    }
}

/// Counting the active channels of a sequence of active channels.
pub proof fn lemma_all_active_count(c: Seq<NodeChannel>)
    requires
        forall|i: int| 0 <= i < c.len() ==> (#[trigger] c[i]).active,
    ensures
        active_in(c) == c.len(),
    decreases c.len(),
{
    if c.len() > 0 {
        let d = c.drop_last();
        assert forall|i: int| 0 <= i < d.len() implies (#[trigger] d[i]).active by {
            assert(d[i] == c[i]);
        }
        lemma_all_active_count(d);
    }
}


/// The four Phoenix desktop nodes before boot: primary, bastion, datastore
/// and renderer, each on its own ARPi channel.
pub open spec fn phoenix_nodes() -> Seq<SovereignNode> {
    seq![
        SovereignNode { node_id: 0, node_type: NODE_PRIMARY, phase: BootPhase::Offline, proof: 0, pd_count: 0, arpi_chan: ARPI_CHANNEL_BASE, tick_start: 0 },
        SovereignNode { node_id: 1, node_type: NODE_BASTION, phase: BootPhase::Offline, proof: 0, pd_count: 0, arpi_chan: (ARPI_CHANNEL_BASE + 1) as u8, tick_start: 0 },
        SovereignNode { node_id: 2, node_type: NODE_DATASTORE, phase: BootPhase::Offline, proof: 0, pd_count: 0, arpi_chan: (ARPI_CHANNEL_BASE + 2) as u8, tick_start: 0 },
        SovereignNode { node_id: 3, node_type: NODE_RENDERER, phase: BootPhase::Offline, proof: 0, pd_count: 0, arpi_chan: (ARPI_CHANNEL_BASE + 3) as u8, tick_start: 0 },
    ]
}

/// The Phoenix star topology before activation: primary to each other node.
pub open spec fn phoenix_channels() -> Seq<NodeChannel> {
    seq![
        NodeChannel { src_id: 0, dst_id: 1, channel: (ARPI_CHANNEL_BASE + 0x10) as u8, active: false },
        NodeChannel { src_id: 0, dst_id: 2, channel: (ARPI_CHANNEL_BASE + 0x11) as u8, active: false },
        NodeChannel { src_id: 0, dst_id: 3, channel: (ARPI_CHANNEL_BASE + 0x12) as u8, active: false },
    ]
}

/// Boots the Phoenix desktop topology: four nodes (primary, bastion,
/// datastore, renderer) and three channels from the primary to the others.
/// It always succeeds: every node ends Online with the sovereign proof, every
/// channel is active, and six ticks have passed.
pub fn boot_phoenix_desktop() -> (r: Result<MeshCoordinator, MultinodeError>)
    ensures
        r is Ok,
        r matches Ok(m) ==> {
            &&& m.wf()
            &&& m.nodes() == Seq::new(4, |i: int| booted(phoenix_nodes()[i], 0))
            &&& m.channels() == Seq::new(3, |i: int| NodeChannel { active: true, ..phoenix_channels()[i] })
            &&& m.spec_tick() == 6
        },
{
    let mut mesh = MeshCoordinator::new();
    let r0 = mesh.register(SovereignNode::new(0, NODE_PRIMARY, ARPI_CHANNEL_BASE));
    if let Err(e) = r0 { return Err(e); }
    let r1 = mesh.register(SovereignNode::new(1, NODE_BASTION, ARPI_CHANNEL_BASE + 1));
    if let Err(e) = r1 { return Err(e); }
    let r2 = mesh.register(SovereignNode::new(2, NODE_DATASTORE, ARPI_CHANNEL_BASE + 2));
    if let Err(e) = r2 { return Err(e); }
    let r3 = mesh.register(SovereignNode::new(3, NODE_RENDERER, ARPI_CHANNEL_BASE + 3));
    if let Err(e) = r3 { return Err(e); }
    let c0 = mesh.add_channel(NodeChannel::new(0, 1, ARPI_CHANNEL_BASE + 0x10));
    if let Err(e) = c0 { return Err(e); }
    let c1 = mesh.add_channel(NodeChannel::new(0, 2, ARPI_CHANNEL_BASE + 0x11));
    if let Err(e) = c1 { return Err(e); }
    let c2 = mesh.add_channel(NodeChannel::new(0, 3, ARPI_CHANNEL_BASE + 0x12));
    if let Err(e) = c2 { return Err(e); }
    proof {
        assert(mesh.nodes() =~= phoenix_nodes());
        assert(mesh.channels() =~= phoenix_channels());
        lemma_boot_fresh(mesh.nodes(), 0);
        lemma_activate_all_links(mesh.channels());
    }
    let b = mesh.boot_all();
    if let Err(e) = b { return Err(e); }
    Ok(mesh)
}

/// Phoenix is sovereign ready when all four nodes are Online, all four carry
/// the sovereign proof, and three channels are active, checked in that order.
pub fn verify_phoenix_ready(mesh: &MeshCoordinator) -> (r: Result<(), MultinodeError>)
    requires
        mesh.wf(),
    ensures
        r == (if online_in(mesh.nodes()) < PHOENIX_NODE_COUNT {
            Err(MultinodeError::PhoenixNotReady)
        } else if proven_in(mesh.nodes()) < PHOENIX_NODE_COUNT {
            Err(MultinodeError::SovereigntyFailed)
        } else if active_in(mesh.channels()) < 3 {
            Err(MultinodeError::ChannelFailed)
        } else {
            Ok(())
        }),
{
    if mesh.online_count() < PHOENIX_NODE_COUNT {
        return Err(MultinodeError::PhoenixNotReady);
    }
    if mesh.proven_count() < PHOENIX_NODE_COUNT {
        return Err(MultinodeError::SovereigntyFailed);
    }
    if mesh.active_channel_count() < 3 {
        return Err(MultinodeError::ChannelFailed);
    }
    Ok(())
}

/// Summary of a completed multi-node boot.
#[derive(Debug)]
pub struct BootReport {
    pub nodes_online: usize,
    pub nodes_proven: usize,
    pub channels_active: usize,
    pub ticks_elapsed: u32,
    pub phoenix_ready: bool,
}

impl BootReport {
    pub fn from_mesh(mesh: &MeshCoordinator) -> (r: Self)
        requires
            mesh.wf(),
        ensures
            r.nodes_online == online_in(mesh.nodes()),
            r.nodes_proven == proven_in(mesh.nodes()),
            r.channels_active == active_in(mesh.channels()),
            r.ticks_elapsed == mesh.spec_tick(),
            r.phoenix_ready == (online_in(mesh.nodes()) >= PHOENIX_NODE_COUNT
                && proven_in(mesh.nodes()) >= PHOENIX_NODE_COUNT
                && active_in(mesh.channels()) >= 3),
    {
        BootReport {
            nodes_online: mesh.online_count(),
            nodes_proven: mesh.proven_count(),
            channels_active: mesh.active_channel_count(),
            ticks_elapsed: mesh.current_tick(),
            phoenix_ready: verify_phoenix_ready(mesh).is_ok(),
        }
    }
}

impl Default for MeshCoordinator {
    fn default() -> (m: Self)
        ensures
            m.wf(),
            m.nodes() == Seq::<SovereignNode>::empty(),
            m.channels() == Seq::<NodeChannel>::empty(),
            m.spec_tick() == 0,
    {
        MeshCoordinator::new()
    }
}

/// The Phoenix boot leaves a ready mesh: four Online nodes, four proven
/// nodes and three active channels.
pub proof fn lemma_phoenix_ready(m: MeshCoordinator)
    requires
        m.nodes() == Seq::new(4, |i: int| booted(phoenix_nodes()[i], 0)),
        m.channels() == Seq::new(3, |i: int| NodeChannel { active: true, ..phoenix_channels()[i] }),
    ensures
        online_in(m.nodes()) == 4,
        proven_in(m.nodes()) == 4,
        active_in(m.channels()) == 3,
{
    lemma_counts_all_booted(m.nodes());
    lemma_all_active_count(m.channels());
}

} // verus!
