//! HANIEL canvas protection domain: the sole display compositor. Client PDs
//! send render requests; the canvas checks the caller and the region, queues
//! the request, updates the target layer and commits a frame.
use vstd::prelude::*;
use crate::common::{
    assert_cap, cap_granted, haniel_policy, verify_sovereign_proof, HanielCap, PdId, AXON_PROOF,
    SURFACE_HEIGHT, SURFACE_WIDTH,
};
use crate::bytes::{first_true, lemma_first_true};
use crate::pds::onyxia::{navigated, url_route, NavState, OnyxiaPd, OnyxiaPhase, UrlRoute, MAX_URL_LEN};

verus! {

pub const HANIEL_CANVAS_PD_ID: u8 = 0x60;
pub const SOVEREIGN_PROOF: u64 = AXON_PROOF;
pub const MAX_LAYERS: usize = 5;
pub const MAX_PENDING: usize = 8;

/// Compositor layers, from the back to the front.
#[derive(Debug, Clone, Copy, PartialEq, Eq, Structural)]
pub enum LayerKind {
    DesktopBackground,
    AwpPage,
    WindowChrome,
    ShellOutput,
    SystemOverlay,
}

/// Depth of each layer: lower is further back.
pub open spec fn z_of(k: LayerKind) -> u8 {
    match k {
        LayerKind::DesktopBackground => 0,
        LayerKind::AwpPage => 1,
        LayerKind::WindowChrome => 2,
        LayerKind::ShellOutput => 3,
        LayerKind::SystemOverlay => 4,
    }
}

impl LayerKind {
    /// Depth of this layer: lower is further back.
    pub fn z_order(self) -> (r: u8)
        ensures
            r == z_of(self),
    {
        match self {
            LayerKind::DesktopBackground => 0,
            LayerKind::AwpPage => 1,
            LayerKind::WindowChrome => 2,
            LayerKind::ShellOutput => 3,
            LayerKind::SystemOverlay => 4,
        }
    }
}

/// A render request from a client PD.
#[derive(Debug, Clone, Copy)]
pub struct RenderRequest {
    pub caller_pd: u8,
    /// Layer to update.
    pub layer: LayerKind,
    /// ARGB fill colour of the region.
    pub fill_color: u32,
    /// Region `(x, y, w, h)`.
    pub region: (u32, u32, u32, u32),
    /// ARPi sequence number, for provenance.
    pub arpi_seq: u64,
}

/// The right and bottom edges of the region do not overflow.
pub open spec fn region_in_range(r: (u32, u32, u32, u32)) -> bool {
    r.0 + r.2 <= u32::MAX && r.1 + r.3 <= u32::MAX
}

/// A non-empty region inside the 1280x720 surface.
pub open spec fn region_ok(r: (u32, u32, u32, u32)) -> bool {
    r.0 + r.2 <= SURFACE_WIDTH && r.1 + r.3 <= SURFACE_HEIGHT && r.2 > 0 && r.3 > 0
}

impl RenderRequest {
    pub fn empty() -> (r: Self)
        ensures
            r.caller_pd == 0,
            r.layer == LayerKind::DesktopBackground,
            r.fill_color == 0,
            r.region == (0u32, 0u32, 0u32, 0u32),
            r.arpi_seq == 0,
    {
        RenderRequest { caller_pd: 0, layer: LayerKind::DesktopBackground, fill_color: 0x00000000, region: (0, 0, 0, 0), arpi_seq: 0 }
    }

    /// Whether the region is non-empty and inside the surface.
    pub fn region_valid(&self) -> (r: bool)
        requires
            region_in_range(self.region),
        ensures
            r == region_ok(self.region),
    {
        let (x, y, w, h) = self.region;
        x + w <= SURFACE_WIDTH && y + h <= SURFACE_HEIGHT && w > 0 && h > 0
    }
}

/// Outcome of a render request.
#[derive(Debug, Clone, Copy, PartialEq, Eq, Structural)]
pub enum RenderOutcome {
    /// Frame committed to the framebuffer.
    Committed { frame_number: u64 },
    /// The caller may not render, or the framebuffer capability is missing.
    CapDenied,
    BudgetExceeded,
    InvalidRegion,
    /// The canvas is not Ready.
    NotReady,
}

/// Phase of the canvas.
#[derive(Debug, Clone, Copy, PartialEq, Eq, Structural)]
pub enum CanvasPhase {
    AwaitingBoot,
    /// Waiting for the framebuffer capability from GPU-Cap.
    AwaitingGpuCap,
    Ready,
    Compositing,
    Committed,
    Faulted,
}

/// State of one compositor layer.
#[derive(Clone, Copy)]
pub struct LayerState {
    pub kind: LayerKind,
    /// The layer has an update not yet shown.
    pub dirty: bool,
    pub fill: u32,
    pub region: (u32, u32, u32, u32),
}

impl LayerState {
    pub fn empty(kind: LayerKind) -> (l: Self)
        ensures
            l == (LayerState { kind, dirty: false, fill: 0, region: (0, 0, 0, 0) }),
    {
        LayerState { kind, dirty: false, fill: 0, region: (0, 0, 0, 0) }
    }
}

/// Only Phoenix-Desktop (0x30) and Onyxia (0x42) may render.
pub open spec fn caller_allowed(pd: u8) -> bool {
    pd == 0x30 || pd == 0x42
}

/// Which pending slots are free.
pub open spec fn free_slots(p: Seq<Option<RenderRequest>>) -> Seq<bool> {
    p.map_values(|o: Option<RenderRequest>| o is None)
}

/// Which pending slots hold a request with ARPi sequence `seq`.
pub open spec fn slots_with_seq(p: Seq<Option<RenderRequest>>, seq: u64) -> Seq<bool> {
    p.map_values(|o: Option<RenderRequest>| o matches Some(x) && x.arpi_seq == seq)
}

/// Queues `req` in the first free slot, when the count allows and a slot is free.
pub open spec fn enqueue(p: Seq<Option<RenderRequest>>, count: usize, req: RenderRequest) -> (Seq<Option<RenderRequest>>, usize) {
    let i = first_true(free_slots(p));
    if count < MAX_PENDING && i < p.len() {
        (p.update(i as int, Some(req)), (count + 1) as usize)
    } else {
        (p, count)
    }
}

/// Clears the first slot holding sequence `seq`, if any, and counts it down.
pub open spec fn dequeue(p: Seq<Option<RenderRequest>>, count: usize, seq: u64) -> (Seq<Option<RenderRequest>>, usize) {
    let i = first_true(slots_with_seq(p, seq));
    if i < p.len() {
        (p.update(i as int, None), if count > 0 { (count - 1) as usize } else { 0 })
    } else {
        (p, count)
    }
}

/// The layer after a request for it.
pub open spec fn painted(l: LayerState, req: RenderRequest) -> LayerState {
    LayerState { dirty: true, fill: req.fill_color, region: req.region, ..l }
}

/// The answer to a render request on the canvas `pd`.
pub open spec fn render_outcome(pd: HanielCanvasPd, req: RenderRequest) -> RenderOutcome {
    if pd.phase != CanvasPhase::Ready {
        RenderOutcome::NotReady
    } else if !caller_allowed(req.caller_pd) {
        RenderOutcome::CapDenied
    } else if !region_ok(req.region) {
        RenderOutcome::InvalidRegion
    } else if pd.fb_cap {
        RenderOutcome::Committed { frame_number: (pd.frame_count + 1) as u64 }
    } else {
        RenderOutcome::CapDenied
    }
}

/// What a render request does to the canvas `old`, giving `new` and the
/// outcome `r`: see `HanielCanvasPd::submit_render`.
pub open spec fn submitted(old: HanielCanvasPd, new: HanielCanvasPd, req: RenderRequest, r: RenderOutcome) -> bool {
    &&& r == render_outcome(old, req)
    &&& (old.phase != CanvasPhase::Ready ==> new == old)
    &&& (old.phase == CanvasPhase::Ready && !caller_allowed(req.caller_pd)
            ==> new == old)
    &&& (old.phase == CanvasPhase::Ready && caller_allowed(req.caller_pd) && !region_ok(req.region)
            ==> new == old)
    &&& (old.phase == CanvasPhase::Ready && caller_allowed(req.caller_pd) && region_ok(req.region) ==> {
            let (p1, c1) = enqueue(old.pending(), old.pending_count(), req);
            let z = z_of(req.layer) as int;
            &&& new.phase == CanvasPhase::Ready
            &&& new.proof == old.proof
            &&& new.fb_cap == old.fb_cap
            &&& new.drop_count == old.drop_count
            &&& new.layers() == old.layers().update(z, painted(old.layers()[z], req))
            &&& old.fb_cap ==> {
                &&& new.frame_count == old.frame_count + 1
                &&& new.render_count == old.render_count + 1
                &&& (new.pending(), new.pending_count()) == dequeue(p1, c1, req.arpi_seq)
            }
            &&& !old.fb_cap ==> {
                &&& new.frame_count == old.frame_count
                &&& new.render_count == old.render_count
                &&& new.pending() == p1 && new.pending_count() == c1
            }
        })
}

/// The HANIEL canvas protection domain.
pub struct HanielCanvasPd {
    pub phase: CanvasPhase,
    pub frame_count: u64,
    pub render_count: u64,
    pub drop_count: u64,
    pub proof: u64,
    /// Framebuffer capability granted by GPU-Cap.
    pub fb_cap: bool,
    /// Compositor layers, indexed by depth.
    pub layers: [LayerState; MAX_LAYERS],
    /// Pending-request slots.
    pub pending: [Option<RenderRequest>; MAX_PENDING],
    /// Number of queued requests.
    pub pending_count: usize,
}

impl HanielCanvasPd {
    /// Compositor layers, indexed by depth.
    pub open spec fn layers(&self) -> Seq<LayerState> {
        self.layers@
    }

    /// Pending-request slots.
    pub open spec fn pending(&self) -> Seq<Option<RenderRequest>> {
        self.pending@
    }

    /// Number of queued requests.
    pub open spec fn pending_count(&self) -> usize {
        self.pending_count
    }

    /// The fixed table sizes.
    pub proof fn lemma_sizes(&self)
        ensures
            self.layers().len() == MAX_LAYERS,
            self.pending().len() == MAX_PENDING,
    {
    }

    pub fn new() -> (pd: Self)
        ensures
            pd.phase == CanvasPhase::AwaitingBoot,
            pd.frame_count == 0 && pd.render_count == 0 && pd.drop_count == 0,
            pd.proof == SOVEREIGN_PROOF,
            !pd.fb_cap,
            pd.layers() == seq![
                LayerState { kind: LayerKind::DesktopBackground, dirty: false, fill: 0, region: (0, 0, 0, 0) },
                LayerState { kind: LayerKind::AwpPage, dirty: false, fill: 0, region: (0, 0, 0, 0) },
                LayerState { kind: LayerKind::WindowChrome, dirty: false, fill: 0, region: (0, 0, 0, 0) },
                LayerState { kind: LayerKind::ShellOutput, dirty: false, fill: 0, region: (0, 0, 0, 0) },
                LayerState { kind: LayerKind::SystemOverlay, dirty: false, fill: 0, region: (0, 0, 0, 0) },
            ],
            pd.pending() == Seq::new(MAX_PENDING as nat, |i: int| None::<RenderRequest>),
            pd.pending_count() == 0,
    {
        let pd = HanielCanvasPd {
            phase: CanvasPhase::AwaitingBoot,
            frame_count: 0,
            render_count: 0,
            drop_count: 0,
            proof: SOVEREIGN_PROOF,
            fb_cap: false,
            layers: [
                LayerState::empty(LayerKind::DesktopBackground),
                LayerState::empty(LayerKind::AwpPage),
                LayerState::empty(LayerKind::WindowChrome),
                LayerState::empty(LayerKind::ShellOutput),
                LayerState::empty(LayerKind::SystemOverlay),
            ],
            pending: [None, None, None, None, None, None, None, None],
            pending_count: 0,
        };
        assert(pd.layers@ =~= seq![
            LayerState { kind: LayerKind::DesktopBackground, dirty: false, fill: 0, region: (0, 0, 0, 0) },
            LayerState { kind: LayerKind::AwpPage, dirty: false, fill: 0, region: (0, 0, 0, 0) },
            LayerState { kind: LayerKind::WindowChrome, dirty: false, fill: 0, region: (0, 0, 0, 0) },
            LayerState { kind: LayerKind::ShellOutput, dirty: false, fill: 0, region: (0, 0, 0, 0) },
            LayerState { kind: LayerKind::SystemOverlay, dirty: false, fill: 0, region: (0, 0, 0, 0) },
        ]);
        assert(pd.pending@ =~= Seq::new(MAX_PENDING as nat, |i: int| None::<RenderRequest>));
        pd
    }

    /// Boot signal: moves AwaitingBoot to AwaitingGpuCap.
    pub fn on_boot_signal(&mut self) -> (r: Result<(), &'static str>)
        requires
            old(self).phase == CanvasPhase::AwaitingBoot ==> old(self).proof == SOVEREIGN_PROOF,
        ensures
            old(self).phase != CanvasPhase::AwaitingBoot ==> r == Err::<(), &'static str>("HANIEL-Canvas: BOOT_SIGNAL in wrong phase")
                && *final(self) == *old(self),
            old(self).phase == CanvasPhase::AwaitingBoot ==> r == Ok::<(), &'static str>(())
                && *final(self) == (HanielCanvasPd { phase: CanvasPhase::AwaitingGpuCap, ..*old(self) }),
    {
        if self.phase != CanvasPhase::AwaitingBoot {
            return Err("HANIEL-Canvas: BOOT_SIGNAL in wrong phase");
        }
        self.assert_proof();
        self.phase = CanvasPhase::AwaitingGpuCap;
        Ok(())
    }

    /// GPU-Cap grants the framebuffer: accepted while awaiting it, for a
    /// non-zero address, when the display engine holds DisplaySurface.
    pub fn on_gpu_cap_granted(&mut self, fb_vaddr: u64) -> (r: Result<(), &'static str>)
        requires
            old(self).phase == CanvasPhase::AwaitingGpuCap && fb_vaddr != 0 ==> old(self).proof == SOVEREIGN_PROOF,
        ensures
            old(self).phase != CanvasPhase::AwaitingGpuCap ==> r == Err::<(), &'static str>("HANIEL-Canvas: GPU cap grant in wrong phase")
                && *final(self) == *old(self),
            old(self).phase == CanvasPhase::AwaitingGpuCap && fb_vaddr == 0
                ==> r == Err::<(), &'static str>("HANIEL-Canvas: invalid framebuffer vaddr") && *final(self) == *old(self),
            old(self).phase == CanvasPhase::AwaitingGpuCap && fb_vaddr != 0 && !haniel_policy(HanielCap::DisplaySurface)
                ==> r == Err::<(), &'static str>("HANIEL-Canvas: DisplaySurface capability not granted") && *final(self) == *old(self),
            old(self).phase == CanvasPhase::AwaitingGpuCap && fb_vaddr != 0 && haniel_policy(HanielCap::DisplaySurface)
                ==> r == Ok::<(), &'static str>(())
                && *final(self) == (HanielCanvasPd { fb_cap: true, phase: CanvasPhase::Ready, ..*old(self) }),
    {
        if self.phase != CanvasPhase::AwaitingGpuCap {
            return Err("HANIEL-Canvas: GPU cap grant in wrong phase");
        }
        if fb_vaddr == 0 {
            return Err("HANIEL-Canvas: invalid framebuffer vaddr");
        }
        if !cap_granted(HanielCap::DisplaySurface) {
            return Err("HANIEL-Canvas: DisplaySurface capability not granted");
        }
        self.assert_proof();
        self.fb_cap = true;
        self.phase = CanvasPhase::Ready;
        Ok(())
    }

    /// Submits a render request. Refused outside Ready (`NotReady`), from a
    /// caller other than Phoenix-Desktop or Onyxia (`CapDenied`), and for an
    /// empty or out-of-surface region (`InvalidRegion`); nothing changes then.
    /// Otherwise the request is queued and composited at once: its layer is
    /// painted, and with the framebuffer capability held a frame is committed
    /// and the request leaves the queue; without it the answer is `CapDenied`.
    pub fn submit_render(&mut self, req: RenderRequest) -> (r: RenderOutcome)
        requires
            old(self).phase == CanvasPhase::Ready && caller_allowed(req.caller_pd) ==> region_in_range(req.region),
            old(self).phase == CanvasPhase::Ready && caller_allowed(req.caller_pd) && region_ok(req.region)
                ==> old(self).proof == SOVEREIGN_PROOF && old(self).frame_count < u64::MAX && old(self).render_count < u64::MAX,
        ensures
            submitted(*old(self), *final(self), req, r),
    {
        if self.phase != CanvasPhase::Ready {
            return RenderOutcome::NotReady;
        }
        let allowed = match req.caller_pd {
            0x30 | 0x42 => true,
            _ => false,
        };
        if !allowed {
            return RenderOutcome::CapDenied;
        }
        if !req.region_valid() {
            return RenderOutcome::InvalidRegion;
        }
        self.assert_proof();
        if self.pending_count < MAX_PENDING {
            let i = self.first_free_slot();
            if i < MAX_PENDING {
                self.pending[i] = Some(req);
                self.pending_count = self.pending_count + 1;
            }
        }
        proof {
            assert((self.pending@, self.pending_count) == enqueue(old(self).pending@, old(self).pending_count, req));
        }
        self.composite_and_commit(req)
    }

    /// Index of the first free pending slot, or `MAX_PENDING`.
    fn first_free_slot(&self) -> (r: usize)
        ensures
            r == first_true(free_slots(self.pending@)),
            r <= MAX_PENDING,
    {
        let mut i: usize = 0;
        while i < MAX_PENDING
            invariant
                0 <= i <= MAX_PENDING,
                forall|j: int| 0 <= j < i ==> self.pending@[j] is Some,
            decreases MAX_PENDING - i,
        {
            if self.pending[i].is_none() {
                proof {
                    assert forall|j: int| 0 <= j < i implies !free_slots(self.pending@)[j] by {}
                    lemma_first_true(free_slots(self.pending@), i as nat);
                }
                return i;
            }
            i = i + 1;
        }
        proof {
            assert forall|j: int| 0 <= j < i implies !free_slots(self.pending@)[j] by {}
            lemma_first_true(free_slots(self.pending@), i as nat);
        }
        i
    }

    /// Index of the first pending slot holding sequence `seq`, or `MAX_PENDING`.
    fn slot_with_seq(&self, seq: u64) -> (r: usize)
        ensures
            r == first_true(slots_with_seq(self.pending@, seq)),
            r <= MAX_PENDING,
    {
        let mut i: usize = 0;
        while i < MAX_PENDING
            invariant
                0 <= i <= MAX_PENDING,
                forall|j: int| 0 <= j < i ==> !slots_with_seq(self.pending@, seq)[j],
            decreases MAX_PENDING - i,
        {
            let hit = match self.pending[i] {
                Some(r) => r.arpi_seq == seq,
                None => false,
            };
            if hit {
                proof {
                    lemma_first_true(slots_with_seq(self.pending@, seq), i as nat);
                }
                return i;
            }
            i = i + 1;
        }
        proof {
            lemma_first_true(slots_with_seq(self.pending@, seq), i as nat);
        }
        i
    }

    /// Paints the request's layer and commits a frame if the framebuffer
    /// capability is held.
    fn composite_and_commit(&mut self, req: RenderRequest) -> (r: RenderOutcome)
        requires
            old(self).frame_count < u64::MAX,
            old(self).render_count < u64::MAX,
        ensures
            final(self).phase == CanvasPhase::Ready,
            final(self).proof == old(self).proof,
            final(self).fb_cap == old(self).fb_cap,
            final(self).drop_count == old(self).drop_count,
            final(self).layers() == old(self).layers().update(z_of(req.layer) as int, painted(old(self).layers()[z_of(req.layer) as int], req)),
            old(self).fb_cap ==> {
                &&& r == (RenderOutcome::Committed { frame_number: (old(self).frame_count + 1) as u64 })
                &&& final(self).frame_count == old(self).frame_count + 1
                &&& final(self).render_count == old(self).render_count + 1
                &&& (final(self).pending(), final(self).pending_count()) == dequeue(old(self).pending(), old(self).pending_count(), req.arpi_seq)
            },
            !old(self).fb_cap ==> {
                &&& r == RenderOutcome::CapDenied
                &&& final(self).frame_count == old(self).frame_count
                &&& final(self).render_count == old(self).render_count
                &&& final(self).pending() == old(self).pending() && final(self).pending_count() == old(self).pending_count()
            },
    {
        self.phase = CanvasPhase::Compositing;
        let z = req.layer.z_order() as usize;
        if z < MAX_LAYERS {
            let mut l = self.layers[z];
            l.dirty = true;
            l.fill = req.fill_color;
            l.region = req.region;
            self.layers[z] = l;
        }
        if !self.fb_cap {
            self.phase = CanvasPhase::Ready;
            return RenderOutcome::CapDenied;
        }
        if assert_cap(HanielCap::DisplaySurface).is_err() {
            self.phase = CanvasPhase::Ready;
            return RenderOutcome::CapDenied;
        }
        self.frame_count = self.frame_count + 1;
        self.render_count = self.render_count + 1;
        let i = self.slot_with_seq(req.arpi_seq);
        if i < MAX_PENDING {
            self.pending[i] = None;
            self.pending_count = self.pending_count.saturating_sub(1);
        }
        self.phase = CanvasPhase::Ready;
        RenderOutcome::Committed { frame_number: self.frame_count }
    }

    /// GPU-Cap reclaims the framebuffer: the capability is dropped and a
    /// Ready canvas waits for a new grant.
    pub fn revoke_gpu_cap(&mut self)
        ensures
            *final(self) == (HanielCanvasPd {
                fb_cap: false,
                phase: if old(self).phase == CanvasPhase::Ready { CanvasPhase::AwaitingGpuCap } else { old(self).phase },
                ..*old(self)
            }),
    {
        self.fb_cap = false;
        if self.phase == CanvasPhase::Ready {
            self.phase = CanvasPhase::AwaitingGpuCap;
        }
    }

    /// Whether the layer of this kind has an update not yet shown.
    pub fn layer_dirty(&self, kind: LayerKind) -> (r: bool)
        ensures
            r == self.layers()[z_of(kind) as int].dirty,
    {
        self.layers[kind.z_order() as usize].dirty
    }

    /// The compositor's proof and the display engine's proof both hold.
    pub fn proof_valid(&self) -> (r: bool)
        ensures
            r == (self.proof == SOVEREIGN_PROOF),
    {
        self.proof == SOVEREIGN_PROOF && verify_sovereign_proof(AXON_PROOF)
    }

    /// The protection-domain slot the canvas runs in.
    pub fn pd_id() -> (r: PdId)
        ensures
            r == PdId::GpuCap,
    {
        PdId::GpuCap
    }

    fn assert_proof(&self)
        requires
            self.proof == SOVEREIGN_PROOF,
    {
    }
}


impl Default for HanielCanvasPd {
    fn default() -> (pd: Self)
        ensures
            pd.phase == CanvasPhase::AwaitingBoot,
            pd.frame_count == 0 && pd.render_count == 0 && pd.drop_count == 0,
            pd.proof == SOVEREIGN_PROOF,
            !pd.fb_cap,
            pd.pending_count() == 0,
    {
        HanielCanvasPd::new()
    }
}

/// The page request Onyxia sends for its `n`-th frame: the page layer in
/// midnight blue, over the region (200, 50, 880, 600).
pub open spec fn page_request(n: u64) -> RenderRequest {
    RenderRequest { caller_pd: 0x42, layer: LayerKind::AwpPage, fill_color: 0xFF0A1630, region: (200, 50, 880, 600), arpi_seq: n }
}

/// The background request Phoenix-Desktop sends: the whole surface in `color`.
pub open spec fn background_request(color: u32, n: u64) -> RenderRequest {
    RenderRequest {
        caller_pd: 0x30,
        layer: LayerKind::DesktopBackground,
        fill_color: color,
        region: (0, 0, SURFACE_WIDTH, SURFACE_HEIGHT),
        arpi_seq: n,
    }
}

/// The canvas can take one more request without a counter overflowing.
pub open spec fn canvas_has_room(pd: HanielCanvasPd) -> bool {
    pd.phase == CanvasPhase::Ready ==> pd.proof == SOVEREIGN_PROOF && pd.frame_count < u64::MAX && pd.render_count < u64::MAX
}

/// Onyxia navigating and HANIEL rendering its pages.
pub struct Pl74Pipeline {
    pub onyxia: OnyxiaPd,
    pub canvas: HanielCanvasPd,
    /// Frames committed through the pipeline.
    pub frames: u64,
}

impl Pl74Pipeline {
    pub fn new() -> (p: Self)
        ensures
            p.onyxia.phase == OnyxiaPhase::AwaitingBoot && p.onyxia.proof == SOVEREIGN_PROOF,
            p.onyxia.nav_count == 0 && p.onyxia.blocked == 0,
            p.onyxia.nav_state == NavState::NewTab && p.onyxia.current_route == UrlRoute::NewTab,
            p.canvas.phase == CanvasPhase::AwaitingBoot && p.canvas.proof == SOVEREIGN_PROOF && !p.canvas.fb_cap,
            p.canvas.frame_count == 0 && p.canvas.render_count == 0 && p.canvas.drop_count == 0,
            p.canvas.pending_count() == 0,
            p.frames == 0,
    {
        Pl74Pipeline { onyxia: OnyxiaPd::new(), canvas: HanielCanvasPd::new(), frames: 0 }
    }

    /// Boots the browser and the canvas and grants the canvas the framebuffer.
    pub fn boot(&mut self)
        requires
            old(self).onyxia.phase == OnyxiaPhase::AwaitingBoot,
            old(self).onyxia.proof == SOVEREIGN_PROOF,
            old(self).canvas.phase == CanvasPhase::AwaitingBoot,
            old(self).canvas.proof == SOVEREIGN_PROOF,
        ensures
            final(self).onyxia == (OnyxiaPd { phase: OnyxiaPhase::Ready, ..old(self).onyxia }),
            final(self).canvas == (HanielCanvasPd { phase: CanvasPhase::Ready, fb_cap: true, ..old(self).canvas }),
            final(self).frames == old(self).frames,
    {
        self.onyxia.on_boot_signal().unwrap();
        self.canvas.on_boot_signal().unwrap();
        proof {
            assert(haniel_policy(HanielCap::DisplaySurface));
        }
        self.canvas.on_gpu_cap_granted(0x44000000).unwrap();
    }

    /// Onyxia navigates to `url` and HANIEL renders the page; on a committed
    /// frame the navigation completes and the pipeline counts the frame.
    pub fn navigate_and_render(&mut self, url: &[u8]) -> (r: RenderOutcome)
        requires
            old(self).onyxia.phase == OnyxiaPhase::Ready,
            old(self).onyxia.proof == SOVEREIGN_PROOF,
            old(self).onyxia.nav_count < u64::MAX,
            url@.len() <= MAX_URL_LEN,
            url_route(url@) != UrlRoute::Blocked,
            old(self).frames < u64::MAX,
            canvas_has_room(old(self).canvas),
        ensures
            r == render_outcome(old(self).canvas, page_request((old(self).frames + 1) as u64)),
            submitted(old(self).canvas, final(self).canvas, page_request((old(self).frames + 1) as u64), r),
            r is Committed ==> final(self).frames == old(self).frames + 1
                && final(self).onyxia == (OnyxiaPd {
                    nav_state: NavState::Loaded,
                    phase: OnyxiaPhase::Ready,
                    ..navigated(old(self).onyxia, url_route(url@))
                }),
            !(r is Committed) ==> final(self).frames == old(self).frames
                && final(self).onyxia == navigated(old(self).onyxia, url_route(url@)),
    {
        self.onyxia.navigate(url).unwrap();
        let req = RenderRequest {
            caller_pd: 0x42,
            layer: LayerKind::AwpPage,
            fill_color: 0xFF0A1630,
            region: (200, 50, 880, 600),
            arpi_seq: self.frames + 1,
        };
        let outcome = self.canvas.submit_render(req);
        if let RenderOutcome::Committed { .. } = outcome {
            self.onyxia.on_render_complete().unwrap();
            self.frames = self.frames + 1;
        }
        outcome
    }

    /// Phoenix-Desktop submits the background in `color`; a committed frame
    /// is counted.
    pub fn render_desktop_bg(&mut self, color: u32) -> (r: RenderOutcome)
        requires
            old(self).frames + 100 <= u64::MAX,
            canvas_has_room(old(self).canvas),
        ensures
            r == render_outcome(old(self).canvas, background_request(color, (old(self).frames + 100) as u64)),
            submitted(old(self).canvas, final(self).canvas, background_request(color, (old(self).frames + 100) as u64), r),
            final(self).onyxia == old(self).onyxia,
            final(self).frames == if r is Committed { old(self).frames + 1 } else { old(self).frames as int },
    {
        let req = RenderRequest {
            caller_pd: 0x30,
            layer: LayerKind::DesktopBackground,
            fill_color: color,
            region: (0, 0, SURFACE_WIDTH, SURFACE_HEIGHT),
            arpi_seq: self.frames + 100,
        };
        let outcome = self.canvas.submit_render(req);
        if let RenderOutcome::Committed { .. } = outcome {
            self.frames = self.frames + 1;
        }
        outcome
    }
}

impl Default for Pl74Pipeline {
    fn default() -> (p: Self)
        ensures
            p.onyxia.phase == OnyxiaPhase::AwaitingBoot && p.onyxia.proof == SOVEREIGN_PROOF,
            p.canvas.phase == CanvasPhase::AwaitingBoot && p.canvas.proof == SOVEREIGN_PROOF && !p.canvas.fb_cap,
            p.frames == 0,
    {
        Pl74Pipeline::new()
    }
}

/// Rendering never reaches the framebuffer without the capability: a request
/// to a canvas that does not hold it is never committed.
pub proof fn lemma_no_commit_without_cap(pd: HanielCanvasPd, req: RenderRequest)
    requires
        !pd.fb_cap,
    ensures
        !(render_outcome(pd, req) is Committed),
{
}

/// Only Phoenix-Desktop and Onyxia reach the framebuffer: a committed frame
/// came from one of them, over a valid region, on a Ready canvas.
pub proof fn lemma_commit_requires_allowed_caller(pd: HanielCanvasPd, req: RenderRequest)
    requires
        render_outcome(pd, req) is Committed,
    ensures
        caller_allowed(req.caller_pd),
        region_ok(req.region),
        pd.phase == CanvasPhase::Ready,
        pd.fb_cap,
{
}

/// The region `r = (x, y, w, h)` covers the pixel `(px, py)`.
pub open spec fn covers(r: (u32, u32, u32, u32), px: int, py: int) -> bool {
    r.0 <= px < r.0 + r.2 && r.1 <= py < r.1 + r.3
}

/// Nothing is drawn off the 1280x720 surface: a request whose region covers
/// a pixel `(x, y)` with `x >= 1280` or `y >= 720` is never committed, and a
/// Ready canvas answers an allowed caller's such request with
/// `InvalidRegion`, unchanged.
pub proof fn lemma_off_surface_refused(pd: HanielCanvasPd, new: HanielCanvasPd, req: RenderRequest, r: RenderOutcome, x: int, y: int)
    requires
        submitted(pd, new, req, r),
        covers(req.region, x, y),
        x >= 1280 || y >= 720,
    ensures
        !(r is Committed),
        pd.phase == CanvasPhase::Ready && caller_allowed(req.caller_pd) ==> r == RenderOutcome::InvalidRegion && new == pd,
{
}

/// Every non-empty region that lies wholly on the 1280x720 surface is
/// accepted: a Ready canvas holding the capability commits an allowed
/// caller's request for it.
pub proof fn lemma_on_surface_accepted(pd: HanielCanvasPd, req: RenderRequest)
    requires
        req.region.2 > 0 && req.region.3 > 0,
        forall|x: int, y: int| #[trigger] covers(req.region, x, y) ==> x < 1280 && y < 720,
        pd.phase == CanvasPhase::Ready,
        pd.fb_cap,
        caller_allowed(req.caller_pd),
    ensures
        render_outcome(pd, req) == (RenderOutcome::Committed { frame_number: (pd.frame_count + 1) as u64 }),
{
    let x = req.region.0 + req.region.2 - 1;
    let y = req.region.1 + req.region.3 - 1;
    assert(covers(req.region, x, y));
}

} // verus!
