//! Phoenix desktop protection domain and the GPU capability PD that grants it
//! the framebuffer; also the record of the boot handoff from firmware to a
//! running desktop.
use vstd::prelude::*;
use crate::common::{PdId, AXON_PROOF, SURFACE_HEIGHT, SURFACE_WIDTH};

verus! {

/// Phoenix-Desktop PD identifier (optional PD, desktop profile).
pub const PHOENIX_DESKTOP_PD_ID: u8 = 0x30;
/// Sovereign proof value.
pub const SOVEREIGN_PROOF: u64 = AXON_PROOF;

/// Boot signal from Phoenix-Init.
pub const MSG_BOOT_SIGNAL: u32 = 0xB001;
/// Framebuffer capability grant from GPU-Cap.
pub const MSG_FB_CAP_GRANT: u32 = 0xB002;
/// Input event from Input-PD.
pub const MSG_INPUT_EVENT: u32 = 0xB003;
/// Heartbeat to Phoenix-Watchdog.
pub const MSG_HEARTBEAT: u32 = 0xB004;
/// EDB query to DataTier-Enforcer.
pub const MSG_EDB_QUERY: u32 = 0xB005;

/// Phase of the desktop PD.
#[derive(Debug, Clone, Copy, PartialEq, Eq, Structural)]
pub enum DesktopPhase {
    /// Waiting for the boot signal from Phoenix-Init.
    AwaitingBoot,
    /// Waiting for the framebuffer capability from GPU-Cap.
    AwaitingFramebuf,
    /// Render loop active.
    Running,
    /// Framebuffer capability revoked.
    Suspended,
    /// Fatal error.
    Faulted,
}

/// Wire value of each desktop phase.
pub open spec fn desktop_phase_code(p: DesktopPhase) -> u8 {
    match p {
        DesktopPhase::AwaitingBoot => 0x01,
        DesktopPhase::AwaitingFramebuf => 0x02,
        DesktopPhase::Running => 0x03,
        DesktopPhase::Suspended => 0x04,
        DesktopPhase::Faulted => 0xFF,
    }
}

impl DesktopPhase {
    /// The wire value of this phase.
    pub fn as_u8(self) -> (r: u8)
        ensures
            r == desktop_phase_code(self),
    {
        match self {
            DesktopPhase::AwaitingBoot => 0x01,
            DesktopPhase::AwaitingFramebuf => 0x02,
            DesktopPhase::Running => 0x03,
            DesktopPhase::Suspended => 0x04,
            DesktopPhase::Faulted => 0xFF,
        }
    }
}

/// Framebuffer descriptor received from GPU-Cap.
#[derive(Debug, Clone, Copy)]
pub struct FramebufDesc {
    /// Virtual address of the mapped framebuffer.
    pub vaddr: u64,
    pub width: u32,
    pub height: u32,
    /// Bytes per pixel.
    pub bpp: u32,
    /// Bytes per row.
    pub stride: u32,
}

/// 1280x720, four bytes per pixel, rows packed.
pub open spec fn sovereign_standard(d: FramebufDesc) -> bool {
    d.width == SURFACE_WIDTH && d.height == SURFACE_HEIGHT && d.bpp == 4 && d.stride == SURFACE_WIDTH * 4
}

impl FramebufDesc {
    /// Whether the descriptor matches the sovereign standard surface.
    pub fn is_sovereign_standard(&self) -> (r: bool)
        ensures
            r == sovereign_standard(*self),
    {
        self.width == SURFACE_WIDTH && self.height == SURFACE_HEIGHT && self.bpp == 4 && self.stride == SURFACE_WIDTH * 4
    }

    /// Size of the framebuffer in bytes.
    pub fn total_bytes(&self) -> (r: u32)
        requires
            self.stride * self.height <= u32::MAX,
        ensures
            r == self.stride * self.height,
    {
        self.stride * self.height
    }
}

/// Keyboard or mouse event from Input-PD.
#[derive(Debug, Clone, Copy)]
pub struct InputEvent {
    /// 0x01 key press, 0x02 key release, 0x10 mouse move, 0x11 mouse button.
    pub kind: u8,
    /// Scan code or mouse button.
    pub code: u16,
    pub x: i32,
    pub y: i32,
}

/// An event of this kind needs a redraw: key press, mouse move or button.
pub open spec fn triggers_redraw(kind: u8) -> bool {
    kind == 0x01 || kind == 0x10 || kind == 0x11
}

/// The desktop protection domain.
pub struct PhoenixDesktopPd {
    pub phase: DesktopPhase,
    pub framebuf: Option<FramebufDesc>,
    /// Render frames since boot.
    pub ticks: u64,
    /// Input events processed.
    pub events: u64,
    pub proof: u64,
}

/// The desktop holds a framebuffer exactly while it runs, and only a
/// sovereign-standard one.
pub open spec fn desktop_consistent(pd: PhoenixDesktopPd) -> bool {
    &&& pd.phase == DesktopPhase::Running ==> (pd.framebuf matches Some(d) && sovereign_standard(d))
    &&& pd.phase != DesktopPhase::Running ==> pd.framebuf is None
}

/// Heartbeat payload after `ticks` frames: the frame count above the low
/// sixteen bits of the proof.
pub open spec fn heartbeat(ticks: u64) -> u64 {
    (ticks << 16u64) | (SOVEREIGN_PROOF & 0xFFFF)
}

impl PhoenixDesktopPd {
    pub fn new() -> (pd: Self)
        ensures
            pd.phase == DesktopPhase::AwaitingBoot,
            pd.framebuf is None,
            pd.ticks == 0,
            pd.events == 0,
            pd.proof == SOVEREIGN_PROOF,
            desktop_consistent(pd),
    {
        PhoenixDesktopPd { phase: DesktopPhase::AwaitingBoot, framebuf: None, ticks: 0, events: 0, proof: SOVEREIGN_PROOF }
    }

    /// Boot signal: moves AwaitingBoot to AwaitingFramebuf.
    pub fn on_boot_signal(&mut self) -> (r: Result<(), &'static str>)
        requires
            old(self).phase == DesktopPhase::AwaitingBoot ==> old(self).proof == SOVEREIGN_PROOF,
        ensures
            old(self).phase != DesktopPhase::AwaitingBoot ==> r == Err::<(), &'static str>("BOOT_SIGNAL received in wrong phase")
                && *final(self) == *old(self),
            old(self).phase == DesktopPhase::AwaitingBoot ==> r == Ok::<(), &'static str>(())
                && *final(self) == (PhoenixDesktopPd { phase: DesktopPhase::AwaitingFramebuf, ..*old(self) }),
            desktop_consistent(*old(self)) ==> desktop_consistent(*final(self)),
    {
        if self.phase != DesktopPhase::AwaitingBoot {
            return Err("BOOT_SIGNAL received in wrong phase");
        }
        self.assert_proof();
        self.phase = DesktopPhase::AwaitingFramebuf;
        Ok(())
    }

    /// Framebuffer grant: accepted only while awaiting it and only for a
    /// sovereign-standard surface; the desktop then runs on it.
    pub fn on_fb_cap_grant(&mut self, desc: FramebufDesc) -> (r: Result<(), &'static str>)
        requires
            old(self).phase == DesktopPhase::AwaitingFramebuf && sovereign_standard(desc) ==> old(self).proof == SOVEREIGN_PROOF,
        ensures
            old(self).phase != DesktopPhase::AwaitingFramebuf ==> r == Err::<(), &'static str>("FB_CAP_GRANT received in wrong phase")
                && *final(self) == *old(self),
            old(self).phase == DesktopPhase::AwaitingFramebuf && !sovereign_standard(desc)
                ==> r == Err::<(), &'static str>("framebuffer does not meet sovereign standard (1280x720 ARGB8888)")
                && *final(self) == *old(self),
            old(self).phase == DesktopPhase::AwaitingFramebuf && sovereign_standard(desc) ==> r == Ok::<(), &'static str>(())
                && *final(self) == (PhoenixDesktopPd { framebuf: Some(desc), phase: DesktopPhase::Running, ..*old(self) }),
            desktop_consistent(*old(self)) ==> desktop_consistent(*final(self)),
    {
        if self.phase != DesktopPhase::AwaitingFramebuf {
            return Err("FB_CAP_GRANT received in wrong phase");
        }
        if !desc.is_sovereign_standard() {
            return Err("framebuffer does not meet sovereign standard (1280x720 ARGB8888)");
        }
        self.assert_proof();
        self.framebuf = Some(desc);
        self.phase = DesktopPhase::Running;
        Ok(())
    }

    /// Counts an input event while running; returns whether it needs a redraw.
    pub fn on_input_event(&mut self, ev: InputEvent) -> (r: bool)
        requires
            old(self).phase == DesktopPhase::Running ==> old(self).events < u64::MAX,
        ensures
            old(self).phase != DesktopPhase::Running ==> !r && *final(self) == *old(self),
            old(self).phase == DesktopPhase::Running ==> r == triggers_redraw(ev.kind)
                && *final(self) == (PhoenixDesktopPd { events: (old(self).events + 1) as u64, ..*old(self) }),
            desktop_consistent(*old(self)) ==> desktop_consistent(*final(self)),
    {
        if self.phase != DesktopPhase::Running {
            return false;
        }
        self.events = self.events + 1;
        match ev.kind {
            0x01 | 0x10 | 0x11 => true,
            _ => false,
        }
    }

    /// One render frame while running; returns the heartbeat payload for the
    /// watchdog, or 0 when not running.
    pub fn render_tick(&mut self) -> (r: u64)
        requires
            old(self).phase == DesktopPhase::Running ==> old(self).ticks < u64::MAX && old(self).proof == SOVEREIGN_PROOF,
        ensures
            old(self).phase != DesktopPhase::Running ==> r == 0 && *final(self) == *old(self),
            old(self).phase == DesktopPhase::Running ==> r == heartbeat((old(self).ticks + 1) as u64)
                && *final(self) == (PhoenixDesktopPd { ticks: (old(self).ticks + 1) as u64, ..*old(self) }),
            desktop_consistent(*old(self)) ==> desktop_consistent(*final(self)),
    {
        if self.phase != DesktopPhase::Running {
            return 0;
        }
        self.ticks = self.ticks + 1;
        self.assert_proof();
        (self.ticks << 16u64) | (SOVEREIGN_PROOF & 0xFFFF)
    }

    /// The framebuffer capability was revoked: drop it and suspend.
    pub fn suspend(&mut self)
        ensures
            *final(self) == (PhoenixDesktopPd { framebuf: None, phase: DesktopPhase::Suspended, ..*old(self) }),
            desktop_consistent(*final(self)),
    {
        self.framebuf = None;
        self.phase = DesktopPhase::Suspended;
    }

    /// A new framebuffer grant while suspended: accepted for a
    /// sovereign-standard surface, and the desktop runs again.
    pub fn resume(&mut self, desc: FramebufDesc) -> (r: Result<(), &'static str>)
        ensures
            old(self).phase != DesktopPhase::Suspended ==> r == Err::<(), &'static str>("resume called outside Suspended phase")
                && *final(self) == *old(self),
            old(self).phase == DesktopPhase::Suspended && !sovereign_standard(desc)
                ==> r == Err::<(), &'static str>("framebuffer does not meet sovereign standard") && *final(self) == *old(self),
            old(self).phase == DesktopPhase::Suspended && sovereign_standard(desc) ==> r == Ok::<(), &'static str>(())
                && *final(self) == (PhoenixDesktopPd { framebuf: Some(desc), phase: DesktopPhase::Running, ..*old(self) }),
            desktop_consistent(*old(self)) ==> desktop_consistent(*final(self)),
    {
        if self.phase != DesktopPhase::Suspended {
            return Err("resume called outside Suspended phase");
        }
        if !desc.is_sovereign_standard() {
            return Err("framebuffer does not meet sovereign standard");
        }
        self.framebuf = Some(desc);
        self.phase = DesktopPhase::Running;
        Ok(())
    }

    fn assert_proof(&self)
        requires
            self.proof == SOVEREIGN_PROOF,
    {
    }

    /// The protection-domain slot the desktop runs in.
    pub fn pd_id() -> (r: PdId)
        ensures
            r == PdId::GpuCap,
    {
        PdId::GpuCap
    }
}

impl Default for PhoenixDesktopPd {
    fn default() -> (pd: Self)
        ensures
            pd.phase == DesktopPhase::AwaitingBoot,
            pd.framebuf is None,
            pd.ticks == 0,
            pd.events == 0,
            pd.proof == SOVEREIGN_PROOF,
    {
        PhoenixDesktopPd::new()
    }
}

/// GPU-Cap PD: maps the ramfb and grants the framebuffer capability. No PD
/// writes to the display without going through it.
pub struct GpuCapPd {
    /// ramfb physical address.
    pub ramfb_phys: u64,
    /// Virtual address of the mapping; 0 while unmapped.
    pub ramfb_vaddr: u64,
    /// Width x height x 4 bytes.
    pub fb_size: u32,
    /// The capability has been granted to Phoenix-Desktop.
    pub cap_granted: bool,
    pub proof: u64,
}

impl GpuCapPd {
    /// Physical address of the Phoenix ramfb.
    pub const RAMFB_PHYS: u64 = 0x44000000;
    /// Sovereign framebuffer size: 1280 x 720 x 4 bytes.
    pub const RAMFB_SIZE: u32 = 3686400;

    pub fn new() -> (g: Self)
        ensures
            g.ramfb_phys == Self::RAMFB_PHYS,
            g.ramfb_vaddr == 0,
            g.fb_size == Self::RAMFB_SIZE,
            !g.cap_granted,
            g.proof == SOVEREIGN_PROOF,
    {
        GpuCapPd { ramfb_phys: Self::RAMFB_PHYS, ramfb_vaddr: 0, fb_size: Self::RAMFB_SIZE, cap_granted: false, proof: SOVEREIGN_PROOF }
    }

    /// Records the ramfb mapping; a zero address is refused.
    pub fn map_ramfb(&mut self, vaddr: u64) -> (r: Result<(), &'static str>)
        ensures
            vaddr == 0 ==> r == Err::<(), &'static str>("GPU-Cap: invalid vaddr for ramfb mapping") && *final(self) == *old(self),
            vaddr != 0 ==> r == Ok::<(), &'static str>(()) && *final(self) == (GpuCapPd { ramfb_vaddr: vaddr, ..*old(self) }),
    {
        if vaddr == 0 {
            return Err("GPU-Cap: invalid vaddr for ramfb mapping");
        }
        self.ramfb_vaddr = vaddr;
        Ok(())
    }

    /// Grants the framebuffer capability once the ramfb is mapped, and
    /// returns the sovereign-standard descriptor of the mapping.
    pub fn grant_fb_cap(&mut self) -> (r: Result<FramebufDesc, &'static str>)
        ensures
            old(self).ramfb_vaddr == 0 ==> r == Err::<FramebufDesc, &'static str>("GPU-Cap: ramfb not yet mapped — cannot grant cap")
                && *final(self) == *old(self),
            old(self).ramfb_vaddr != 0 ==> *final(self) == (GpuCapPd { cap_granted: true, ..*old(self) })
                && (r matches Ok(d) && d.vaddr == old(self).ramfb_vaddr && sovereign_standard(d)),
    {
        if self.ramfb_vaddr == 0 {
            return Err("GPU-Cap: ramfb not yet mapped — cannot grant cap");
        }
        self.cap_granted = true;
        Ok(FramebufDesc { vaddr: self.ramfb_vaddr, width: SURFACE_WIDTH, height: SURFACE_HEIGHT, bpp: 4, stride: SURFACE_WIDTH * 4 })
    }

    /// Revokes the framebuffer capability.
    pub fn revoke_fb_cap(&mut self)
        ensures
            *final(self) == (GpuCapPd { cap_granted: false, ..*old(self) }),
    {
        self.cap_granted = false;
    }
}

impl Default for GpuCapPd {
    fn default() -> (g: Self)
        ensures
            g.ramfb_phys == GpuCapPd::RAMFB_PHYS,
            g.ramfb_vaddr == 0,
            g.fb_size == GpuCapPd::RAMFB_SIZE,
            !g.cap_granted,
            g.proof == SOVEREIGN_PROOF,
    {
        GpuCapPd::new()
    }
}

/// The six stages from firmware to a running desktop under seL4.
pub struct Pl70BootHandoff {
    /// UEFI hands control to seL4.
    pub uefi_to_sel4: bool,
    /// seL4 launches GENESIS.
    pub sel4_to_genesis: bool,
    /// GENESIS registers the mandatory PDs and surrenders authority.
    pub genesis_surrender: bool,
    /// Phoenix-Init runs its six-phase boot.
    pub phoenix_init_done: bool,
    /// GPU-Cap maps the ramfb and grants the framebuffer capability.
    pub gpu_cap_granted: bool,
    /// Phoenix-Desktop starts its render loop.
    pub desktop_running: bool,
    pub proof: u64,
}

/// All six stages are done and the proof was carried through.
pub open spec fn handoff_complete(h: Pl70BootHandoff) -> bool {
    h.uefi_to_sel4 && h.sel4_to_genesis && h.genesis_surrender && h.phoenix_init_done && h.gpu_cap_granted
        && h.desktop_running && h.proof == SOVEREIGN_PROOF
}

impl Pl70BootHandoff {
    pub fn new() -> (h: Self)
        ensures
            !h.uefi_to_sel4 && !h.sel4_to_genesis && !h.genesis_surrender && !h.phoenix_init_done
                && !h.gpu_cap_granted && !h.desktop_running,
            h.proof == SOVEREIGN_PROOF,
    {
        Pl70BootHandoff {
            uefi_to_sel4: false,
            sel4_to_genesis: false,
            genesis_surrender: false,
            phoenix_init_done: false,
            gpu_cap_granted: false,
            desktop_running: false,
            proof: SOVEREIGN_PROOF,
        }
    }

    /// Whether the sovereign desktop is live under seL4.
    pub fn is_complete(&self) -> (r: bool)
        ensures
            r == handoff_complete(*self),
    {
        self.uefi_to_sel4 && self.sel4_to_genesis && self.genesis_surrender && self.phoenix_init_done
            && self.gpu_cap_granted && self.desktop_running && self.proof == SOVEREIGN_PROOF
    }

    /// Description of the first stage not yet done.
    pub fn stage_label(&self) -> (r: &'static str)
        ensures
            r == (if !self.uefi_to_sel4 {
                "UEFI → seL4 handoff"
            } else if !self.sel4_to_genesis {
                "seL4 → GENESIS PD"
            } else if !self.genesis_surrender {
                "GENESIS: surrender authority"
            } else if !self.phoenix_init_done {
                "Phoenix-Init: 6-phase boot"
            } else if !self.gpu_cap_granted {
                "GPU-Cap: grant FramebufferWrite"
            } else if !self.desktop_running {
                "Phoenix-Desktop: start render loop"
            } else {
                "SOVEREIGN DESKTOP LIVE UNDER seL4"
            }),
    {
        if !self.uefi_to_sel4 {
            return "UEFI → seL4 handoff";
        }
        if !self.sel4_to_genesis {
            return "seL4 → GENESIS PD";
        }
        if !self.genesis_surrender {
            return "GENESIS: surrender authority";
        }
        if !self.phoenix_init_done {
            return "Phoenix-Init: 6-phase boot";
        }
        if !self.gpu_cap_granted {
            return "GPU-Cap: grant FramebufferWrite";
        }
        if !self.desktop_running {
            return "Phoenix-Desktop: start render loop";
        }
        "SOVEREIGN DESKTOP LIVE UNDER seL4"
    }
}

impl Default for Pl70BootHandoff {
    fn default() -> (h: Self)
        ensures
            !h.uefi_to_sel4 && !h.sel4_to_genesis && !h.genesis_surrender && !h.phoenix_init_done
                && !h.gpu_cap_granted && !h.desktop_running,
            h.proof == SOVEREIGN_PROOF,
    {
        Pl70BootHandoff::new()
    }
}

/// The heartbeat grows with every frame: a later frame count gives a larger
/// payload, as long as the count fits in the upper 48 bits.
pub proof fn lemma_heartbeat_increases(a: u64, b: u64)
    requires
        a < b,
        b < 0x1_0000_0000_0000,
    ensures
        heartbeat(a) < heartbeat(b),
{
    assert(SOVEREIGN_PROOF & 0xFFFF == 0x4153) by (bit_vector)
        requires
            SOVEREIGN_PROOF == 0x4153u64,
    ;
    assert((a << 16u64) | 0x4153u64 < (b << 16u64) | 0x4153u64) by (bit_vector)
        requires
            a < b,
            b < 0x1_0000_0000_0000u64,
    ;
}

/// The low sixteen bits of every heartbeat are the sovereign proof `0x4153`,
/// and for a frame count below 2^48 the bits above them are the count.
pub proof fn lemma_heartbeat_fields(t: u64)
    requires
        t < 0x1_0000_0000_0000,
    ensures
        heartbeat(t) & 0xFFFF == 0x4153,
        heartbeat(t) >> 16u64 == t,
{
    assert(SOVEREIGN_PROOF & 0xFFFF == 0x4153) by (bit_vector)
        requires
            SOVEREIGN_PROOF == 0x4153u64,
    ;
    assert(((t << 16u64) | 0x4153u64) & 0xFFFF == 0x4153 && ((t << 16u64) | 0x4153u64) >> 16u64 == t) by (bit_vector)
        requires
            t < 0x1_0000_0000_0000u64,
    ;
}

/// Two render ticks in a row on a running desktop give strictly increasing
/// heartbeats, each carrying the proof `0x4153` in its low sixteen bits and
/// the new frame count above them, while the count stays below 2^48.
pub proof fn lemma_consecutive_ticks(
    pd0: PhoenixDesktopPd,
    pd1: PhoenixDesktopPd,
    r1: u64,
    pd2: PhoenixDesktopPd,
    r2: u64,
)
    requires
        pd0.phase == DesktopPhase::Running,
        pd0.ticks + 2 < 0x1_0000_0000_0000,
        r1 == heartbeat((pd0.ticks + 1) as u64),
        pd1 == (PhoenixDesktopPd { ticks: (pd0.ticks + 1) as u64, ..pd0 }),
        r2 == heartbeat((pd1.ticks + 1) as u64),
        pd2 == (PhoenixDesktopPd { ticks: (pd1.ticks + 1) as u64, ..pd1 }),
    ensures
        pd1.phase == DesktopPhase::Running,
        r1 < r2,
        r1 & 0xFFFF == 0x4153 && r2 & 0xFFFF == 0x4153,
        r1 >> 16u64 == pd1.ticks && r2 >> 16u64 == pd2.ticks,
{
    lemma_heartbeat_increases(pd1.ticks, pd2.ticks);
    lemma_heartbeat_fields(pd1.ticks);
    lemma_heartbeat_fields(pd2.ticks);
}

/// A key press.
pub const EV_KEY_PRESS: u8 = 0x01;
/// A key release.
pub const EV_KEY_RELEASE: u8 = 0x02;
/// A mouse move.
pub const EV_MOUSE_MOVE: u8 = 0x10;
/// A mouse button.
pub const EV_MOUSE_BUTTON: u8 = 0x11;

/// On a running desktop every input event is counted, and it asks for a
/// redraw exactly when it is a key press, a mouse move or a mouse-button
/// event; a key release, or an event of any other kind, asks for none,
/// whatever its code and position.
pub proof fn lemma_input_redraw(pd: PhoenixDesktopPd, ev: InputEvent, new: PhoenixDesktopPd, r: bool)
    requires
        pd.phase == DesktopPhase::Running,
        r == triggers_redraw(ev.kind),
        new == (PhoenixDesktopPd { events: (pd.events + 1) as u64, ..pd }),
    ensures
        r <==> (ev.kind == EV_KEY_PRESS || ev.kind == EV_MOUSE_MOVE || ev.kind == EV_MOUSE_BUTTON),
        ev.kind == EV_KEY_RELEASE ==> !r,
        new.events == pd.events + 1 || pd.events == u64::MAX,
{
}

/// The ramfb size is the size of a sovereign-standard framebuffer.
pub proof fn lemma_ramfb_size_standard(d: FramebufDesc)
    requires
        sovereign_standard(d),
    ensures
        d.stride * d.height == GpuCapPd::RAMFB_SIZE,
{
    assert(d.stride == 5120 && d.height == 720);
}

} // verus!
