//! HANIEL engine PD: brings up the VAULT, HERALD, PRISM and CANVAS modules
//! and renders the sovereign frames into the 1280x720 framebuffer.
use vstd::prelude::*;
use crate::microkit::{op_code, op_of};

verus! {

pub const FB_WIDTH: u32 = 1280;
pub const FB_HEIGHT: u32 = 720;
/// Bytes per pixel (ARGB8888).
pub const FB_BPP: u32 = 4;
/// 1280 x 720 x 4 bytes.
pub const FB_SIZE: u32 = 3686400;
pub const RENDER_OP_CLEAR: u8 = 0x01;
pub const RENDER_OP_DRAW: u8 = 0x02;
pub const RENDER_OP_FLIP: u8 = 0x03;
/// Draw the sovereign UI frame.
pub const RENDER_OP_SOVEREIGN: u8 = 0x04;
pub const CH_ARPI_BROKER: u8 = 1;
pub const CH_DISPLAY_DRV: u8 = 2;
pub const COLOR_SOVEREIGN_BG: u32 = 0xFF0A0F1A;
pub const COLOR_SOVEREIGN_TEXT: u32 = 0xFF00C896;
pub const COLOR_SOVEREIGN_GOLD: u32 = 0xFFC9A84C;
pub const COLOR_AXON_BLUE: u32 = 0xFF1A73E8;
/// Pixels of one sovereign frame: background, 48-row header bar, 200x200 logo.
pub const SOVEREIGN_FRAME_PIXELS: u64 = 1023040;

/// Render statistics and module status of the engine.
pub struct HanielEngine {
    pub frames_rendered: u64,
    pub pixels_written: u64,
    pub vault_ready: bool,
    pub herald_ready: bool,
    pub prism_ready: bool,
    pub canvas_ready: bool,
}

/// What rendering a sovereign frame logs.
pub open spec fn frame_log() -> Seq<&'static str> {
    seq![
        "HANIEL: CANVAS rendering sovereign boot frame\n",
        "HANIEL: CANVAS frame rendered — 1280x720 pixels\n",
        "HANIEL: CANVAS Threat-First Rendering Pipeline (TERM-049)\n",
        "HANIEL: CANVAS sovereignty verified — no third-party renderer\n",
    ]
}

/// What the engine logs when it starts.
pub open spec fn haniel_init_log() -> Seq<&'static str> {
    seq![
        "HANIEL Engine PD: initializing\n",
        "HANIEL: Named after Haniel Lepiten — first son\n",
        "HANIEL: Universal sovereign rendering substrate\n",
        "HANIEL: VAULT initializing (HE-2)\n",
        "HANIEL: VAULT LRU cache active\n",
        "HANIEL: VAULT atomic memory tracker active\n",
        "HANIEL: VAULT READY\n",
        "HANIEL: HERALD initializing (HE-3)\n",
        "HANIEL: HERALD STS gate — 29 tracker domains blocked\n",
        "HANIEL: HERALD AWP protocol handler active\n",
        "HANIEL: HERALD ARPi tier resolver active\n",
        "HANIEL: HERALD READY\n",
        "HANIEL: PRISM initializing (HE-4 + HE-5)\n",
        "HANIEL: PRISM rod pass — .axbw parser active\n",
        "HANIEL: PRISM rod pass — SRB allocator active\n",
        "HANIEL: PRISM cone pass — flexbox engine active\n",
        "HANIEL: PRISM cone pass — HTML subset parser active\n",
        "HANIEL: PRISM Rod-Cone Progressive Rendering (TERM-050)\n",
        "HANIEL: PRISM READY\n",
        "HANIEL: CANVAS initializing (HE-6)\n",
        "HANIEL: CANVAS software rasterizer active\n",
        "HANIEL: CANVAS Zero-GC Render Pipeline (TERM-056)\n",
        "HANIEL: CANVAS Sovereign Render Budget active\n",
        "HANIEL: CANVAS READY\n",
        "HANIEL: all 4 modules verified (HE-1 through HE-6)\n",
        "HANIEL: framebuffer 1280x720 ARGB8888\n",
        "HANIEL: framebuffer size 3686400 bytes\n",
    ] + frame_log() + seq![
        "HANIEL: first sovereign pixel rendered\n",
        "HANIEL: display surface READY\n",
        "HANIEL Engine PD: READY\n",
    ]
}

/// The engine after rendering one sovereign frame.
pub open spec fn framed(s: HanielEngine) -> HanielEngine {
    HanielEngine {
        pixels_written: (s.pixels_written + SOVEREIGN_FRAME_PIXELS) as u64,
        frames_rendered: (s.frames_rendered + 1) as u64,
        ..s
    }
}

/// The engine can render one more frame without a counter overflowing.
pub open spec fn frame_room(s: HanielEngine) -> bool {
    s.frames_rendered < u64::MAX && s.pixels_written + SOVEREIGN_FRAME_PIXELS <= u64::MAX
}

/// The engine, status and log after a protected call with operation `op`.
pub open spec fn haniel_step(s: HanielEngine, op: u8) -> (HanielEngine, u64, Seq<&'static str>) {
    if op == RENDER_OP_CLEAR {
        (s, 0, seq!["HANIEL: framebuffer clear\n"])
    } else if op == RENDER_OP_DRAW {
        (HanielEngine { frames_rendered: (s.frames_rendered + 1) as u64, ..s }, 0, seq!["HANIEL: PRISM → CANVAS draw\n"])
    } else if op == RENDER_OP_FLIP {
        (s, 0, seq!["HANIEL: framebuffer flip to display\n"])
    } else if op == RENDER_OP_SOVEREIGN {
        (framed(s), 0, seq!["HANIEL: sovereign UI frame\n"] + frame_log())
    } else {
        (s, 1, Seq::empty())
    }
}

impl HanielEngine {
    /// Nothing rendered, no module up.
    pub fn new() -> (s: Self)
        ensures
            s.frames_rendered == 0 && s.pixels_written == 0,
            !s.vault_ready && !s.herald_ready && !s.prism_ready && !s.canvas_ready,
    {
        HanielEngine {
            frames_rendered: 0,
            pixels_written: 0,
            vault_ready: false,
            herald_ready: false,
            prism_ready: false,
            canvas_ready: false,
        }
    }

    /// Start-up: brings up the four modules, checks them, and renders the
    /// first sovereign frame; returns the lines logged.
    pub fn init(&mut self) -> (log: Vec<&'static str>)
        requires
            frame_room(*old(self)),
        ensures
            final(self).vault_ready && final(self).herald_ready && final(self).prism_ready && final(self).canvas_ready,
            final(self).frames_rendered == framed(*old(self)).frames_rendered,
            final(self).pixels_written == framed(*old(self)).pixels_written,
            log@ == haniel_init_log(),
    {
        let mut log: Vec<&'static str> = Vec::new();
        log.push("HANIEL Engine PD: initializing\n");
        log.push("HANIEL: Named after Haniel Lepiten — first son\n");
        log.push("HANIEL: Universal sovereign rendering substrate\n");
        self.init_vault(&mut log);
        self.init_herald(&mut log);
        self.init_prism(&mut log);
        self.init_canvas(&mut log);
        let modules_up = self.vault_ready && self.herald_ready && self.prism_ready && self.canvas_ready;
        assert(modules_up);
        log.push("HANIEL: all 4 modules verified (HE-1 through HE-6)\n");
        log.push("HANIEL: framebuffer 1280x720 ARGB8888\n");
        log.push("HANIEL: framebuffer size 3686400 bytes\n");
        self.render_sovereign_boot_frame(&mut log);
        log.push("HANIEL: first sovereign pixel rendered\n");
        log.push("HANIEL: display surface READY\n");
        log.push("HANIEL Engine PD: READY\n");
        assert(log@ =~= haniel_init_log());
        log
    }

    /// Brings up VAULT (HE-2): cache and memory tracker.
    fn init_vault(&mut self, log: &mut Vec<&'static str>)
        ensures
            *final(self) == (HanielEngine { vault_ready: true, ..*old(self) }),
            final(log)@ == old(log)@ + haniel_init_log().subrange(3, 7),
    {
        log.push("HANIEL: VAULT initializing (HE-2)\n");
        log.push("HANIEL: VAULT LRU cache active\n");
        log.push("HANIEL: VAULT atomic memory tracker active\n");
        self.vault_ready = true;
        log.push("HANIEL: VAULT READY\n");
        assert(log@ =~= old(log)@ + haniel_init_log().subrange(3, 7));
    }

    /// Brings up HERALD (HE-3): tracker gate, AWP and tier resolver.
    fn init_herald(&mut self, log: &mut Vec<&'static str>)
        ensures
            *final(self) == (HanielEngine { herald_ready: true, ..*old(self) }),
            final(log)@ == old(log)@ + haniel_init_log().subrange(7, 12),
    {
        log.push("HANIEL: HERALD initializing (HE-3)\n");
        log.push("HANIEL: HERALD STS gate — 29 tracker domains blocked\n");
        log.push("HANIEL: HERALD AWP protocol handler active\n");
        log.push("HANIEL: HERALD ARPi tier resolver active\n");
        self.herald_ready = true;
        log.push("HANIEL: HERALD READY\n");
        assert(log@ =~= old(log)@ + haniel_init_log().subrange(7, 12));
    }

    /// Brings up PRISM (HE-4, HE-5): the rod and cone passes.
    fn init_prism(&mut self, log: &mut Vec<&'static str>)
        ensures
            *final(self) == (HanielEngine { prism_ready: true, ..*old(self) }),
            final(log)@ == old(log)@ + haniel_init_log().subrange(12, 19),
    {
        log.push("HANIEL: PRISM initializing (HE-4 + HE-5)\n");
        log.push("HANIEL: PRISM rod pass — .axbw parser active\n");
        log.push("HANIEL: PRISM rod pass — SRB allocator active\n");
        log.push("HANIEL: PRISM cone pass — flexbox engine active\n");
        log.push("HANIEL: PRISM cone pass — HTML subset parser active\n");
        log.push("HANIEL: PRISM Rod-Cone Progressive Rendering (TERM-050)\n");
        self.prism_ready = true;
        log.push("HANIEL: PRISM READY\n");
        assert(log@ =~= old(log)@ + haniel_init_log().subrange(12, 19));
    }

    /// Brings up CANVAS (HE-6): the software rasterizer.
    fn init_canvas(&mut self, log: &mut Vec<&'static str>)
        ensures
            *final(self) == (HanielEngine { canvas_ready: true, ..*old(self) }),
            final(log)@ == old(log)@ + haniel_init_log().subrange(19, 24),
    {
        log.push("HANIEL: CANVAS initializing (HE-6)\n");
        log.push("HANIEL: CANVAS software rasterizer active\n");
        log.push("HANIEL: CANVAS Zero-GC Render Pipeline (TERM-056)\n");
        log.push("HANIEL: CANVAS Sovereign Render Budget active\n");
        self.canvas_ready = true;
        log.push("HANIEL: CANVAS READY\n");
        assert(log@ =~= old(log)@ + haniel_init_log().subrange(19, 24));
    }

    /// Renders the sovereign boot frame: background, header bar and logo
    /// pixels are counted, and one frame.
    fn render_sovereign_boot_frame(&mut self, log: &mut Vec<&'static str>)
        requires
            frame_room(*old(self)),
        ensures
            *final(self) == framed(*old(self)),
            final(log)@ == old(log)@ + frame_log(),
    {
        log.push("HANIEL: CANVAS rendering sovereign boot frame\n");
        assert(FB_WIDTH * FB_HEIGHT == 921600);
        assert(FB_WIDTH * 48 == 61440);
        let bg_pixels: u32 = FB_WIDTH * FB_HEIGHT;
        self.pixels_written = self.pixels_written + bg_pixels as u64;
        let header_pixels: u32 = FB_WIDTH * 48;
        self.pixels_written = self.pixels_written + header_pixels as u64;
        let logo_pixels: u32 = 200u32 * 200u32;
        self.pixels_written = self.pixels_written + logo_pixels as u64;
        self.frames_rendered = self.frames_rendered + 1;
        log.push("HANIEL: CANVAS frame rendered — 1280x720 pixels\n");
        log.push("HANIEL: CANVAS Threat-First Rendering Pipeline (TERM-049)\n");
        log.push("HANIEL: CANVAS sovereignty verified — no third-party renderer\n");
        assert(log@ =~= old(log)@ + frame_log());
    }

    /// A notification: an ARPi-Broker render update counts a frame; a
    /// display-driver sync is logged; others are ignored.
    pub fn notified(&mut self, channel: u8) -> (log: Vec<&'static str>)
        requires
            channel == CH_ARPI_BROKER ==> old(self).frames_rendered < u64::MAX,
        ensures
            channel == CH_ARPI_BROKER ==> *final(self) == (HanielEngine { frames_rendered: (old(self).frames_rendered + 1) as u64, ..*old(self) })
                && log@ == seq!["HANIEL: ARPi-Broker signal — render update\n"],
            channel == CH_DISPLAY_DRV ==> *final(self) == *old(self) && log@ == seq!["HANIEL: display driver sync\n"],
            channel != CH_ARPI_BROKER && channel != CH_DISPLAY_DRV ==> *final(self) == *old(self) && log@.len() == 0,
    {
        let mut log: Vec<&'static str> = Vec::new();
        if channel == CH_ARPI_BROKER {
            log.push("HANIEL: ARPi-Broker signal — render update\n");
            self.frames_rendered = self.frames_rendered + 1;
        } else if channel == CH_DISPLAY_DRV {
            log.push("HANIEL: display driver sync\n");
        }
        proof {
            if channel == CH_ARPI_BROKER {
                assert(log@ =~= seq!["HANIEL: ARPi-Broker signal — render update\n"]);
            } else if channel == CH_DISPLAY_DRV {
                assert(log@ =~= seq!["HANIEL: display driver sync\n"]);
            }
        }
        log
    }

    /// A protected call: clear, draw (counts a frame), flip, or a sovereign
    /// frame answer 0; any other operation 1.
    pub fn protected(&mut self, channel: u8, msginfo: u64) -> (r: (u64, Vec<&'static str>))
        requires
            op_code(msginfo) == RENDER_OP_DRAW ==> old(self).frames_rendered < u64::MAX,
            op_code(msginfo) == RENDER_OP_SOVEREIGN ==> frame_room(*old(self)),
        ensures
            (*final(self), r.0, r.1@) == haniel_step(*old(self), op_code(msginfo)),
    {
        let op = op_of(msginfo);
        let mut log: Vec<&'static str> = Vec::new();
        let status: u64 = if op == RENDER_OP_CLEAR {
            log.push("HANIEL: framebuffer clear\n");
            0
        } else if op == RENDER_OP_DRAW {
            log.push("HANIEL: PRISM → CANVAS draw\n");
            self.frames_rendered = self.frames_rendered + 1;
            0
        } else if op == RENDER_OP_FLIP {
            log.push("HANIEL: framebuffer flip to display\n");
            0
        } else if op == RENDER_OP_SOVEREIGN {
            log.push("HANIEL: sovereign UI frame\n");
            self.render_sovereign_boot_frame(&mut log);
            0
        } else {
            1
        };
        assert(log@ =~= haniel_step(*old(self), op).2);
        (status, log)
    }

    pub fn frames_rendered(&self) -> (r: u64)
        ensures
            r == self.frames_rendered,
    {
        self.frames_rendered
    }

    pub fn pixels_written(&self) -> (r: u64)
        ensures
            r == self.pixels_written,
    {
        self.pixels_written
    }
}

} // verus!
