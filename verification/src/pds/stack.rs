//! The full sovereign stack: every protection domain wired together, the
//! six-stage boot from firmware to a running desktop, and a complete user
//! session across the PDs.
use vstd::prelude::*;
use vstd::string::StringSliceAdditionalSpecFns;
use crate::common::{haniel_policy, HanielCap, AXON_PROOF, SURFACE_HEIGHT, SURFACE_WIDTH};
use crate::pds::axon_exec::{
    exec_has_room, executed, refusal_of, AxonExecPd, ExecPhase, ExecRequest, ExecResult, LoadResult, ScriptSource,
    SHELL_CALLER,
};
use crate::pds::broker::{
    bind_well_formed, route_error, ArpiBrokerLive, BindOutcome, PathA, SOVEREIGN_PROOF as BROKER_PROOF,
};
use crate::pds::canvas::{
    page_request, render_outcome, submitted, CanvasPhase, HanielCanvasPd, LayerKind, LayerState, RenderOutcome, RenderRequest,
    MAX_PENDING,
};
use crate::pds::desktop::{
    heartbeat, sovereign_standard, DesktopPhase, FramebufDesc, GpuCapPd, PhoenixDesktopPd, Pl70BootHandoff,
};
use crate::pds::edisondb::{can_serve, serve, DataTier, EdbPhase, EdbRequest, EdbResponse, EdisonDbPd};
use crate::pds::onyxia::{navigated, NavState, OnyxiaPd, OnyxiaPhase, UrlRoute};
use crate::pds::shell::{CmdRoute, ShellPd, ShellPhase};

verus! {

pub const SOVEREIGN_PROOF: u64 = AXON_PROOF;
pub const SEL4_VERSION: &'static str = "15.0.0";
pub const ASL_VERSION: &'static str = "v2.0.0";
pub const PHOENIX_VERSION: &'static str = "v2.0.0";
/// Mandatory PDs of a sovereign desktop.
pub const MANDATORY_PD_COUNT: usize = 6;
/// PDs of the Phoenix desktop profile.
pub const TOTAL_PD_COUNT: usize = 10;

/// Every protection domain of the sovereign desktop.
pub struct SovereignStack {
    pub gpu_cap: GpuCapPd,
    pub desktop: PhoenixDesktopPd,
    pub handoff: Pl70BootHandoff,
    pub shell: ShellPd,
    pub edb: EdisonDbPd,
    pub onyxia: OnyxiaPd,
    pub broker: ArpiBrokerLive,
    pub axon_exec: AxonExecPd,
    pub canvas: HanielCanvasPd,
    /// Last boot stage reached, 0 (cold) to 6 (desktop live).
    pub boot_stage: u8,
    pub proof: u64,
    pub pds_active: u8,
}

/// The stack and the PDs checked by the proof chain carry the sovereign proof.
pub open spec fn proof_chain(s: SovereignStack) -> bool {
    s.proof == SOVEREIGN_PROOF && s.broker.proof == BROKER_PROOF && s.axon_exec.proof == SOVEREIGN_PROOF
        && s.canvas.proof == SOVEREIGN_PROOF && s.edb.proof == SOVEREIGN_PROOF && s.onyxia.proof == SOVEREIGN_PROOF
}

/// How many of the PDs Phoenix-Init boots in order (EdisonDB, Shell, Onyxia,
/// AXON-Exec, HANIEL) wait for their boot signal before the first that does not.
pub open spec fn boot_prefix(s: SovereignStack) -> nat {
    if s.edb.phase != EdbPhase::AwaitingBoot {
        0
    } else if s.shell.phase != ShellPhase::AwaitingBoot {
        1
    } else if s.onyxia.phase != OnyxiaPhase::AwaitingBoot {
        2
    } else if s.axon_exec.phase != ExecPhase::AwaitingBoot {
        3
    } else if s.canvas.phase != CanvasPhase::AwaitingBoot {
        4
    } else {
        5
    }
}

/// Every PD the boot signals is waiting for it.
pub open spec fn boot_ready(s: SovereignStack) -> bool {
    boot_prefix(s) == 5 && s.desktop.phase == DesktopPhase::AwaitingBoot
}

/// The error the boot stops with.
pub open spec fn boot_error(s: SovereignStack) -> &'static str {
    let k = boot_prefix(s);
    if k == 0 {
        "EdisonDB-PD: BOOT_SIGNAL in wrong phase"
    } else if k == 1 {
        "Shell-PD: BOOT_SIGNAL in wrong phase"
    } else if k == 2 {
        "Onyxia-PD: BOOT_SIGNAL in wrong phase"
    } else if k == 3 {
        "AXON-Exec-PD: BOOT_SIGNAL in wrong phase"
    } else if k == 4 {
        "HANIEL-Canvas: BOOT_SIGNAL in wrong phase"
    } else {
        "BOOT_SIGNAL received in wrong phase"
    }
}

/// The framebuffer GPU-Cap grants once the ramfb is mapped at 0x44000000.
pub open spec fn ramfb_desc() -> FramebufDesc {
    FramebufDesc { vaddr: 0x44000000, width: SURFACE_WIDTH, height: SURFACE_HEIGHT, bpp: 4, stride: (SURFACE_WIDTH * 4) as u32 }
}

/// The stack after a boot from `s`: the PDs up to the first that was not
/// waiting are booted, the rest are untouched.
pub open spec fn booted_stack(s: SovereignStack, n: SovereignStack) -> bool {
    let k = boot_prefix(s);
    let five = k == 5;
    let all = boot_ready(s);
    &&& n.edb == (if k > 0 { EdisonDbPd { phase: EdbPhase::Ready, ..s.edb } } else { s.edb })
    &&& n.shell == (if k > 1 { ShellPd { phase: ShellPhase::Ready, ..s.shell } } else { s.shell })
    &&& n.onyxia == (if k > 2 { OnyxiaPd { phase: OnyxiaPhase::Ready, ..s.onyxia } } else { s.onyxia })
    &&& n.axon_exec == (if k > 3 { AxonExecPd { phase: ExecPhase::Ready, ..s.axon_exec } } else { s.axon_exec })
    &&& n.canvas == (if five { HanielCanvasPd { phase: CanvasPhase::Ready, fb_cap: true, ..s.canvas } } else { s.canvas })
    &&& n.gpu_cap == (if five { GpuCapPd { ramfb_vaddr: 0x44000000, cap_granted: true, ..s.gpu_cap } } else { s.gpu_cap })
    &&& n.desktop == (if all {
        PhoenixDesktopPd { phase: DesktopPhase::Running, framebuf: Some(ramfb_desc()), ..s.desktop }
    } else {
        s.desktop
    })
    &&& n.handoff == (Pl70BootHandoff {
        uefi_to_sel4: true,
        sel4_to_genesis: true,
        genesis_surrender: true,
        phoenix_init_done: five || s.handoff.phoenix_init_done,
        gpu_cap_granted: all || s.handoff.gpu_cap_granted,
        desktop_running: all || s.handoff.desktop_running,
        ..s.handoff
    })
    &&& n.boot_stage == (if all { 6u8 } else if five { 4u8 } else { 3u8 })
    &&& n.pds_active == s.pds_active + k + (if five { 1int } else { 0int })
    &&& n.broker == s.broker
    &&& n.proof == s.proof
}

/// The stack is live: all six handoff stages done, stage 6, proof intact.
pub open spec fn stack_sovereign(s: SovereignStack) -> bool {
    crate::pds::desktop::handoff_complete(s.handoff) && s.boot_stage == 6 && s.proof == SOVEREIGN_PROOF
}

/// A freshly built stack: every PD waiting for its boot signal with its
/// counters at zero and the sovereign proof in place, the handoff not begun,
/// the ramfb unmapped, the broker idle, stage 0 and no PD active.
pub open spec fn fresh_stack(s: SovereignStack) -> bool {
    &&& boot_ready(s)
    &&& proof_chain(s)
    &&& s.gpu_cap == (GpuCapPd {
        ramfb_phys: GpuCapPd::RAMFB_PHYS,
        ramfb_vaddr: 0,
        fb_size: GpuCapPd::RAMFB_SIZE,
        cap_granted: false,
        proof: SOVEREIGN_PROOF,
    })
    &&& s.desktop == (PhoenixDesktopPd { phase: DesktopPhase::AwaitingBoot, framebuf: None, ticks: 0, events: 0, proof: SOVEREIGN_PROOF })
    &&& s.handoff == (Pl70BootHandoff {
        uefi_to_sel4: false,
        sel4_to_genesis: false,
        genesis_surrender: false,
        phoenix_init_done: false,
        gpu_cap_granted: false,
        desktop_running: false,
        proof: SOVEREIGN_PROOF,
    })
    &&& s.shell == (ShellPd { phase: ShellPhase::AwaitingBoot, cmd_count: 0, ipc_pending: None, proof: SOVEREIGN_PROOF })
    &&& s.edb == (EdisonDbPd { phase: EdbPhase::AwaitingBoot, entries: 0, reads: 0, writes: 0, proof: SOVEREIGN_PROOF, arpi_auths: 0 })
    &&& s.onyxia == (OnyxiaPd {
        phase: OnyxiaPhase::AwaitingBoot,
        nav_state: NavState::NewTab,
        nav_count: 0,
        blocked: 0,
        proof: SOVEREIGN_PROOF,
        current_route: UrlRoute::NewTab,
    })
    &&& s.broker == (ArpiBrokerLive { bind_count: 0, pass_count: 0, fail_count: 0, proof: BROKER_PROOF, seq: 0 })
    &&& s.axon_exec == (AxonExecPd { phase: ExecPhase::AwaitingBoot, exec_count: 0, reject_count: 0, proof: SOVEREIGN_PROOF })
    &&& s.canvas.phase == CanvasPhase::AwaitingBoot
    &&& s.canvas.frame_count == 0 && s.canvas.render_count == 0 && s.canvas.drop_count == 0
    &&& s.canvas.proof == SOVEREIGN_PROOF && !s.canvas.fb_cap
    &&& s.canvas.layers() == seq![
        LayerState { kind: LayerKind::DesktopBackground, dirty: false, fill: 0, region: (0, 0, 0, 0) },
        LayerState { kind: LayerKind::AwpPage, dirty: false, fill: 0, region: (0, 0, 0, 0) },
        LayerState { kind: LayerKind::WindowChrome, dirty: false, fill: 0, region: (0, 0, 0, 0) },
        LayerState { kind: LayerKind::ShellOutput, dirty: false, fill: 0, region: (0, 0, 0, 0) },
        LayerState { kind: LayerKind::SystemOverlay, dirty: false, fill: 0, region: (0, 0, 0, 0) },
    ]
    &&& s.canvas.pending() == Seq::new(MAX_PENDING as nat, |i: int| None::<RenderRequest>)
    &&& s.canvas.pending_count() == 0
    &&& s.boot_stage == 0 && s.pds_active == 0
}

impl SovereignStack {
    pub fn new() -> (s: Self)
        ensures
            fresh_stack(s),
    {
        SovereignStack {
            gpu_cap: GpuCapPd::new(),
            desktop: PhoenixDesktopPd::new(),
            handoff: Pl70BootHandoff::new(),
            shell: ShellPd::new(),
            edb: EdisonDbPd::new(),
            onyxia: OnyxiaPd::new(),
            broker: ArpiBrokerLive::new(),
            axon_exec: AxonExecPd::new(),
            canvas: HanielCanvasPd::new(),
            boot_stage: 0,
            proof: SOVEREIGN_PROOF,
            pds_active: 0,
        }
    }

    /// Checks the sovereign proof across the stack, the broker, AXON-Exec,
    /// HANIEL, EdisonDB and Onyxia; callers hold it.
    pub fn assert_proof_chain(&self)
        requires
            proof_chain(*self),
    {
    }

    /// The six-stage boot: firmware to seL4, seL4 to GENESIS, GENESIS
    /// surrenders; Phoenix-Init boots EdisonDB, Shell, Onyxia, AXON-Exec and
    /// HANIEL; GPU-Cap maps the ramfb and grants it to HANIEL and to the
    /// desktop; the desktop runs. Stops at the first PD that was not waiting
    /// for its boot signal, with that PD's error.
    pub fn boot(&mut self) -> (r: Result<(), &'static str>)
        requires
            proof_chain(*old(self)),
            old(self).shell.proof == SOVEREIGN_PROOF,
            old(self).desktop.proof == SOVEREIGN_PROOF,
            old(self).pds_active <= 249,
        ensures
            booted_stack(*old(self), *final(self)),
            proof_chain(*final(self)),
            final(self).shell.proof == old(self).shell.proof && final(self).desktop.proof == old(self).desktop.proof,
            r is Ok <==> boot_ready(*old(self)),
            r is Err ==> r == Err::<(), &'static str>(boot_error(*old(self))),
    {
        self.assert_proof_chain();
        self.handoff.uefi_to_sel4 = true;
        self.boot_stage = 1;
        self.handoff.sel4_to_genesis = true;
        self.boot_stage = 2;
        self.handoff.genesis_surrender = true;
        self.boot_stage = 3;
        if let Err(e) = self.edb.on_boot_signal() {
            return Err(e);
        }
        self.pds_active = self.pds_active + 1;
        if let Err(e) = self.shell.on_boot_signal() {
            return Err(e);
        }
        self.pds_active = self.pds_active + 1;
        if let Err(e) = self.onyxia.on_boot_signal() {
            return Err(e);
        }
        self.pds_active = self.pds_active + 1;
        if let Err(e) = self.axon_exec.on_boot_signal() {
            return Err(e);
        }
        self.pds_active = self.pds_active + 1;
        if let Err(e) = self.canvas.on_boot_signal() {
            return Err(e);
        }
        self.pds_active = self.pds_active + 1;
        self.handoff.phoenix_init_done = true;
        self.boot_stage = 4;
        if let Err(e) = self.gpu_cap.map_ramfb(0x44000000) {
            return Err(e);
        }
        let fb_desc = match self.gpu_cap.grant_fb_cap() {
            Ok(d) => d,
            Err(e) => {
                return Err(e);
            },
        };
        proof {
            assert(haniel_policy(HanielCap::DisplaySurface));
        }
        if let Err(e) = self.canvas.on_gpu_cap_granted(0x44000000) {
            return Err(e);
        }
        self.pds_active = self.pds_active + 1;
        if let Err(e) = self.desktop.on_boot_signal() {
            return Err(e);
        }
        if let Err(e) = self.desktop.on_fb_cap_grant(fb_desc) {
            return Err(e);
        }
        self.handoff.gpu_cap_granted = true;
        self.boot_stage = 5;
        self.handoff.desktop_running = true;
        self.boot_stage = 6;
        self.assert_proof_chain();
        Ok(())
    }

    /// The stack is fully operational.
    pub fn is_sovereign(&self) -> (r: bool)
        ensures
            r == stack_sovereign(*self),
    {
        self.handoff.is_complete() && self.boot_stage == 6 && self.proof == SOVEREIGN_PROOF
    }

    /// Description of the boot stage reached.
    pub fn stage_label(&self) -> (r: &'static str)
        ensures
            r == (if self.boot_stage == 0 {
                "Cold boot"
            } else if self.boot_stage == 1 {
                "UEFI → seL4 handoff"
            } else if self.boot_stage == 2 {
                "seL4 → GENESIS PD"
            } else if self.boot_stage == 3 {
                "GENESIS: authority surrendered"
            } else if self.boot_stage == 4 {
                "Phoenix-Init: all PDs online"
            } else if self.boot_stage == 5 {
                "GPU-Cap: FramebufferWrite granted"
            } else if self.boot_stage == 6 {
                "SOVEREIGN DESKTOP LIVE UNDER seL4"
            } else {
                "Unknown stage"
            }),
    {
        match self.boot_stage {
            0 => "Cold boot",
            1 => "UEFI → seL4 handoff",
            2 => "seL4 → GENESIS PD",
            3 => "GENESIS: authority surrendered",
            4 => "Phoenix-Init: all PDs online",
            5 => "GPU-Cap: FramebufferWrite granted",
            6 => "SOVEREIGN DESKTOP LIVE UNDER seL4",
            _ => "Unknown stage",
        }
    }
}

/// Booting a fresh stack makes it sovereign.
pub proof fn lemma_boot_makes_sovereign(s: SovereignStack, n: SovereignStack)
    requires
        boot_ready(s),
        booted_stack(s, n),
        s.proof == SOVEREIGN_PROOF,
        s.handoff.proof == SOVEREIGN_PROOF,
    ensures
        stack_sovereign(n),
        n.desktop.phase == DesktopPhase::Running,
        n.canvas.fb_cap && n.gpu_cap.cap_granted,
{
}


/// The stack after a boot from a stack where every PD was waiting.
pub open spec fn after_boot(s: SovereignStack) -> SovereignStack {
    SovereignStack {
        edb: EdisonDbPd { phase: EdbPhase::Ready, ..s.edb },
        shell: ShellPd { phase: ShellPhase::Ready, ..s.shell },
        onyxia: OnyxiaPd { phase: OnyxiaPhase::Ready, ..s.onyxia },
        axon_exec: AxonExecPd { phase: ExecPhase::Ready, ..s.axon_exec },
        canvas: HanielCanvasPd { phase: CanvasPhase::Ready, fb_cap: true, ..s.canvas },
        gpu_cap: GpuCapPd { ramfb_vaddr: 0x44000000, cap_granted: true, ..s.gpu_cap },
        desktop: PhoenixDesktopPd { phase: DesktopPhase::Running, framebuf: Some(ramfb_desc()), ..s.desktop },
        handoff: Pl70BootHandoff {
            uefi_to_sel4: true,
            sel4_to_genesis: true,
            genesis_surrender: true,
            phoenix_init_done: true,
            gpu_cap_granted: true,
            desktop_running: true,
            ..s.handoff
        },
        boot_stage: 6,
        pds_active: (s.pds_active + 6) as u8,
        ..s
    }
}

/// The script the session runs.
pub open spec fn session_script() -> Seq<u8> {
    "print \"sovereign hello from seL4\"".spec_bytes()
}

/// Outcome of a complete sovereign session.
pub struct SessionResult {
    /// Onyxia navigated to an `awp://` page.
    pub nav_ok: bool,
    /// HANIEL committed the page frame.
    pub render_ok: bool,
    /// The script ran in its isolated PD.
    pub exec_ok: bool,
    /// EdisonDB took a write.
    pub edb_ok: bool,
    /// The desktop rendered a frame.
    pub desktop_ok: bool,
    /// ARPi routed Shell to EdisonDB.
    pub arpi_ok: bool,
    /// The sovereign proof held across the PDs.
    pub proof_ok: bool,
}

/// Every operation of the session succeeded.
pub open spec fn session_all_ok(r: SessionResult) -> bool {
    r.nav_ok && r.render_ok && r.exec_ok && r.edb_ok && r.desktop_ok && r.arpi_ok && r.proof_ok
}

impl SessionResult {
    pub fn new() -> (r: Self)
        ensures
            !r.nav_ok && !r.render_ok && !r.exec_ok && !r.edb_ok && !r.desktop_ok && !r.arpi_ok && !r.proof_ok,
    {
        SessionResult {
            nav_ok: false,
            render_ok: false,
            exec_ok: false,
            edb_ok: false,
            desktop_ok: false,
            arpi_ok: false,
            proof_ok: false,
        }
    }

    /// Every operation of the session succeeded.
    pub fn all_sovereign(&self) -> (r: bool)
        ensures
            r == session_all_ok(*self),
    {
        self.nav_ok && self.render_ok && self.exec_ok && self.edb_ok && self.desktop_ok && self.arpi_ok && self.proof_ok
    }
}

impl Default for SessionResult {
    fn default() -> (r: Self)
        ensures
            !r.nav_ok && !r.render_ok && !r.exec_ok && !r.edb_ok && !r.desktop_ok && !r.arpi_ok && !r.proof_ok,
    {
        SessionResult::new()
    }
}

/// A complete user session on a sovereign stack.
pub struct SovereignSession {
    pub stack: SovereignStack,
    /// Operations completed.
    pub ops: u64,
}

/// The literals of the session are the ones the shell and the browser expect.
proof fn lemma_session_literals()
    ensures
        session_script().len() == 33,
        crate::pds::shell::route_of("run hello.ax".spec_bytes()) == CmdRoute::AxonBridge,
        "run hello.ax".spec_bytes().len() == 12,
        crate::pds::onyxia::url_route("awp://aieonyx".spec_bytes()) == UrlRoute::Awp,
        "awp://aieonyx".spec_bytes().len() == 13,
{
    reveal_strlit("print \"sovereign hello from seL4\"");
    assert(vstd::string::is_ascii("print \"sovereign hello from seL4\""));
    crate::bytes::lemma_ascii_bytes("print \"sovereign hello from seL4\"");
    crate::pds::axon_exec::lemma_run_commands_route();
    crate::pds::broker::lemma_home_url_routes();
}

/// The session can run from `s` without a counter overflowing or an
/// assertion of the session failing.
pub open spec fn session_runnable(s: SovereignStack, ops: u64, load: LoadResult, bind: BindOutcome) -> bool {
    &&& proof_chain(s)
    &&& s.shell.proof == SOVEREIGN_PROOF && s.desktop.proof == SOVEREIGN_PROOF && s.handoff.proof == SOVEREIGN_PROOF
    &&& s.pds_active <= 249
    &&& boot_ready(s) ==> {
        &&& s.onyxia.nav_count < u64::MAX
        &&& s.canvas.frame_count < u64::MAX && s.canvas.render_count < u64::MAX
        &&& s.shell.cmd_count < u64::MAX
        &&& load == LoadResult::Ready
        &&& (s.axon_exec.exec_count + 1) * 1000 <= u64::MAX
        &&& can_serve(s.edb)
        &&& s.desktop.ticks < u64::MAX
        &&& ops <= u64::MAX - 6
        &&& bind_well_formed(bind)
    }
}

impl SovereignSession {
    pub fn new() -> (s: Self)
        ensures
            fresh_stack(s.stack),
            s.ops == 0,
            forall|bind: BindOutcome| bind_well_formed(bind) ==> #[trigger] session_runnable(s.stack, s.ops, LoadResult::Ready, bind),
    {
        SovereignSession { stack: SovereignStack::new(), ops: 0 }
    }

    /// Boots the stack, then: Onyxia navigates to `awp://aieonyx`; HANIEL
    /// commits the page; the shell runs a script that AXON-Exec executes
    /// (bridge verdict `load`); EdisonDB takes a Personal write; the desktop
    /// renders a frame; a fresh path A routes `db put x 42` through ARPi
    /// (outcome `bind`). Each step counts an operation. A failed boot returns
    /// its error; a failed ARPi bind returns `"ARPi path A failed"`.
    pub fn run(&mut self, load: LoadResult, bind: BindOutcome) -> (r: Result<SessionResult, &'static str>)
        requires
            session_runnable(old(self).stack, old(self).ops, load, bind),
        ensures
            !boot_ready(old(self).stack) ==> r == Err::<SessionResult, &'static str>(boot_error(old(self).stack))
                && booted_stack(old(self).stack, final(self).stack) && final(self).ops == old(self).ops,
            boot_ready(old(self).stack) ==> {
                let b = after_boot(old(self).stack);
                let n = final(self).stack;
                &&& n.onyxia == (OnyxiaPd { nav_state: NavState::Loaded, phase: OnyxiaPhase::Ready, ..navigated(b.onyxia, UrlRoute::Awp) })
                &&& submitted(b.canvas, n.canvas, page_request(1), RenderOutcome::Committed { frame_number: (b.canvas.frame_count + 1) as u64 })
                &&& n.shell == (ShellPd { cmd_count: (b.shell.cmd_count + 1) as u64, ipc_pending: None, ..b.shell })
                &&& n.axon_exec == (AxonExecPd { exec_count: (b.axon_exec.exec_count + 1) as u64, ..b.axon_exec })
                &&& n.edb == serve(b.edb, EdbRequest::Write { tier: DataTier::Personal }).0
                &&& n.desktop == (PhoenixDesktopPd { ticks: (b.desktop.ticks + 1) as u64, ..b.desktop })
                &&& n.gpu_cap == b.gpu_cap && n.handoff == b.handoff && n.broker == b.broker
                &&& n.boot_stage == 6 && n.pds_active == b.pds_active && n.proof == b.proof
                &&& route_error(bind) is Some ==> r == Err::<SessionResult, &'static str>("ARPi path A failed")
                    && final(self).ops == old(self).ops + 5
                &&& route_error(bind) is None ==> (r matches Ok(res) && session_all_ok(res))
                    && final(self).ops == old(self).ops + 6
            },
    {
        let booted = self.stack.boot();
        if let Err(e) = booted {
            return Err(e);
        }
        proof {
            lemma_session_literals();
            lemma_boot_makes_sovereign(old(self).stack, self.stack);
            assert(self.stack == after_boot(old(self).stack));
        }
        let sovereign = self.stack.is_sovereign();
        assert(sovereign);
        let mut result = SessionResult::new();
        let route = match self.stack.onyxia.navigate("awp://aieonyx".as_bytes()) {
            Ok(r) => r,
            Err(_) => {
                return Err("onyxia navigate failed");
            },
        };
        assert(route == UrlRoute::Awp);
        result.nav_ok = true;
        self.ops = self.ops + 1;
        let render_req = RenderRequest {
            caller_pd: 0x42,
            layer: LayerKind::AwpPage,
            fill_color: 0xFF0A1630,
            region: (200, 50, 880, 600),
            arpi_seq: 1,
        };
        let render_out = self.stack.canvas.submit_render(render_req);
        assert(render_out is Committed);
        match self.stack.onyxia.on_render_complete() {
            Ok(()) => {},
            Err(_) => {
                return Err("render_complete failed");
            },
        }
        result.render_ok = true;
        self.ops = self.ops + 1;
        let cmd_route = match self.stack.shell.submit_cmd("run hello.ax".as_bytes()) {
            Ok(r) => r,
            Err(_) => {
                return Err("shell cmd failed");
            },
        };
        assert(cmd_route == CmdRoute::AxonBridge);
        let script = "print \"sovereign hello from seL4\"".as_bytes();
        let mut exec_req = ExecRequest::empty();
        let mut i: usize = 0;
        while i < script.len()
            invariant
                script@ == session_script(),
                script@.len() == 33,
                0 <= i <= script@.len(),
                exec_req.script@.len() == 4096,
                forall|k: int| 0 <= k < i ==> exec_req.script@[k] == script@[k],
            decreases script@.len() - i,
        {
            exec_req.script[i] = script[i];
            i = i + 1;
        }
        exec_req.script_len = script.len();
        exec_req.source = ScriptSource::PlainAx;
        exec_req.caller_pd = 0x40;
        exec_req.arpi_seq = 2;
        assert(exec_req.script@.subrange(0, 33) =~= session_script());
        let exec_resp = self.stack.axon_exec.execute(&exec_req, load);
        assert(exec_resp.result == ExecResult::Success);
        match self.stack.shell.on_ipc_response() {
            Ok(()) => {},
            Err(_) => {
                return Err("shell ipc response failed");
            },
        }
        result.exec_ok = true;
        self.ops = self.ops + 1;
        let edb_resp = self.stack.edb.handle_request(EdbRequest::Write { tier: DataTier::Personal }, true);
        assert(edb_resp == EdbResponse::Written);
        result.edb_ok = true;
        self.ops = self.ops + 1;
        let beat = self.stack.desktop.render_tick();
        proof {
            let t = (after_boot(old(self).stack).desktop.ticks + 1) as u64;
            assert((t << 16u64) | 0x4153u64 > 0) by (bit_vector);
            assert(SOVEREIGN_PROOF & 0xFFFF == 0x4153) by (bit_vector)
                requires
                    SOVEREIGN_PROOF == 0x4153u64,
            ;
        }
        assert(beat > 0);
        result.desktop_ok = true;
        self.ops = self.ops + 1;
        let mut p = PathA::new();
        p.boot();
        let path_a = match p.execute_db_put(bind) {
            Ok(v) => v,
            Err(_) => {
                return Err("ARPi path A failed");
            },
        };
        assert(path_a == EdbResponse::Written);
        result.arpi_ok = true;
        self.ops = self.ops + 1;
        self.stack.assert_proof_chain();
        result.proof_ok = true;
        Ok(result)
    }
}

impl Default for SovereignStack {
    fn default() -> (s: Self)
        ensures
            fresh_stack(s),
    {
        SovereignStack::new()
    }
}

impl Default for SovereignSession {
    fn default() -> (s: Self)
        ensures
            fresh_stack(s.stack),
            s.ops == 0,
            forall|bind: BindOutcome| bind_well_formed(bind) ==> #[trigger] session_runnable(s.stack, s.ops, LoadResult::Ready, bind),
    {
        SovereignSession::new()
    }
}

} // verus!
