use asl_stack::common::{cap_granted, HanielCap};
use asl_stack::pds::canvas::{
    CanvasPhase, HanielCanvasPd, LayerKind, Pl74Pipeline, RenderOutcome, RenderRequest,
    SOVEREIGN_PROOF as CANVAS_PROOF,
};
use asl_stack::pds::desktop::{
    DesktopPhase, FramebufDesc, GpuCapPd, InputEvent, PhoenixDesktopPd, Pl70BootHandoff, SOVEREIGN_PROOF as DESKTOP_PROOF,
};
use asl_stack::pds::onyxia::{route_url, NavState, OnyxiaPd, OnyxiaPhase, UrlRoute, SOVEREIGN_PROOF};

#[test]
fn test_new_tab_on_init() {
    let pd = OnyxiaPd::new();
    assert_eq!(pd.nav_state, NavState::NewTab);
    assert_eq!(pd.proof, SOVEREIGN_PROOF);
}

#[test]
fn onyxia_test_boot_signal() {
    let mut pd = OnyxiaPd::new();
    assert!(pd.on_boot_signal().is_ok());
    assert_eq!(pd.phase, OnyxiaPhase::Ready);
}

#[test]
fn test_awp_navigation_succeeds() {
    let mut pd = OnyxiaPd::new();
    pd.on_boot_signal().unwrap();
    let route = pd.navigate(b"awp://aieonyx").unwrap();
    assert_eq!(route, UrlRoute::Awp);
    assert_eq!(pd.phase, OnyxiaPhase::Navigating);
    assert_eq!(pd.nav_count, 1);
}

#[test]
fn test_http_blocked() {
    let mut pd = OnyxiaPd::new();
    pd.on_boot_signal().unwrap();
    assert!(pd.navigate(b"http://example.com").is_err());
    assert_eq!(pd.blocked, 1);
    assert_eq!(pd.nav_state, NavState::Blocked);
}

#[test]
fn test_https_routed_to_legacy() {
    let mut pd = OnyxiaPd::new();
    pd.on_boot_signal().unwrap();
    let route = pd.navigate(b"https://example.com").unwrap();
    assert_eq!(route, UrlRoute::HttpsLegacy);
}

#[test]
fn test_render_complete_returns_ready() {
    let mut pd = OnyxiaPd::new();
    pd.on_boot_signal().unwrap();
    pd.navigate(b"awp://aieonyx").unwrap();
    assert!(pd.on_render_complete().is_ok());
    assert_eq!(pd.phase, OnyxiaPhase::Ready);
    assert_eq!(pd.nav_state, NavState::Loaded);
}

#[test]
fn test_is_sovereign_awp() {
    let mut pd = OnyxiaPd::new();
    pd.on_boot_signal().unwrap();
    pd.navigate(b"awp://about").unwrap();
    assert!(pd.is_sovereign());
}

#[test]
fn test_is_not_sovereign_https() {
    let mut pd = OnyxiaPd::new();
    pd.on_boot_signal().unwrap();
    pd.navigate(b"https://example.com").unwrap();
    assert!(!pd.is_sovereign());
}

#[test]
fn test_new_tab_is_sovereign() {
    let pd = OnyxiaPd::new();
    assert!(pd.is_sovereign());
}

#[test]
fn test_navigate_before_boot_fails() {
    let mut pd = OnyxiaPd::new();
    assert!(pd.navigate(b"awp://aieonyx").is_err());
}

#[test]
fn onyxia_test_proof_invariant() {
    let mut pd = OnyxiaPd::new();
    pd.on_boot_signal().unwrap();
    pd.navigate(b"awp://aieonyx").unwrap();
    assert_eq!(pd.proof, SOVEREIGN_PROOF);
}

#[test]
fn test_route_url_empty_is_newtab() {
    assert_eq!(route_url(b""), UrlRoute::NewTab);
}

#[test]
fn test_route_url_http_blocked() {
    assert_eq!(route_url(b"http://evil.com"), UrlRoute::Blocked);
}

#[test]
fn test_multiple_navigations() {
    let mut pd = OnyxiaPd::new();
    pd.on_boot_signal().unwrap();
    pd.navigate(b"awp://aieonyx").unwrap();
    pd.on_render_complete().unwrap();
    pd.navigate(b"awp://about").unwrap();
    pd.on_render_complete().unwrap();
    assert_eq!(pd.nav_count, 2);
    assert_eq!(pd.blocked, 0);
}

#[test]
fn onyxia_unknown_scheme_is_awp_and_errors_are_exact() {
    assert_eq!(route_url(b"gopher://x"), UrlRoute::Awp);
    assert_eq!(route_url(b"http:/x"), UrlRoute::Awp);
    let mut pd = OnyxiaPd::new();
    assert_eq!(pd.navigate(b"awp://x"), Err("Onyxia-PD: not in Ready phase"));
    pd.on_boot_signal().unwrap();
    let long = [b'a'; 513];
    assert_eq!(pd.navigate(&long), Err("Onyxia-PD: URL too long"));
    assert_eq!(pd.navigate(b"http://x"), Err("Onyxia-PD: cleartext http:// blocked by sovereign policy"));
    assert_eq!(pd.phase, OnyxiaPhase::Ready);
    assert_eq!(pd.on_render_complete(), Err("Onyxia-PD: render_complete in wrong phase"));
}

fn standard() -> FramebufDesc {
    FramebufDesc { vaddr: 0x44000000, width: 1280, height: 720, bpp: 4, stride: 1280 * 4 }
}

#[test]
fn desktop_test_new_pd_awaiting_boot() {
    let pd = PhoenixDesktopPd::new();
    assert_eq!(pd.phase, DesktopPhase::AwaitingBoot);
    assert_eq!(pd.proof, DESKTOP_PROOF);
    assert!(pd.framebuf.is_none());
}

#[test]
fn test_boot_signal_advances_phase() {
    let mut pd = PhoenixDesktopPd::new();
    assert!(pd.on_boot_signal().is_ok());
    assert_eq!(pd.phase, DesktopPhase::AwaitingFramebuf);
}

#[test]
fn test_fb_cap_grant_advances_to_running() {
    let mut pd = PhoenixDesktopPd::new();
    pd.on_boot_signal().unwrap();
    assert!(pd.on_fb_cap_grant(standard()).is_ok());
    assert_eq!(pd.phase, DesktopPhase::Running);
    assert!(pd.framebuf.is_some());
}

#[test]
fn test_fb_cap_rejected_before_boot_signal() {
    let mut pd = PhoenixDesktopPd::new();
    assert!(pd.on_fb_cap_grant(standard()).is_err());
    assert_eq!(pd.phase, DesktopPhase::AwaitingBoot);
}

#[test]
fn test_non_standard_framebuf_rejected() {
    let mut pd = PhoenixDesktopPd::new();
    pd.on_boot_signal().unwrap();
    let desc = FramebufDesc { vaddr: 0x44000000, width: 1920, height: 1080, bpp: 4, stride: 1920 * 4 };
    assert!(pd.on_fb_cap_grant(desc).is_err());
}

#[test]
fn test_render_tick_increments() {
    let mut pd = PhoenixDesktopPd::new();
    pd.on_boot_signal().unwrap();
    pd.on_fb_cap_grant(standard()).unwrap();
    let h1 = pd.render_tick();
    let h2 = pd.render_tick();
    assert!(h2 > h1, "heartbeat increments each tick");
    assert_eq!(pd.ticks, 2);
}

#[test]
fn test_suspend_and_resume() {
    let mut pd = PhoenixDesktopPd::new();
    pd.on_boot_signal().unwrap();
    pd.on_fb_cap_grant(standard()).unwrap();
    assert_eq!(pd.phase, DesktopPhase::Running);
    pd.suspend();
    assert_eq!(pd.phase, DesktopPhase::Suspended);
    assert!(pd.framebuf.is_none());
    assert!(pd.resume(standard()).is_ok());
    assert_eq!(pd.phase, DesktopPhase::Running);
}

#[test]
fn test_proof_invariant_throughout_lifecycle() {
    let mut pd = PhoenixDesktopPd::new();
    assert_eq!(pd.proof, DESKTOP_PROOF);
    pd.on_boot_signal().unwrap();
    assert_eq!(pd.proof, DESKTOP_PROOF);
    pd.on_fb_cap_grant(standard()).unwrap();
    assert_eq!(pd.proof, DESKTOP_PROOF);
    pd.render_tick();
    assert_eq!(pd.proof, DESKTOP_PROOF);
}

#[test]
fn test_gpu_cap_requires_mapping_before_grant() {
    let mut gpu = GpuCapPd::new();
    assert!(gpu.grant_fb_cap().is_err());
}

#[test]
fn test_gpu_cap_grant_after_mapping() {
    let mut gpu = GpuCapPd::new();
    gpu.map_ramfb(0x44000000).unwrap();
    let desc = gpu.grant_fb_cap().unwrap();
    assert!(desc.is_sovereign_standard());
    assert_eq!(desc.vaddr, 0x44000000);
    assert!(gpu.cap_granted);
}

#[test]
fn test_boot_handoff_stages() {
    let mut h = Pl70BootHandoff::new();
    assert!(!h.is_complete());
    assert_eq!(h.stage_label(), "UEFI → seL4 handoff");
    h.uefi_to_sel4 = true;
    assert_eq!(h.stage_label(), "seL4 → GENESIS PD");
    h.sel4_to_genesis = true;
    h.genesis_surrender = true;
    h.phoenix_init_done = true;
    h.gpu_cap_granted = true;
    h.desktop_running = true;
    assert!(h.is_complete());
    assert_eq!(h.stage_label(), "SOVEREIGN DESKTOP LIVE UNDER seL4");
}

#[test]
fn lib_test_sovereign_proof_is_0x4153() {
    assert_eq!(DESKTOP_PROOF, 0x4153);
}

#[test]
fn test_framebuf_total_bytes() {
    assert_eq!(standard().total_bytes(), 1280 * 720 * 4);
}

#[test]
fn test_input_event_triggers_redraw() {
    let mut pd = PhoenixDesktopPd::new();
    pd.on_boot_signal().unwrap();
    pd.on_fb_cap_grant(standard()).unwrap();
    let key_ev = InputEvent { kind: 0x01, code: 28, x: 0, y: 0 };
    assert!(pd.on_input_event(key_ev));
    let mouse_ev = InputEvent { kind: 0x10, code: 0, x: 640, y: 360 };
    assert!(pd.on_input_event(mouse_ev));
    assert_eq!(pd.events, 2);
}

#[test]
fn desktop_heartbeat_and_key_release() {
    let mut pd = PhoenixDesktopPd::new();
    assert_eq!(pd.render_tick(), 0);
    assert!(!pd.on_input_event(InputEvent { kind: 0x01, code: 1, x: 0, y: 0 }));
    pd.on_boot_signal().unwrap();
    pd.on_fb_cap_grant(standard()).unwrap();
    assert_eq!(pd.render_tick(), (1u64 << 16) | 0x4153);
    assert!(!pd.on_input_event(InputEvent { kind: 0x02, code: 1, x: 0, y: 0 }));
    assert_eq!(pd.events, 1);
    assert_eq!(pd.resume(standard()), Err("resume called outside Suspended phase"));
    pd.suspend();
    let bad = FramebufDesc { vaddr: 1, width: 1280, height: 720, bpp: 3, stride: 1280 * 4 };
    assert_eq!(pd.resume(bad), Err("framebuffer does not meet sovereign standard"));
    assert_eq!(DesktopPhase::Faulted.as_u8(), 0xFF);
    assert_eq!(GpuCapPd::RAMFB_SIZE, 1280 * 720 * 4);
}

#[test]
fn gpu_cap_refuses_zero_mapping_and_revokes() {
    let mut gpu = GpuCapPd::new();
    assert_eq!(gpu.map_ramfb(0), Err("GPU-Cap: invalid vaddr for ramfb mapping"));
    gpu.map_ramfb(0x1000).unwrap();
    gpu.grant_fb_cap().unwrap();
    gpu.revoke_fb_cap();
    assert!(!gpu.cap_granted);
    assert_eq!(gpu.ramfb_vaddr, 0x1000);
}

fn req(caller: u8, layer: LayerKind, region: (u32, u32, u32, u32), seq: u64) -> RenderRequest {
    RenderRequest { caller_pd: caller, layer, fill_color: 0xFF000000, region, arpi_seq: seq }
}

fn ready_canvas() -> HanielCanvasPd {
    let mut pd = HanielCanvasPd::new();
    pd.on_boot_signal().unwrap();
    pd.on_gpu_cap_granted(0x44000000).unwrap();
    pd
}

#[test]
fn canvas_test_new_pd_awaiting_boot() {
    let pd = HanielCanvasPd::new();
    assert_eq!(pd.phase, CanvasPhase::AwaitingBoot);
    assert_eq!(pd.proof, CANVAS_PROOF);
    assert!(!pd.fb_cap);
}

#[test]
fn test_boot_signal_advances_to_awaiting_gpu() {
    let mut pd = HanielCanvasPd::new();
    assert!(pd.on_boot_signal().is_ok());
    assert_eq!(pd.phase, CanvasPhase::AwaitingGpuCap);
}

#[test]
fn test_gpu_cap_grant_advances_to_ready() {
    let mut pd = HanielCanvasPd::new();
    pd.on_boot_signal().unwrap();
    assert!(pd.on_gpu_cap_granted(0x44000000).is_ok());
    assert_eq!(pd.phase, CanvasPhase::Ready);
    assert!(pd.fb_cap);
}

#[test]
fn test_gpu_cap_invalid_vaddr_rejected() {
    let mut pd = HanielCanvasPd::new();
    pd.on_boot_signal().unwrap();
    assert!(pd.on_gpu_cap_granted(0).is_err());
    assert_eq!(pd.phase, CanvasPhase::AwaitingGpuCap);
}

#[test]
fn test_render_before_gpu_cap_denied() {
    let mut pd = HanielCanvasPd::new();
    pd.on_boot_signal().unwrap();
    let r = RenderRequest { caller_pd: 0x42, layer: LayerKind::AwpPage, fill_color: 0xFF0A1630, region: (0, 0, 100, 100), arpi_seq: 1 };
    assert_eq!(pd.submit_render(r), RenderOutcome::NotReady);
}

#[test]
fn test_desktop_render_succeeds() {
    let mut pd = ready_canvas();
    let r = RenderRequest {
        caller_pd: 0x30,
        layer: LayerKind::DesktopBackground,
        fill_color: 0xFF070E1A,
        region: (0, 0, 1280, 720),
        arpi_seq: 1,
    };
    let outcome = pd.submit_render(r);
    assert!(matches!(outcome, RenderOutcome::Committed { frame_number: 1 }));
    assert_eq!(pd.frame_count, 1);
}

#[test]
fn test_onyxia_render_succeeds() {
    let mut pd = ready_canvas();
    let r = RenderRequest { caller_pd: 0x42, layer: LayerKind::AwpPage, fill_color: 0xFF0A1630, region: (200, 50, 880, 600), arpi_seq: 1 };
    let outcome = pd.submit_render(r);
    assert!(matches!(outcome, RenderOutcome::Committed { .. }));
    assert!(pd.layer_dirty(LayerKind::AwpPage));
}

#[test]
fn test_wrong_caller_denied() {
    let mut pd = ready_canvas();
    assert_eq!(pd.submit_render(req(0x50, LayerKind::AwpPage, (0, 0, 100, 100), 1)), RenderOutcome::CapDenied);
}

#[test]
fn test_invalid_region_rejected() {
    let mut pd = ready_canvas();
    assert_eq!(pd.submit_render(req(0x30, LayerKind::DesktopBackground, (0, 0, 9999, 9999), 1)), RenderOutcome::InvalidRegion);
}

#[test]
fn test_zero_size_region_rejected() {
    let mut pd = ready_canvas();
    assert_eq!(pd.submit_render(req(0x30, LayerKind::DesktopBackground, (0, 0, 0, 0), 1)), RenderOutcome::InvalidRegion);
}

#[test]
fn test_gpu_cap_revoke_blocks_render() {
    let mut pd = ready_canvas();
    pd.revoke_gpu_cap();
    assert!(!pd.fb_cap);
    assert_eq!(pd.phase, CanvasPhase::AwaitingGpuCap);
}

#[test]
fn test_frame_count_increments() {
    let mut pd = ready_canvas();
    for i in 1..=3u64 {
        pd.submit_render(req(0x30, LayerKind::DesktopBackground, (0, 0, 100, 100), i));
    }
    assert_eq!(pd.frame_count, 3);
}

#[test]
fn canvas_test_proof_invariant() {
    let mut pd = ready_canvas();
    assert!(pd.proof_valid());
    pd.submit_render(req(0x30, LayerKind::DesktopBackground, (0, 0, 200, 200), 1));
    assert!(pd.proof_valid());
}

#[test]
fn test_layer_z_order() {
    assert_eq!(LayerKind::DesktopBackground.z_order(), 0);
    assert_eq!(LayerKind::AwpPage.z_order(), 1);
    assert_eq!(LayerKind::WindowChrome.z_order(), 2);
    assert_eq!(LayerKind::ShellOutput.z_order(), 3);
    assert_eq!(LayerKind::SystemOverlay.z_order(), 4);
}

#[test]
fn canvas_test_sovereign_proof_constant() {
    assert_eq!(CANVAS_PROOF, 0x4153);
}

#[test]
fn test_pipeline_awp_navigation() {
    let mut pipeline = Pl74Pipeline::new();
    pipeline.boot();
    let outcome = pipeline.navigate_and_render(b"awp://aieonyx");
    assert!(matches!(outcome, RenderOutcome::Committed { .. }));
    assert_eq!(pipeline.frames, 1);
    assert_eq!(pipeline.canvas.frame_count, 1);
    assert!(pipeline.onyxia.is_sovereign());
}

#[test]
fn test_pipeline_desktop_background() {
    let mut pipeline = Pl74Pipeline::new();
    pipeline.boot();
    let outcome = pipeline.render_desktop_bg(0xFF070E1A);
    assert!(matches!(outcome, RenderOutcome::Committed { .. }));
    assert!(pipeline.canvas.layer_dirty(LayerKind::DesktopBackground));
}

#[test]
fn test_pipeline_multiple_frames() {
    let mut pipeline = Pl74Pipeline::new();
    pipeline.boot();
    pipeline.render_desktop_bg(0xFF070E1A);
    pipeline.navigate_and_render(b"awp://aieonyx");
    pipeline.navigate_and_render(b"awp://about");
    assert_eq!(pipeline.canvas.frame_count, 3);
    assert_eq!(pipeline.frames, 3);
}

#[test]
fn test_pipeline_gpu_cap_required() {
    let mut canvas = HanielCanvasPd::new();
    canvas.on_boot_signal().unwrap();
    assert_eq!(canvas.submit_render(req(0x30, LayerKind::DesktopBackground, (0, 0, 100, 100), 1)), RenderOutcome::NotReady);
}

#[test]
fn test_haniel_cap_policy() {
    assert!(cap_granted(HanielCap::DisplaySurface));
    assert!(cap_granted(HanielCap::FontRead));
    assert!(!cap_granted(HanielCap::Network));
    assert!(!cap_granted(HanielCap::StorageWrite));
}

#[test]
fn canvas_queue_drains_after_commit() {
    let mut pd = ready_canvas();
    pd.submit_render(req(0x42, LayerKind::ShellOutput, (10, 10, 10, 10), 7));
    assert_eq!(pd.pending_count, 0);
    assert!(pd.pending.iter().all(|s| s.is_none()));
    assert!(pd.layer_dirty(LayerKind::ShellOutput));
    assert!(!pd.layer_dirty(LayerKind::SystemOverlay));
    assert_eq!(pd.layers[3].fill, 0xFF000000);
    assert_eq!(pd.layers[3].region, (10, 10, 10, 10));
}

#[test]
fn canvas_without_cap_keeps_request_queued() {
    let mut pd = ready_canvas();
    pd.fb_cap = false;
    assert_eq!(pd.submit_render(req(0x30, LayerKind::WindowChrome, (0, 0, 1, 1), 9)), RenderOutcome::CapDenied);
    assert_eq!(pd.pending_count, 1);
    assert_eq!(pd.pending[0].unwrap().arpi_seq, 9);
    assert_eq!(pd.frame_count, 0);
    assert!(pd.layer_dirty(LayerKind::WindowChrome));
    assert_eq!(pd.phase, CanvasPhase::Ready);
}

#[test]
fn canvas_region_edges() {
    let mut pd = ready_canvas();
    assert!(matches!(pd.submit_render(req(0x30, LayerKind::AwpPage, (1279, 719, 1, 1), 1)), RenderOutcome::Committed { frame_number: 1 }));
    assert_eq!(pd.submit_render(req(0x30, LayerKind::AwpPage, (1280, 0, 1, 1), 2)), RenderOutcome::InvalidRegion);
    assert_eq!(pd.on_gpu_cap_granted(5), Err("HANIEL-Canvas: GPU cap grant in wrong phase"));
}

#[test]
fn consecutive_heartbeats_carry_proof_and_count() {
    let mut pd = PhoenixDesktopPd::new();
    pd.on_boot_signal().unwrap();
    pd.on_fb_cap_grant(standard()).unwrap();
    pd.ticks = 41;
    let h1 = pd.render_tick();
    let h2 = pd.render_tick();
    assert!(h1 < h2);
    assert_eq!(h1 & 0xFFFF, 0x4153);
    assert_eq!(h2 & 0xFFFF, 0x4153);
    assert_eq!(h1 >> 16, 42);
    assert_eq!(h2 >> 16, 43);
}
