use asl_stack::pds::broker::{
    ArpiBrokerLive, ArpiError, ArpiMessage, BindOutcome, PathA, PathB, PathC, ARPI_HEADER_SIZE, SOVEREIGN_PROOF,
};
use asl_stack::pds::canvas::{LayerKind, RenderOutcome, RenderRequest};
use asl_stack::pds::desktop::DesktopPhase;
use asl_stack::pds::edisondb::EdbResponse;
use asl_stack::pds::onyxia::{NavState, UrlRoute};
use asl_stack::pds::axon_exec::LoadResult;
use asl_stack::pds::shell::ShellPhase;
use asl_stack::pds::stack::{
    SessionResult, SovereignSession, SovereignStack, ASL_VERSION, MANDATORY_PD_COUNT, PHOENIX_VERSION, SEL4_VERSION,
    TOTAL_PD_COUNT,
};

fn header() -> [u8; ARPI_HEADER_SIZE] {
    let mut h = [0u8; ARPI_HEADER_SIZE];
    h[0] = 0x41;
    h[1] = 0x52;
    h[2] = 0x50;
    h[3] = 0x69;
    h
}

fn bound() -> BindOutcome {
    BindOutcome::Bound(header())
}

#[test]
fn test_path_a_db_put_succeeds() {
    let mut path = PathA::new();
    path.boot();
    assert_eq!(path.execute_db_put(bound()).unwrap(), EdbResponse::Written);
}

#[test]
fn test_path_a_arpi_bind_recorded() {
    let mut path = PathA::new();
    path.boot();
    path.execute_db_put(bound()).unwrap();
    assert_eq!(path.broker.bind_count, 1);
    assert_eq!(path.broker.pass_count, 1);
    assert_eq!(path.broker.fail_count, 0);
}

#[test]
fn test_path_a_edb_entry_created() {
    let mut path = PathA::new();
    path.boot();
    path.execute_db_put(bound()).unwrap();
    assert_eq!(path.edb.entries, 1);
    assert_eq!(path.edb.writes, 1);
    assert_eq!(path.edb.arpi_auths, 1);
}

#[test]
fn test_path_a_shell_returns_ready() {
    let mut path = PathA::new();
    path.boot();
    path.execute_db_put(bound()).unwrap();
    assert_eq!(path.shell.phase, ShellPhase::Ready);
}

#[test]
fn test_path_a_arpi_header_valid() {
    let mut broker = ArpiBrokerLive::new();
    let msg = broker.route(0x40, 0x41, 0xC002, b"put x 42", bound()).unwrap();
    assert!(msg.header_valid());
    assert_eq!(msg.src_pd, 0x40);
    assert_eq!(msg.dst_pd, 0x41);
}

#[test]
fn test_path_a_invalid_schema_rejected() {
    let mut broker = ArpiBrokerLive::new();
    let result = broker.route(0x40, 0x41, 0xC002, b"bad", BindOutcome::SchemaRejected(ArpiError::SchemaViolation));
    assert!(result.is_err());
    assert_eq!(broker.fail_count, 1);
    assert_eq!(broker.pass_count, 0);
}

#[test]
fn test_path_a_high_anomaly_rejected() {
    let mut broker = ArpiBrokerLive::new();
    let result = broker.route(0x40, 0x41, 0xC002, b"put x 42", BindOutcome::Refused(ArpiError::BindRefused));
    assert!(result.is_err());
    assert_eq!(broker.fail_count, 1);
}

#[test]
fn test_path_b_awp_navigation_succeeds() {
    let mut path = PathB::new();
    path.boot();
    assert_eq!(path.navigate_awp(bound()).unwrap(), UrlRoute::Awp);
    assert!(path.rendered);
}

#[test]
fn test_path_b_arpi_bind_recorded() {
    let mut path = PathB::new();
    path.boot();
    path.navigate_awp(bound()).unwrap();
    assert_eq!(path.broker.pass_count, 1);
    assert_eq!(path.broker.fail_count, 0);
}

#[test]
fn test_path_b_onyxia_returns_loaded() {
    let mut path = PathB::new();
    path.boot();
    path.navigate_awp(bound()).unwrap();
    assert_eq!(path.onyxia.nav_state, NavState::Loaded);
    assert_eq!(path.onyxia.nav_count, 1);
    assert!(path.onyxia.is_sovereign());
}

#[test]
fn test_path_b_header_carries_src_dst() {
    let mut broker = ArpiBrokerLive::new();
    let msg = broker.route(0x42, 0x20, 0xB030, b"awp://aieonyx", bound()).unwrap();
    assert!(msg.header_valid());
    assert_eq!(msg.src_pd, 0x42);
    assert_eq!(msg.dst_pd, 0x20);
}

#[test]
fn test_path_c_status_query_succeeds() {
    let mut path = PathC::new();
    path.boot();
    assert_eq!(path.query_status(bound()).unwrap(), EdbResponse::Count(0));
}

#[test]
fn test_path_c_arpi_bind_recorded() {
    let mut path = PathC::new();
    path.boot();
    path.query_status(bound()).unwrap();
    assert_eq!(path.broker.pass_count, 1);
    assert_eq!(path.broker.fail_count, 0);
}

#[test]
fn test_path_c_edb_read_count_increments() {
    let mut path = PathC::new();
    path.boot();
    path.query_status(bound()).unwrap();
    path.query_status(bound()).unwrap();
    assert_eq!(path.edb.arpi_auths, 2);
}

#[test]
fn test_broker_proof_invariant() {
    let mut broker = ArpiBrokerLive::new();
    assert_eq!(broker.proof, SOVEREIGN_PROOF);
    broker.route(0x40, 0x41, 0xC001, b"", bound()).unwrap();
    assert_eq!(broker.proof, SOVEREIGN_PROOF);
}

#[test]
fn test_broker_tracks_multiple_routes() {
    let mut broker = ArpiBrokerLive::new();
    broker.route(0x40, 0x41, 0xC002, b"a", bound()).unwrap();
    broker.route(0x42, 0x20, 0xB030, b"b", bound()).unwrap();
    broker.route(0x30, 0x41, 0xC001, b"c", bound()).unwrap();
    assert_eq!(broker.bind_count, 3);
    assert_eq!(broker.pass_count, 3);
    assert_eq!(broker.fail_count, 0);
}

#[test]
fn broker_test_sovereign_proof_is_0x4153() {
    assert_eq!(SOVEREIGN_PROOF, 0x4153);
}

#[test]
fn broker_schema_refusal_counts_as_failure() {
    let mut broker = ArpiBrokerLive::new();
    let r = broker.route(0x40, 0x41, 0xC002, b"x", BindOutcome::SchemaRejected(ArpiError::SchemaViolation));
    assert!(matches!(r, Err(ArpiError::SchemaViolation)));
    assert_eq!(broker.bind_count, 1);
    assert_eq!(broker.fail_count, 1);
    assert_eq!(broker.pass_count, 0);
    assert_eq!(broker.proof, 0x4153);
    assert_eq!(broker.seq, 1);
}

#[test]
fn arpi_message_clips_payload() {
    let payload = [7u8; 100];
    let m = ArpiMessage::new(header(), 1, 2, 3, &payload);
    assert_eq!(m.payload_len, 64);
    assert!(m.payload.iter().all(|b| *b == 7));
    let m = ArpiMessage::new([0u8; ARPI_HEADER_SIZE], 1, 2, 3, b"hi");
    assert!(!m.header_valid());
    assert_eq!(&m.payload[..2], b"hi");
    assert_eq!(m.payload[2], 0);
}

#[test]
fn path_a_failed_bind_leaves_shell_waiting() {
    let mut path = PathA::new();
    path.boot();
    assert_eq!(path.execute_db_put(BindOutcome::Refused(ArpiError::BindRefused)), Err(ArpiError::BindRefused));
    assert_eq!(path.shell.phase, ShellPhase::AwaitingIpc);
    assert_eq!(path.edb.entries, 0);
}

#[test]
fn test_stack_new() {
    let stack = SovereignStack::new();
    assert_eq!(stack.boot_stage, 0);
    assert_eq!(stack.proof, 0x4153);
    assert_eq!(stack.pds_active, 0);
    assert!(!stack.is_sovereign());
}

#[test]
fn test_full_boot_sequence() {
    let mut stack = SovereignStack::new();
    assert!(stack.boot().is_ok());
    assert!(stack.is_sovereign());
    assert_eq!(stack.boot_stage, 6);
}

#[test]
fn test_boot_handoff_complete() {
    let mut stack = SovereignStack::new();
    stack.boot().unwrap();
    assert!(stack.handoff.is_complete());
    assert_eq!(stack.handoff.stage_label(), "SOVEREIGN DESKTOP LIVE UNDER seL4");
}

#[test]
fn test_all_pds_active_after_boot() {
    let mut stack = SovereignStack::new();
    stack.boot().unwrap();
    assert!(stack.pds_active >= 6, "at least 6 PDs must be active");
}

#[test]
fn test_stage_labels() {
    let mut stack = SovereignStack::new();
    assert_eq!(stack.stage_label(), "Cold boot");
    stack.boot().unwrap();
    assert_eq!(stack.stage_label(), "SOVEREIGN DESKTOP LIVE UNDER seL4");
}

#[test]
fn test_proof_chain_before_boot() {
    let stack = SovereignStack::new();
    stack.assert_proof_chain();
}

#[test]
fn test_proof_chain_after_boot() {
    let mut stack = SovereignStack::new();
    stack.boot().unwrap();
    stack.assert_proof_chain();
    assert_eq!(stack.proof, 0x4153);
}

#[test]
fn test_gpu_cap_pipeline() {
    let mut stack = SovereignStack::new();
    stack.boot().unwrap();
    assert!(stack.gpu_cap.cap_granted);
    assert!(stack.canvas.fb_cap);
}

#[test]
fn test_desktop_pd_running() {
    let mut stack = SovereignStack::new();
    stack.boot().unwrap();
    assert_eq!(stack.desktop.phase, DesktopPhase::Running);
}

fn run() -> (SovereignSession, SessionResult) {
    let mut session = SovereignSession::new();
    let result = session.run(LoadResult::Ready, bound()).unwrap();
    (session, result)
}

#[test]
fn test_sovereign_session_all_ops() {
    let (_, result) = run();
    assert!(result.all_sovereign(), "all 6 sovereign operations must succeed");
}

#[test]
fn test_session_navigation() {
    let (session, result) = run();
    assert!(result.nav_ok);
    assert!(session.stack.onyxia.is_sovereign());
}

#[test]
fn test_session_render() {
    let (session, result) = run();
    assert!(result.render_ok);
    assert!(session.stack.canvas.frame_count > 0);
}

#[test]
fn test_session_script_exec() {
    let (session, result) = run();
    assert!(result.exec_ok);
    assert_eq!(session.stack.axon_exec.exec_count, 1);
}

#[test]
fn test_session_edb_write() {
    let (session, result) = run();
    assert!(result.edb_ok);
    assert!(session.stack.edb.entries > 0);
}

#[test]
fn test_session_desktop_tick() {
    let (session, result) = run();
    assert!(result.desktop_ok);
    assert_eq!(session.stack.desktop.ticks, 1);
}

#[test]
fn test_session_arpi_routing() {
    let (_, result) = run();
    assert!(result.arpi_ok);
}

#[test]
fn test_session_proof_chain() {
    let (session, result) = run();
    assert!(result.proof_ok);
    assert_eq!(session.stack.proof, 0x4153);
}

#[test]
fn test_session_op_count() {
    let (session, _) = run();
    assert_eq!(session.ops, 6);
}

#[test]
fn test_http_blocked_under_sel4() {
    let mut session = SovereignSession::new();
    session.stack.boot().unwrap();
    assert!(session.stack.onyxia.navigate(b"http://evil.com").is_err());
    assert_eq!(session.stack.onyxia.blocked, 1);
}

#[test]
fn test_wrong_pd_cannot_render() {
    let mut session = SovereignSession::new();
    session.stack.boot().unwrap();
    let req = RenderRequest { caller_pd: 0x50, layer: LayerKind::AwpPage, fill_color: 0xFF000000, region: (0, 0, 100, 100), arpi_seq: 99 };
    assert_eq!(session.stack.canvas.submit_render(req), RenderOutcome::CapDenied);
}

#[test]
fn stack_test_sovereign_proof_is_0x4153() {
    assert_eq!(asl_stack::pds::stack::SOVEREIGN_PROOF, 0x4153);
}

#[test]
fn test_version_strings() {
    assert_eq!(SEL4_VERSION, "15.0.0");
    assert_eq!(ASL_VERSION, "v2.0.0");
    assert_eq!(PHOENIX_VERSION, "v2.0.0");
}

#[test]
fn test_mandatory_pd_count() {
    assert_eq!(MANDATORY_PD_COUNT, 6);
    assert_eq!(TOTAL_PD_COUNT, 10);
}

#[test]
fn second_boot_stops_at_edisondb() {
    let mut stack = SovereignStack::new();
    stack.boot().unwrap();
    assert_eq!(stack.boot(), Err("EdisonDB-PD: BOOT_SIGNAL in wrong phase"));
    assert_eq!(stack.pds_active, 6);
}

#[test]
fn boot_stops_at_a_running_desktop() {
    let mut stack = SovereignStack::new();
    stack.desktop.on_boot_signal().unwrap();
    assert_eq!(stack.boot(), Err("BOOT_SIGNAL received in wrong phase"));
    assert_eq!(stack.boot_stage, 4);
    assert!(stack.canvas.fb_cap);
    assert_eq!(stack.pds_active, 6);
    assert!(!stack.handoff.gpu_cap_granted);
}

#[test]
fn session_reports_failed_arpi_path() {
    let mut session = SovereignSession::new();
    let r = session.run(LoadResult::Ready, BindOutcome::Refused(ArpiError::BindRefused));
    assert!(matches!(r, Err("ARPi path A failed")));
    assert_eq!(session.ops, 5);
}

#[test]
fn sovereign_identity_bytes() {
    let id = asl_stack::pds::broker::sovereign_identity(0x21);
    assert_eq!(&id.pubkey[..4], &[0x21, 0x41, 0x53, 0]);
    assert!(id.pubkey[3..].iter().all(|&b| b == 0));
    assert_eq!(&id.sig[..3], &[0xED, 0x21, 0]);
    assert!(id.sig[2..].iter().all(|&b| b == 0));
    assert_eq!(id.nonce, [0x21, 0x41, 0, 0, 0, 0, 0, 0]);
    let s = asl_stack::pds::broker::sovereign_session(1, 2);
    assert_eq!(s.local.pubkey[0], 1);
    assert_eq!(s.remote.pubkey[0], 2);
    assert_eq!(s.remote.nonce[0], 2);
}

#[test]
fn test_broker_bind_log_records_all() {
    let mut broker = ArpiBrokerLive::new();
    broker.route(0x40, 0x41, 0xC002, b"a", bound()).unwrap();
    broker.route(0x42, 0x20, 0xB030, b"b", bound()).unwrap();
    assert_eq!(broker.bind_count, 2);
}

#[test]
fn fresh_session_runs_every_operation_once() {
    let mut s = SovereignSession::new();
    assert_eq!(s.stack.axon_exec.exec_count, 0);
    assert_eq!(s.stack.desktop.ticks, 0);
    let r = s.run(LoadResult::Ready, bound()).unwrap();
    assert!(r.all_sovereign());
    assert_eq!(s.ops, 6);
    assert_eq!(s.stack.axon_exec.exec_count, 1);
    assert_eq!(s.stack.desktop.ticks, 1);
    assert!(s.stack.edb.entries > 0);
    assert!(s.stack.canvas.frame_count > 0);
    assert_eq!(s.stack.proof, 0x4153);
}
