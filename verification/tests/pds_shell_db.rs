use asl_stack::common::PdId;
use asl_stack::pds::edisondb::{DataTier, EdbPhase, EdbRequest, EdbResponse, EdisonDbPd, MAX_ENTRIES};
use asl_stack::pds::shell::{classify_cmd, CmdRoute, ShellPd, ShellPhase, SOVEREIGN_PROOF};

#[test]
fn test_shell_pd_new() {
    let pd = ShellPd::new();
    assert_eq!(pd.phase, ShellPhase::AwaitingBoot);
    assert_eq!(pd.proof, SOVEREIGN_PROOF);
    assert_eq!(pd.cmd_count, 0);
}

#[test]
fn lib_test_boot_signal() {
    let mut pd = ShellPd::new();
    assert!(pd.on_boot_signal().is_ok());
    assert_eq!(pd.phase, ShellPhase::Ready);
}

#[test]
fn test_local_cmd_stays_ready() {
    let mut pd = ShellPd::new();
    pd.on_boot_signal().unwrap();
    let route = pd.submit_cmd(b"help").unwrap();
    assert_eq!(route, CmdRoute::Local);
    assert_eq!(pd.phase, ShellPhase::Ready);
}

#[test]
fn test_edb_cmd_routes_to_datatier() {
    let mut pd = ShellPd::new();
    pd.on_boot_signal().unwrap();
    let route = pd.submit_cmd(b"db put x 42").unwrap();
    assert_eq!(route, CmdRoute::DataTier);
    assert_eq!(pd.phase, ShellPhase::AwaitingIpc);
}

#[test]
fn test_ipc_response_returns_ready() {
    let mut pd = ShellPd::new();
    pd.on_boot_signal().unwrap();
    pd.submit_cmd(b"db put x 42").unwrap();
    assert!(pd.on_ipc_response().is_ok());
    assert_eq!(pd.phase, ShellPhase::Ready);
}

#[test]
fn test_axfs_cmd_routes_correctly() {
    let mut pd = ShellPd::new();
    pd.on_boot_signal().unwrap();
    assert_eq!(pd.submit_cmd(b"ls").unwrap(), CmdRoute::Axfs);
    pd.on_ipc_response().unwrap();
    assert_eq!(pd.submit_cmd(b"cat file.txt").unwrap(), CmdRoute::Axfs);
}

#[test]
fn test_awp_cmd_routes_to_awp() {
    let mut pd = ShellPd::new();
    pd.on_boot_signal().unwrap();
    assert_eq!(pd.submit_cmd(b"awp hello").unwrap(), CmdRoute::Awp);
}

#[test]
fn test_run_verified_routes_to_axon_bridge() {
    let mut pd = ShellPd::new();
    pd.on_boot_signal().unwrap();
    assert_eq!(pd.submit_cmd(b"run_verified pkg.axpkg").unwrap(), CmdRoute::AxonBridge);
}

#[test]
fn test_cmd_count_increments() {
    let mut pd = ShellPd::new();
    pd.on_boot_signal().unwrap();
    pd.submit_cmd(b"help").unwrap();
    pd.submit_cmd(b"version").unwrap();
    assert_eq!(pd.cmd_count, 2);
}

#[test]
fn lib_test_proof_invariant() {
    let mut pd = ShellPd::new();
    pd.on_boot_signal().unwrap();
    pd.submit_cmd(b"help").unwrap();
    assert_eq!(pd.proof, SOVEREIGN_PROOF);
}

#[test]
fn test_cmd_rejected_before_boot() {
    let mut pd = ShellPd::new();
    assert!(pd.submit_cmd(b"help").is_err());
}

#[test]
fn test_classify_browse_routes_to_desktop() {
    assert_eq!(classify_cmd(b"browse awp://aieonyx"), CmdRoute::Desktop);
}

#[test]
fn shell_routes_every_prefix() {
    assert_eq!(classify_cmd(b"dbx"), CmdRoute::DataTier);
    assert_eq!(classify_cmd(b"write a b"), CmdRoute::Axfs);
    assert_eq!(classify_cmd(b"mkpkg p"), CmdRoute::Axfs);
    assert_eq!(classify_cmd(b"verify p"), CmdRoute::Axfs);
    assert_eq!(classify_cmd(b"cat"), CmdRoute::Local);
    assert_eq!(classify_cmd(b"run x.ax"), CmdRoute::AxonBridge);
    assert_eq!(classify_cmd(b"run"), CmdRoute::Local);
    assert_eq!(classify_cmd(b"window new"), CmdRoute::Desktop);
    assert_eq!(classify_cmd(b"settings"), CmdRoute::Desktop);
    assert_eq!(classify_cmd(b""), CmdRoute::Local);
}

#[test]
fn shell_refuses_long_command_and_stray_response() {
    let mut pd = ShellPd::new();
    pd.on_boot_signal().unwrap();
    assert_eq!(pd.on_boot_signal(), Err("Shell-PD: BOOT_SIGNAL in wrong phase"));
    let long = [b'a'; 257];
    assert_eq!(pd.submit_cmd(&long), Err("Shell-PD: command too long"));
    assert_eq!(pd.cmd_count, 0);
    assert_eq!(pd.on_ipc_response(), Err("Shell-PD: IPC response in wrong phase"));
    pd.submit_cmd(b"awp x").unwrap();
    assert_eq!(pd.ipc_pending, Some(CmdRoute::Awp));
    assert_eq!(pd.submit_cmd(b"help"), Err("Shell-PD: not in Ready phase"));
    assert_eq!(ShellPd::pd_id(), PdId::AxonBridge);
}

#[test]
fn lib_test_new_pd_awaiting_boot() {
    let pd = EdisonDbPd::new();
    assert_eq!(pd.phase, EdbPhase::AwaitingBoot);
    assert_eq!(pd.proof, SOVEREIGN_PROOF);
    assert_eq!(pd.entries, 0);
}

#[test]
fn edisondb_test_boot_signal() {
    let mut pd = EdisonDbPd::new();
    assert!(pd.on_boot_signal().is_ok());
    assert_eq!(pd.phase, EdbPhase::Ready);
}

#[test]
fn test_write_requires_arpi_auth() {
    let mut pd = EdisonDbPd::new();
    pd.on_boot_signal().unwrap();
    let resp = pd.handle_request(EdbRequest::Write { tier: DataTier::Personal }, false);
    assert_eq!(resp, EdbResponse::Denied);
    assert_eq!(pd.entries, 0);
}

#[test]
fn test_authenticated_write_succeeds() {
    let mut pd = EdisonDbPd::new();
    pd.on_boot_signal().unwrap();
    let resp = pd.handle_request(EdbRequest::Write { tier: DataTier::Personal }, true);
    assert_eq!(resp, EdbResponse::Written);
    assert_eq!(pd.entries, 1);
    assert_eq!(pd.writes, 1);
}

#[test]
fn test_read_returns_value() {
    let mut pd = EdisonDbPd::new();
    pd.on_boot_signal().unwrap();
    let resp = pd.handle_request(EdbRequest::Read { tier: DataTier::Personal }, true);
    assert!(matches!(resp, EdbResponse::Value { .. }));
    assert_eq!(pd.reads, 1);
}

#[test]
fn test_entry_count() {
    let mut pd = EdisonDbPd::new();
    pd.on_boot_signal().unwrap();
    pd.handle_request(EdbRequest::Write { tier: DataTier::Noise }, true);
    pd.handle_request(EdbRequest::Write { tier: DataTier::Noise }, true);
    let resp = pd.handle_request(EdbRequest::EntryCount, true);
    assert_eq!(resp, EdbResponse::Count(2));
}

#[test]
fn test_delete_decrements_entries() {
    let mut pd = EdisonDbPd::new();
    pd.on_boot_signal().unwrap();
    pd.handle_request(EdbRequest::Write { tier: DataTier::Noise }, true);
    assert_eq!(pd.entries, 1);
    let resp = pd.handle_request(EdbRequest::Delete, true);
    assert_eq!(resp, EdbResponse::Deleted);
    assert_eq!(pd.entries, 0);
}

#[test]
fn test_arpi_auth_count() {
    let mut pd = EdisonDbPd::new();
    pd.on_boot_signal().unwrap();
    pd.handle_request(EdbRequest::Write { tier: DataTier::Personal }, true);
    pd.handle_request(EdbRequest::Read { tier: DataTier::Personal }, true);
    assert_eq!(pd.arpi_auths, 2);
}

#[test]
fn test_critical_tier_requires_key() {
    let pd = EdisonDbPd::new();
    assert!(pd.critical_tier_requires_key());
}

#[test]
fn edisondb_test_proof_invariant() {
    let mut pd = EdisonDbPd::new();
    pd.on_boot_signal().unwrap();
    pd.handle_request(EdbRequest::Write { tier: DataTier::Personal }, true);
    assert_eq!(pd.proof, SOVEREIGN_PROOF);
}

#[test]
fn test_unauthenticated_before_boot_denied() {
    let mut pd = EdisonDbPd::new();
    let resp = pd.handle_request(EdbRequest::Write { tier: DataTier::Personal }, true);
    assert_eq!(resp, EdbResponse::Denied);
}

#[test]
fn edisondb_entries_saturate_both_ways() {
    let mut pd = EdisonDbPd::new();
    pd.on_boot_signal().unwrap();
    assert_eq!(pd.handle_request(EdbRequest::Delete, true), EdbResponse::Deleted);
    assert_eq!(pd.entries, 0);
    for _ in 0..(MAX_ENTRIES + 3) {
        pd.handle_request(EdbRequest::Write { tier: DataTier::Critical }, true);
    }
    assert_eq!(pd.entries as usize, MAX_ENTRIES);
    assert_eq!(pd.writes as usize, MAX_ENTRIES + 3);
    assert_eq!(
        pd.handle_request(EdbRequest::Read { tier: DataTier::Critical }, true),
        EdbResponse::Value { tier: DataTier::Critical, size: 8 }
    );
    assert_eq!(EdisonDbPd::pd_id(), PdId::DataTierEnforcer);
}
