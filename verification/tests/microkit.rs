use asl_stack::common::DataTier;
use asl_stack::microkit::bindings::{debug_print, debug_println};
use asl_stack::microkit::dbg::{put_u32, put_u8};
use asl_stack::microkit::edisondb::{
    check_tier_read, check_tier_write, EdisonDbEngine, CH_STORAGE_DRV, DB_STATUS_DUAL_AUTH,
    DB_STATUS_ERR, DB_STATUS_OK, DB_STATUS_TIER_BLOCKED,
};
use asl_stack::microkit::haniel::{HanielEngine, SOVEREIGN_FRAME_PIXELS};
use asl_stack::microkit::input::{InputDriver, CH_KEYBOARD, CH_MOUSE, CH_TOUCHPAD};
use asl_stack::microkit::mcs::{mcs_schedule, print_schedule, verify_schedule, McsEntry, TOTAL_BUDGET_US};
use asl_stack::microkit::network::{aegis_sentinel, awp_magic, NetworkDriver, CH_AEGIS_MESH, CH_THREAT};
use asl_stack::microkit::onyxia::{render_sovereign_url_bar, OnyxiaBrowser};
use asl_stack::microkit::storage::{StorageDriver, STATUS_ERR, STATUS_OK};
use asl_stack::microkit::usb::{UsbDriver, SOMA_HW_UID_SENTINEL, SOMA_KEY_FINGERPRINT};
use asl_stack::microkit::wcet::{all_within_budget, print_wcet_report, wcet_measurements, WcetEntry};
use asl_stack::microkit::{op_of, tier_of};

use asl_stack::common::PdId;
use asl_stack::microkit::genesis::{genesis_init, genesis_pd_init, mandatory_pds, version_verified};
use asl_stack::microkit::arpi::{arpi_init, arpi_notified, arpi_pd_init};
use asl_stack::microkit::axon_bridge::{axon_bridge_init, AbiVerdict};

fn call(op: u8, tier: u8) -> u64 {
    ((op as u64) << 56) | ((tier as u64) << 48)
}

#[test]
fn message_info_fields() {
    assert_eq!(op_of(0x0200_0000_0000_0000), 0x02);
    assert_eq!(tier_of(0x0002_0000_0000_0000), 0x02);
    assert_eq!(op_of(call(0x05, 0x01)), 0x05);
    assert_eq!(tier_of(call(0x05, 0x01)), 0x01);
}

#[test]
fn decimal_output() {
    assert_eq!(put_u32(0), b"0".to_vec());
    assert_eq!(put_u32(7), b"7".to_vec());
    assert_eq!(put_u32(4096), b"4096".to_vec());
    assert_eq!(put_u32(u32::MAX), b"4294967295".to_vec());
    assert_eq!(put_u8(255), b"255".to_vec());
}

#[test]
fn debug_console_bytes() {
    assert_eq!(debug_println("READY"), b"READY\n".to_vec());
    assert_eq!(debug_print("READY"), b"READY".to_vec());
    assert_eq!(debug_println(""), b"\n".to_vec());
}

#[test]
fn storage_dispatch() {
    let mut s = StorageDriver::new();
    assert_eq!(StorageDriver::init().len(), 7);
    let (st, log) = s.protected(0, call(0x01, 0));
    assert_eq!(st, STATUS_OK);
    assert!(log.is_empty());
    let (st, _) = s.protected(0, call(0x02, 0));
    assert_eq!(st, STATUS_OK);
    let (st, log) = s.protected(0, call(0x04, 0));
    assert_eq!(st, STATUS_OK);
    assert_eq!(log, vec!["Storage: GDPR Art.17 erasure executed\n"]);
    let (st, log) = s.protected(0, call(0x03, 0));
    assert_eq!(st, STATUS_OK);
    assert_eq!(log, vec!["Storage: WAL sync\n"]);
    let (st, _) = s.protected(0, call(0x09, 0));
    assert_eq!(st, STATUS_ERR);
    assert_eq!((s.reads, s.writes, s.erases), (1, 1, 1));
    assert_eq!(StorageDriver::notified(1), vec!["Storage: WAL sync notification received\n"]);
}

#[test]
fn input_counts_per_device() {
    let mut d = InputDriver::new();
    assert_eq!(InputDriver::init().last(), Some(&"Input Driver PD: READY\n"));
    assert_eq!(d.notified(CH_KEYBOARD), vec!["Input: keyboard event\n"]);
    d.notified(CH_KEYBOARD);
    assert_eq!(d.notified(CH_MOUSE), vec!["Input: mouse event\n"]);
    assert_eq!(d.notified(CH_TOUCHPAD), vec!["Input: touchpad event\n"]);
    assert_eq!(d.notified(9), vec!["Input: unknown channel — ignored\n"]);
    assert_eq!((d.keyboard_events, d.mouse_events, d.touchpad_events), (2, 1, 1));
}

#[test]
fn usb_identity_after_init() {
    let mut u = UsbDriver::new();
    assert_eq!(u.get_hw_uid(), 0);
    assert_eq!(u.get_key_fingerprint(), 0);
    let log = u.init();
    assert_eq!(log.len(), 8);
    assert_eq!(u.get_hw_uid(), SOMA_HW_UID_SENTINEL);
    assert_eq!(u.get_key_fingerprint(), SOMA_KEY_FINGERPRINT);
    assert_eq!(UsbDriver::notified(0), vec!["USB: device event received\n"]);
}

#[test]
fn network_send_receive_threat() {
    let mut n = NetworkDriver::new();
    assert_eq!(n.bound_hash, [0xA1u8; 32]);
    let log = n.init();
    assert_eq!(log.len(), 9);
    assert_eq!(n.bound_hash[0], 0xA1);
    assert_eq!(n.bound_hash[1], 0xE0);
    assert_eq!(n.protected(0, call(0x01, 0)).0, 0);
    assert_eq!(n.protected(0, call(0x02, 0)).0, 0);
    assert_eq!(n.protected(0, call(0x03, 0)), (0, vec!["Network: AWP endpoint bound\n"]));
    assert_eq!(n.protected(0, call(0x04, 0)), (0, vec!["Network: threat intel submitted to Aegis\n"]));
    assert_eq!(n.protected(0, call(0x07, 0)).0, 1);
    n.notified(CH_AEGIS_MESH);
    n.notified(CH_THREAT);
    assert_eq!((n.sent_count(), n.recv_count(), n.threat_count()), (1, 2, 2));
    assert_eq!(awp_magic(), 0xA1E0_AE70);
    assert_eq!(aegis_sentinel(), 0xA1E0_AE61_0000_0001);
}

#[test]
fn haniel_frames_and_pixels() {
    let mut h = HanielEngine::new();
    let log = h.init();
    assert!(h.vault_ready && h.herald_ready && h.prism_ready && h.canvas_ready);
    assert_eq!(log.first(), Some(&"HANIEL Engine PD: initializing\n"));
    assert_eq!(log.last(), Some(&"HANIEL Engine PD: READY\n"));
    assert_eq!(h.frames_rendered(), 1);
    assert_eq!(h.pixels_written(), SOVEREIGN_FRAME_PIXELS);
    assert_eq!(SOVEREIGN_FRAME_PIXELS, 1280 * 720 + 1280 * 48 + 200 * 200);
    let (st, log) = h.protected(0, call(0x04, 0));
    assert_eq!(st, 0);
    assert_eq!(log.len(), 5);
    assert_eq!(h.frames_rendered(), 2);
    assert_eq!(h.pixels_written(), 2 * SOVEREIGN_FRAME_PIXELS);
    assert_eq!(h.protected(0, call(0x02, 0)).0, 0);
    assert_eq!(h.frames_rendered(), 3);
    assert_eq!(h.protected(0, call(0x09, 0)).0, 1);
    assert_eq!(h.notified(1), vec!["HANIEL: ARPi-Broker signal — render update\n"]);
    assert_eq!(h.frames_rendered(), 4);
    assert!(h.notified(7).is_empty());
}

#[test]
fn edisondb_tier_gates() {
    assert!(check_tier_read(DataTier::Noise));
    assert!(check_tier_read(DataTier::Personal));
    assert!(!check_tier_read(DataTier::Critical));
    assert!(!check_tier_write(DataTier::Critical));
    let mut db = EdisonDbEngine::new();
    assert_eq!(db.mvcc_version, 1);
    let log = db.init();
    assert_eq!(log.len(), 26);
    assert_eq!(db.wal_seq, 1);
    assert_eq!(db.protected(0, call(0x01, 0x00)).0, DB_STATUS_OK);
    assert_eq!(db.protected(0, call(0x01, 0x02)).0, DB_STATUS_TIER_BLOCKED);
    assert_eq!(db.protected(0, call(0x02, 0x01)).0, DB_STATUS_OK);
    assert_eq!(db.protected(0, call(0x02, 0x02)).0, DB_STATUS_TIER_BLOCKED);
    assert_eq!(db.reads, 2);
    assert_eq!(db.writes, 2);
    assert_eq!(db.tier_blocks, 2);
    assert_eq!(db.arpi_headers, 2);
    assert_eq!(db.wal_seq, 3);
    assert_eq!(db.mvcc_version, 3);
    assert_eq!(
        db.protected(0, call(0x03, 0x02)),
        (DB_STATUS_DUAL_AUTH, vec!["EdisonDB: Critical erasure — dual-key auth required\n"])
    );
    assert_eq!(
        db.protected(0, call(0x03, 0x01)),
        (DB_STATUS_OK, vec!["EdisonDB: GDPR Art.17 erasure executed\n"])
    );
    assert_eq!(db.protected(0, call(0x06, 0)), (DB_STATUS_OK, vec!["EdisonDB: audit log read\n"]));
    assert_eq!(db.protected(0, call(0x0F, 0)).0, DB_STATUS_ERR);
    db.notified(CH_STORAGE_DRV);
    assert_eq!(db.wal_seq, 4);
}

#[test]
fn onyxia_home_tab_and_navigation() {
    let mut b = OnyxiaBrowser::new();
    let log = b.init();
    assert_eq!(log.last(), Some(&"Onyxia Browser PD: READY\n"));
    assert_eq!(b.tabs_open, 1);
    assert!(b.current_awp);
    assert_eq!(b.current_trust, 100);
    assert_eq!(b.protected(0, call(0x06, 0)).0, 100);
    assert_eq!(b.protected(0, call(0x01, 0)).0, 0);
    assert_eq!(b.current_trust, 90);
    b.current_awp = false;
    b.protected(0, call(0x01, 0));
    assert_eq!(b.current_trust, 60);
    assert_eq!(b.https_requests, 1);
    b.protected(0, call(0x03, 0));
    b.protected(0, call(0x03, 0));
    assert_eq!(b.tabs_open, 0);
    assert_eq!(b.protected(0, call(0x02, 0)).1, vec!["Onyxia: new tab opened — isolated capability context\n"]);
    assert_eq!(b.protected(0, call(0x44, 0)).0, 1);
}

#[test]
fn url_bar_indicators() {
    let mut log: Vec<&'static str> = Vec::new();
    render_sovereign_url_bar("awp://home", 100, true, &mut log);
    render_sovereign_url_bar("https://example.org", 90, false, &mut log);
    render_sovereign_url_bar("http://plain", 10, false, &mut log);
    assert_eq!(
        log,
        vec![
            "Onyxia: URL bar [", "✦", "] ", "awp://home", "\n",
            "Onyxia: URL bar [", "✓", "] ", "https://example.org", "\n",
            "Onyxia: URL bar [", "⚠", "] ", "http://plain", "\n",
        ]
    );
}

#[test]
fn schedule_contract() {
    let s = mcs_schedule();
    assert!(verify_schedule());
    assert_eq!(TOTAL_BUDGET_US, 3200);
    assert_eq!(s.iter().map(|e| e.budget_us).sum::<u32>(), TOTAL_BUDGET_US);
    assert_eq!(s[0].name, "GENESIS");
    assert_eq!(s[0].utilization_pct(), 100);
    assert_eq!(s[3].utilization_pct(), 40);
    assert!(s.iter().all(|e| e.is_pinned()));
    assert!(!McsEntry::new("free", 1, 10, 100, 0xFF).is_pinned());
    assert_eq!(print_schedule().len(), 5);
}

#[test]
fn wcet_report() {
    let m = wcet_measurements();
    assert!(all_within_budget());
    assert!(m.iter().all(|e| e.cycles <= e.budget_cycles));
    assert!(!WcetEntry::new("slow", 501, 500).within_budget);
    assert!(WcetEntry::new("edge", 500, 500).within_budget);
    let log = print_wcet_report();
    assert_eq!(log.len(), 6);
    assert_eq!(log[0], "WCET: commissioning_ceremony < 500 cycles OK\n");
}

#[test]
fn genesis_ceremony() {
    let version = "ASL v1.5 [seL4 15.0.0]";
    assert!(version_verified(version));
    assert!(!version_verified(""));
    assert!(!version_verified("v1.5 [seL4]"));
    assert!(!version_verified("ASL v1.5"));
    let log = genesis_init(version);
    assert_eq!(log.len(), 12);
    assert_eq!(log[1], version);
    assert_eq!(log[7], "GENESIS: 5 mandatory PDs registered\n");
    assert_eq!(log[11], "AIEONYX ASL-seL4 mKernel: BOOT COMPLETE\n");
    let pd = genesis_pd_init(version);
    assert_eq!(pd[8], "GENESIS: signaling ARPi-Broker PD\n");
    assert_eq!(
        mandatory_pds(),
        [PdId::ArpiBroker, PdId::DataTierEnforcer, PdId::TrustGraphGate, PdId::InvertedAdmin, PdId::AxonBridge]
    );
}

#[test]
fn arpi_broker_start_and_genesis_signal() {
    assert_eq!(arpi_init(0xABCD)[1], "ARPi-Broker: commissioning route table\n");
    assert_eq!(arpi_pd_init(1)[1], "ARPi-Broker: route table commissioned\n");
    assert_eq!(
        arpi_notified(1),
        vec!["ARPi-Broker: GENESIS signal received\n", "ARPi-Broker: IPC routing ACTIVE\n"]
    );
    assert!(arpi_notified(2).is_empty());
}

#[test]
fn axon_bridge_valid_token() {
    let log = axon_bridge_init(AbiVerdict::Valid);
    assert_eq!(log.len(), 5);
    assert_eq!(log[1], "AXON-Bridge: ABI token VALID\n");
}
