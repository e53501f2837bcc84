use asl_stack::pds::console::{fmt_hex, fmt_padded4, handle_message, phoenix_console_main, AslMsg, ConsolePD};
use asl_stack::pds::phoenix_init::{execute_phase, phase_request, phoenix_init_main, print_banner, BootPhase};
use asl_stack::pds::repl::{ReplRequest, ReplSession, REPL_EVAL_LABEL, SOVEREIGN_PROOF};
use asl_stack::pds::watchdog::{
    pd_registry, phoenix_watchdog_main, report_status, verify_heartbeat, PdHeartbeat, WatchdogMsg,
};

use asl_stack::pds::watchdog::arm_watchdog;
use asl_stack::pds::console::CONSOLE_EP_LABEL;
use asl_stack::pds::watchdog::{WATCHDOG_LABEL, WATCHDOG_TIMEOUT_MS};

#[test]
fn phase_codes() {
    assert_eq!(BootPhase::Awakening.code(), 0x01);
    assert_eq!(BootPhase::WatchdogArm.code(), 0x06);
    assert_eq!(BootPhase::FirstBoot.code(), 0xFF);
}

#[test]
fn every_phase_succeeds() {
    let phases = [
        BootPhase::Awakening,
        BootPhase::SovereignID,
        BootPhase::CorePDs,
        BootPhase::HwDiscovery,
        BootPhase::ConsoleUp,
        BootPhase::WatchdogArm,
        BootPhase::FirstBoot,
    ];
    for p in phases {
        let mut out = Vec::new();
        assert_eq!(execute_phase(p, &mut out), Ok(()));
        assert!(!out.is_empty());
    }
}

#[test]
fn core_pds_phase_lines() {
    let mut out = Vec::new();
    execute_phase(BootPhase::CorePDs, &mut out).unwrap();
    assert_eq!(
        out,
        vec!["[PHOENIX-INIT] Phase 3: Core Sovereign PDs", "  GENESIS → online ✓", "  ARPi-Broker → online ✓"]
    );
}

#[test]
fn phase_requests() {
    let m = phase_request(BootPhase::SovereignID).unwrap();
    assert_eq!((m.tag, m.label, m.payload), (0xA15_0001, 0x5000, [0x4153, 0, 0, 0]));
    let m = phase_request(BootPhase::WatchdogArm).unwrap();
    assert_eq!((m.label, m.payload[0]), (0x7000, 30_000));
    assert_eq!(phase_request(BootPhase::ConsoleUp).unwrap().payload[0], 0xC0115010);
    assert!(phase_request(BootPhase::Awakening).is_none());
}

#[test]
fn banner_padding() {
    let mut out = Vec::new();
    print_banner(&mut out);
    assert_eq!(out.len(), 7);
    assert_eq!(out[2], format!("║         AIEONYX — Phoenix Lite {:<22}║", "v0.1.0"));
    assert_eq!(out[3], format!("║         ASL {:<5} [seL4 {:<7}]  S4+i Doctrine      ║", "v1.0", "15.0.0"));
}

#[test]
fn init_boots_to_first_boot() {
    let mut out = Vec::new();
    assert_eq!(phoenix_init_main(&mut out), 0x4153);
    assert_eq!(out.len(), 7 + 3 + 3 + 3 + 4 + 2 + 2 + 8);
    assert!(out.contains(&"  Phoenix Lite v0.1.0 — FIRST BOOT COMPLETE"));
    assert_eq!(out[7], "[PHOENIX-INIT] Phase 1: Awakening");
    assert_eq!(out[9], format!("  Sovereign proof: axon_main() → {:#x}", 0x4153));
}

#[test]
fn heartbeat_check() {
    let ok = WatchdogMsg { tag: 0, label: 0x7000, pd_ep: 8, timestamp: 5, proof: 0x4153 };
    assert!(verify_heartbeat(&ok));
    assert!(!verify_heartbeat(&WatchdogMsg { pd_ep: 9, ..ok }));
    assert!(!verify_heartbeat(&WatchdogMsg { label: 0x6000, ..ok }));
    assert!(!verify_heartbeat(&WatchdogMsg { proof: 0x4154, ..ok }));
}

#[test]
fn registry_and_report() {
    let reg = pd_registry();
    assert_eq!(reg.len(), 9);
    assert_eq!(reg.iter().filter(|p| p.required).count(), 8);
    assert_eq!(reg[8].name, "Phoenix-Console");
    let one = [PdHeartbeat { name: "X", ep: 0, required: false, last_beat_ms: 0 }];
    let mut out = Vec::new();
    report_status(&mut out, &one);
    assert_eq!(
        out.concat(),
        "[WATCHDOG] Sovereign PD Health Report\n  Timeout threshold: 30000ms\n  ─────────────────────────────────────\n  X [OPTIONAL] → ISO-boot: alive ✓\n  ─────────────────────────────────────\n  All 9 protected domains: ALIVE\n"
    );
}

#[test]
fn watchdog_arms() {
    let mut out = Vec::new();
    assert_eq!(phoenix_watchdog_main(&mut out), 0x4153);
    let text = out.concat();
    assert!(text.starts_with("[WATCHDOG] Armed by Phoenix-Init — 30000ms window\n"));
    assert!(text.contains("  GENESIS [REQUIRED] → ISO-boot: alive ✓\n"));
    assert!(text.contains("  Phoenix-Console [OPTIONAL] → ISO-boot: alive ✓\n"));
    assert!(text.ends_with("[WATCHDOG] Sovereign heartbeat active ✓\n"));
}

#[test]
fn number_formats() {
    assert_eq!(fmt_hex(0), b"0x0".to_vec());
    assert_eq!(fmt_hex(0x4153), b"0x4153".to_vec());
    assert_eq!(fmt_hex(0xC0115010), format!("{:#x}", 0xC0115010u64).into_bytes());
    assert_eq!(fmt_hex(u64::MAX), format!("{:#x}", u64::MAX).into_bytes());
    assert_eq!(fmt_padded4(1), b"0001".to_vec());
    assert_eq!(fmt_padded4(42), b"0042".to_vec());
    assert_eq!(fmt_padded4(12345), b"12345".to_vec());
}

#[test]
fn console_up_transcript() {
    let mut out = Vec::new();
    assert_eq!(phoenix_console_main(&mut out), 0x4153);
    assert_eq!(
        String::from_utf8(out).unwrap(),
        "[CONSOLE 0001] Console PD activated by Phoenix-Init\n[CONSOLE 0002] Sovereign proof received: 0x4153\n[CONSOLE 0003] AXON shell (stub) — M16 will wire AxonScript REPL\nphoenix@aieonyx:~$ "
    );
}

#[test]
fn console_drops_unknown_label() {
    let mut console = ConsolePD::new();
    let mut out = Vec::new();
    let msg = AslMsg { tag: 0, label: 0x1234, payload: [0; 4] };
    handle_message(&msg, &mut console, &mut out);
    assert_eq!(console.line_count, 1);
    assert_eq!(String::from_utf8(out).unwrap(), "[CONSOLE 0001] Unknown label 0x1234 — dropping\n");
}

#[test]
fn console_numbers_lines() {
    let mut console = ConsolePD { line_count: 9998 };
    let mut out = Vec::new();
    console.emit(&mut out, b"a");
    console.emit(&mut out, b"b");
    console.prompt(&mut out);
    assert_eq!(String::from_utf8(out).unwrap(), "[CONSOLE 9999] a\n[CONSOLE 10000] b\nphoenix@aieonyx:~$ ");
}

#[test]
fn repl_request_for_demo_expression() {
    let r = ReplRequest::new(3, b"let x = 21 + 21");
    assert_eq!((r.tag, r.label, r.seq, r.proof, r.len), (0xA16_0001, REPL_EVAL_LABEL, 3, SOVEREIGN_PROOF, 15));
    assert_eq!(&r.expr[..15], b"let x = 21 + 21");
    assert!(r.expr[15..].iter().all(|&b| b == 0));
    let long = vec![b'1'; 200];
    let r = ReplRequest::new(0, &long);
    assert_eq!(r.len, 200);
    assert!(r.expr.iter().all(|&b| b == b'1'));
}

#[test]
fn repl_demo_session() {
    let demo: [&[u8]; 7] = [b"sovereign()", b"version()", b"pd_count()", b"let x = 21 + 21", b"x", b"1 + 2 * 3", b"help"];
    let mut s = ReplSession::new();
    let mut lines = Vec::new();
    for (i, e) in demo.iter().enumerate() {
        let reply = s.handle_request(&ReplRequest::new(i as u32, e));
        assert!(reply.proceed);
        lines.push(String::from_utf8(reply.line).unwrap());
    }
    assert_eq!(
        lines,
        vec![
            "axon_main() -> 0x4153",
            "ASL v1.0 [seL4 15.0.0]",
            "10",
            "42",
            "42",
            "7",
            "sovereign() pd_count() version() let x=<expr> help exit",
        ]
    );
    let reply = s.handle_request(&ReplRequest::new(7, b"exit"));
    assert!(!reply.proceed);
}

#[test]
fn let_binding_reads_back() {
    let mut s = ReplSession::new();
    s.handle_request(&ReplRequest::new(0, b"let total = 6 * 7"));
    let reply = s.handle_request(&ReplRequest::new(1, b"  total "));
    assert_eq!(reply.line, b"42".to_vec());
}

#[test]
fn watchdog_refuses_forged_arm() {
    let forged = WatchdogMsg { tag: 0xA15_0001, label: 0x7000, pd_ep: 7, timestamp: 0, proof: 0x4154 };
    let mut out = Vec::new();
    assert_eq!(arm_watchdog(&forged, &mut out), 0xDEAD);
    assert_eq!(out, vec!["[WATCHDOG] FATAL: ARM message failed sovereign proof check\n"]);
    let genuine = WatchdogMsg { proof: 0x4153, ..forged };
    let mut out = Vec::new();
    assert_eq!(arm_watchdog(&genuine, &mut out), 0x4153);
}

#[test]
fn registry_endpoints_match_indices() {
    let reg = pd_registry();
    for (i, pd) in reg.iter().enumerate() {
        assert_eq!(pd.ep, i);
        assert_eq!(pd.required, i != 8);
        assert_eq!(pd.last_beat_ms, 0);
    }
}

#[test]
fn phase_codes_increase_along_the_boot() {
    let codes: Vec<u8> = [
        BootPhase::Awakening,
        BootPhase::SovereignID,
        BootPhase::CorePDs,
        BootPhase::HwDiscovery,
        BootPhase::ConsoleUp,
        BootPhase::WatchdogArm,
        BootPhase::FirstBoot,
    ]
    .iter()
    .map(|p| p.code())
    .collect();
    assert!(codes.windows(2).all(|w| w[0] < w[1]));
}

#[test]
fn envelope_tag_fields() {
    let m = asl_stack::pds::phoenix_init::AslMsg::new(0x5000, [1, 2, 3, 4]);
    assert_eq!(m.tag >> 24, 0x0A);
    assert_eq!(m.tag & 0xFF_FFFF, 0x15_0001);
}

#[test]
fn init_requests_match_listeners() {
    assert_eq!(phase_request(BootPhase::ConsoleUp).unwrap().label, CONSOLE_EP_LABEL);
    let arm = phase_request(BootPhase::WatchdogArm).unwrap();
    assert_eq!((arm.label, arm.payload[0]), (WATCHDOG_LABEL, WATCHDOG_TIMEOUT_MS));
}

#[test]
fn axon_repl_boot_transcript() {
    let mut out = Vec::new();
    assert_eq!(asl_stack::pds::repl::axon_repl_main(&mut out), 0x4153);
    assert_eq!(
        String::from_utf8(out).unwrap(),
        "[AXON-REPL] PD online — AxonScript evaluator ready\n\
         phoenix@aieonyx:~$ sovereign()\naxon_main() -> 0x4153\n\
         phoenix@aieonyx:~$ version()\nASL v1.0 [seL4 15.0.0]\n\
         phoenix@aieonyx:~$ pd_count()\n10\n\
         phoenix@aieonyx:~$ let x = 21 + 21\n42\n\
         phoenix@aieonyx:~$ x\n42\n\
         phoenix@aieonyx:~$ 1 + 2 * 3\n7\n\
         phoenix@aieonyx:~$ help\nsovereign() pd_count() version() let x=<expr> help exit\n"
    );
}
