use asl_stack::common::PdId;
use asl_stack::pds::axon_exec::{
    script_uses_awp, script_uses_db_write, AxonExecPd, ExecPhase, ExecRequest, ExecResult, LoadResult, Pl73Pipeline,
    ScriptSource, CAP_AWP_SEND, CAP_DB_WRITE, SOVEREIGN_PROOF,
};
use asl_stack::pds::repl::{
    eval_arithmetic, fmt_i64, format_result, parse_i64, trim, ReplRequest, ReplSession, ReplVal, REPL_EVAL_LABEL,
};

fn request(script: &[u8], source: ScriptSource, caller: u8) -> ExecRequest {
    let mut req = ExecRequest::empty();
    req.script[..script.len()].copy_from_slice(script);
    req.script_len = script.len();
    req.source = source;
    req.caller_pd = caller;
    req
}

fn booted() -> AxonExecPd {
    let mut pd = AxonExecPd::new();
    pd.on_boot_signal().unwrap();
    pd
}

#[test]
fn test_exec_pd_new() {
    let pd = AxonExecPd::new();
    assert_eq!(pd.phase, ExecPhase::AwaitingBoot);
    assert_eq!(pd.proof, SOVEREIGN_PROOF);
    assert_eq!(pd.exec_count, 0);
}

#[test]
fn exec_test_boot_signal() {
    let mut pd = AxonExecPd::new();
    assert!(pd.on_boot_signal().is_ok());
    assert_eq!(pd.phase, ExecPhase::Ready);
}

#[test]
fn test_plain_ax_executes() {
    let mut pd = booted();
    let req = request(b"print \"hello sovereign\"", ScriptSource::PlainAx, 0x40);
    let resp = pd.execute(&req, LoadResult::Ready);
    assert_eq!(resp.result, ExecResult::Success);
    assert!(resp.output_len > 0);
    assert_eq!(pd.exec_count, 1);
    assert_eq!(pd.phase, ExecPhase::Ready);
}

#[test]
fn test_axpkg_executes_with_caps() {
    let mut pd = booted();
    let req = request(b"print \"sovereign package\"", ScriptSource::AxPkg { caps: 0 }, 0x40);
    let resp = pd.execute(&req, LoadResult::Ready);
    assert_eq!(resp.result, ExecResult::Success);
    assert!(resp.output[..resp.output_len].windows(5).any(|w| w == b"axpkg"));
}

#[test]
fn test_wrong_caller_rejected() {
    let mut pd = booted();
    let req = request(b"", ScriptSource::PlainAx, 0x42);
    let resp = pd.execute(&req, LoadResult::Ready);
    assert_eq!(resp.result, ExecResult::CapViolation);
    assert_eq!(pd.reject_count, 1);
    assert_eq!(pd.exec_count, 0);
}

#[test]
fn test_awp_without_cap_rejected() {
    let mut pd = booted();
    let req = request(b"awp hello world", ScriptSource::AxPkg { caps: 0 }, 0x40);
    let resp = pd.execute(&req, LoadResult::Ready);
    assert_eq!(resp.result, ExecResult::CapViolation);
    assert_eq!(pd.reject_count, 1);
}

#[test]
fn test_awp_with_cap_executes() {
    let mut pd = booted();
    let req = request(b"awp hello world", ScriptSource::AxPkg { caps: CAP_AWP_SEND }, 0x40);
    assert_eq!(pd.execute(&req, LoadResult::Ready).result, ExecResult::Success);
}

#[test]
fn test_db_write_without_cap_rejected() {
    let mut pd = booted();
    let req = request(b"db put key value", ScriptSource::AxPkg { caps: 0 }, 0x40);
    assert_eq!(pd.execute(&req, LoadResult::Ready).result, ExecResult::CapViolation);
}

#[test]
fn test_db_write_with_cap_executes() {
    let mut pd = booted();
    let req = request(b"db put key value", ScriptSource::AxPkg { caps: CAP_DB_WRITE }, 0x40);
    assert_eq!(pd.execute(&req, LoadResult::Ready).result, ExecResult::Success);
}

#[test]
fn exec_test_proof_invariant() {
    let mut pd = booted();
    assert_eq!(pd.proof, SOVEREIGN_PROOF);
    let req = request(b"", ScriptSource::PlainAx, 0x40);
    pd.execute(&req, LoadResult::Ready);
    assert_eq!(pd.proof, SOVEREIGN_PROOF);
}

#[test]
fn test_arpi_seq_echoed() {
    let mut pd = booted();
    let mut req = request(b"", ScriptSource::PlainAx, 0x40);
    req.arpi_seq = 0xDEAD_BEEF;
    assert_eq!(pd.execute(&req, LoadResult::Ready).arpi_seq, 0xDEAD_BEEF);
}

#[test]
fn test_exec_before_boot_rejected() {
    let mut pd = AxonExecPd::new();
    let req = request(b"", ScriptSource::PlainAx, 0x40);
    assert_eq!(pd.execute(&req, LoadResult::Ready).result, ExecResult::AbiRejected);
}

#[test]
fn test_awp_detection() {
    assert!(script_uses_awp(b"awp hello world"));
    assert!(!script_uses_awp(b"print hello"));
    assert!(!script_uses_awp(b"awphello"));
}

#[test]
fn test_db_write_detection() {
    assert!(script_uses_db_write(b"db put x 42"));
    assert!(!script_uses_db_write(b"db get x"));
    assert!(!script_uses_db_write(b"print hello"));
}

#[test]
fn test_pipeline_run_ax() {
    let mut pipeline = Pl73Pipeline::new();
    pipeline.boot();
    let resp = pipeline.run_ax(b"print \"sovereign hello\"", LoadResult::Ready);
    assert_eq!(resp.result, ExecResult::Success);
    assert_eq!(pipeline.exec_pd.exec_count, 1);
    assert_eq!(pipeline.requests, 1);
    assert_eq!(pipeline.responses, 1);
}

#[test]
fn test_pipeline_run_verified() {
    let mut pipeline = Pl73Pipeline::new();
    pipeline.boot();
    let resp = pipeline.run_verified(b"print \"sovereign package\"", 0, LoadResult::Ready);
    assert_eq!(resp.result, ExecResult::Success);
    assert_eq!(pipeline.exec_pd.exec_count, 1);
}

#[test]
fn test_pipeline_cap_violation_blocks_exec() {
    let mut pipeline = Pl73Pipeline::new();
    pipeline.boot();
    let resp = pipeline.run_verified(b"awp hello", 0, LoadResult::Ready);
    assert_eq!(resp.result, ExecResult::CapViolation);
    assert_eq!(pipeline.exec_pd.exec_count, 0);
    assert_eq!(pipeline.exec_pd.reject_count, 1);
}

#[test]
fn test_pipeline_multiple_executions() {
    let mut pipeline = Pl73Pipeline::new();
    pipeline.boot();
    pipeline.run_ax(b"print \"one\"", LoadResult::Ready);
    pipeline.run_ax(b"print \"two\"", LoadResult::Ready);
    pipeline.run_ax(b"print \"three\"", LoadResult::Ready);
    assert_eq!(pipeline.exec_pd.exec_count, 3);
    assert_eq!(pipeline.requests, 3);
    assert_eq!(pipeline.responses, 3);
    assert_eq!(pipeline.exec_pd.phase, ExecPhase::Ready);
}

#[test]
fn exec_test_sovereign_proof_constant() {
    assert_eq!(SOVEREIGN_PROOF, 0x4153);
}

#[test]
fn exec_output_messages_and_ticks() {
    let mut pd = booted();
    let resp = pd.execute(&request(b"x", ScriptSource::PlainAx, 0x40), LoadResult::Ready);
    assert_eq!(resp.output_str(), b"[AXON-Exec] .ax executed sovereign");
    assert_eq!(resp.ticks, 1000);
    let resp = pd.execute(&request(b"x", ScriptSource::AxPkg { caps: 0 }, 0x40), LoadResult::Ready);
    assert_eq!(resp.output_str(), b"[AXON-Exec] .axpkg verified+executed sovereign");
    assert_eq!(resp.ticks, 2000);
    assert!(resp.output[resp.output_len..].iter().all(|b| *b == 0));
}

#[test]
fn exec_bridge_refusal_is_abi_rejected() {
    let mut pd = booted();
    let mut req = request(b"print 1", ScriptSource::PlainAx, 0x40);
    req.arpi_seq = 5;
    let resp = pd.execute(&req, LoadResult::Rejected);
    assert_eq!(resp.result, ExecResult::AbiRejected);
    assert_eq!(resp.arpi_seq, 5);
    assert_eq!(resp.output_len, 0);
    assert_eq!(pd.reject_count, 1);
    assert_eq!(pd.exec_count, 0);
    let plain = request(b"awp x", ScriptSource::PlainAx, 0x40);
    assert_eq!(pd.execute(&plain, LoadResult::Ready).result, ExecResult::Success);
    assert_eq!(req.script_bytes(), b"print 1");
    assert_eq!(AxonExecPd::pd_id(), PdId::AxonBridge);
}

fn eval(s: &mut ReplSession, e: &[u8]) -> ReplVal {
    s.evaluate(e)
}

fn as_int(v: ReplVal) -> Option<i64> {
    match v {
        ReplVal::Int(n) => Some(n),
        _ => None,
    }
}

#[test]
fn repl_builtins() {
    let mut s = ReplSession::new();
    assert!(matches!(eval(&mut s, b"  sovereign()  "), ReplVal::Sovereign));
    assert_eq!(as_int(eval(&mut s, b"pd_count()")), Some(10));
    assert!(matches!(eval(&mut s, b"version()"), ReplVal::Str("ASL v1.0 [seL4 15.0.0]")));
    assert!(matches!(eval(&mut s, b"exit"), ReplVal::Str("__EXIT__")));
    assert!(matches!(eval(&mut s, b"   "), ReplVal::Str("")));
    assert!(matches!(eval(&mut s, b"bogus"), ReplVal::Error));
}

#[test]
fn repl_arithmetic_splits_at_last_lowest_operator() {
    assert_eq!(eval_arithmetic(b"1 + 2 * 3"), Some(7));
    assert_eq!(eval_arithmetic(b"10 - 4 - 3"), Some(3));
    assert_eq!(eval_arithmetic(b"20 / 3"), Some(6));
    assert_eq!(eval_arithmetic(b"-7 / 2"), Some(-3));
    assert_eq!(eval_arithmetic(b"5 / 0"), None);
    assert_eq!(eval_arithmetic(b"-5"), Some(-5));
    assert_eq!(eval_arithmetic(b"3 - -2"), None);
    assert_eq!(eval_arithmetic(b"9223372036854775807 + 1"), Some(i64::MIN));
    assert_eq!(eval_arithmetic(b""), None);
}

#[test]
fn repl_let_binding_reads_back() {
    let mut s = ReplSession::new();
    assert_eq!(as_int(eval(&mut s, b"let x = 21 + 21")), Some(42));
    assert_eq!(as_int(eval(&mut s, b"x")), Some(42));
    assert!(matches!(eval(&mut s, b"y"), ReplVal::Error));
    assert!(matches!(eval(&mut s, b"let y 5"), ReplVal::Error));
    assert_eq!(as_int(eval(&mut s, b"x")), Some(42));
}

#[test]
fn repl_helpers() {
    assert_eq!(trim(b" \tab c\t "), b"ab c");
    assert_eq!(trim(b"   "), b"");
    assert_eq!(parse_i64(b"-42"), Some(-42));
    assert_eq!(parse_i64(b"-"), None);
    assert_eq!(parse_i64(b"12a"), None);
    assert_eq!(parse_i64(b"9223372036854775808"), None);
    assert_eq!(parse_i64(b"9223372036854775807"), Some(i64::MAX));
    let mut buf = [7u8; 22];
    let n = fmt_i64(-1203, &mut buf);
    assert_eq!(&buf[..n], b"-1203");
    assert_eq!(buf[n], 7);
    let n = fmt_i64(0, &mut buf);
    assert_eq!(&buf[..n], b"0");
    let mut small = [0u8; 3];
    let n = format_result(ReplVal::Int(123456), &mut small);
    assert_eq!(n, 3);
    assert_eq!(&small, b"123");
    let mut out = [0u8; 64];
    let n = format_result(ReplVal::Error, &mut out);
    assert_eq!(&out[..n], b"error: unknown expression");
    let n = format_result(ReplVal::Sovereign, &mut out);
    assert_eq!(&out[..n], b"axon_main() -> 0x4153");
}

fn repl_request(expr: &[u8], proof: u64) -> ReplRequest {
    let mut buf = [0u8; 128];
    buf[..expr.len()].copy_from_slice(expr);
    ReplRequest { tag: 0xA16_0001, label: REPL_EVAL_LABEL, seq: 0, proof, len: expr.len() as u32, expr: buf }
}

#[test]
fn repl_handle_request() {
    let mut s = ReplSession::new();
    let r = s.handle_request(&repl_request(b"1 + 2 * 3", 0x4153));
    assert!(r.proceed);
    assert_eq!(r.line, b"7".to_vec());
    let r = s.handle_request(&repl_request(b"1", 0x4154));
    assert!(!r.proceed);
    assert_eq!(r.line, "[REPL] FATAL: proof mismatch — dropping request".as_bytes().to_vec());
    let r = s.handle_request(&repl_request(b"exit", 0x4153));
    assert!(!r.proceed);
    assert_eq!(r.line, "[REPL] exit requested — Phoenix-Console halting".as_bytes().to_vec());
    let r = s.handle_request(&repl_request(b"help", 0x4153));
    assert_eq!(r.line, b"sovereign() pd_count() version() let x=<expr> help exit".to_vec());
}

#[test]
fn multiplicative_level_groups_left() {
    assert_eq!(eval_arithmetic(b"8 * 2 / 4"), Some(4));
    assert_eq!(eval_arithmetic(b"8 / 2 * 4"), Some(16));
    assert_eq!(eval_arithmetic(b"100 / 10 / 5"), Some(2));
    assert_eq!(eval_arithmetic(b"2 + 8 * 2 / 4 - 1"), Some(5));
    assert_eq!(eval_arithmetic(b"10 - 2 + 3"), Some(11));
    assert_eq!(eval_arithmetic(b"6 / 3 * 0 / 1"), Some(0));
    assert_eq!(eval_arithmetic(b"1 * 2 / 0"), None);
}

#[test]
fn db_write_needs_write_capability() {
    assert!(script_uses_db_write(b"db put x 42"));
    assert!(script_uses_db_write(b"db write k v"));
    assert!(!script_uses_db_write(b"db get x"));
    assert!(!script_uses_db_write(b"print hello"));
    let req = request(b"db write k v", ScriptSource::AxPkg { caps: 0 }, 0x40);
    let mut pd = booted();
    assert_eq!(pd.execute(&req, LoadResult::Ready).result, ExecResult::CapViolation);
    let req = request(b"db write k v", ScriptSource::AxPkg { caps: CAP_DB_WRITE }, 0x40);
    assert_eq!(pd.execute(&req, LoadResult::Ready).result, ExecResult::Success);
}
