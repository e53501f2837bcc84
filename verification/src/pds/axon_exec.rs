//! AXON-Exec protection domain: runs `.ax` scripts and `.axpkg` packages in
//! isolation after checking the caller, the capabilities a package declares
//! and the AXON-Bridge load verdict.
use vstd::prelude::*;
use vstd::string::StringSliceAdditionalSpecFns;
use crate::bytes::{contains, contains_bytes, lemma_ascii_bytes, lemma_is_prefix, lemma_not_prefix};
use crate::common::{PdId, AXON_PROOF};
use crate::pds::shell::{route_of, CmdRoute, ShellPd, ShellPhase};

verus! {

pub const AXON_EXEC_PD_ID: u8 = 0x50;
pub const SOVEREIGN_PROOF: u64 = AXON_PROOF;
pub const MAX_SCRIPT_LEN: usize = 4096;
pub const MAX_OUTPUT_LEN: usize = 2048;

/// Package capability: send over AWP.
pub const CAP_AWP_SEND: u32 = 1;
/// Package capability: read files.
pub const CAP_FS_READ: u32 = 2;
/// Package capability: write files.
pub const CAP_FS_WRITE: u32 = 4;
/// Package capability: read the database.
pub const CAP_DB_READ: u32 = 8;
/// Package capability: write the database.
pub const CAP_DB_WRITE: u32 = 16;
/// Package capability: spawn.
pub const CAP_SPAWN: u32 = 32;

/// Shell-PD, the only PD that may run scripts.
pub const SHELL_CALLER: u8 = 0x40;

/// Kind of script.
#[derive(Debug, Clone, Copy, PartialEq, Eq, Structural)]
pub enum ScriptSource {
    /// Plain `.ax` script, no package verification.
    PlainAx,
    /// `.axpkg` package with its declared capability mask.
    AxPkg { caps: u32 },
}

/// Result of a script execution.
#[derive(Debug, Clone, Copy, PartialEq, Eq, Structural)]
pub enum ExecResult {
    Success,
    /// Not Ready, or the AXON-Bridge refused the load.
    AbiRejected,
    PkgHashMismatch,
    /// Wrong caller, or a capability the package did not declare.
    CapViolation,
    MemoryBudgetExceeded,
    ScheduleBudgetExceeded,
    OutputOverflow,
}

/// Verdict of the AXON-Bridge on loading the script binary (ABI token,
/// seL4-strict profile and capability flow).
#[derive(Debug, Clone, Copy, PartialEq, Eq, Structural)]
pub enum LoadResult {
    /// The binary may run.
    Ready,
    /// The bridge refused the binary.
    Rejected,
}

/// A request to run a script, from Shell-PD through AXON-Bridge.
pub struct ExecRequest {
    pub script: [u8; MAX_SCRIPT_LEN],
    pub script_len: usize,
    pub source: ScriptSource,
    pub caller_pd: u8,
    /// ARPi session sequence number, for provenance.
    pub arpi_seq: u64,
}

impl ExecRequest {
    pub fn empty() -> (r: Self)
        ensures
            r.script@ == Seq::new(MAX_SCRIPT_LEN as nat, |i: int| 0u8),
            r.script_len == 0,
            r.source == ScriptSource::PlainAx,
            r.caller_pd == 0,
            r.arpi_seq == 0,
    {
        let r = ExecRequest { script: [0u8; 4096], script_len: 0, source: ScriptSource::PlainAx, caller_pd: 0, arpi_seq: 0 };
        assert(r.script@ =~= Seq::new(MAX_SCRIPT_LEN as nat, |i: int| 0u8));
        r
    }

    /// The first `script_len` bytes of the script buffer.
    pub fn script_bytes(&self) -> (r: &[u8])
        requires
            self.script_len <= MAX_SCRIPT_LEN,
        ensures
            r@ == script_of(*self),
    {
        vstd::slice::slice_subrange(self.script.as_slice(), 0, self.script_len)
    }
}

/// The script bytes of a request.
pub open spec fn script_of(req: ExecRequest) -> Seq<u8> {
    req.script@.subrange(0, req.script_len as int)
}

/// The response returned to Shell-PD.
pub struct ExecResponse {
    pub result: ExecResult,
    pub output: [u8; MAX_OUTPUT_LEN],
    pub output_len: usize,
    /// Ticks consumed.
    pub ticks: u64,
    /// ARPi sequence echoed for provenance.
    pub arpi_seq: u64,
}

impl ExecResponse {
    pub fn empty() -> (r: Self)
        ensures
            bare_response(r, ExecResult::Success, 0),
    {
        let r = ExecResponse { result: ExecResult::Success, output: [0u8; 2048], output_len: 0, ticks: 0, arpi_seq: 0 };
        assert(r.output@ =~= Seq::new(MAX_OUTPUT_LEN as nat, |i: int| 0u8));
        r
    }

    /// The first `output_len` bytes of the output buffer.
    pub fn output_str(&self) -> (r: &[u8])
        requires
            self.output_len <= MAX_OUTPUT_LEN,
        ensures
            r@ == self.output@.subrange(0, self.output_len as int),
    {
        vstd::slice::slice_subrange(self.output.as_slice(), 0, self.output_len)
    }
}

/// A response with `result` and sequence `seq`, no output and no ticks.
pub open spec fn bare_response(r: ExecResponse, result: ExecResult, seq: u64) -> bool {
    &&& r.result == result
    &&& r.arpi_seq == seq
    &&& r.output@ == Seq::new(MAX_OUTPUT_LEN as nat, |i: int| 0u8)
    &&& r.output_len == 0
    &&& r.ticks == 0
}

/// The output a successful run reports, by kind of script.
pub open spec fn exec_message(source: ScriptSource) -> Seq<u8> {
    match source {
        ScriptSource::PlainAx => "[AXON-Exec] .ax executed sovereign".spec_bytes(),
        ScriptSource::AxPkg { .. } => "[AXON-Exec] .axpkg verified+executed sovereign".spec_bytes(),
    }
}

/// Phase of the AXON-Exec PD.
#[derive(Debug, Clone, Copy, PartialEq, Eq, Structural)]
pub enum ExecPhase {
    AwaitingBoot,
    Ready,
    Validating,
    Executing,
    Resetting,
    Faulted,
}

/// The script writes to the database: it contains `db put` or `db write`.
pub open spec fn writes_db(script: Seq<u8>) -> bool {
    contains(script, "db put".spec_bytes()) || contains(script, "db write".spec_bytes())
}

/// The script needs a capability its package did not declare: `awp ` without
/// `CAP_AWP_SEND`, or a database write without `CAP_DB_WRITE`.
pub open spec fn undeclared_cap(script: Seq<u8>, caps: u32) -> bool {
    (contains(script, "awp ".spec_bytes()) && caps & CAP_AWP_SEND == 0)
        || (writes_db(script) && caps & CAP_DB_WRITE == 0)
}

/// The verdict on a request to a Ready PD, before anything runs: `None` when
/// the script may run.
pub open spec fn refusal_of(caller: u8, source: ScriptSource, script: Seq<u8>, load: LoadResult) -> Option<ExecResult> {
    if caller != SHELL_CALLER {
        Some(ExecResult::CapViolation)
    } else if (match source {
        ScriptSource::AxPkg { caps } => undeclared_cap(script, caps),
        ScriptSource::PlainAx => false,
    }) {
        Some(ExecResult::CapViolation)
    } else if load != LoadResult::Ready {
        Some(ExecResult::AbiRejected)
    } else {
        None
    }
}

/// The verdict on `req`: see `refusal_of`.
pub open spec fn refusal(req: ExecRequest, load: LoadResult) -> Option<ExecResult> {
    refusal_of(req.caller_pd, req.source, script_of(req), load)
}

/// What a Ready PD `old` does with a request from `caller` to run `script` of
/// kind `source` under ARPi sequence `seq`, given the bridge verdict `load`:
/// the PD becomes `new` and answers `resp`.
pub open spec fn executed(
    old: AxonExecPd,
    new: AxonExecPd,
    caller: u8,
    source: ScriptSource,
    script: Seq<u8>,
    seq: u64,
    load: LoadResult,
    resp: ExecResponse,
) -> bool {
    match refusal_of(caller, source, script, load) {
        Some(res) => bare_response(resp, res, seq) && new == (AxonExecPd { reject_count: (old.reject_count + 1) as u64, ..old }),
        None => {
            let n = (old.exec_count + 1) as u64;
            let msg = exec_message(source);
            &&& new == (AxonExecPd { exec_count: n, ..old })
            &&& resp.result == ExecResult::Success
            &&& resp.arpi_seq == seq
            &&& resp.ticks == n * 1000
            &&& resp.output_len == msg.len()
            &&& resp.output@ == msg + Seq::new((MAX_OUTPUT_LEN - msg.len()) as nat, |i: int| 0u8)
        },
    }
}

/// The AXON-Exec protection domain.
pub struct AxonExecPd {
    pub phase: ExecPhase,
    pub exec_count: u64,
    pub reject_count: u64,
    pub proof: u64,
}

/// The PD can answer a request with verdict `verdict` without a counter or
/// the tick cost overflowing.
pub open spec fn exec_has_room(pd: AxonExecPd, verdict: Option<ExecResult>) -> bool {
    &&& pd.proof == SOVEREIGN_PROOF
    &&& verdict is Some ==> pd.reject_count < u64::MAX
    &&& verdict is None ==> (pd.exec_count + 1) * 1000 <= u64::MAX
}

impl AxonExecPd {
    pub fn new() -> (pd: Self)
        ensures
            pd == (AxonExecPd { phase: ExecPhase::AwaitingBoot, exec_count: 0, reject_count: 0, proof: SOVEREIGN_PROOF }),
    {
        AxonExecPd { phase: ExecPhase::AwaitingBoot, exec_count: 0, reject_count: 0, proof: SOVEREIGN_PROOF }
    }

    /// Boot signal: moves AwaitingBoot to Ready.
    pub fn on_boot_signal(&mut self) -> (r: Result<(), &'static str>)
        requires
            old(self).phase == ExecPhase::AwaitingBoot ==> old(self).proof == SOVEREIGN_PROOF,
        ensures
            old(self).phase != ExecPhase::AwaitingBoot ==> r == Err::<(), &'static str>("AXON-Exec-PD: BOOT_SIGNAL in wrong phase")
                && *final(self) == *old(self),
            old(self).phase == ExecPhase::AwaitingBoot ==> r == Ok::<(), &'static str>(())
                && *final(self) == (AxonExecPd { phase: ExecPhase::Ready, ..*old(self) }),
    {
        if self.phase != ExecPhase::AwaitingBoot {
            return Err("AXON-Exec-PD: BOOT_SIGNAL in wrong phase");
        }
        self.assert_proof();
        self.phase = ExecPhase::Ready;
        Ok(())
    }

    /// Runs a script request. Outside Ready it is refused (`AbiRejected`)
    /// and nothing changes. In Ready: a caller other than Shell-PD, or a
    /// package using `awp `, `db put` or `db write` without declaring the capability, is
    /// a `CapViolation`; a binary the AXON-Bridge refused (`load`) is
    /// `AbiRejected`; each refusal is counted. Otherwise the run is counted,
    /// costs a thousand ticks per run so far, and reports what kind of script
    /// ran. Every response echoes the request's ARPi sequence, and the PD is
    /// Ready again afterwards.
    pub fn execute(&mut self, req: &ExecRequest, load: LoadResult) -> (resp: ExecResponse)
        requires
            old(self).phase == ExecPhase::Ready ==> exec_has_room(*old(self), refusal(*req, load)),
            old(self).phase == ExecPhase::Ready && req.caller_pd == SHELL_CALLER && req.source is AxPkg
                ==> req.script_len <= MAX_SCRIPT_LEN,
        ensures
            old(self).phase != ExecPhase::Ready ==> bare_response(resp, ExecResult::AbiRejected, 0) && *final(self) == *old(self),
            old(self).phase == ExecPhase::Ready
                ==> executed(*old(self), *final(self), req.caller_pd, req.source, script_of(*req), req.arpi_seq, load, resp),
    {
        if self.phase != ExecPhase::Ready {
            let mut resp = ExecResponse::empty();
            resp.result = ExecResult::AbiRejected;
            return resp;
        }
        self.assert_proof();
        self.phase = ExecPhase::Validating;
        if req.caller_pd != SHELL_CALLER {
            self.reject_count = self.reject_count + 1;
            self.phase = ExecPhase::Ready;
            return Self::refused(ExecResult::CapViolation, req.arpi_seq);
        }
        if let ScriptSource::AxPkg { caps } = req.source {
            if script_uses_awp(req.script_bytes()) && (caps & CAP_AWP_SEND == 0) {
                self.reject_count = self.reject_count + 1;
                self.phase = ExecPhase::Ready;
                return Self::refused(ExecResult::CapViolation, req.arpi_seq);
            }
            if script_uses_db_write(req.script_bytes()) && (caps & CAP_DB_WRITE == 0) {
                self.reject_count = self.reject_count + 1;
                self.phase = ExecPhase::Ready;
                return Self::refused(ExecResult::CapViolation, req.arpi_seq);
            }
        }
        if load != LoadResult::Ready {
            self.reject_count = self.reject_count + 1;
            self.phase = ExecPhase::Ready;
            return Self::refused(ExecResult::AbiRejected, req.arpi_seq);
        }
        self.phase = ExecPhase::Executing;
        self.exec_count = self.exec_count + 1;
        let mut resp = ExecResponse::empty();
        resp.arpi_seq = req.arpi_seq;
        resp.result = ExecResult::Success;
        resp.ticks = self.exec_count * 1000;
        let msg: &[u8] = match req.source {
            ScriptSource::PlainAx => "[AXON-Exec] .ax executed sovereign".as_bytes(),
            ScriptSource::AxPkg { .. } => "[AXON-Exec] .axpkg verified+executed sovereign".as_bytes(),
        };
        proof {
            lemma_message_fits(req.source);
        }
        let out_len = if msg.len() < MAX_OUTPUT_LEN { msg.len() } else { MAX_OUTPUT_LEN };
        let mut i: usize = 0;
        while i < out_len
            invariant
                out_len == msg@.len(),
                out_len < MAX_OUTPUT_LEN,
                0 <= i <= out_len,
                resp.output@ == msg@.subrange(0, i as int) + Seq::new((MAX_OUTPUT_LEN - i) as nat, |k: int| 0u8),
                resp.result == ExecResult::Success,
                resp.arpi_seq == req.arpi_seq,
                resp.ticks == self.exec_count * 1000,
                msg@ == exec_message(req.source),
                *self == (AxonExecPd { exec_count: (old(self).exec_count + 1) as u64, phase: ExecPhase::Executing, ..*old(self) }),
            decreases out_len - i,
        {
            resp.output[i] = msg[i];
            proof {
                assert(resp.output@ =~= msg@.subrange(0, i + 1) + Seq::new((MAX_OUTPUT_LEN - (i + 1)) as nat, |k: int| 0u8));
            }
            i = i + 1;
        }
        assert(msg@.subrange(0, out_len as int) =~= msg@);
        resp.output_len = out_len;
        self.phase = ExecPhase::Resetting;
        self.phase = ExecPhase::Ready;
        resp
    }

    /// A refusal response: no output, no ticks.
    fn refused(result: ExecResult, seq: u64) -> (r: ExecResponse)
        ensures
            bare_response(r, result, seq),
    {
        let mut r = ExecResponse::empty();
        r.result = result;
        r.arpi_seq = seq;
        r
    }

    /// The protection-domain slot the executor runs in.
    pub fn pd_id() -> (r: PdId)
        ensures
            r == PdId::AxonBridge,
    {
        PdId::AxonBridge
    }

    fn assert_proof(&self)
        requires
            self.proof == SOVEREIGN_PROOF,
    {
    }
}

impl Default for AxonExecPd {
    fn default() -> (pd: Self)
        ensures
            pd == (AxonExecPd { phase: ExecPhase::AwaitingBoot, exec_count: 0, reject_count: 0, proof: SOVEREIGN_PROOF }),
    {
        AxonExecPd::new()
    }
}

/// Both success messages are ASCII and shorter than the output buffer.
proof fn lemma_message_fits(source: ScriptSource)
    ensures
        exec_message(source).len() < MAX_OUTPUT_LEN,
{
    reveal_strlit("[AXON-Exec] .ax executed sovereign");
    reveal_strlit("[AXON-Exec] .axpkg verified+executed sovereign");
    assert(vstd::string::is_ascii("[AXON-Exec] .ax executed sovereign"));
    assert(vstd::string::is_ascii("[AXON-Exec] .axpkg verified+executed sovereign"));
    lemma_ascii_bytes("[AXON-Exec] .ax executed sovereign");
    lemma_ascii_bytes("[AXON-Exec] .axpkg verified+executed sovereign");
}

/// Whether the script contains the AWP command `awp ` (which needs `CAP_AWP_SEND`).
pub fn script_uses_awp(script: &[u8]) -> (r: bool)
    ensures
        r == contains(script@, "awp ".spec_bytes()),
{
    contains_bytes(script, "awp ".as_bytes())
}

/// Whether the script writes to the database, with `db put` or `db write`
/// (which needs `CAP_DB_WRITE`).
pub fn script_uses_db_write(script: &[u8]) -> (r: bool)
    ensures
        r == writes_db(script@),
{
    contains_bytes(script, "db put".as_bytes()) || contains_bytes(script, "db write".as_bytes())
}


/// The first `MAX_SCRIPT_LEN` bytes of a script: what a request carries.
pub open spec fn clipped(script: Seq<u8>) -> Seq<u8> {
    if script.len() <= MAX_SCRIPT_LEN { script } else { script.take(MAX_SCRIPT_LEN as int) }
}

/// Shell-PD submitting scripts that AXON-Exec runs.
pub struct Pl73Pipeline {
    pub shell: ShellPd,
    pub exec_pd: AxonExecPd,
    pub requests: u64,
    pub responses: u64,
}

/// The two run commands of the shell go to the AXON-Bridge.
pub proof fn lemma_run_commands_route()
    ensures
        route_of("run hello.ax".spec_bytes()) == CmdRoute::AxonBridge,
        route_of("run_verified hello.axpkg".spec_bytes()) == CmdRoute::AxonBridge,
        "run hello.ax".spec_bytes().len() == 12,
        "run_verified hello.axpkg".spec_bytes().len() == 24,
{
    reveal_strlit("run hello.ax");
    reveal_strlit("run_verified hello.axpkg");
    reveal_strlit("db");
    reveal_strlit("ls");
    reveal_strlit("cat ");
    reveal_strlit("write ");
    reveal_strlit("mkpkg ");
    reveal_strlit("verify ");
    reveal_strlit("run_verified");
    reveal_strlit("run ");
    assert(vstd::string::is_ascii("run hello.ax"));
    assert(vstd::string::is_ascii("run_verified hello.axpkg"));
    assert(vstd::string::is_ascii("db"));
    assert(vstd::string::is_ascii("ls"));
    assert(vstd::string::is_ascii("cat "));
    assert(vstd::string::is_ascii("write "));
    assert(vstd::string::is_ascii("mkpkg "));
    assert(vstd::string::is_ascii("verify "));
    assert(vstd::string::is_ascii("run_verified"));
    assert(vstd::string::is_ascii("run "));
    lemma_ascii_bytes("run hello.ax");
    lemma_ascii_bytes("run_verified hello.axpkg");
    lemma_ascii_bytes("db");
    lemma_ascii_bytes("ls");
    lemma_ascii_bytes("cat ");
    lemma_ascii_bytes("write ");
    lemma_ascii_bytes("mkpkg ");
    lemma_ascii_bytes("verify ");
    lemma_ascii_bytes("run_verified");
    lemma_ascii_bytes("run ");
    let a = "run hello.ax".spec_bytes();
    let b = "run_verified hello.axpkg".spec_bytes();
    lemma_not_prefix(a, "db".spec_bytes(), 0);
    lemma_not_prefix(a, "ls".spec_bytes(), 0);
    lemma_not_prefix(a, "cat ".spec_bytes(), 0);
    lemma_not_prefix(a, "write ".spec_bytes(), 0);
    lemma_not_prefix(a, "mkpkg ".spec_bytes(), 0);
    lemma_not_prefix(a, "verify ".spec_bytes(), 0);
    lemma_not_prefix(a, "run_verified".spec_bytes(), 3);
    lemma_is_prefix(a, "run ".spec_bytes());
    lemma_not_prefix(b, "db".spec_bytes(), 0);
    lemma_not_prefix(b, "ls".spec_bytes(), 0);
    lemma_not_prefix(b, "cat ".spec_bytes(), 0);
    lemma_not_prefix(b, "write ".spec_bytes(), 0);
    lemma_not_prefix(b, "mkpkg ".spec_bytes(), 0);
    lemma_not_prefix(b, "verify ".spec_bytes(), 0);
    lemma_is_prefix(b, "run_verified".spec_bytes());
}

impl Pl73Pipeline {
    pub fn new() -> (p: Self)
        ensures
            p.shell.phase == ShellPhase::AwaitingBoot && p.shell.cmd_count == 0,
            p.shell.ipc_pending is None && p.shell.proof == SOVEREIGN_PROOF,
            p.exec_pd == (AxonExecPd { phase: ExecPhase::AwaitingBoot, exec_count: 0, reject_count: 0, proof: SOVEREIGN_PROOF }),
            p.requests == 0 && p.responses == 0,
    {
        Pl73Pipeline { shell: ShellPd::new(), exec_pd: AxonExecPd::new(), requests: 0, responses: 0 }
    }

    /// Boots the shell and the executor.
    pub fn boot(&mut self)
        requires
            old(self).shell.phase == ShellPhase::AwaitingBoot,
            old(self).shell.proof == SOVEREIGN_PROOF,
            old(self).exec_pd.phase == ExecPhase::AwaitingBoot,
            old(self).exec_pd.proof == SOVEREIGN_PROOF,
        ensures
            final(self).shell == (ShellPd { phase: ShellPhase::Ready, ..old(self).shell }),
            final(self).exec_pd == (AxonExecPd { phase: ExecPhase::Ready, ..old(self).exec_pd }),
            final(self).requests == old(self).requests && final(self).responses == old(self).responses,
    {
        self.shell.on_boot_signal().unwrap();
        self.exec_pd.on_boot_signal().unwrap();
    }

    /// Builds the request for `script` of kind `source` from Shell-PD with
    /// the next sequence number, and counts it.
    fn request(&mut self, script: &[u8], source: ScriptSource) -> (req: ExecRequest)
        requires
            old(self).requests < u64::MAX,
        ensures
            script_of(req) == clipped(script@),
            req.script_len <= MAX_SCRIPT_LEN,
            req.source == source,
            req.caller_pd == SHELL_CALLER,
            req.arpi_seq == old(self).requests + 1,
            *final(self) == (Pl73Pipeline { requests: (old(self).requests + 1) as u64, ..*old(self) }),
    {
        let mut req = ExecRequest::empty();
        let slen = if script.len() < MAX_SCRIPT_LEN { script.len() } else { MAX_SCRIPT_LEN };
        let mut i: usize = 0;
        while i < slen
            invariant
                slen <= MAX_SCRIPT_LEN,
                slen <= script@.len(),
                slen == script@.len() || slen == MAX_SCRIPT_LEN,
                0 <= i <= slen,
                req.script@.len() == MAX_SCRIPT_LEN,
                forall|k: int| 0 <= k < i ==> req.script@[k] == script@[k],
            decreases slen - i,
        {
            req.script[i] = script[i];
            i = i + 1;
        }
        assert(req.script@.subrange(0, slen as int) =~= clipped(script@));
        req.script_len = slen;
        req.source = source;
        req.caller_pd = SHELL_CALLER;
        req.arpi_seq = self.requests + 1;
        self.requests = self.requests + 1;
        req
    }

    /// Shell submits `run hello.ax`; AXON-Exec runs `script` as a plain
    /// `.ax` script with the bridge verdict `load`; the shell takes the
    /// response and is Ready again.
    pub fn run_ax(&mut self, script: &[u8], load: LoadResult) -> (resp: ExecResponse)
        requires
            old(self).shell.phase == ShellPhase::Ready,
            old(self).shell.proof == SOVEREIGN_PROOF,
            old(self).shell.cmd_count < u64::MAX,
            old(self).exec_pd.phase == ExecPhase::Ready,
            exec_has_room(old(self).exec_pd, refusal_of(SHELL_CALLER, ScriptSource::PlainAx, clipped(script@), load)),
            old(self).requests < u64::MAX,
            old(self).responses < u64::MAX,
        ensures
            executed(old(self).exec_pd, final(self).exec_pd, SHELL_CALLER, ScriptSource::PlainAx, clipped(script@),
                (old(self).requests + 1) as u64, load, resp),
            final(self).shell == (ShellPd {
                cmd_count: (old(self).shell.cmd_count + 1) as u64,
                phase: ShellPhase::Ready,
                ipc_pending: None,
                ..old(self).shell
            }),
            final(self).requests == old(self).requests + 1,
            final(self).responses == old(self).responses + 1,
    {
        proof {
            lemma_run_commands_route();
        }
        let route = self.shell.submit_cmd("run hello.ax".as_bytes()).unwrap();
        assert(route == CmdRoute::AxonBridge);
        let req = self.request(script, ScriptSource::PlainAx);
        let resp = self.exec_pd.execute(&req, load);
        self.shell.on_ipc_response().unwrap();
        self.responses = self.responses + 1;
        resp
    }

    /// Shell submits `run_verified hello.axpkg`; AXON-Exec checks and runs
    /// `script` as a package declaring `caps`, with the bridge verdict `load`.
    pub fn run_verified(&mut self, script: &[u8], caps: u32, load: LoadResult) -> (resp: ExecResponse)
        requires
            old(self).shell.phase == ShellPhase::Ready,
            old(self).shell.proof == SOVEREIGN_PROOF,
            old(self).shell.cmd_count < u64::MAX,
            old(self).exec_pd.phase == ExecPhase::Ready,
            exec_has_room(old(self).exec_pd, refusal_of(SHELL_CALLER, ScriptSource::AxPkg { caps }, clipped(script@), load)),
            old(self).requests < u64::MAX,
            old(self).responses < u64::MAX,
        ensures
            executed(old(self).exec_pd, final(self).exec_pd, SHELL_CALLER, ScriptSource::AxPkg { caps }, clipped(script@),
                (old(self).requests + 1) as u64, load, resp),
            final(self).shell == (ShellPd {
                cmd_count: (old(self).shell.cmd_count + 1) as u64,
                phase: ShellPhase::Ready,
                ipc_pending: None,
                ..old(self).shell
            }),
            final(self).requests == old(self).requests + 1,
            final(self).responses == old(self).responses + 1,
    {
        proof {
            lemma_run_commands_route();
        }
        let route = self.shell.submit_cmd("run_verified hello.axpkg".as_bytes()).unwrap();
        assert(route == CmdRoute::AxonBridge);
        let req = self.request(script, ScriptSource::AxPkg { caps });
        let resp = self.exec_pd.execute(&req, load);
        self.shell.on_ipc_response().unwrap();
        self.responses = self.responses + 1;
        resp
    }
}

impl Default for Pl73Pipeline {
    fn default() -> (p: Self)
        ensures
            p.shell.phase == ShellPhase::AwaitingBoot && p.shell.proof == SOVEREIGN_PROOF,
            p.exec_pd == (AxonExecPd { phase: ExecPhase::AwaitingBoot, exec_count: 0, reject_count: 0, proof: SOVEREIGN_PROOF }),
            p.requests == 0 && p.responses == 0,
    {
        Pl73Pipeline::new()
    }
}

/// A package never runs with a capability it did not declare: whenever a
/// package script is executed, every capability it uses was declared.
pub proof fn lemma_package_caps_declared(caps: u32, script: Seq<u8>, load: LoadResult)
    requires
        refusal_of(SHELL_CALLER, ScriptSource::AxPkg { caps }, script, load) is None,
    ensures
        contains(script, "awp ".spec_bytes()) ==> caps & CAP_AWP_SEND != 0,
        writes_db(script) ==> caps & CAP_DB_WRITE != 0,
{
}

/// Only Shell-PD gets scripts run: a request from any other PD is refused
/// as a capability violation whatever it carries.
pub proof fn lemma_only_shell_runs(caller: u8, source: ScriptSource, script: Seq<u8>, load: LoadResult)
    requires
        caller != SHELL_CALLER,
    ensures
        refusal_of(caller, source, script, load) == Some(ExecResult::CapViolation),
{
}

} // verus!
