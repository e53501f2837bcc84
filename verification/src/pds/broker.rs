//! ARPi broker bookkeeping for live inter-PD messages, and the three proven
//! message paths: Shell to EdisonDB, Onyxia to HANIEL, Desktop to EdisonDB.
//!
//! The five-layer ARPi bind (schema check, identity, scope, anomaly score,
//! header signature) is done by the ARPi IPC layer outside this crate; the
//! broker receives its outcome and keeps the counts, builds the message and
//! drives the PDs on each path.
use vstd::prelude::*;
use vstd::string::StringSliceAdditionalSpecFns;
use crate::bytes::{lemma_ascii_bytes, lemma_is_prefix};
use crate::common::AXON_PROOF;
use crate::pds::edisondb::{can_serve, serve, DataTier, EdbPhase, EdbRequest, EdbResponse, EdisonDbPd};
use crate::pds::onyxia::{navigated, url_route, NavState, OnyxiaPd, OnyxiaPhase, UrlRoute};
use crate::pds::shell::{route_of, CmdRoute, ShellPd, ShellPhase};

verus! {

pub const SOVEREIGN_PROOF: u64 = AXON_PROOF;
/// Size of the ARPi provenance header.
pub const ARPI_HEADER_SIZE: usize = 78;

/// ARPi schema byte: database read.
pub const SCHEMA_EDB_READ: u8 = 0x01;
/// ARPi schema byte: database write.
pub const SCHEMA_EDB_WRITE: u8 = 0x02;
/// ARPi schema byte: render request.
pub const SCHEMA_RENDER: u8 = 0x04;
/// ARPi schema byte: AWP send.
pub const SCHEMA_AWP_SEND: u8 = 0x08;

/// The identity a PD presents to the ARPi bind: its Ed25519 public key, a
/// signature and a nonce, as raw bytes.
#[derive(Clone, Copy, Debug)]
pub struct IdentityProof {
    pub pubkey: [u8; 32],
    pub sig: [u8; 64],
    pub nonce: [u8; 8],
}

/// The two identities of a mutually authenticated session.
#[derive(Clone, Copy, Debug)]
pub struct MutualAuthSession {
    pub local: IdentityProof,
    pub remote: IdentityProof,
}

/// The public key of PD `pd_id`: the PD id, then "AS", then zeros.
pub open spec fn identity_key(pd_id: u8) -> Seq<u8> {
    Seq::new(32, |i: int| if i == 0 { pd_id } else if i == 1 { 0x41u8 } else if i == 2 { 0x53u8 } else { 0u8 })
}

/// The signature of PD `pd_id`: the Ed25519 sentinel 0xED, the PD id, zeros.
pub open spec fn identity_sig(pd_id: u8) -> Seq<u8> {
    Seq::new(64, |i: int| if i == 0 { 0xEDu8 } else if i == 1 { pd_id } else { 0u8 })
}

/// The nonce of PD `pd_id`: the PD id, then 'A', then zeros.
pub open spec fn identity_nonce(pd_id: u8) -> Seq<u8> {
    Seq::new(8, |i: int| if i == 0 { pd_id } else if i == 1 { 0x41u8 } else { 0u8 })
}

/// `id` is the sovereign identity of PD `pd_id`.
pub open spec fn is_sovereign_identity(id: IdentityProof, pd_id: u8) -> bool {
    id.pubkey@ == identity_key(pd_id) && id.sig@ == identity_sig(pd_id) && id.nonce@ == identity_nonce(pd_id)
}

/// The sovereign identity of PD `pd_id`, as the commissioning ceremony
/// issues it.
pub fn sovereign_identity(pd_id: u8) -> (r: IdentityProof)
    ensures
        is_sovereign_identity(r, pd_id),
{
    let mut pubkey = [0u8; 32];
    pubkey[0] = pd_id;
    pubkey[1] = 0x41;
    pubkey[2] = 0x53;
    let mut sig = [0u8; 64];
    sig[0] = 0xED;
    sig[1] = pd_id;
    let mut nonce = [0u8; 8];
    nonce[0] = pd_id;
    nonce[1] = 0x41;
    assert(pubkey@ =~= identity_key(pd_id));
    assert(sig@ =~= identity_sig(pd_id));
    assert(nonce@ =~= identity_nonce(pd_id));
    IdentityProof { pubkey, sig, nonce }
}

/// A mutually authenticated session from PD `src_pd` to PD `dst_pd`.
pub fn sovereign_session(src_pd: u8, dst_pd: u8) -> (r: MutualAuthSession)
    ensures
        is_sovereign_identity(r.local, src_pd),
        is_sovereign_identity(r.remote, dst_pd),
{
    MutualAuthSession { local: sovereign_identity(src_pd), remote: sovereign_identity(dst_pd) }
}

/// Why an ARPi route failed.
#[derive(Debug, Clone, Copy, PartialEq, Eq, Structural)]
pub enum ArpiError {
    /// The schema byte or the message does not fit its schema.
    SchemaViolation,
    /// A later bind layer (identity, scope, anomaly, signature) refused.
    BindRefused,
}

/// The outcome of the ARPi layer on one route request.
#[derive(Clone, Copy)]
pub enum BindOutcome {
    /// The schema byte was refused before any bind was attempted.
    SchemaRejected(ArpiError),
    /// The bind was attempted and refused.
    Refused(ArpiError),
    /// The bind passed; the provenance header in wire form.
    Bound([u8; ARPI_HEADER_SIZE]),
}

/// The header begins with the ARPi magic `"ARPi"`.
pub open spec fn arpi_magic(h: Seq<u8>) -> bool {
    h.len() >= 4 && h[0] == 0x41 && h[1] == 0x52 && h[2] == 0x50 && h[3] == 0x69
}

/// A cross-PD message with its provenance header.
pub struct ArpiMessage {
    /// 78-byte ARPi provenance header.
    pub header: [u8; ARPI_HEADER_SIZE],
    pub src_pd: u8,
    pub dst_pd: u8,
    pub label: u32,
    /// Command or response data, up to 64 bytes.
    pub payload: [u8; 64],
    pub payload_len: usize,
}

/// The first 64 bytes of a payload: what a message carries.
pub open spec fn carried(payload: Seq<u8>) -> Seq<u8> {
    if payload.len() <= 64 { payload } else { payload.take(64) }
}

impl ArpiMessage {
    /// A message from `src_pd` to `dst_pd` under `header`, carrying at most
    /// the first 64 bytes of `payload`.
    pub fn new(header: [u8; ARPI_HEADER_SIZE], src_pd: u8, dst_pd: u8, label: u32, payload: &[u8]) -> (m: Self)
        ensures
            m.header == header,
            m.src_pd == src_pd && m.dst_pd == dst_pd && m.label == label,
            m.payload_len == carried(payload@).len(),
            m.payload@.take(m.payload_len as int) == carried(payload@),
            forall|i: int| m.payload_len <= i < 64 ==> m.payload@[i] == 0,
    {
        let mut buf = [0u8; 64];
        let len = if payload.len() < 64 { payload.len() } else { 64 };
        let mut i: usize = 0;
        while i < len
            invariant
                len <= 64,
                len <= payload@.len(),
                len == carried(payload@).len(),
                0 <= i <= len,
                buf@.len() == 64,
                forall|k: int| 0 <= k < i ==> buf@[k] == payload@[k],
                forall|k: int| i <= k < 64 ==> buf@[k] == 0,
            decreases len - i,
        {
            buf[i] = payload[i];
            i = i + 1;
        }
        assert(buf@.take(len as int) =~= carried(payload@));
        ArpiMessage { header, src_pd, dst_pd, label, payload: buf, payload_len: len }
    }

    /// The header starts with the ARPi magic.
    pub fn header_valid(&self) -> (r: bool)
        ensures
            r == arpi_magic(self.header@),
    {
        self.header[0] == 0x41 && self.header[1] == 0x52 && self.header[2] == 0x50 && self.header[3] == 0x69
    }
}

/// The live ARPi broker: counts binds and builds provenance-stamped messages.
pub struct ArpiBrokerLive {
    pub bind_count: u64,
    pub pass_count: u64,
    pub fail_count: u64,
    pub proof: u64,
    /// Capability-token sequence, advanced on every route.
    pub seq: u32,
}

/// The broker can take one more route without a counter overflowing.
pub open spec fn broker_has_room(b: ArpiBrokerLive) -> bool {
    b.proof == SOVEREIGN_PROOF && b.bind_count < u64::MAX && b.pass_count < u64::MAX && b.fail_count < u64::MAX
}

/// The broker after a route with outcome `bind`.
pub open spec fn routed(b: ArpiBrokerLive, bind: BindOutcome) -> ArpiBrokerLive {
    let b1 = ArpiBrokerLive { bind_count: (b.bind_count + 1) as u64, seq: b.seq.wrapping_add(1), ..b };
    match bind {
        BindOutcome::SchemaRejected(_) => ArpiBrokerLive { fail_count: (b.fail_count + 1) as u64, ..b1 },
        BindOutcome::Refused(_) => ArpiBrokerLive { fail_count: (b.fail_count + 1) as u64, ..b1 },
        BindOutcome::Bound(_) => ArpiBrokerLive { pass_count: (b.pass_count + 1) as u64, ..b1 },
    }
}

/// The error a route with outcome `bind` gives, if any.
pub open spec fn route_error(bind: BindOutcome) -> Option<ArpiError> {
    match bind {
        BindOutcome::SchemaRejected(e) => Some(e),
        BindOutcome::Refused(e) => Some(e),
        BindOutcome::Bound(_) => None,
    }
}

impl ArpiBrokerLive {
    pub fn new() -> (b: Self)
        ensures
            b == (ArpiBrokerLive { bind_count: 0, pass_count: 0, fail_count: 0, proof: SOVEREIGN_PROOF, seq: 0 }),
    {
        ArpiBrokerLive { bind_count: 0, pass_count: 0, fail_count: 0, proof: SOVEREIGN_PROOF, seq: 0 }
    }

    /// Routes a message from `src_pd` to `dst_pd` given the ARPi outcome
    /// `bind`: every route is counted and advances the token sequence; a
    /// schema refusal or a refused bind is counted as a failure, a passed
    /// bind as a pass, and yields the message under the bind's header.
    pub fn route(&mut self, src_pd: u8, dst_pd: u8, label: u32, payload: &[u8], bind: BindOutcome) -> (r: Result<ArpiMessage, ArpiError>)
        requires
            broker_has_room(*old(self)),
        ensures
            *final(self) == routed(*old(self), bind),
            match bind {
                BindOutcome::Bound(h) => r matches Ok(m) && m.header == h && m.src_pd == src_pd && m.dst_pd == dst_pd
                    && m.label == label && m.payload_len == carried(payload@).len()
                    && m.payload@.take(m.payload_len as int) == carried(payload@),
                BindOutcome::SchemaRejected(e) => r == Err::<ArpiMessage, ArpiError>(e),
                BindOutcome::Refused(e) => r == Err::<ArpiMessage, ArpiError>(e),
            },
    {
        self.assert_proof();
        self.bind_count = self.bind_count + 1;
        self.seq = self.seq.wrapping_add(1);
        match bind {
            BindOutcome::SchemaRejected(e) => {
                self.fail_count = self.fail_count + 1;
                Err(e)
            },
            BindOutcome::Refused(e) => {
                self.fail_count = self.fail_count + 1;
                Err(e)
            },
            BindOutcome::Bound(h) => {
                self.pass_count = self.pass_count + 1;
                Ok(ArpiMessage::new(h, src_pd, dst_pd, label, payload))
            },
        }
    }

    fn assert_proof(&self)
        requires
            self.proof == SOVEREIGN_PROOF,
    {
    }
}

impl Default for ArpiBrokerLive {
    fn default() -> (b: Self)
        ensures
            b == (ArpiBrokerLive { bind_count: 0, pass_count: 0, fail_count: 0, proof: SOVEREIGN_PROOF, seq: 0 }),
    {
        ArpiBrokerLive::new()
    }
}

/// A passed bind carries a header with the ARPi magic.
pub open spec fn bind_well_formed(bind: BindOutcome) -> bool {
    bind matches BindOutcome::Bound(h) ==> arpi_magic(h@)
}

/// The shell command of path A is a database command.
proof fn lemma_db_put_routes()
    ensures
        route_of("db put x 42".spec_bytes()) == CmdRoute::DataTier,
        "db put x 42".spec_bytes().len() == 11,
{
    reveal_strlit("db put x 42");
    reveal_strlit("db");
    assert(vstd::string::is_ascii("db put x 42"));
    assert(vstd::string::is_ascii("db"));
    lemma_ascii_bytes("db put x 42");
    lemma_ascii_bytes("db");
    lemma_is_prefix("db put x 42".spec_bytes(), "db".spec_bytes());
}

/// Path A: Shell `db put x 42` through ARPi to EdisonDB.
pub struct PathA {
    pub shell: ShellPd,
    pub edb: EdisonDbPd,
    pub broker: ArpiBrokerLive,
}

impl PathA {
    pub fn new() -> (p: Self)
        ensures
            p.shell.phase == ShellPhase::AwaitingBoot && p.shell.cmd_count == 0 && p.shell.proof == SOVEREIGN_PROOF,
            p.shell.ipc_pending is None,
            p.edb == (EdisonDbPd { phase: EdbPhase::AwaitingBoot, entries: 0, reads: 0, writes: 0, proof: SOVEREIGN_PROOF, arpi_auths: 0 }),
            p.broker == (ArpiBrokerLive { bind_count: 0, pass_count: 0, fail_count: 0, proof: SOVEREIGN_PROOF, seq: 0 }),
    {
        PathA { shell: ShellPd::new(), edb: EdisonDbPd::new(), broker: ArpiBrokerLive::new() }
    }

    /// Boots the shell and the database.
    pub fn boot(&mut self)
        requires
            old(self).shell.phase == ShellPhase::AwaitingBoot && old(self).shell.proof == SOVEREIGN_PROOF,
            old(self).edb.phase == EdbPhase::AwaitingBoot && old(self).edb.proof == SOVEREIGN_PROOF,
        ensures
            final(self).shell == (ShellPd { phase: ShellPhase::Ready, ..old(self).shell }),
            final(self).edb == (EdisonDbPd { phase: EdbPhase::Ready, ..old(self).edb }),
            final(self).broker == old(self).broker,
    {
        self.shell.on_boot_signal().unwrap();
        self.edb.on_boot_signal().unwrap();
    }

    /// `db put x 42` end to end: the shell routes it to the database, ARPi
    /// binds Shell to EdisonDB (outcome `bind`), and on a pass the database
    /// serves an authenticated Personal write and the shell takes the answer.
    /// On a failed bind the error is returned and the shell still awaits it.
    pub fn execute_db_put(&mut self, bind: BindOutcome) -> (r: Result<EdbResponse, ArpiError>)
        requires
            old(self).shell.phase == ShellPhase::Ready,
            old(self).shell.proof == SOVEREIGN_PROOF,
            old(self).shell.cmd_count < u64::MAX,
            broker_has_room(old(self).broker),
            bind_well_formed(bind),
            old(self).edb.phase == EdbPhase::Ready ==> can_serve(old(self).edb),
        ensures
            final(self).broker == routed(old(self).broker, bind),
            route_error(bind) matches Some(e) ==> r == Err::<EdbResponse, ArpiError>(e)
                && final(self).edb == old(self).edb
                && final(self).shell == (ShellPd {
                    cmd_count: (old(self).shell.cmd_count + 1) as u64,
                    phase: ShellPhase::AwaitingIpc,
                    ipc_pending: Some(CmdRoute::DataTier),
                    ..old(self).shell
                }),
            route_error(bind) is None ==> {
                let w = EdbRequest::Write { tier: DataTier::Personal };
                &&& final(self).shell == (ShellPd {
                    cmd_count: (old(self).shell.cmd_count + 1) as u64,
                    phase: ShellPhase::Ready,
                    ipc_pending: None,
                    ..old(self).shell
                })
                &&& old(self).edb.phase == EdbPhase::Ready ==> r == Ok::<EdbResponse, ArpiError>(serve(old(self).edb, w).1)
                    && final(self).edb == serve(old(self).edb, w).0
                &&& old(self).edb.phase != EdbPhase::Ready ==> r == Ok::<EdbResponse, ArpiError>(EdbResponse::Denied)
                    && final(self).edb == old(self).edb
            },
    {
        proof {
            lemma_db_put_routes();
        }
        let route = self.shell.submit_cmd("db put x 42".as_bytes()).unwrap();
        assert(route == CmdRoute::DataTier);
        let msg = match self.broker.route(0x40, 0x41, 0xC002, "put x 42".as_bytes(), bind) {
            Ok(m) => m,
            Err(e) => {
                return Err(e);
            },
        };
        let header_ok = msg.header_valid();
        assert(header_ok);
        let resp = self.edb.handle_request(EdbRequest::Write { tier: DataTier::Personal }, true);
        self.shell.on_ipc_response().unwrap();
        Ok(resp)
    }
}

/// The URL of path B is an `awp://` page.
pub proof fn lemma_home_url_routes()
    ensures
        url_route("awp://aieonyx".spec_bytes()) == UrlRoute::Awp,
        "awp://aieonyx".spec_bytes().len() == 13,
{
    reveal_strlit("awp://aieonyx");
    reveal_strlit("awp://");
    assert(vstd::string::is_ascii("awp://aieonyx"));
    assert(vstd::string::is_ascii("awp://"));
    lemma_ascii_bytes("awp://aieonyx");
    lemma_ascii_bytes("awp://");
    lemma_is_prefix("awp://aieonyx".spec_bytes(), "awp://".spec_bytes());
}

/// Path B: Onyxia `awp://aieonyx` through ARPi to HANIEL.
pub struct PathB {
    pub onyxia: OnyxiaPd,
    pub broker: ArpiBrokerLive,
    /// HANIEL has rendered the page.
    pub rendered: bool,
}

impl PathB {
    pub fn new() -> (p: Self)
        ensures
            p.onyxia.phase == OnyxiaPhase::AwaitingBoot && p.onyxia.proof == SOVEREIGN_PROOF,
            p.onyxia.nav_count == 0 && p.onyxia.blocked == 0,
            p.onyxia.nav_state == NavState::NewTab && p.onyxia.current_route == UrlRoute::NewTab,
            p.broker == (ArpiBrokerLive { bind_count: 0, pass_count: 0, fail_count: 0, proof: SOVEREIGN_PROOF, seq: 0 }),
            !p.rendered,
    {
        PathB { onyxia: OnyxiaPd::new(), broker: ArpiBrokerLive::new(), rendered: false }
    }

    /// Boots the browser.
    pub fn boot(&mut self)
        requires
            old(self).onyxia.phase == OnyxiaPhase::AwaitingBoot && old(self).onyxia.proof == SOVEREIGN_PROOF,
        ensures
            final(self).onyxia == (OnyxiaPd { phase: OnyxiaPhase::Ready, ..old(self).onyxia }),
            final(self).broker == old(self).broker,
            final(self).rendered == old(self).rendered,
    {
        self.onyxia.on_boot_signal().unwrap();
    }

    /// Navigates to `awp://aieonyx`, binds Onyxia to HANIEL through ARPi
    /// (outcome `bind`) and, on a pass, marks the page rendered and completes
    /// the navigation. A browser that is not Ready gives `SchemaViolation`
    /// without routing.
    pub fn navigate_awp(&mut self, bind: BindOutcome) -> (r: Result<UrlRoute, ArpiError>)
        requires
            old(self).onyxia.phase == OnyxiaPhase::Ready ==> old(self).onyxia.proof == SOVEREIGN_PROOF
                && old(self).onyxia.nav_count < u64::MAX,
            broker_has_room(old(self).broker),
            bind_well_formed(bind),
        ensures
            old(self).onyxia.phase != OnyxiaPhase::Ready ==> r == Err::<UrlRoute, ArpiError>(ArpiError::SchemaViolation)
                && *final(self) == *old(self),
            old(self).onyxia.phase == OnyxiaPhase::Ready ==> {
                &&& final(self).broker == routed(old(self).broker, bind)
                &&& route_error(bind) matches Some(e) ==> r == Err::<UrlRoute, ArpiError>(e)
                    && final(self).onyxia == navigated(old(self).onyxia, UrlRoute::Awp)
                    && final(self).rendered == old(self).rendered
                &&& route_error(bind) is None ==> r == Ok::<UrlRoute, ArpiError>(UrlRoute::Awp)
                    && final(self).rendered
                    && final(self).onyxia == (OnyxiaPd {
                        nav_state: NavState::Loaded,
                        phase: OnyxiaPhase::Ready,
                        ..navigated(old(self).onyxia, UrlRoute::Awp)
                    })
            },
    {
        proof {
            lemma_home_url_routes();
        }
        let route = match self.onyxia.navigate("awp://aieonyx".as_bytes()) {
            Ok(r) => r,
            Err(_) => {
                return Err(ArpiError::SchemaViolation);
            },
        };
        assert(route == UrlRoute::Awp);
        let msg = match self.broker.route(0x42, 0x20, 0xB030, "awp://aieonyx".as_bytes(), bind) {
            Ok(m) => m,
            Err(e) => {
                return Err(e);
            },
        };
        let header_ok = msg.header_valid();
        assert(header_ok);
        self.rendered = true;
        match self.onyxia.on_render_complete() {
            Ok(()) => {},
            Err(_) => {
                return Err(ArpiError::SchemaViolation);
            },
        }
        Ok(route)
    }
}

/// Path C: Phoenix-Desktop queries the EdisonDB entry count through ARPi.
pub struct PathC {
    pub edb: EdisonDbPd,
    pub broker: ArpiBrokerLive,
}

impl PathC {
    pub fn new() -> (p: Self)
        ensures
            p.edb == (EdisonDbPd { phase: EdbPhase::AwaitingBoot, entries: 0, reads: 0, writes: 0, proof: SOVEREIGN_PROOF, arpi_auths: 0 }),
            p.broker == (ArpiBrokerLive { bind_count: 0, pass_count: 0, fail_count: 0, proof: SOVEREIGN_PROOF, seq: 0 }),
    {
        PathC { edb: EdisonDbPd::new(), broker: ArpiBrokerLive::new() }
    }

    /// Boots the database.
    pub fn boot(&mut self)
        requires
            old(self).edb.phase == EdbPhase::AwaitingBoot && old(self).edb.proof == SOVEREIGN_PROOF,
        ensures
            final(self).edb == (EdisonDbPd { phase: EdbPhase::Ready, ..old(self).edb }),
            final(self).broker == old(self).broker,
    {
        self.edb.on_boot_signal().unwrap();
    }

    /// Binds Desktop to EdisonDB through ARPi (outcome `bind`) and, on a
    /// pass, asks the database for its entry count.
    pub fn query_status(&mut self, bind: BindOutcome) -> (r: Result<EdbResponse, ArpiError>)
        requires
            broker_has_room(old(self).broker),
            bind_well_formed(bind),
            old(self).edb.phase == EdbPhase::Ready ==> can_serve(old(self).edb),
        ensures
            final(self).broker == routed(old(self).broker, bind),
            route_error(bind) matches Some(e) ==> r == Err::<EdbResponse, ArpiError>(e) && final(self).edb == old(self).edb,
            route_error(bind) is None && old(self).edb.phase == EdbPhase::Ready
                ==> r == Ok::<EdbResponse, ArpiError>(serve(old(self).edb, EdbRequest::EntryCount).1)
                && final(self).edb == serve(old(self).edb, EdbRequest::EntryCount).0,
            route_error(bind) is None && old(self).edb.phase != EdbPhase::Ready
                ==> r == Ok::<EdbResponse, ArpiError>(EdbResponse::Denied) && final(self).edb == old(self).edb,
    {
        let msg = match self.broker.route(0x30, 0x41, 0xC001, "entry_count".as_bytes(), bind) {
            Ok(m) => m,
            Err(e) => {
                return Err(e);
            },
        };
        let header_ok = msg.header_valid();
        assert(header_ok);
        let resp = self.edb.handle_request(EdbRequest::EntryCount, true);
        Ok(resp)
    }
}

/// Every route is counted once, as a pass or as a failure (a schema refusal
/// is a failure): passes plus failures grow by one with every bind, so they
/// never exceed binds, and equal them when they start that way.
pub proof fn lemma_route_accounting(b: ArpiBrokerLive, bind: BindOutcome)
    requires
        b.pass_count + b.fail_count <= b.bind_count,
        broker_has_room(b),
    ensures
        routed(b, bind).pass_count + routed(b, bind).fail_count == b.pass_count + b.fail_count + 1,
        routed(b, bind).pass_count + routed(b, bind).fail_count <= routed(b, bind).bind_count,
        routed(b, bind).bind_count == b.bind_count + 1,
        routed(b, bind).proof == b.proof,
{
}

} // verus!
