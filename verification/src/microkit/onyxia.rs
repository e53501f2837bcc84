//! Onyxia browser PD of the Microkit build: tabs, page loads and the ARPi
//! trust indicator of the URL bar.
use vstd::prelude::*;
use crate::microkit::{op_code, op_of};

verus! {

pub const CH_HANIEL: u8 = 1;
pub const CH_NETWORK: u8 = 2;
pub const CH_EDISONDB: u8 = 3;
pub const BROWSER_OP_NAVIGATE: u8 = 0x01;
pub const BROWSER_OP_TAB_OPEN: u8 = 0x02;
pub const BROWSER_OP_TAB_CLOSE: u8 = 0x03;
pub const BROWSER_OP_RELOAD: u8 = 0x04;
pub const BROWSER_OP_BACK: u8 = 0x05;
/// Query the ARPi trust state.
pub const BROWSER_OP_TRUST: u8 = 0x06;
/// Trust of an AWP sovereign site.
pub const TRUST_SOVEREIGN: u8 = 80;
/// Trust of a verified site.
pub const TRUST_VERIFIED: u8 = 50;
pub const TRUST_UNVERIFIED: u8 = 0;

/// Tabs, page statistics and trust state of the browser.
pub struct OnyxiaBrowser {
    pub tabs_open: u32,
    pub pages_loaded: u64,
    pub awp_requests: u64,
    pub https_requests: u64,
    pub blocked: u64,
    /// Trust score of the active tab.
    pub current_trust: u8,
    /// The active tab shows an `awp://` page.
    pub current_awp: bool,
}

/// The trust indicator of the URL bar: sovereign for an AWP page trusted at
/// least 80, verified from 50, unverified below.
pub open spec fn indicator(trust: u8, is_awp: bool) -> &'static str {
    if is_awp && trust >= TRUST_SOVEREIGN {
        "✦"
    } else if trust >= TRUST_VERIFIED {
        "✓"
    } else {
        "⚠"
    }
}

/// What drawing the URL bar for `url` logs.
pub open spec fn url_bar_log(url: &'static str, trust: u8, is_awp: bool) -> Seq<&'static str> {
    seq!["Onyxia: URL bar [", indicator(trust, is_awp), "] ", url, "\n"]
}

/// What the browser logs when it starts.
pub open spec fn onyxia_init_log() -> Seq<&'static str> {
    seq![
        "Onyxia Browser PD: initializing\n",
        "Onyxia: sovereign browser — no WebKitGTK dependency\n",
        "Onyxia: KNOWN-BUG-002 RESOLVED\n",
        "Onyxia: black gap eliminated — no WebKitWebView in PD model\n",
        "Onyxia: KNOWN-BUG-003 RESOLVED\n",
        "Onyxia: GTK focus issue eliminated — no GTK in seL4 PD\n",
        "Onyxia: wiring HANIEL display surface\n",
        "Onyxia: HANIEL PRISM → CANVAS pipeline active\n",
        "Onyxia: 1280x720 ARGB8888 framebuffer connected\n",
        "Onyxia: AWP protocol handler initializing\n",
        "Onyxia: awp:// scheme registered\n",
        "Onyxia: AWP sovereign mesh routing via HERALD\n",
        "Onyxia: ARPi trust status bar initializing\n",
        "Onyxia: TrustGraph-Gate wired for real-time trust state\n",
        "Onyxia: trust indicators: ✦=sovereign ✓=verified ⚠=unverified\n",
        "Onyxia: EdisonDB session persistence wired\n",
        "Onyxia: session data at Personal tier\n",
        "Onyxia: password vault at Critical tier\n",
        "Onyxia: tab isolation model active\n",
        "Onyxia: each tab = isolated capability context\n",
        "Onyxia: tab crash isolation — seL4 capability boundary\n",
        "Onyxia: opening sovereign home tab\n",
        "Onyxia: navigating to awp://home\n",
        "Onyxia: awp://home — trust=100 indicator=✦\n",
        "Onyxia: HERALD STS gate: home bypasses threat scan\n",
        "Onyxia: ARPi status bar: ✦ AIEONYX Sovereign Home\n",
    ] + url_bar_log("awp://home", 100, true) + seq![
        "Onyxia Browser PD: READY\n",
    ]
}

/// The browser, status and log after a protected call with operation `op`.
pub open spec fn browser_step(s: OnyxiaBrowser, op: u8) -> (OnyxiaBrowser, u64, Seq<&'static str>) {
    if op == BROWSER_OP_NAVIGATE {
        if s.current_awp {
            (OnyxiaBrowser { awp_requests: (s.awp_requests + 1) as u64, current_trust: 90, pages_loaded: (s.pages_loaded + 1) as u64, ..s }, 0, Seq::empty())
        } else {
            (OnyxiaBrowser { https_requests: (s.https_requests + 1) as u64, current_trust: 60, pages_loaded: (s.pages_loaded + 1) as u64, ..s }, 0, Seq::empty())
        }
    } else if op == BROWSER_OP_TAB_OPEN {
        (OnyxiaBrowser { tabs_open: (s.tabs_open + 1) as u32, ..s }, 0, seq!["Onyxia: new tab opened — isolated capability context\n"])
    } else if op == BROWSER_OP_TAB_CLOSE {
        (OnyxiaBrowser { tabs_open: if s.tabs_open > 0 { (s.tabs_open - 1) as u32 } else { 0 }, ..s }, 0, Seq::empty())
    } else if op == BROWSER_OP_RELOAD {
        (OnyxiaBrowser { pages_loaded: (s.pages_loaded + 1) as u64, ..s }, 0, Seq::empty())
    } else if op == BROWSER_OP_BACK {
        (s, 0, Seq::empty())
    } else if op == BROWSER_OP_TRUST {
        (s, s.current_trust as u64, Seq::empty())
    } else {
        (s, 1, Seq::empty())
    }
}

/// The browser can serve a protected call with operation `op` without a
/// counter overflowing.
pub open spec fn browser_has_room(s: OnyxiaBrowser, op: u8) -> bool {
    &&& op == BROWSER_OP_NAVIGATE ==> s.pages_loaded < u64::MAX && s.awp_requests < u64::MAX && s.https_requests < u64::MAX
    &&& op == BROWSER_OP_TAB_OPEN ==> s.tabs_open < u32::MAX
    &&& op == BROWSER_OP_RELOAD ==> s.pages_loaded < u64::MAX
}

/// Draws the URL bar with its trust indicator, appending what it logs.
pub fn render_sovereign_url_bar(url: &'static str, trust: u8, is_awp: bool, log: &mut Vec<&'static str>)
    ensures
        final(log)@ == old(log)@ + url_bar_log(url, trust, is_awp),
{
    let ind: &'static str = if is_awp && trust >= TRUST_SOVEREIGN {
        "✦"
    } else if trust >= TRUST_VERIFIED {
        "✓"
    } else {
        "⚠"
    };
    log.push("Onyxia: URL bar [");
    log.push(ind);
    log.push("] ");
    log.push(url);
    log.push("\n");
    assert(log@ =~= old(log)@ + url_bar_log(url, trust, is_awp));
}

impl OnyxiaBrowser {
    /// No tab, nothing loaded.
    pub fn new() -> (s: Self)
        ensures
            s == (OnyxiaBrowser {
                tabs_open: 0,
                pages_loaded: 0,
                awp_requests: 0,
                https_requests: 0,
                blocked: 0,
                current_trust: 0,
                current_awp: false,
            }),
    {
        OnyxiaBrowser {
            tabs_open: 0,
            pages_loaded: 0,
            awp_requests: 0,
            https_requests: 0,
            blocked: 0,
            current_trust: 0,
            current_awp: false,
        }
    }

    /// Start-up: wires the browser and opens the sovereign home tab
    /// `awp://home`, fully trusted; returns the lines logged.
    pub fn init(&mut self) -> (log: Vec<&'static str>)
        requires
            old(self).awp_requests < u64::MAX,
            old(self).pages_loaded < u64::MAX,
        ensures
            *final(self) == (OnyxiaBrowser {
                tabs_open: 1,
                current_awp: true,
                current_trust: 100,
                awp_requests: (old(self).awp_requests + 1) as u64,
                pages_loaded: (old(self).pages_loaded + 1) as u64,
                ..*old(self)
            }),
            log@ == onyxia_init_log(),
    {
        let mut log: Vec<&'static str> = Vec::new();
        log.push("Onyxia Browser PD: initializing\n");
        log.push("Onyxia: sovereign browser — no WebKitGTK dependency\n");
        log.push("Onyxia: KNOWN-BUG-002 RESOLVED\n");
        log.push("Onyxia: black gap eliminated — no WebKitWebView in PD model\n");
        log.push("Onyxia: KNOWN-BUG-003 RESOLVED\n");
        log.push("Onyxia: GTK focus issue eliminated — no GTK in seL4 PD\n");
        log.push("Onyxia: wiring HANIEL display surface\n");
        log.push("Onyxia: HANIEL PRISM → CANVAS pipeline active\n");
        log.push("Onyxia: 1280x720 ARGB8888 framebuffer connected\n");
        log.push("Onyxia: AWP protocol handler initializing\n");
        log.push("Onyxia: awp:// scheme registered\n");
        log.push("Onyxia: AWP sovereign mesh routing via HERALD\n");
        log.push("Onyxia: ARPi trust status bar initializing\n");
        log.push("Onyxia: TrustGraph-Gate wired for real-time trust state\n");
        log.push("Onyxia: trust indicators: ✦=sovereign ✓=verified ⚠=unverified\n");
        log.push("Onyxia: EdisonDB session persistence wired\n");
        log.push("Onyxia: session data at Personal tier\n");
        log.push("Onyxia: password vault at Critical tier\n");
        log.push("Onyxia: tab isolation model active\n");
        log.push("Onyxia: each tab = isolated capability context\n");
        log.push("Onyxia: tab crash isolation — seL4 capability boundary\n");
        self.open_sovereign_home(&mut log);
        log.push("Onyxia Browser PD: READY\n");
        assert(log@ =~= onyxia_init_log());
        log
    }

    /// Opens the sovereign home tab.
    fn open_sovereign_home(&mut self, log: &mut Vec<&'static str>)
        requires
            old(self).awp_requests < u64::MAX,
            old(self).pages_loaded < u64::MAX,
        ensures
            *final(self) == (OnyxiaBrowser {
                tabs_open: 1,
                current_awp: true,
                current_trust: 100,
                awp_requests: (old(self).awp_requests + 1) as u64,
                pages_loaded: (old(self).pages_loaded + 1) as u64,
                ..*old(self)
            }),
            final(log)@ == old(log)@ + seq![
                "Onyxia: opening sovereign home tab\n",
                "Onyxia: navigating to awp://home\n",
                "Onyxia: awp://home — trust=100 indicator=✦\n",
                "Onyxia: HERALD STS gate: home bypasses threat scan\n",
                "Onyxia: ARPi status bar: ✦ AIEONYX Sovereign Home\n",
            ] + url_bar_log("awp://home", 100, true),
    {
        log.push("Onyxia: opening sovereign home tab\n");
        log.push("Onyxia: navigating to awp://home\n");
        self.tabs_open = 1;
        self.current_awp = true;
        self.current_trust = 100;
        self.awp_requests = self.awp_requests + 1;
        self.pages_loaded = self.pages_loaded + 1;
        log.push("Onyxia: awp://home — trust=100 indicator=✦\n");
        log.push("Onyxia: HERALD STS gate: home bypasses threat scan\n");
        log.push("Onyxia: ARPi status bar: ✦ AIEONYX Sovereign Home\n");
        render_sovereign_url_bar("awp://home", 100, true, log);
        assert(log@ =~= old(log)@ + seq![
                "Onyxia: opening sovereign home tab\n",
                "Onyxia: navigating to awp://home\n",
                "Onyxia: awp://home — trust=100 indicator=✦\n",
                "Onyxia: HERALD STS gate: home bypasses threat scan\n",
                "Onyxia: ARPi status bar: ✦ AIEONYX Sovereign Home\n",
            ] + url_bar_log("awp://home", 100, true));
    }

    /// A notification: a network event counts a page load; each known
    /// channel is logged.
    pub fn notified(&mut self, channel: u8) -> (log: Vec<&'static str>)
        requires
            channel == CH_NETWORK ==> old(self).pages_loaded < u64::MAX,
        ensures
            channel == CH_HANIEL ==> *final(self) == *old(self) && log@ == seq!["Onyxia: HANIEL display sync\n"],
            channel == CH_NETWORK ==> *final(self) == (OnyxiaBrowser { pages_loaded: (old(self).pages_loaded + 1) as u64, ..*old(self) })
                && log@ == seq!["Onyxia: network event\n"],
            channel == CH_EDISONDB ==> *final(self) == *old(self) && log@ == seq!["Onyxia: EdisonDB session sync\n"],
            channel != CH_HANIEL && channel != CH_NETWORK && channel != CH_EDISONDB ==> *final(self) == *old(self)
                && log@.len() == 0,
    {
        let mut log: Vec<&'static str> = Vec::new();
        if channel == CH_HANIEL {
            log.push("Onyxia: HANIEL display sync\n");
        } else if channel == CH_NETWORK {
            log.push("Onyxia: network event\n");
            self.pages_loaded = self.pages_loaded + 1;
        } else if channel == CH_EDISONDB {
            log.push("Onyxia: EdisonDB session sync\n");
        }
        proof {
            if channel == CH_HANIEL {
                assert(log@ =~= seq!["Onyxia: HANIEL display sync\n"]);
            } else if channel == CH_NETWORK {
                assert(log@ =~= seq!["Onyxia: network event\n"]);
            } else if channel == CH_EDISONDB {
                assert(log@ =~= seq!["Onyxia: EdisonDB session sync\n"]);
            }
        }
        log
    }

    /// A protected call: navigation loads a page (trust 90 on an AWP tab, 60
    /// otherwise); tabs open and close (never below zero); reload counts a
    /// page; back does nothing; the trust query answers the current trust.
    /// Those answer 0 (trust: the score); any other operation 1.
    pub fn protected(&mut self, channel: u8, msginfo: u64) -> (r: (u64, Vec<&'static str>))
        requires
            browser_has_room(*old(self), op_code(msginfo)),
        ensures
            (*final(self), r.0, r.1@) == browser_step(*old(self), op_code(msginfo)),
    {
        let op = op_of(msginfo);
        let mut log: Vec<&'static str> = Vec::new();
        let status: u64 = if op == BROWSER_OP_NAVIGATE {
            if self.current_awp {
                self.awp_requests = self.awp_requests + 1;
                self.current_trust = 90;
            } else {
                self.https_requests = self.https_requests + 1;
                self.current_trust = 60;
            }
            self.pages_loaded = self.pages_loaded + 1;
            0
        } else if op == BROWSER_OP_TAB_OPEN {
            self.tabs_open = self.tabs_open + 1;
            log.push("Onyxia: new tab opened — isolated capability context\n");
            0
        } else if op == BROWSER_OP_TAB_CLOSE {
            if self.tabs_open > 0 {
                self.tabs_open = self.tabs_open - 1;
            }
            0
        } else if op == BROWSER_OP_RELOAD {
            self.pages_loaded = self.pages_loaded + 1;
            0
        } else if op == BROWSER_OP_BACK {
            0
        } else if op == BROWSER_OP_TRUST {
            self.current_trust as u64
        } else {
            1
        };
        assert(log@ =~= browser_step(*old(self), op).2);
        (status, log)
    }
}

} // verus!
