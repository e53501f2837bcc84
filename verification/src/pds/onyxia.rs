//! Onyxia browser protection domain: navigates `awp://` pages, hands
//! `https://` to the legacy bridge and blocks cleartext `http://`.
use vstd::prelude::*;
use vstd::string::StringSliceAdditionalSpecFns;
use crate::bytes::{has_prefix, starts_with};
use crate::common::{PdId, AXON_PROOF};

verus! {

pub const ONYXIA_PD_ID: u8 = 0x42;
pub const SOVEREIGN_PROOF: u64 = AXON_PROOF;
pub const MAX_URL_LEN: usize = 512;

/// Where a URL is sent.
#[derive(Debug, Clone, Copy, PartialEq, Eq, Structural)]
pub enum UrlRoute {
    /// `awp://`: sovereign page rendered by HANIEL.
    Awp,
    /// `https://`: legacy bridge through the AWP PD.
    HttpsLegacy,
    /// `http://`: cleartext, refused.
    Blocked,
    /// Empty URL: the sovereign new-tab page.
    NewTab,
}

/// The route of a URL: empty is a new tab, then by scheme; an unknown scheme
/// is treated as an `awp://` path.
pub open spec fn url_route(url: Seq<u8>) -> UrlRoute {
    if url.len() == 0 {
        UrlRoute::NewTab
    } else if starts_with(url, "awp://".spec_bytes()) {
        UrlRoute::Awp
    } else if starts_with(url, "https://".spec_bytes()) {
        UrlRoute::HttpsLegacy
    } else if starts_with(url, "http://".spec_bytes()) {
        UrlRoute::Blocked
    } else {
        UrlRoute::Awp
    }
}

/// Routes a URL by the sovereign policy.
pub fn route_url(url: &[u8]) -> (r: UrlRoute)
    ensures
        r == url_route(url@),
{
    if url.len() == 0 {
        return UrlRoute::NewTab;
    }
    if has_prefix(url, "awp://".as_bytes()) {
        return UrlRoute::Awp;
    }
    if has_prefix(url, "https://".as_bytes()) {
        return UrlRoute::HttpsLegacy;
    }
    if has_prefix(url, "http://".as_bytes()) {
        return UrlRoute::Blocked;
    }
    UrlRoute::Awp
}

/// State of the current navigation.
#[derive(Debug, Clone, Copy, PartialEq, Eq, Structural)]
pub enum NavState {
    NewTab,
    /// IPC in flight to HANIEL or AWP.
    Navigating,
    /// HANIEL has rendered the page.
    Loaded,
    /// Refused by the URL policy.
    Blocked,
    Error,
}

/// Phase of the browser PD.
#[derive(Debug, Clone, Copy, PartialEq, Eq, Structural)]
pub enum OnyxiaPhase {
    AwaitingBoot,
    Ready,
    Navigating,
    Faulted,
}

/// The browser protection domain.
pub struct OnyxiaPd {
    pub phase: OnyxiaPhase,
    pub nav_state: NavState,
    pub nav_count: u64,
    pub blocked: u64,
    pub proof: u64,
    pub current_route: UrlRoute,
}

/// The browser after navigating to a URL with route `route` (not Blocked).
pub open spec fn navigated(pd: OnyxiaPd, route: UrlRoute) -> OnyxiaPd {
    OnyxiaPd {
        nav_count: (pd.nav_count + 1) as u64,
        current_route: route,
        phase: OnyxiaPhase::Navigating,
        nav_state: NavState::Navigating,
        ..pd
    }
}

/// The browser after refusing a cleartext URL.
pub open spec fn refused(pd: OnyxiaPd) -> OnyxiaPd {
    OnyxiaPd { blocked: (pd.blocked + 1) as u64, nav_state: NavState::Blocked, ..pd }
}

impl OnyxiaPd {
    pub fn new() -> (pd: Self)
        ensures
            pd == (OnyxiaPd {
                phase: OnyxiaPhase::AwaitingBoot,
                nav_state: NavState::NewTab,
                nav_count: 0,
                blocked: 0,
                proof: SOVEREIGN_PROOF,
                current_route: UrlRoute::NewTab,
            }),
    {
        OnyxiaPd {
            phase: OnyxiaPhase::AwaitingBoot,
            nav_state: NavState::NewTab,
            nav_count: 0,
            blocked: 0,
            proof: SOVEREIGN_PROOF,
            current_route: UrlRoute::NewTab,
        }
    }

    /// Boot signal: moves AwaitingBoot to Ready; refused in any other phase.
    pub fn on_boot_signal(&mut self) -> (r: Result<(), &'static str>)
        requires
            old(self).phase == OnyxiaPhase::AwaitingBoot ==> old(self).proof == SOVEREIGN_PROOF,
        ensures
            old(self).phase != OnyxiaPhase::AwaitingBoot ==> r == Err::<(), &'static str>("Onyxia-PD: BOOT_SIGNAL in wrong phase")
                && *final(self) == *old(self),
            old(self).phase == OnyxiaPhase::AwaitingBoot ==> r == Ok::<(), &'static str>(())
                && *final(self) == (OnyxiaPd { phase: OnyxiaPhase::Ready, ..*old(self) }),
    {
        if self.phase != OnyxiaPhase::AwaitingBoot {
            return Err("Onyxia-PD: BOOT_SIGNAL in wrong phase");
        }
        self.assert_proof();
        self.phase = OnyxiaPhase::Ready;
        Ok(())
    }

    /// Navigates to `url` in the Ready phase. A cleartext URL is refused and
    /// counted as blocked; any other starts a navigation on its route.
    pub fn navigate(&mut self, url: &[u8]) -> (r: Result<UrlRoute, &'static str>)
        requires
            old(self).phase == OnyxiaPhase::Ready && url@.len() <= MAX_URL_LEN ==> old(self).proof == SOVEREIGN_PROOF
                && (url_route(url@) == UrlRoute::Blocked ==> old(self).blocked < u64::MAX)
                && (url_route(url@) != UrlRoute::Blocked ==> old(self).nav_count < u64::MAX),
        ensures
            old(self).phase != OnyxiaPhase::Ready ==> r == Err::<UrlRoute, &'static str>("Onyxia-PD: not in Ready phase")
                && *final(self) == *old(self),
            old(self).phase == OnyxiaPhase::Ready && url@.len() > MAX_URL_LEN
                ==> r == Err::<UrlRoute, &'static str>("Onyxia-PD: URL too long") && *final(self) == *old(self),
            old(self).phase == OnyxiaPhase::Ready && url@.len() <= MAX_URL_LEN && url_route(url@) == UrlRoute::Blocked
                ==> r == Err::<UrlRoute, &'static str>("Onyxia-PD: cleartext http:// blocked by sovereign policy")
                && *final(self) == refused(*old(self)),
            old(self).phase == OnyxiaPhase::Ready && url@.len() <= MAX_URL_LEN && url_route(url@) != UrlRoute::Blocked
                ==> r == Ok::<UrlRoute, &'static str>(url_route(url@)) && *final(self) == navigated(*old(self), url_route(url@)),
    {
        if self.phase != OnyxiaPhase::Ready {
            return Err("Onyxia-PD: not in Ready phase");
        }
        if url.len() > MAX_URL_LEN {
            return Err("Onyxia-PD: URL too long");
        }
        self.assert_proof();
        let route = route_url(url);
        match route {
            UrlRoute::Blocked => {
                self.blocked = self.blocked + 1;
                self.nav_state = NavState::Blocked;
                Err("Onyxia-PD: cleartext http:// blocked by sovereign policy")
            },
            r => {
                self.nav_count = self.nav_count + 1;
                self.current_route = r;
                self.phase = OnyxiaPhase::Navigating;
                self.nav_state = NavState::Navigating;
                Ok(r)
            },
        }
    }

    /// HANIEL has rendered the page: the navigation is Loaded and the PD Ready.
    pub fn on_render_complete(&mut self) -> (r: Result<(), &'static str>)
        ensures
            old(self).phase != OnyxiaPhase::Navigating ==> r == Err::<(), &'static str>("Onyxia-PD: render_complete in wrong phase")
                && *final(self) == *old(self),
            old(self).phase == OnyxiaPhase::Navigating ==> r == Ok::<(), &'static str>(())
                && *final(self) == (OnyxiaPd { nav_state: NavState::Loaded, phase: OnyxiaPhase::Ready, ..*old(self) }),
    {
        if self.phase != OnyxiaPhase::Navigating {
            return Err("Onyxia-PD: render_complete in wrong phase");
        }
        self.nav_state = NavState::Loaded;
        self.phase = OnyxiaPhase::Ready;
        Ok(())
    }

    /// The current page is sovereign: an `awp://` page or the new tab.
    pub fn is_sovereign(&self) -> (r: bool)
        ensures
            r == (self.current_route == UrlRoute::Awp || self.current_route == UrlRoute::NewTab),
    {
        match self.current_route {
            UrlRoute::Awp | UrlRoute::NewTab => true,
            _ => false,
        }
    }

    /// The protection-domain slot the browser runs in.
    pub fn pd_id() -> (r: PdId)
        ensures
            r == PdId::GpuCap,
    {
        PdId::GpuCap
    }

    fn assert_proof(&self)
        requires
            self.proof == SOVEREIGN_PROOF,
    {
    }
}

impl Default for OnyxiaPd {
    fn default() -> (pd: Self)
        ensures
            pd == (OnyxiaPd {
                phase: OnyxiaPhase::AwaitingBoot,
                nav_state: NavState::NewTab,
                nav_count: 0,
                blocked: 0,
                proof: SOVEREIGN_PROOF,
                current_route: UrlRoute::NewTab,
            }),
    {
        OnyxiaPd::new()
    }
}

/// Cleartext is never navigated to: a URL that starts with `http://` is
/// always Blocked.
pub proof fn lemma_cleartext_blocked(url: Seq<u8>)
    requires
        starts_with(url, "http://".spec_bytes()),
    ensures
        url_route(url) == UrlRoute::Blocked,
{
    reveal_strlit("http://");
    reveal_strlit("https://");
    reveal_strlit("awp://");
    assert(vstd::string::is_ascii("http://"));
    assert(vstd::string::is_ascii("https://"));
    assert(vstd::string::is_ascii("awp://"));
    vstd::string::is_ascii_spec_bytes("http://");
    vstd::string::is_ascii_spec_bytes("https://");
    vstd::string::is_ascii_spec_bytes("awp://");
    let h = "http://".spec_bytes();
    assert(h.len() == 7);
    assert(h[4] == 58);
    assert(url.subrange(0, 7)[4] == h[4]);
    assert(url[4] == 58);
    assert(!starts_with(url, "https://".spec_bytes())) by {
        let hs = "https://".spec_bytes();
        if starts_with(url, hs) {
            assert(url.subrange(0, 8)[4] == hs[4]);
            assert(hs[4] == 115);
        }
    }
    assert(!starts_with(url, "awp://".spec_bytes())) by {
        let a = "awp://".spec_bytes();
        if starts_with(url, a) {
            assert(url.subrange(0, 6)[0] == a[0]);
            assert(url.subrange(0, 7)[0] == h[0]);
            assert(a[0] == 97);
            assert(h[0] == 104);
        }
    }
}

} // verus!
