//! Shell protection domain: runs the `axc>` shell and classifies each command
//! by the IPC channel it needs.
use vstd::prelude::*;
use crate::bytes::{has_prefix, starts_with};
use crate::common::{PdId, AXON_PROOF};
use vstd::string::StringSliceAdditionalSpecFns;

verus! {

pub const SHELL_PD_ID: u8 = 0x40;
pub const SOVEREIGN_PROOF: u64 = AXON_PROOF;
pub const MAX_CMD_LEN: usize = 256;
pub const MAX_HISTORY: usize = 32;

/// Shell to DataTier-Enforcer: EDB read request.
pub const MSG_EDB_READ: u32 = 0xC001;
/// Shell to DataTier-Enforcer: EDB write request.
pub const MSG_EDB_WRITE: u32 = 0xC002;
/// Shell to AXFS-PD: list request.
pub const MSG_AXFS_LS: u32 = 0xC010;
/// Shell to AXFS-PD: file read request.
pub const MSG_AXFS_READ: u32 = 0xC011;
/// Shell to AXFS-PD: file write request.
pub const MSG_AXFS_WRITE: u32 = 0xC012;
/// Shell to AWP-PD: network send request.
pub const MSG_AWP_SEND: u32 = 0xC020;
/// Shell to Phoenix-Desktop: render a line of output.
pub const MSG_RENDER_LINE: u32 = 0xC030;
/// Shell to AXON-Bridge: execute a script.
pub const MSG_AXON_EXEC: u32 = 0xC040;

/// The IPC channel a shell command needs.
#[derive(Debug, Clone, Copy, PartialEq, Eq, Structural)]
pub enum CmdRoute {
    /// Handled inside the shell.
    Local,
    /// DataTier-Enforcer (db commands).
    DataTier,
    /// AXFS-PD (ls, cat, write, mkpkg, verify).
    Axfs,
    /// AWP-PD (awp commands).
    Awp,
    /// AXON-Bridge (run, run_verified).
    AxonBridge,
    /// Phoenix-Desktop (window, browse, settings).
    Desktop,
}

/// The route of a command, by its first matching prefix.
pub open spec fn route_of(cmd: Seq<u8>) -> CmdRoute {
    if starts_with(cmd, "db".spec_bytes()) {
        CmdRoute::DataTier
    } else if starts_with(cmd, "ls".spec_bytes()) || starts_with(cmd, "cat ".spec_bytes())
        || starts_with(cmd, "write ".spec_bytes()) || starts_with(cmd, "mkpkg ".spec_bytes())
        || starts_with(cmd, "verify ".spec_bytes()) {
        CmdRoute::Axfs
    } else if starts_with(cmd, "run_verified".spec_bytes()) || starts_with(cmd, "run ".spec_bytes()) {
        CmdRoute::AxonBridge
    } else if starts_with(cmd, "awp".spec_bytes()) {
        CmdRoute::Awp
    } else if starts_with(cmd, "window".spec_bytes()) || starts_with(cmd, "browse".spec_bytes())
        || starts_with(cmd, "settings".spec_bytes()) {
        CmdRoute::Desktop
    } else {
        CmdRoute::Local
    }
}

/// Classifies a shell command to the IPC route it needs.
pub fn classify_cmd(cmd: &[u8]) -> (r: CmdRoute)
    ensures
        r == route_of(cmd@),
{
    if has_prefix(cmd, "db".as_bytes()) {
        return CmdRoute::DataTier;
    }
    if has_prefix(cmd, "ls".as_bytes()) || has_prefix(cmd, "cat ".as_bytes())
        || has_prefix(cmd, "write ".as_bytes()) || has_prefix(cmd, "mkpkg ".as_bytes())
        || has_prefix(cmd, "verify ".as_bytes()) {
        return CmdRoute::Axfs;
    }
    if has_prefix(cmd, "run_verified".as_bytes()) || has_prefix(cmd, "run ".as_bytes()) {
        return CmdRoute::AxonBridge;
    }
    if has_prefix(cmd, "awp".as_bytes()) {
        return CmdRoute::Awp;
    }
    if has_prefix(cmd, "window".as_bytes()) || has_prefix(cmd, "browse".as_bytes())
        || has_prefix(cmd, "settings".as_bytes()) {
        return CmdRoute::Desktop;
    }
    CmdRoute::Local
}

/// Phase of the shell.
#[derive(Debug, Clone, Copy, PartialEq, Eq, Structural)]
pub enum ShellPhase {
    /// Waiting for the boot signal from Phoenix-Init.
    AwaitingBoot,
    /// Accepting commands.
    Ready,
    /// Waiting for the IPC response of another PD.
    AwaitingIpc,
    Faulted,
}

/// The shell protection domain.
pub struct ShellPd {
    pub phase: ShellPhase,
    pub cmd_count: u64,
    pub ipc_pending: Option<CmdRoute>,
    pub proof: u64,
}

impl ShellPd {
    pub fn new() -> (pd: Self)
        ensures
            pd.phase == ShellPhase::AwaitingBoot,
            pd.cmd_count == 0,
            pd.ipc_pending is None,
            pd.proof == SOVEREIGN_PROOF,
    {
        ShellPd { phase: ShellPhase::AwaitingBoot, cmd_count: 0, ipc_pending: None, proof: SOVEREIGN_PROOF }
    }

    /// Boot signal: moves AwaitingBoot to Ready; refused in any other phase.
    pub fn on_boot_signal(&mut self) -> (r: Result<(), &'static str>)
        requires
            old(self).phase == ShellPhase::AwaitingBoot ==> old(self).proof == SOVEREIGN_PROOF,
        ensures
            old(self).phase != ShellPhase::AwaitingBoot ==> r == Err::<(), &'static str>("Shell-PD: BOOT_SIGNAL in wrong phase")
                && *final(self) == *old(self),
            old(self).phase == ShellPhase::AwaitingBoot ==> r == Ok::<(), &'static str>(())
                && *final(self) == (ShellPd { phase: ShellPhase::Ready, ..*old(self) }),
    {
        if self.phase != ShellPhase::AwaitingBoot {
            return Err("Shell-PD: BOOT_SIGNAL in wrong phase");
        }
        self.assert_proof();
        self.phase = ShellPhase::Ready;
        Ok(())
    }

    /// Submits a command in the Ready phase and returns its route. A command
    /// that needs IPC leaves the shell awaiting the response; a local one
    /// keeps it Ready. Refused outside Ready and over `MAX_CMD_LEN` bytes.
    pub fn submit_cmd(&mut self, cmd: &[u8]) -> (r: Result<CmdRoute, &'static str>)
        requires
            old(self).phase == ShellPhase::Ready && cmd@.len() <= MAX_CMD_LEN ==> old(self).proof == SOVEREIGN_PROOF
                && old(self).cmd_count < u64::MAX,
        ensures
            old(self).phase != ShellPhase::Ready ==> r == Err::<CmdRoute, &'static str>("Shell-PD: not in Ready phase")
                && *final(self) == *old(self),
            old(self).phase == ShellPhase::Ready && cmd@.len() > MAX_CMD_LEN
                ==> r == Err::<CmdRoute, &'static str>("Shell-PD: command too long") && *final(self) == *old(self),
            old(self).phase == ShellPhase::Ready && cmd@.len() <= MAX_CMD_LEN ==> {
                &&& r == Ok::<CmdRoute, &'static str>(route_of(cmd@))
                &&& final(self).cmd_count == old(self).cmd_count + 1
                &&& final(self).proof == old(self).proof
                &&& route_of(cmd@) == CmdRoute::Local ==> final(self).phase == ShellPhase::Ready
                    && final(self).ipc_pending == old(self).ipc_pending
                &&& route_of(cmd@) != CmdRoute::Local ==> final(self).phase == ShellPhase::AwaitingIpc
                    && final(self).ipc_pending == Some(route_of(cmd@))
            },
    {
        if self.phase != ShellPhase::Ready {
            return Err("Shell-PD: not in Ready phase");
        }
        if cmd.len() > MAX_CMD_LEN {
            return Err("Shell-PD: command too long");
        }
        self.assert_proof();
        let route = classify_cmd(cmd);
        if route != CmdRoute::Local {
            self.ipc_pending = Some(route);
            self.phase = ShellPhase::AwaitingIpc;
        }
        self.cmd_count = self.cmd_count + 1;
        Ok(route)
    }

    /// IPC response: moves AwaitingIpc back to Ready and clears the pending route.
    pub fn on_ipc_response(&mut self) -> (r: Result<(), &'static str>)
        ensures
            old(self).phase != ShellPhase::AwaitingIpc ==> r == Err::<(), &'static str>("Shell-PD: IPC response in wrong phase")
                && *final(self) == *old(self),
            old(self).phase == ShellPhase::AwaitingIpc ==> r == Ok::<(), &'static str>(())
                && *final(self) == (ShellPd { phase: ShellPhase::Ready, ipc_pending: None, ..*old(self) }),
    {
        if self.phase != ShellPhase::AwaitingIpc {
            return Err("Shell-PD: IPC response in wrong phase");
        }
        self.ipc_pending = None;
        self.phase = ShellPhase::Ready;
        Ok(())
    }

    /// The protection-domain slot the shell runs in.
    pub fn pd_id() -> (r: PdId)
        ensures
            r == PdId::AxonBridge,
    {
        PdId::AxonBridge
    }

    fn assert_proof(&self)
        requires
            self.proof == SOVEREIGN_PROOF,
    {
    }
}

impl Default for ShellPd {
    fn default() -> (pd: Self)
        ensures
            pd.phase == ShellPhase::AwaitingBoot,
            pd.cmd_count == 0,
            pd.ipc_pending is None,
            pd.proof == SOVEREIGN_PROOF,
    {
        ShellPd::new()
    }
}

} // verus!
