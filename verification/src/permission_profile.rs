use vstd::prelude::*;

verus! {

/// Whether the session may reach the network.
#[derive(Debug, Clone, Copy, PartialEq, Eq, Structural)]
pub enum PermissionNetworkPolicy {
    Allow,
    Deny,
}

/// Filesystem reach of a session.
#[derive(Debug, Clone, Copy, PartialEq, Eq, Structural)]
pub enum PermissionProfileMode {
    ReadOnly,
    WorkspaceWrite,
    DangerFullAccess,
}

/// An effective permission profile: a mode plus a network policy.
#[derive(Debug, Clone, Copy, PartialEq, Eq, Structural)]
pub struct PermissionProfileSelection {
    pub mode: PermissionProfileMode,
    pub network: PermissionNetworkPolicy,
}

/// A partial update; `None` fields keep the previous value.
#[derive(Debug, Clone, Copy, PartialEq, Eq, Structural)]
pub struct PermissionProfileUpdate {
    pub mode: Option<PermissionProfileMode>,
    pub network: Option<PermissionNetworkPolicy>,
}

pub open spec fn spec_mode_label(mode: PermissionProfileMode) -> Seq<char> {
    match mode {
        PermissionProfileMode::ReadOnly => "Read Only"@,
        PermissionProfileMode::WorkspaceWrite => "Workspace Write"@,
        PermissionProfileMode::DangerFullAccess => "Full Access"@,
    }
}

pub open spec fn spec_network_label(network: PermissionNetworkPolicy) -> Seq<char> {
    match network {
        PermissionNetworkPolicy::Allow => "network allowed"@,
        PermissionNetworkPolicy::Deny => "network blocked"@,
    }
}

/// The updated selection: each field of the update wins when present.
pub open spec fn spec_apply(update: PermissionProfileUpdate, previous: PermissionProfileSelection) -> PermissionProfileSelection {
    PermissionProfileSelection {
        mode: match update.mode { Some(m) => m, None => previous.mode },
        network: match update.network { Some(n) => n, None => previous.network },
    }
}

impl Default for PermissionProfileSelection {
    fn default() -> (r: Self)
        ensures
            r.mode == PermissionProfileMode::WorkspaceWrite,
            r.network == PermissionNetworkPolicy::Deny,
    {
        Self { mode: PermissionProfileMode::WorkspaceWrite, network: PermissionNetworkPolicy::Deny }
    }
}

impl Default for PermissionProfileUpdate {
    fn default() -> (r: Self)
        ensures
            r.mode.is_none(),
            r.network.is_none(),
    {
        Self { mode: None, network: None }
    }
}

impl PermissionProfileSelection {
    pub fn normalized(self) -> (r: Self)
        ensures
            r == self,
    {
        self
    }

    /// `"<mode>, <network>"`, e.g. `"Workspace Write, network blocked"`.
    pub fn summary(self) -> (r: String)
        ensures
            r@ == spec_mode_label(self.mode) + ", "@ + spec_network_label(self.network),
    {
        let mode = match self.mode {
            PermissionProfileMode::ReadOnly => "Read Only",
            PermissionProfileMode::WorkspaceWrite => "Workspace Write",
            PermissionProfileMode::DangerFullAccess => "Full Access",
        };
        let network = match self.network {
            PermissionNetworkPolicy::Allow => "network allowed",
            PermissionNetworkPolicy::Deny => "network blocked",
        };
        let out = String::from_str(mode);
        let out = out.concat(", ");
        out.concat(network)
    }
}

impl PermissionProfileUpdate {
    pub fn apply_to(self, previous: PermissionProfileSelection) -> (r: PermissionProfileSelection)
        ensures
            r == spec_apply(self, previous),
    {
        PermissionProfileSelection {
            mode: match self.mode { Some(m) => m, None => previous.mode },
            network: match self.network { Some(n) => n, None => previous.network },
        }
    }
}

/// Applying an update twice is the same as applying it once.
pub proof fn law_apply_idempotent(update: PermissionProfileUpdate, previous: PermissionProfileSelection)
    ensures
        spec_apply(update, spec_apply(update, previous)) == spec_apply(update, previous),
{
}

/// An empty update leaves the selection unchanged.
pub proof fn law_apply_empty_is_identity(previous: PermissionProfileSelection)
    ensures
        spec_apply(PermissionProfileUpdate { mode: None, network: None }, previous) == previous,
{
}

} // verus!
