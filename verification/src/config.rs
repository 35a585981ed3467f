//! The node's configuration (`config.toml`) and the decisions the command
//! line takes on it.
//!
//! The configuration splits along the `kind = "hub" | "spoke"` axis: the
//! hub binds a TCP+TLS listener on a port; the spoke dials a fixed
//! `server_addr`.
use vstd::prelude::*;

verus! {

/// Default TCP port for the borderless listener.
pub const DEFAULT_PORT: u16 = 38_437;

/// `[node]`.
#[derive(Clone, Debug)]
pub struct NodeConfig {
    /// Display name advertised in the SignedHello frame.
    pub name: String,
}

impl NodeConfig {
    /// The default section on a host whose `HOSTNAME` is `hostname`: that
    /// name when it is set and not empty, else `borderless`.
    pub fn from_hostname(hostname: Option<String>) -> (c: NodeConfig)
        ensures
            (hostname matches Some(h) && h@.len() > 0) ==> c.name@ == hostname->0@,
            !(hostname matches Some(h) && h@.len() > 0) ==> c.name@ == "borderless"@,
    {
        match hostname {
            Some(h) => {
                if h.as_str().unicode_len() > 0 {
                    return NodeConfig { name: h };
                }
            },
            None => {},
        }
        NodeConfig { name: String::from_str("borderless") }
    }
}

/// Role: hub (server) or spoke (client). New installs start
/// `Unconfigured` so the user picks a role on first run.
#[derive(Clone, Copy, Debug, PartialEq, Eq, Structural)]
pub enum RoleKind {
    /// Unset; `serve` / `connect` set it on their first run.
    Unconfigured,
    /// This node binds a listener and accepts spokes.
    Hub,
    /// This node dials a hub.
    Spoke,
}

impl Default for RoleKind {
    fn default() -> (r: RoleKind)
        ensures
            r == RoleKind::Unconfigured,
    {
        RoleKind::Unconfigured
    }
}

/// `[role]`.
#[derive(Clone, Copy, Debug, PartialEq, Eq, Structural)]
pub struct RoleConfig {
    /// Persistent role kind.
    pub kind: RoleKind,
}

impl Default for RoleConfig {
    fn default() -> (r: RoleConfig)
        ensures
            r.kind == RoleKind::Unconfigured,
    {
        RoleConfig { kind: RoleKind::Unconfigured }
    }
}

/// An IP address to bind, as the big-endian integer of its bytes.
#[derive(Clone, Copy, Debug, PartialEq, Eq, Structural)]
pub enum BindIp {
    V4(u32),
    V6(u128),
}

impl BindIp {
    /// True for the "any address" of either family (all bytes zero).
    pub fn is_unspecified(&self) -> (r: bool)
        ensures
            r == (*self == BindIp::V4(0) || *self == BindIp::V6(0)),
    {
        match self {
            BindIp::V4(a) => *a == 0,
            BindIp::V6(a) => *a == 0,
        }
    }
}

/// `[hub]` section.
#[derive(Clone, Copy, Debug, PartialEq, Eq, Structural)]
pub struct HubConfig {
    /// Address to bind; all zeros for all interfaces.
    pub bind_ip: BindIp,
    /// Listening port.
    pub port: u16,
    /// Whether unknown spokes may pair (trust on first use).
    pub accept_new_peers: bool,
}

impl Default for HubConfig {
    fn default() -> (c: HubConfig)
        ensures
            c.bind_ip == BindIp::V4(0),
            c.port == DEFAULT_PORT,
            !c.accept_new_peers,
    {
        HubConfig { bind_ip: BindIp::V4(0), port: DEFAULT_PORT, accept_new_peers: false }
    }
}

/// `[client]` section.
#[derive(Clone, Debug)]
pub struct ClientConfig {
    /// `host:port` of the hub, persisted by `borderless connect`.
    pub server_addr: Option<String>,
    /// Optional pinned hub key (hex). When set, the client refuses a hub
    /// that presents another key.
    pub expected_server_id: Option<String>,
}

impl Default for ClientConfig {
    fn default() -> (c: ClientConfig)
        ensures
            c.server_addr is None,
            c.expected_server_id is None,
    {
        ClientConfig { server_addr: None, expected_server_id: None }
    }
}

/// `[clipboard]`.
#[derive(Clone, Copy, Debug, PartialEq, Eq, Structural)]
pub struct ClipboardConfig {
    /// Number of past snapshots to keep.
    pub history_size: usize,
    /// Whether to sync text.
    pub sync_text: bool,
    /// Whether to sync images (PNG and JPEG, fetched lazily above the
    /// inline threshold).
    pub sync_image: bool,
}

impl Default for ClipboardConfig {
    fn default() -> (c: ClipboardConfig)
        ensures
            c.history_size == 50,
            c.sync_text,
            c.sync_image,
    {
        ClipboardConfig { history_size: 50, sync_text: true, sync_image: true }
    }
}

/// `[input]`.
#[derive(Clone, Copy, Debug, PartialEq, Eq, Structural)]
pub struct InputConfig {
    /// Spoke-side gate: when false the spoke ignores input frames and runs
    /// clipboard-only. No effect on the hub.
    pub enabled: bool,
}

impl Default for InputConfig {
    fn default() -> (c: InputConfig)
        ensures
            c.enabled,
    {
        InputConfig { enabled: true }
    }
}

/// Top-level configuration.
#[derive(Clone, Debug)]
pub struct Config {
    /// `[node]` section.
    pub node: NodeConfig,
    /// `[role]` section.
    pub role: RoleConfig,
    /// `[hub]` section (read only when the role is hub).
    pub hub: HubConfig,
    /// `[client]` section (read only when the role is spoke).
    pub client: ClientConfig,
    /// `[clipboard]` section.
    pub clipboard: ClipboardConfig,
    /// `[input]` section.
    pub input: InputConfig,
}

impl Config {
    /// The default configuration on a host whose `HOSTNAME` is `hostname`.
    pub fn with_hostname(hostname: Option<String>) -> (c: Config)
        ensures
            (hostname matches Some(h) && h@.len() > 0) ==> c.node.name@ == hostname->0@,
            !(hostname matches Some(h) && h@.len() > 0) ==> c.node.name@ == "borderless"@,
            c.role.kind == RoleKind::Unconfigured,
            c.hub.bind_ip == BindIp::V4(0),
            c.hub.port == DEFAULT_PORT,
            !c.hub.accept_new_peers,
            c.client.server_addr is None,
            c.client.expected_server_id is None,
            c.clipboard.history_size == 50,
            c.clipboard.sync_text,
            c.clipboard.sync_image,
            c.input.enabled,
    {
        Config {
            node: NodeConfig::from_hostname(hostname),
            role: RoleConfig::default(),
            hub: HubConfig::default(),
            client: ClientConfig::default(),
            clipboard: ClipboardConfig::default(),
            input: InputConfig::default(),
        }
    }

    /// Make `want` the persistent role; true when that changed the
    /// configuration (so it must be saved).
    pub fn ensure_role(&mut self, want: RoleKind) -> (changed: bool)
        ensures
            changed == (old(self).role.kind != want),
            final(self).role.kind == want,
            final(self).node == old(self).node,
            final(self).hub == old(self).hub,
            final(self).client == old(self).client,
            final(self).clipboard == old(self).clipboard,
            final(self).input == old(self).input,
    {
        if self.role.kind != want {
            self.role.kind = want;
            true
        } else {
            false
        }
    }
}

/// What `connect` runs with.
#[derive(Clone, Debug)]
pub struct ConnectPlan {
    /// Hub address `host:port`.
    pub server_addr: String,
    /// Pinned hub key (hex), if any.
    pub expected_server_id: Option<String>,
    /// Whether the configuration changed and must be saved.
    pub changed: bool,
}

/// Why `connect` cannot run.
#[derive(Clone, Copy, Debug, PartialEq, Eq, Structural)]
pub enum ConnectError {
    /// No address given and none configured.
    NoServerAddress,
}

/// Resolve `connect`'s arguments against the configuration. A given
/// address is persisted and wins over the configured one; with neither it
/// is an error and nothing changes. A given pin is persisted and wins over
/// the configured one. The role becomes spoke.
pub fn plan_connect(cfg: &mut Config, host_port: Option<String>, pin: Option<String>) -> (r: Result<ConnectPlan, ConnectError>)
    ensures
        (host_port is None && old(cfg).client.server_addr is None) <==> r == Err::<ConnectPlan, ConnectError>(ConnectError::NoServerAddress),
        r is Err ==> *final(cfg) == *old(cfg),
        r matches Ok(p) ==> {
            &&& p.server_addr@ == (if host_port is Some { host_port->0@ } else { old(cfg).client.server_addr->0@ })
            &&& (pin is Some ==> (p.expected_server_id matches Some(e) && e@ == pin->0@))
            &&& (pin is None && old(cfg).client.expected_server_id is Some ==> (p.expected_server_id matches Some(e) && e@ == old(cfg).client.expected_server_id->0@))
            &&& (pin is None && old(cfg).client.expected_server_id is None ==> p.expected_server_id is None)
            &&& final(cfg).role.kind == RoleKind::Spoke
            &&& final(cfg).client.server_addr matches Some(a) && a@ == p.server_addr@
            &&& (final(cfg).client.expected_server_id matches Some(e) ==> (p.expected_server_id matches Some(e2) && e@ == e2@))
            &&& (p.expected_server_id is Some ==> final(cfg).client.expected_server_id is Some)
            &&& final(cfg).node == old(cfg).node
            &&& final(cfg).hub == old(cfg).hub
            &&& final(cfg).clipboard == old(cfg).clipboard
            &&& final(cfg).input == old(cfg).input
            &&& p.changed == (host_port is Some || pin is Some || (old(cfg).client.expected_server_id is Some) || old(cfg).role.kind != RoleKind::Spoke)
        },
{
    let mut changed = false;
    let server_addr = match host_port {
        Some(h) => {
            cfg.client.server_addr = Some(h.clone());
            changed = true;
            h
        },
        None => match &cfg.client.server_addr {
            Some(s) => s.clone(),
            None => {
                return Err(ConnectError::NoServerAddress);
            },
        },
    };
    let expected = match pin {
        Some(p) => Some(p),
        None => match &cfg.client.expected_server_id {
            Some(e) => Some(e.clone()),
            None => None,
        },
    };
    match &expected {
        Some(p) => {
            cfg.client.expected_server_id = Some(p.clone());
            changed = true;
        },
        None => {},
    }
    if cfg.ensure_role(RoleKind::Spoke) {
        changed = true;
    }
    Ok(ConnectPlan { server_addr, expected_server_id: expected, changed })
}

} // verus!
