//! What a node announces about itself on the LAN, and how an announcement
//! that another node made is read.
//!
//! A node is advertised under the service type `_borderless._udp.local.`
//! with three TXT properties: `proto` (the protocol version, `0`),
//! `nodeid` (the hex node id) and `name` (a human-readable name). The
//! multicast DNS exchange itself is not part of this library.
use vstd::prelude::*;
use crate::hexcodec::{hex_decode, spec_hex_decode, spec_hex_encode};
use crate::node::NodeId;

verus! {

/// Service type used by `borderless`.
pub const SERVICE_TYPE: &'static str = "_borderless._udp.local.";

/// The TXT properties announced for a node: `proto` = `0`, `nodeid` = the
/// node id in lowercase hex, `name` = the advertised name.
pub open spec fn spec_txt_properties(node_id: Seq<u8>, name: Seq<char>) -> Seq<(Seq<char>, Seq<char>)> {
    seq![("proto"@, "0"@), ("nodeid"@, spec_hex_encode(node_id)), ("name"@, name)]
}

/// The TXT properties to announce for this node.
pub fn txt_properties(node_id: &NodeId, advertised_name: &str) -> (props: Vec<(String, String)>)
    ensures
        props@.map_values(|p: (String, String)| (p.0@, p.1@)) == spec_txt_properties(node_id@, advertised_name@),
{
    let props = vec![
        (String::from_str("proto"), String::from_str("0")),
        (String::from_str("nodeid"), node_id.to_hex()),
        (String::from_str("name"), advertised_name.to_owned()),
    ];
    assert(props@.map_values(|p: (String, String)| (p.0@, p.1@)) =~= spec_txt_properties(node_id@, advertised_name@));
    props
}

/// An IP address, as the big-endian integer of its bytes.
#[derive(Clone, Copy, Debug, PartialEq, Eq, Structural)]
pub enum IpAddress {
    V4(u32),
    V6(u128),
}

/// One peer found on the LAN.
#[derive(Clone, Debug)]
pub struct DiscoveredPeer {
    /// Service instance name (typically `<host>._borderless._udp.local.`).
    pub instance: String,
    /// Human-readable name (from TXT `name`).
    pub name: String,
    /// Node id (from TXT `nodeid`); `None` if the peer announces none that
    /// reads as 16 bytes of hex (another version, for instance).
    pub node_id: Option<NodeId>,
    /// Reachable addresses.
    pub addrs: Vec<IpAddress>,
    /// Service port.
    pub port: u16,
}

/// The node id a `nodeid` TXT value names: its hex, when that decodes to
/// exactly 16 bytes.
pub open spec fn spec_txt_node_id(txt: Option<Seq<char>>) -> Option<Seq<u8>> {
    match txt {
        Some(t) => match spec_hex_decode(t) {
            Some(b) => if b.len() == 16 { Some(b) } else { None },
            None => None,
        },
        None => None,
    }
}

/// Read the node id from a `nodeid` TXT value.
pub fn txt_node_id(txt: Option<&str>) -> (id: Option<NodeId>)
    ensures
        match spec_txt_node_id(match txt { Some(t) => Some(t@), None => None }) {
            Some(b) => id matches Some(n) && n@ == b,
            None => id is None,
        },
{
    match txt {
        None => None,
        Some(t) => match hex_decode(t) {
            None => None,
            Some(bytes) => {
                if bytes.len() != 16 {
                    return None;
                }
                let mut out = [0u8; 16];
                let mut i: usize = 0;
                while i < 16
                    invariant
                        0 <= i <= 16,
                        bytes@.len() == 16,
                        forall|j: int| 0 <= j < i ==> out@[j] == bytes@[j],
                    decreases 16 - i,
                {
                    out[i] = bytes[i];
                    i = i + 1;
                }
                let id = NodeId(out);
                assert(id@ =~= bytes@);
                Some(id)
            },
        },
    }
}

/// Read a resolved announcement. Our own instance (`fullname` equal to
/// `own_fullname`) gives nothing; any other gives a peer named by its
/// `name` TXT value, or by its host name when it has none, with the node
/// id its `nodeid` TXT value names.
pub fn discovered_peer(
    own_fullname: &String,
    fullname: String,
    nodeid_txt: Option<&str>,
    name_txt: Option<&str>,
    hostname: &str,
    addrs: Vec<IpAddress>,
    port: u16,
) -> (p: Option<DiscoveredPeer>)
    ensures
        fullname@ == own_fullname@ <==> p is None,
        p matches Some(d) ==> {
            &&& d.instance@ == fullname@
            &&& d.name@ == (match name_txt { Some(n) => n@, None => hostname@ })
            &&& match spec_txt_node_id(match nodeid_txt { Some(t) => Some(t@), None => None }) {
                Some(b) => d.node_id matches Some(n) && n@ == b,
                None => d.node_id is None,
            }
            &&& d.addrs@ == addrs@
            &&& d.port == port
        },
{
    if fullname.eq(own_fullname) {
        return None;
    }
    let node_id = txt_node_id(nodeid_txt);
    let name = match name_txt {
        Some(n) => n.to_owned(),
        None => hostname.to_owned(),
    };
    Some(DiscoveredPeer { instance: fullname, name, node_id, addrs, port })
}

} // verus!
