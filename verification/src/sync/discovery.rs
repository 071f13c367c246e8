//! Finding the giver on the local network: the giver advertises itself over mDNS under
//! the family's uuid, and a baby device looks for that advertisement.
use vstd::prelude::*;
use vstd::string::*;
use crate::text::{append_text, byte_len, text_eq};

verus! {

/// The mDNS service type the app advertises under.
pub const SERVICE_TYPE: &'static str = "_cacao._tcp.local.";

/// A giver found on the network.
#[derive(Debug, Clone)]
pub struct PeerInfo {
    pub ip: String,
    pub port: u16,
    pub device_name: String,
    pub family_uuid: String,
}

/// Where the host name cuts the family uuid: after 8 bytes, or at its end when shorter.
pub open spec fn uuid_cut(s: &str) -> int {
    if byte_len(s@) < 8 {
        byte_len(s@) as int
    } else {
        8
    }
}

/// Whether `p` is the text made of the bytes of `s` before the cut.
pub open spec fn is_uuid_prefix(p: Seq<char>, s: &str) -> bool {
    vstd::utf8::encode_utf8(p) == s.spec_bytes().subrange(0, uuid_cut(s))
}

/// The host and instance names a giver advertises: `cacao-<first 8 bytes of the family
/// uuid>.local.` and `cacao-<device name>`. The cut after 8 bytes must fall between
/// characters (a family uuid is ASCII).
pub fn service_names(family_uuid: &str, device_name: &str) -> (r: (String, String))
    requires
        vstd::utf8::is_char_boundary(family_uuid.spec_bytes(), uuid_cut(family_uuid)),
    ensures
        exists|p: Seq<char>|
            #![trigger is_uuid_prefix(p, family_uuid)]
            is_uuid_prefix(p, family_uuid) && r.0@ == "cacao-"@ + p + ".local."@,
        r.1@ == "cacao-"@ + device_name@,
{
    let n = if family_uuid.len() < 8 {
        family_uuid.len()
    } else {
        8
    };
    let (head, _) = family_uuid.split_at(n);
    let mut host = "cacao-".to_owned();
    append_text(&mut host, head);
    append_text(&mut host, ".local.");
    proof {
        vstd::utf8::encode_utf8_decode_utf8(head@);
        assert(head.spec_bytes() == vstd::utf8::encode_utf8(head@));
        assert(is_uuid_prefix(head@, family_uuid));
    }
    let mut instance = "cacao-".to_owned();
    append_text(&mut instance, device_name);
    (host, instance)
}

/// What a search hears on the network, as far as it matters to the search.
#[derive(Debug, Clone)]
pub enum SearchEvent {
    /// A service resolved: its `family_uuid` and `device_name` properties where present,
    /// its first address where it has one, and its port.
    Resolved {
        family_uuid: Option<String>,
        device_name: Option<String>,
        address: Option<String>,
        port: u16,
    },
    /// Anything else: another kind of event, or no event before the wait ran out.
    Other,
}

/// A text property, empty where it is absent.
pub open spec fn property_or_empty(p: Option<String>) -> Seq<char> {
    match p {
        Some(t) => t@,
        None => Seq::empty(),
    }
}

/// The peer an event shows for the family, if it shows one: a resolved service whose
/// family property is the family's uuid and that has an address.
pub open spec fn peer_of(family_uuid: Seq<char>, event: SearchEvent) -> Option<(Seq<char>, u16, Seq<char>, Seq<char>)> {
    match event {
        SearchEvent::Resolved { family_uuid: found, device_name, address, port } => {
            if property_or_empty(found) == family_uuid && address is Some {
                Some((address->0@, port, property_or_empty(device_name), property_or_empty(found)))
            } else {
                None
            }
        },
        SearchEvent::Other => None,
    }
}

/// The view of a peer: address, port, device name and family uuid.
pub open spec fn peer_view(p: PeerInfo) -> (Seq<char>, u16, Seq<char>, Seq<char>) {
    (p.ip@, p.port, p.device_name@, p.family_uuid@)
}

/// A text property, empty where it is absent.
fn property_text(p: &Option<String>) -> (t: String)
    ensures
        t@ == property_or_empty(*p),
{
    match p {
        Some(t) => t.clone(),
        None => String::new(),
    }
}

/// Searching the network for the giver of a family.
pub struct MdnsDiscovery;

impl MdnsDiscovery {
    /// What one event means to a search for the family's giver: the peer found, at which
    /// the search stops, or `None` to keep listening.
    pub fn peer_from_event(family_uuid: &str, event: &SearchEvent) -> (r: Option<PeerInfo>)
        ensures
            r is Some <==> peer_of(family_uuid@, *event) is Some,
            r matches Some(p) ==> Some(peer_view(p)) == peer_of(family_uuid@, *event),
    {
        match event {
            SearchEvent::Resolved { family_uuid: found, device_name, address, port } => {
                let found_family = property_text(found);
                if !text_eq(found_family.as_str(), family_uuid) {
                    return None;
                }
                match address {
                    Some(a) => Some(
                        PeerInfo {
                            ip: a.clone(),
                            port: *port,
                            device_name: property_text(device_name),
                            family_uuid: found_family,
                        },
                    ),
                    None => None,
                }
            },
            SearchEvent::Other => None,
        }
    }
}

} // verus!
