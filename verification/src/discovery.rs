//! The mDNS service under which the server announces itself.
use std::collections::HashMap;

use mdns_sd::ServiceInfo;
use vstd::prelude::*;

verus! {

#[verifier::external_type_specification]
#[verifier::external_body]
pub struct ExServiceInfo(mdns_sd::ServiceInfo);

#[verifier::external_type_specification]
#[verifier::external_body]
pub struct ExMdnsError(mdns_sd::Error);

/// The service type a description carries: what `ServiceInfo::get_type` gives back.
pub uninterp spec fn service_type(info: ServiceInfo) -> Seq<char>;

/// The full instance name a description carries: what `ServiceInfo::get_fullname` gives back.
pub uninterp spec fn service_fullname(info: ServiceInfo) -> Seq<char>;

/// The host name a description carries: what `ServiceInfo::get_hostname` gives back.
pub uninterp spec fn service_hostname(info: ServiceInfo) -> Seq<char>;

/// The port a description carries: what `ServiceInfo::get_port` gives back.
pub uninterp spec fn service_port(info: ServiceInfo) -> u16;

/// How many addresses a description carries: the length of what
/// `ServiceInfo::get_addresses` gives back.
pub uninterp spec fn service_address_count(info: ServiceInfo) -> nat;

/// How many TXT properties a description carries: the length of what
/// `ServiceInfo::get_properties` gives back.
pub uninterp spec fn service_property_count(info: ServiceInfo) -> nat;

/// `part` occurs somewhere in `s`.
pub open spec fn has_infix(s: Seq<char>, part: Seq<char>) -> bool {
    exists|i: int| 0 <= i && i + part.len() <= s.len() && #[trigger] s.subrange(i, i + part.len()) == part
}

/// `s` ends with `suffix`.
pub open spec fn has_suffix(s: Seq<char>, suffix: Seq<char>) -> bool {
    suffix.len() <= s.len() && s.subrange(s.len() - suffix.len(), s.len() as int) == suffix
}

/// An instance name that mDNS needs no escape for: it holds no `.` and no `\`.
pub open spec fn plain_instance_name(name: Seq<char>) -> bool {
    forall|i: int| 0 <= i < name.len() ==> #[trigger] name[i] != '.' && name[i] != '\\'
}

/// `info` describes the service of type `ty_domain`, instance `my_name`,
/// host `host_name` on `port`, with no addresses and no TXT properties.
pub open spec fn describes(info: ServiceInfo, ty_domain: Seq<char>, my_name: Seq<char>, host_name: Seq<char>, port: u16) -> bool {
    &&& service_type(info) == ty_domain
    &&& service_fullname(info) == my_name + seq!['.'] + ty_domain
    &&& service_hostname(info) == host_name
    &&& service_port(info) == port
    &&& service_address_count(info) == 0
    &&& service_property_count(info) == 0
}

/// Why the service description could not be made.
#[derive(Debug)]
pub enum DiscoveryError {
    /// The mDNS library refused the description.
    Mdns(mdns_sd::Error),
}

/// Calls `mdns_sd::ServiceInfo::new` with the given TXT properties.
/// Its source returns an error only when an address in `ip` (a list split
/// at commas) does not parse, or when a TXT property key is not ASCII, holds
/// `=`, or makes a record longer than 255 bytes; so an empty `ip` with no
/// properties always succeeds. The description it builds keeps `port` as
/// given; its type is `ty_domain` unless that holds `._sub.` (a subtype is
/// split off then); its full name is the instance name, with `.` and `\\`
/// escaped, then `.` and the type; its host name is `host_name` unless that
/// ends in `.local.local.` (one `local.` is cut then); it holds an address
/// for each one listed in `ip` and a TXT property for each one given. What
/// the cases left out here give is not stated.
#[verifier::external_body]
fn new_service_info(
    ty_domain: &str,
    my_name: &str,
    host_name: &str,
    ip: &str,
    port: u16,
    properties: Option<HashMap<String, String>>,
) -> (res: Result<ServiceInfo, mdns_sd::Error>)
    ensures
        ip@.len() == 0 && properties is None ==> res is Ok,
        res matches Ok(info) ==> service_port(info) == port,
        res matches Ok(info) ==> (!has_infix(ty_domain@, "._sub."@) ==> service_type(info) == ty_domain@),
        res matches Ok(info) ==> (!has_infix(ty_domain@, "._sub."@) && plain_instance_name(my_name@)
            ==> service_fullname(info) == my_name@ + seq!['.'] + ty_domain@),
        res matches Ok(info) ==> (!has_suffix(host_name@, ".local.local."@) ==> service_hostname(info) == host_name@),
        res matches Ok(info) ==> (ip@.len() == 0 ==> service_address_count(info) == 0),
        res matches Ok(info) ==> (properties is None ==> service_property_count(info) == 0),
{
    ServiceInfo::new(ty_domain, my_name, host_name, ip, port, properties)
}

/// The description of the server's service on `port`: type `_as2p._udp.local.`,
/// instance `as2p-pc`, host `as2p-pc.local.`, no address (the daemon detects
/// them) and no TXT properties. It is always made.
pub fn service_info(port: u16) -> (res: Result<ServiceInfo, DiscoveryError>)
    ensures
        res matches Ok(info) && describes(info, "_as2p._udp.local."@, "as2p-pc"@, "as2p-pc.local."@, port),
{
    proof {
        reveal_strlit("");
        reveal_strlit("_as2p._udp.local.");
        reveal_strlit("as2p-pc");
        reveal_strlit("as2p-pc.local.");
        reveal_strlit("._sub.");
        reveal_strlit(".local.local.");
        let ty = "_as2p._udp.local."@;
        let sub = "._sub."@;
        assert(!has_infix(ty, sub)) by {
            if has_infix(ty, sub) {
                let i = choose|i: int| 0 <= i && i + sub.len() <= ty.len() && #[trigger] ty.subrange(i, i + sub.len()) == sub;
                assert(ty.subrange(i, i + 6)[0] == ty[i]);
                assert(ty.subrange(i, i + 6)[2] == ty[i + 2]);
                assert(false);
            }
        }
        let host = "as2p-pc.local."@;
        assert(host.subrange(1, 14)[0] != ".local.local."@[0]);
        assert(!has_suffix(host, ".local.local."@));
        assert(plain_instance_name("as2p-pc"@));
    }
    match new_service_info("_as2p._udp.local.", "as2p-pc", "as2p-pc.local.", "", port, None) {
        Ok(info) => Ok(info),
        Err(e) => Err(DiscoveryError::Mdns(e)),
    }
}

} // verus!
