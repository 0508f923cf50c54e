//! Finding the address a record should point to: choosing among the
//! addresses of the local interfaces, and checking what a web service
//! reported.
use vstd::prelude::*;

use crate::config::{effective_web_url_of, GlobalConfig, RecordConfig, RecordType, ResolveMode};
use crate::error::Error;
use crate::text::str_eq;

verus! {

/// An IP address: four octets, or eight 16-bit segments.
#[derive(Debug, Clone, Copy)]
pub enum IpAddr {
    V4([u8; 4]),
    V6([u16; 8]),
}

/// One address of one network interface.
#[derive(Debug, Clone)]
pub struct Interface {
    pub name: String,
    pub ip: IpAddr,
}

/// An IPv6 address in fe80::/10.
pub open spec fn link_local_v6(ip: IpAddr) -> bool {
    match ip {
        IpAddr::V6(segments) => segments@[0] & 0xffc0u16 == 0xfe80u16,
        IpAddr::V4(_) => false,
    }
}

/// Whether an address has the family of the record type.
pub open spec fn family_matches(ip: IpAddr, t: RecordType) -> bool {
    match t {
        RecordType::A => ip is V4,
        RecordType::Aaaa => ip is V6,
    }
}

/// Whether an interface address may be published in a record of type
/// `t`: the right family, and for AAAA not link-local.
pub open spec fn usable_for(ip: IpAddr, t: RecordType) -> bool {
    match t {
        RecordType::A => ip is V4,
        RecordType::Aaaa => ip is V6 && !link_local_v6(ip),
    }
}

/// How errors name the family of a record type.
pub open spec fn family_name(t: RecordType) -> Seq<char> {
    match t {
        RecordType::A => seq!['I', 'P', 'v', '4'],
        RecordType::Aaaa => seq!['I', 'P', 'v', '6'],
    }
}

/// The first usable address, in list order, among those of the
/// interface named `name`.
pub open spec fn first_usable(ifaces: Seq<Interface>, name: Seq<char>, t: RecordType) -> Option<IpAddr>
    decreases ifaces.len(),
{
    if ifaces.len() == 0 {
        None
    } else if ifaces[0].name@ == name && usable_for(ifaces[0].ip, t) {
        Some(ifaces[0].ip)
    } else {
        first_usable(ifaces.drop_first(), name, t)
    }
}

/// Whether some address belongs to the interface named `name`.
pub open spec fn has_interface(ifaces: Seq<Interface>, name: Seq<char>) -> bool {
    exists|i: int| 0 <= i < ifaces.len() && (#[trigger] ifaces[i]).name@ == name
}

impl IpAddr {
    /// Whether this is an IPv4 address.
    pub fn is_ipv4(&self) -> (r: bool)
        ensures
            r == (*self is V4),
    {
        match self {
            IpAddr::V4(_) => true,
            IpAddr::V6(_) => false,
        }
    }

    /// Whether this is an IPv6 address.
    pub fn is_ipv6(&self) -> (r: bool)
        ensures
            r == (*self is V6),
    {
        match self {
            IpAddr::V4(_) => false,
            IpAddr::V6(_) => true,
        }
    }
}

/// Whether `ip` is an IPv6 link-local address (fe80::/10).
pub fn is_link_local_v6(ip: IpAddr) -> (r: bool)
    ensures
        r == link_local_v6(ip),
{
    match ip {
        IpAddr::V6(segments) => (segments[0] & 0xffc0) == 0xfe80,
        IpAddr::V4(_) => false,
    }
}

fn usable(ip: IpAddr, t: RecordType) -> (r: bool)
    ensures
        r == usable_for(ip, t),
{
    match t {
        RecordType::A => ip.is_ipv4(),
        RecordType::Aaaa => ip.is_ipv6() && !is_link_local_v6(ip),
    }
}

fn family_label(t: RecordType) -> (s: &'static str)
    ensures
        s@ == family_name(t),
{
    match t {
        RecordType::A => {
            proof {
                reveal_strlit("IPv4");
            }
            "IPv4"
        },
        RecordType::Aaaa => {
            proof {
                reveal_strlit("IPv6");
            }
            "IPv6"
        },
    }
}

/// When none of the first `i` entries is usable, the first usable
/// address is that of the entries from `i` on.
proof fn lemma_first_usable_skip(ifaces: Seq<Interface>, name: Seq<char>, t: RecordType, i: int)
    requires
        0 <= i <= ifaces.len(),
        forall|j: int|
            0 <= j < i ==> !((#[trigger] ifaces[j]).name@ == name && usable_for(ifaces[j].ip, t)),
    ensures
        first_usable(ifaces, name, t) == first_usable(ifaces.skip(i), name, t),
    decreases i,
{
    if i == 0 {
        assert(ifaces.skip(0) =~= ifaces);
    } else {
        let rest = ifaces.drop_first();
        assert forall|j: int| 0 <= j < i - 1 implies !((#[trigger] rest[j]).name@ == name
            && usable_for(rest[j].ip, t)) by {
            assert(rest[j] == ifaces[j + 1]);
        }
        lemma_first_usable_skip(rest, name, t, i - 1);
        assert(rest.skip(i - 1) =~= ifaces.skip(i));
        assert(!(ifaces[0].name@ == name && usable_for(ifaces[0].ip, t)));
    }
}

/// An address is picked directly only from the named interface, and it
/// is usable for the record type: of its family, and for AAAA not
/// link-local.
pub proof fn lemma_first_usable_is_usable(ifaces: Seq<Interface>, name: Seq<char>, t: RecordType)
    ensures
        first_usable(ifaces, name, t) matches Some(ip) ==> {
            &&& usable_for(ip, t)
            &&& family_matches(ip, t)
            &&& (t == RecordType::A ==> ip is V4)
            &&& (t == RecordType::Aaaa ==> (ip matches IpAddr::V6(seg) && !(0xfe80u16 <= seg@[0]
                && seg@[0] <= 0xfebfu16)))
            &&& exists|i: int|
                0 <= i < ifaces.len() && (#[trigger] ifaces[i]).name@ == name && ifaces[i].ip == ip
        },
    decreases ifaces.len(),
{
    if ifaces.len() > 0 {
        if ifaces[0].name@ == name && usable_for(ifaces[0].ip, t) {
            assert(ifaces[0].name@ == name);
            if let IpAddr::V6(seg) = ifaces[0].ip {
                lemma_link_local_range(seg@[0]);
            }
        } else {
            let rest = ifaces.drop_first();
            lemma_first_usable_is_usable(rest, name, t);
            if let Some(ip) = first_usable(rest, name, t) {
                let i = choose|i: int|
                    0 <= i < rest.len() && (#[trigger] rest[i]).name@ == name && rest[i].ip == ip;
                assert(ifaces[i + 1] == rest[i]);
            }
        }
    }
}

/// The link-local test on the first segment is the range fe80 to febf.
pub proof fn lemma_link_local_range(x: u16)
    ensures
        (x & 0xffc0u16 == 0xfe80u16) <==> (0xfe80u16 <= x && x <= 0xfebfu16),
{
    assert((x & 0xffc0u16 == 0xfe80u16) <==> (0xfe80u16 <= x && x <= 0xfebfu16)) by (bit_vector);
}

/// An IPv6 address is link-local exactly when its first segment lies in
/// fe80..febf; IPv4 addresses never are.
pub proof fn lemma_link_local_is_fe80_10(ip: IpAddr)
    ensures
        link_local_v6(ip) == (ip matches IpAddr::V6(seg) && 0xfe80u16 <= seg@[0] && seg@[0]
            <= 0xfebfu16),
{
    if let IpAddr::V6(seg) = ip {
        lemma_link_local_range(seg@[0]);
    }
}

/// For an A record every IPv4 address of the named interface can be
/// used: the first IPv4 address of that interface, in list order, is the
/// one picked.
pub proof fn lemma_a_record_picks_first_ipv4(ifaces: Seq<Interface>, name: Seq<char>, k: int)
    requires
        0 <= k < ifaces.len(),
        ifaces[k].name@ == name,
        ifaces[k].ip is V4,
        forall|j: int| 0 <= j < k ==> !((#[trigger] ifaces[j]).name@ == name && ifaces[j].ip is V4),
    ensures
        first_usable(ifaces, name, RecordType::A) == Some(ifaces[k].ip),
    decreases k,
{
    if k > 0 {
        let rest = ifaces.drop_first();
        assert(!(ifaces[0].name@ == name && ifaces[0].ip is V4));
        assert forall|j: int| 0 <= j < k - 1 implies !((#[trigger] rest[j]).name@ == name
            && rest[j].ip is V4) by {
            assert(rest[j] == ifaces[j + 1]);
        }
        assert(rest[k - 1] == ifaces[k]);
        lemma_a_record_picks_first_ipv4(rest, name, k - 1);
    }
}

/// For an AAAA record every IPv6 address of the named interface outside
/// fe80::/10 can be used: the first such address, in list order, is the
/// one picked.
pub proof fn lemma_aaaa_record_picks_first_global_ipv6(
    ifaces: Seq<Interface>,
    name: Seq<char>,
    k: int,
)
    requires
        0 <= k < ifaces.len(),
        ifaces[k].name@ == name,
        (ifaces[k].ip matches IpAddr::V6(seg) && !(0xfe80u16 <= seg@[0] && seg@[0] <= 0xfebfu16)),
        forall|j: int|
            0 <= j < k ==> !((#[trigger] ifaces[j]).name@ == name && (ifaces[j].ip matches IpAddr::V6(
                seg,
            ) && !(0xfe80u16 <= seg@[0] && seg@[0] <= 0xfebfu16))),
    ensures
        first_usable(ifaces, name, RecordType::Aaaa) == Some(ifaces[k].ip),
    decreases k,
{
    lemma_link_local_is_fe80_10(ifaces[0].ip);
    if k > 0 {
        let rest = ifaces.drop_first();
        assert forall|j: int| 0 <= j < k - 1 implies !((#[trigger] rest[j]).name@ == name
            && (rest[j].ip matches IpAddr::V6(seg) && !(0xfe80u16 <= seg@[0] && seg@[0]
            <= 0xfebfu16))) by {
            assert(rest[j] == ifaces[j + 1]);
        }
        assert(rest[k - 1] == ifaces[k]);
        lemma_aaaa_record_picks_first_global_ipv6(rest, name, k - 1);
    } else {
        lemma_link_local_is_fe80_10(ifaces[k].ip);
    }
}

/// An interface with an IPv4 address always yields one for an A record,
/// so resolving it never ends in `NoAddress`.
pub proof fn lemma_ipv4_interface_has_a_address(ifaces: Seq<Interface>, name: Seq<char>, i: int)
    requires
        0 <= i < ifaces.len(),
        ifaces[i].name@ == name,
        ifaces[i].ip is V4,
    ensures
        first_usable(ifaces, name, RecordType::A) is Some,
    decreases ifaces.len(),
{
    if !(ifaces[0].name@ == name && ifaces[0].ip is V4) {
        let rest = ifaces.drop_first();
        assert(rest[i - 1] == ifaces[i]);
        lemma_ipv4_interface_has_a_address(rest, name, i - 1);
    }
}

/// Picks the address of `interface` for a record of type `record_type`
/// from the machine's interface addresses, in their order: the first
/// IPv4 address for A, the first IPv6 address that is not link-local for
/// AAAA. Fails with `InterfaceNotFound` when no address belongs to that
/// interface, else with `NoAddress` when none is usable.
pub fn resolve_direct(addrs: &Vec<Interface>, interface: &str, record_type: &RecordType) -> (r:
    Result<IpAddr, Error>)
    ensures
        match r {
            Ok(ip) => first_usable(addrs@, interface@, *record_type) == Some(ip),
            Err(Error::InterfaceNotFound { interface: i }) => {
                &&& first_usable(addrs@, interface@, *record_type) is None
                &&& !has_interface(addrs@, interface@)
                &&& i@ == interface@
            },
            Err(Error::NoAddress { interface: i, addr_type }) => {
                &&& first_usable(addrs@, interface@, *record_type) is None
                &&& has_interface(addrs@, interface@)
                &&& i@ == interface@
                &&& addr_type@ == family_name(*record_type)
            },
            Err(_) => false,
        },
{
    let n = addrs.len();
    let mut found_iface = false;
    let mut i: usize = 0;
    while i < n
        invariant
            n == addrs@.len(),
            i <= n,
            forall|j: int|
                0 <= j < i ==> !((#[trigger] addrs@[j]).name@ == interface@ && usable_for(
                    addrs@[j].ip,
                    *record_type,
                )),
            found_iface <==> exists|j: int|
                0 <= j < i && (#[trigger] addrs@[j]).name@ == interface@,
        decreases n - i,
    {
        let iface = &addrs[i];
        if str_eq(iface.name.as_str(), interface) {
            found_iface = true;
            let ip = iface.ip;
            if usable(ip, *record_type) {
                proof {
                    lemma_first_usable_skip(addrs@, interface@, *record_type, i as int);
                    assert(addrs@.skip(i as int)[0] == addrs@[i as int]);
                }
                return Ok(ip);
            }
        }
        i = i + 1;
    }
    proof {
        lemma_first_usable_skip(addrs@, interface@, *record_type, n as int);
    }
    if !found_iface {
        return Err(Error::InterfaceNotFound { interface: interface.to_owned() });
    }
    Err(Error::NoAddress { interface: interface.to_owned(), addr_type: family_label(*record_type) })
}

/// How the address of a record is looked up.
#[derive(Debug)]
pub enum Lookup {
    /// Read it from the record's interface.
    Direct,
    /// Ask the web service at `url` through the record's interface,
    /// giving it `timeout_secs` seconds.
    Web { url: String, timeout_secs: u64 },
}

/// The lookup a record's mode calls for: in web mode, the record's own
/// web service or else the global one, with the global timeout.
pub fn lookup_for(record: &RecordConfig, global: &GlobalConfig) -> (l: Lookup)
    ensures
        match record.mode {
            ResolveMode::Direct => l is Direct,
            ResolveMode::Web => l matches Lookup::Web { url, timeout_secs } && url@
                == effective_web_url_of(*record, *global) && timeout_secs == global.web_timeout_secs,
        },
{
    match record.mode {
        ResolveMode::Direct => Lookup::Direct,
        ResolveMode::Web => Lookup::Web {
            url: record.effective_web_url(global).to_owned(),
            timeout_secs: global.web_timeout_secs,
        },
    }
}

/// A web answer is of the record's family exactly when it is an IPv4
/// address for A and an IPv6 address (any IPv6 address) for AAAA.
pub proof fn lemma_family_is_address_kind(ip: IpAddr)
    ensures
        family_matches(ip, RecordType::A) <==> ip is V4,
        family_matches(ip, RecordType::Aaaa) <==> ip is V6,
{
}

/// The message for an answer of the wrong family.
pub open spec fn wrong_family_message(t: RecordType, answer: Seq<char>) -> Seq<char> {
    "expected "@ + family_name(t) + ", got '"@ + answer + "'"@
}

/// Judges what a web service answered, once trimmed (`answer`) and parsed
/// as an IP address (`parsed`, `None` when it is not one): the address is
/// accepted when its family is that of the record type; otherwise the
/// error quotes the answer.
pub fn check_web_ip(answer: &str, parsed: Option<IpAddr>, record_type: &RecordType) -> (r: Result<
    IpAddr,
    Error,
>)
    ensures
        match parsed {
            None => r matches Err(Error::InvalidWebIp(m)) && m@ == answer@,
            Some(ip) => if family_matches(ip, *record_type) {
                r == Ok::<IpAddr, Error>(ip)
            } else {
                r matches Err(Error::InvalidWebIp(m)) && m@ == wrong_family_message(
                    *record_type,
                    answer@,
                )
            },
        },
        (parsed is Some && parsed.unwrap() is V4 && *record_type == RecordType::A) ==> r == Ok::<
            IpAddr,
            Error,
        >(parsed.unwrap()),
        (parsed is Some && parsed.unwrap() is V6 && *record_type == RecordType::Aaaa) ==> r == Ok::<
            IpAddr,
            Error,
        >(parsed.unwrap()),
        r is Ok ==> parsed is Some && r == Ok::<IpAddr, Error>(parsed.unwrap()),
{
    match parsed {
        None => Err(Error::InvalidWebIp(answer.to_owned())),
        Some(ip) => {
            let ok = match record_type {
                RecordType::A => ip.is_ipv4(),
                RecordType::Aaaa => ip.is_ipv6(),
            };
            if ok {
                Ok(ip)
            } else {
                let mut m = String::from_str("expected ");
                m.append(family_label(*record_type));
                m.append(", got '");
                m.append(answer);
                m.append("'");
                Err(Error::InvalidWebIp(m))
            }
        },
    }
}

} // verus!
