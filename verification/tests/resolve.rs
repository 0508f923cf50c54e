use iface_ddns::config::{GlobalConfig, RecordConfig, RecordType, ResolveMode};
use iface_ddns::error::Error;
use iface_ddns::resolve::{check_web_ip, is_link_local_v6, lookup_for, resolve_direct, Interface, IpAddr, Lookup};
use iface_ddns::text::trim;

fn iface(name: &str, ip: IpAddr) -> Interface {
    Interface { name: name.to_string(), ip }
}

fn v4(a: u8, b: u8, c: u8, d: u8) -> IpAddr {
    IpAddr::V4([a, b, c, d])
}

fn ifaces() -> Vec<Interface> {
    vec![
        iface("lo", v4(127, 0, 0, 1)),
        iface("eth0", IpAddr::V6([0xfe80, 0, 0, 0, 0, 0, 0, 1])),
        iface("eth0", v4(192, 0, 2, 10)),
        iface("eth0", IpAddr::V6([0x2001, 0xdb8, 0, 0, 0, 0, 0, 5])),
        iface("eth0", v4(192, 0, 2, 11)),
        iface("wg0", IpAddr::V6([0xfe80, 0, 0, 0, 0, 0, 0, 2])),
    ]
}

#[test]
fn direct_picks_first_ipv4() {
    match resolve_direct(&ifaces(), "eth0", &RecordType::A) {
        Ok(IpAddr::V4(o)) => assert_eq!(o, [192, 0, 2, 10]),
        other => panic!("{:?}", other),
    }
}

#[test]
fn direct_skips_link_local_ipv6() {
    match resolve_direct(&ifaces(), "eth0", &RecordType::Aaaa) {
        Ok(IpAddr::V6(s)) => assert_eq!(s, [0x2001, 0xdb8, 0, 0, 0, 0, 0, 5]),
        other => panic!("{:?}", other),
    }
}

#[test]
fn direct_reports_missing_interface() {
    match resolve_direct(&ifaces(), "eth1", &RecordType::A) {
        Err(Error::InterfaceNotFound { interface }) => assert_eq!(interface, "eth1"),
        other => panic!("{:?}", other),
    }
}

#[test]
fn direct_reports_missing_address() {
    match resolve_direct(&ifaces(), "wg0", &RecordType::Aaaa) {
        Err(Error::NoAddress { interface, addr_type }) => {
            assert_eq!(interface, "wg0");
            assert_eq!(addr_type, "IPv6");
        }
        other => panic!("{:?}", other),
    }
    match resolve_direct(&ifaces(), "wg0", &RecordType::A) {
        Err(Error::NoAddress { addr_type, .. }) => assert_eq!(addr_type, "IPv4"),
        other => panic!("{:?}", other),
    }
}

#[test]
fn link_local_range() {
    assert!(is_link_local_v6(IpAddr::V6([0xfe80, 0, 0, 0, 0, 0, 0, 1])));
    assert!(is_link_local_v6(IpAddr::V6([0xfebf, 0xffff, 0, 0, 0, 0, 0, 0])));
    assert!(!is_link_local_v6(IpAddr::V6([0xfec0, 0, 0, 0, 0, 0, 0, 0])));
    assert!(!is_link_local_v6(IpAddr::V6([0x2001, 0xdb8, 0, 0, 0, 0, 0, 1])));
    assert!(!is_link_local_v6(v4(169, 254, 0, 1)));
    assert!(v4(1, 2, 3, 4).is_ipv4());
    assert!(!v4(1, 2, 3, 4).is_ipv6());
}

#[test]
fn web_answer_checks() {
    match check_web_ip("not an ip", None, &RecordType::A) {
        Err(Error::InvalidWebIp(m)) => assert_eq!(m, "not an ip"),
        other => panic!("{:?}", other),
    }
    let six = IpAddr::V6([0, 0, 0, 0, 0, 0, 0, 1]);
    match check_web_ip("::1", Some(six), &RecordType::A) {
        Err(Error::InvalidWebIp(m)) => assert_eq!(m, "expected IPv4, got '::1'"),
        other => panic!("{:?}", other),
    }
    match check_web_ip("192.0.2.1", Some(v4(192, 0, 2, 1)), &RecordType::Aaaa) {
        Err(Error::InvalidWebIp(m)) => assert_eq!(m, "expected IPv6, got '192.0.2.1'"),
        other => panic!("{:?}", other),
    }
    assert!(matches!(check_web_ip("192.0.2.1", Some(v4(192, 0, 2, 1)), &RecordType::A), Ok(IpAddr::V4([192, 0, 2, 1]))));
    // A link-local answer from the web is not refused.
    let ll = IpAddr::V6([0xfe80, 0, 0, 0, 0, 0, 0, 1]);
    assert!(matches!(check_web_ip("fe80::1", Some(ll), &RecordType::Aaaa), Ok(IpAddr::V6(_))));
}

#[test]
fn web_answer_is_trimmed_before_parsing() {
    let body = "  203.0.113.5\n";
    let answer = trim(body);
    assert_eq!(answer, "203.0.113.5");
    let parsed = Some(v4(203, 0, 113, 5));
    assert!(matches!(check_web_ip(answer, parsed, &RecordType::A), Ok(IpAddr::V4([203, 0, 113, 5]))));
}

#[test]
fn lookup_follows_mode() {
    let global = GlobalConfig {
        interval_secs: 300,
        web_url: "https://ifconfig.me".to_string(),
        web_timeout_secs: 30,
        aws_access_key_id: None,
        aws_secret_access_key: None,
        aws_session_token: None,
        aws_region: None,
    };
    let mut r = RecordConfig {
        hosted_zone_id: "Z".to_string(),
        name: "n".to_string(),
        interface: "eth0".to_string(),
        mode: ResolveMode::Direct,
        record_type: RecordType::A,
        ttl: 300,
        web_url: None,
    };
    assert!(matches!(lookup_for(&r, &global), Lookup::Direct));
    r.mode = ResolveMode::Web;
    match lookup_for(&r, &global) {
        Lookup::Web { url, timeout_secs } => {
            assert_eq!(url, "https://ifconfig.me");
            assert_eq!(timeout_secs, 30);
        }
        other => panic!("{:?}", other),
    }
    r.web_url = Some("https://icanhazip.com".to_string());
    match lookup_for(&r, &global) {
        Lookup::Web { url, .. } => assert_eq!(url, "https://icanhazip.com"),
        other => panic!("{:?}", other),
    }
}
