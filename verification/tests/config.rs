use iface_ddns::config::{
    default_interval, default_ttl, default_web_timeout, default_web_url, validate, Config,
    GlobalConfig, RecordConfig, RecordType, ResolveMode,
};
use iface_ddns::error::Error;

fn global() -> GlobalConfig {
    GlobalConfig {
        interval_secs: default_interval(),
        web_url: default_web_url(),
        web_timeout_secs: default_web_timeout(),
        aws_access_key_id: None,
        aws_secret_access_key: None,
        aws_session_token: None,
        aws_region: None,
    }
}

fn record(name: &str) -> RecordConfig {
    RecordConfig {
        hosted_zone_id: "Z123".to_string(),
        name: name.to_string(),
        interface: "eth0".to_string(),
        mode: ResolveMode::default(),
        record_type: RecordType::A,
        ttl: default_ttl(),
        web_url: None,
    }
}

fn config_error(config: Config) -> String {
    match validate(config) {
        Err(Error::Config(msg)) => msg,
        Err(e) => panic!("unexpected error {:?}", e),
        Ok(_) => panic!("accepted"),
    }
}

#[test]
fn defaults_are_as_documented() {
    assert_eq!(default_interval(), 300);
    assert_eq!(default_web_url(), "https://ifconfig.me");
    assert_eq!(default_web_timeout(), 30);
    assert_eq!(default_ttl(), 300);
    assert_eq!(ResolveMode::default(), ResolveMode::Direct);
}

#[test]
fn effective_web_url_prefers_the_record() {
    let g = global();
    let mut r = record("home.example.com");
    assert_eq!(r.effective_web_url(&g), "https://ifconfig.me");
    r.web_url = Some("https://api.ipify.org".to_string());
    assert_eq!(r.effective_web_url(&g), "https://api.ipify.org");
}

#[test]
fn rr_type_codes() {
    let mut r = record("home.example.com");
    assert_eq!(r.rr_type(), "A");
    r.record_type = RecordType::Aaaa;
    assert_eq!(r.rr_type(), "AAAA");
}

#[test]
fn valid_config_is_returned_unchanged() {
    let config = Config { global: global(), record: vec![record("a.example.com"), record("b.example.com")] };
    let c = validate(config).expect("valid");
    assert_eq!(c.record.len(), 2);
    assert_eq!(c.record[0].name, "a.example.com");
    assert_eq!(c.record[1].name, "b.example.com");
    assert_eq!(c.global.web_url, "https://ifconfig.me");
}

#[test]
fn no_records_is_rejected() {
    let config = Config { global: global(), record: vec![] };
    assert_eq!(config_error(config), "no [[record]] entries defined");
}

#[test]
fn empty_fields_are_rejected_in_order() {
    let mut r = record("");
    r.hosted_zone_id = String::new();
    r.ttl = 0;
    let config = Config { global: global(), record: vec![r.clone()] };
    assert_eq!(config_error(config), "record name must not be empty");

    r.name = "x".to_string();
    let config = Config { global: global(), record: vec![r.clone()] };
    assert_eq!(config_error(config), "record hosted_zone_id must not be empty");

    r.hosted_zone_id = "Z1".to_string();
    r.interface = String::new();
    let config = Config { global: global(), record: vec![r.clone()] };
    assert_eq!(config_error(config), "record interface must not be empty");

    r.interface = "eth0".to_string();
    let config = Config { global: global(), record: vec![r] };
    assert_eq!(config_error(config), "record 'x' has invalid ttl 0");
}

#[test]
fn negative_ttl_is_reported_with_its_value() {
    let mut r = record("home.example.com");
    r.ttl = -42;
    let config = Config { global: global(), record: vec![record("ok.example.com"), r] };
    assert_eq!(config_error(config), "record 'home.example.com' has invalid ttl -42");

    let mut r = record("min");
    r.ttl = i64::MIN;
    let config = Config { global: global(), record: vec![r] };
    assert_eq!(config_error(config), format!("record 'min' has invalid ttl {}", i64::MIN));
}

#[test]
fn first_bad_record_is_reported() {
    let mut bad1 = record("one");
    bad1.ttl = -1;
    let bad2 = record("");
    let config = Config { global: global(), record: vec![record("ok"), bad1, bad2] };
    assert_eq!(config_error(config), "record 'one' has invalid ttl -1");
}

#[test]
fn static_credentials_need_key_and_secret() {
    let mut g = global();
    assert!(g.static_credentials().is_none());
    g.aws_access_key_id = Some("AKID".to_string());
    assert!(g.static_credentials().is_none());
    g.aws_secret_access_key = Some("SECRET-REDACTED".to_string());
    let c = g.static_credentials().expect("both given");
    assert_eq!(c.access_key_id, "AKID");
    assert_eq!(c.secret_access_key, "SECRET-REDACTED");
    assert_eq!(c.session_token, None);
    g.aws_session_token = Some("tok".to_string());
    assert_eq!(g.static_credentials().unwrap().session_token, Some("tok".to_string()));
    g.aws_access_key_id = None;
    assert!(g.static_credentials().is_none());
}

#[test]
fn retryable_errors() {
    assert!(Error::WebResolve("timeout".to_string()).is_retryable());
    assert!(Error::Route53("throttled".to_string()).is_retryable());
    assert!(!Error::Config("bad".to_string()).is_retryable());
    assert!(!Error::InterfaceNotFound { interface: "eth0".to_string() }.is_retryable());
    assert!(!Error::NoAddress { interface: "eth0".to_string(), addr_type: "IPv4" }.is_retryable());
    assert!(!Error::InvalidWebIp("x".to_string()).is_retryable());
    assert!(!Error::Io(std::io::Error::new(std::io::ErrorKind::Other, "io")).is_retryable());
    assert!(!Error::Toml("parse".to_string()).is_retryable());
}
