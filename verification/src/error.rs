use vstd::prelude::*;

verus! {

/// The standard I/O error type, carried through unchanged.
#[verifier::external_type_specification]
#[verifier::external_body]
pub struct ExIoError(std::io::Error);

/// Everything that can go wrong while loading the configuration or
/// updating one record.
///
/// The HTTP client's and the TOML parser's errors are kept as their
/// rendered messages.
#[derive(Debug)]
pub enum Error {
    Config(String),
    InterfaceNotFound { interface: String },
    NoAddress { interface: String, addr_type: &'static str },
    WebResolve(String),
    InvalidWebIp(String),
    Route53(String),
    Io(std::io::Error),
    Toml(String),
}

/// Renders an I/O error with `ToString::to_string` (its `Display` impl in
/// std). The text comes from the operating system's description of the
/// error, so no clause states what it holds.
#[verifier::external_body]
fn io_error_text(e: &std::io::Error) -> String {
    e.to_string()
}

impl Error {
    /// The human-readable description of the error.
    pub fn message(&self) -> (m: String)
        ensures
            match self {
                Error::Config(s) => m@ == "config error: "@ + s@,
                Error::InterfaceNotFound { interface } => m@ == "interface '"@ + interface@
                    + "' not found"@,
                Error::NoAddress { interface, addr_type } => m@ == "no "@ + addr_type@
                    + " address on interface '"@ + interface@ + "'"@,
                Error::WebResolve(s) => m@ == "web resolve failed: "@ + s@,
                Error::InvalidWebIp(s) => m@ == "invalid IP from web service: '"@ + s@ + "'"@,
                Error::Route53(s) => m@ == "route53 error: "@ + s@,
                Error::Io(_) => m@.len() >= "io error: "@.len() && m@.subrange(
                    0,
                    "io error: "@.len() as int,
                ) == "io error: "@,
                Error::Toml(s) => m@ == "config parse error: "@ + s@,
            },
    {
        match self {
            Error::Config(s) => String::from_str("config error: ").concat(s.as_str()),
            Error::InterfaceNotFound { interface } => String::from_str("interface '").concat(
                interface.as_str(),
            ).concat("' not found"),
            Error::NoAddress { interface, addr_type } => String::from_str("no ").concat(
                addr_type,
            ).concat(" address on interface '").concat(interface.as_str()).concat("'"),
            Error::WebResolve(s) => String::from_str("web resolve failed: ").concat(s.as_str()),
            Error::InvalidWebIp(s) => String::from_str("invalid IP from web service: '").concat(
                s.as_str(),
            ).concat("'"),
            Error::Route53(s) => String::from_str("route53 error: ").concat(s.as_str()),
            Error::Io(e) => {
                let prefix = String::from_str("io error: ");
                let text = io_error_text(e);
                let m = prefix.concat(text.as_str());
                assert(m@.subrange(0, "io error: "@.len() as int) =~= "io error: "@);
                m
            },
            Error::Toml(s) => String::from_str("config parse error: ").concat(s.as_str()),
        }
    }

    /// True for transient errors that are worth retrying: a failed web
    /// lookup or a failed Route53 call.
    pub fn is_retryable(&self) -> (r: bool)
        ensures
            r == (self is WebResolve || self is Route53),
    {
        match self {
            Error::WebResolve(_) | Error::Route53(_) => true,
            _ => false,
        }
    }
}

} // verus!
