//! The configuration: its data model, the defaults that fill what the
//! file leaves out, and the checks a loaded configuration must pass.
use vstd::prelude::*;

use crate::error::Error;
use crate::text::{decimal, push_decimal};

verus! {

/// The whole configuration file.
#[derive(Debug)]
pub struct Config {
    pub global: GlobalConfig,
    pub record: Vec<RecordConfig>,
}

/// Settings shared by all records.
#[derive(Debug)]
pub struct GlobalConfig {
    pub interval_secs: u64,
    pub web_url: String,
    pub web_timeout_secs: u64,
    /// AWS credentials. If absent, the SDK's default credential chain is used.
    pub aws_access_key_id: Option<String>,
    pub aws_secret_access_key: Option<String>,
    /// Optional session token (required when using temporary credentials / STS).
    pub aws_session_token: Option<String>,
    pub aws_region: Option<String>,
}

/// One DNS record to keep up to date.
#[derive(Debug, Clone)]
pub struct RecordConfig {
    pub hosted_zone_id: String,
    pub name: String,
    pub interface: String,
    pub mode: ResolveMode,
    pub record_type: RecordType,
    pub ttl: i64,
    /// Overrides the global web_url for this record.
    pub web_url: Option<String>,
}

/// How the address of a record is found: on the interface itself, or by
/// asking a web service through that interface.
#[derive(Debug, Clone, Copy, PartialEq, Eq, Structural)]
pub enum ResolveMode {
    Direct,
    Web,
}

/// The kind of DNS record: IPv4 (A) or IPv6 (AAAA).
#[derive(Debug, Clone, Copy, PartialEq, Eq, Structural)]
pub enum RecordType {
    A,
    Aaaa,
}

impl Default for ResolveMode {
    /// A record resolves directly unless it says otherwise.
    fn default() -> (r: Self)
        ensures
            r == ResolveMode::Direct,
    {
        ResolveMode::Direct
    }
}

/// Seconds between two update cycles when the file does not say.
pub fn default_interval() -> (r: u64)
    ensures
        r == 300,
{
    300
}

/// The web service that reports the caller's public address, when the
/// file does not name one.
pub fn default_web_url() -> (r: String)
    ensures
        r@ == "https://ifconfig.me"@,
{
    String::from_str("https://ifconfig.me")
}

/// Seconds a web lookup may take, when the file does not say.
pub fn default_web_timeout() -> (r: u64)
    ensures
        r == 30,
{
    30
}

/// Time to live of a record, when the file does not say.
pub fn default_ttl() -> (r: i64)
    ensures
        r == 300,
{
    300
}

/// The Route53 code of a record type.
pub open spec fn rr_type_code(t: RecordType) -> Seq<char> {
    match t {
        RecordType::A => seq!['A'],
        RecordType::Aaaa => seq!['A', 'A', 'A', 'A'],
    }
}

/// The web service a record asks: its own if it names one, else the
/// global one.
pub open spec fn effective_web_url_of(record: RecordConfig, global: GlobalConfig) -> Seq<char> {
    match record.web_url {
        Some(url) => url@,
        None => global.web_url@,
    }
}

impl RecordConfig {
    /// The web service this record asks for its address.
    pub fn effective_web_url<'a>(&'a self, global: &'a GlobalConfig) -> (url: &'a str)
        ensures
            url@ == effective_web_url_of(*self, *global),
    {
        match &self.web_url {
            Some(url) => url.as_str(),
            None => global.web_url.as_str(),
        }
    }

    /// The Route53 record type code of this record ("A" or "AAAA").
    pub fn rr_type(&self) -> (code: &'static str)
        ensures
            code@ == rr_type_code(self.record_type),
    {
        match self.record_type {
            RecordType::A => {
                proof {
                    reveal_strlit("A");
                }
                "A"
            },
            RecordType::Aaaa => {
                proof {
                    reveal_strlit("AAAA");
                }
                "AAAA"
            },
        }
    }
}

/// A record that names a web service is always looked up there, whatever
/// the URL says and whatever the global one is; the global URL is used
/// only by records that name none.
pub proof fn lemma_record_url_overrides_global(
    record: RecordConfig,
    global: GlobalConfig,
    other: GlobalConfig,
)
    ensures
        record.web_url matches Some(url) ==> effective_web_url_of(record, global) == url@,
        record.web_url is Some ==> effective_web_url_of(record, global) == effective_web_url_of(
            record,
            other,
        ),
        record.web_url is None ==> effective_web_url_of(record, global) == global.web_url@,
{
}

/// The Route53 codes of the two record types: "A" and "AAAA".
pub proof fn lemma_rr_type_codes(t: RecordType)
    ensures
        t == RecordType::A ==> rr_type_code(t) == "A"@,
        t == RecordType::Aaaa ==> rr_type_code(t) == "AAAA"@,
        rr_type_code(RecordType::A) != rr_type_code(RecordType::Aaaa),
{
    reveal_strlit("A");
    reveal_strlit("AAAA");
    assert(rr_type_code(RecordType::A).len() != rr_type_code(RecordType::Aaaa).len());
    if t == RecordType::A {
        assert(rr_type_code(t) =~= "A"@);
    } else {
        assert(rr_type_code(t) =~= "AAAA"@);
    }
}

/// What is wrong with one record, as the message the loader reports, or
/// `None` when it is fine. The checks are made in this order.
pub open spec fn record_problem(r: RecordConfig) -> Option<Seq<char>> {
    if r.name@.len() == 0 {
        Some("record name must not be empty"@)
    } else if r.hosted_zone_id@.len() == 0 {
        Some("record hosted_zone_id must not be empty"@)
    } else if r.interface@.len() == 0 {
        Some("record interface must not be empty"@)
    } else if r.ttl <= 0 {
        Some("record '"@ + r.name@ + "' has invalid ttl "@ + decimal(r.ttl as int))
    } else {
        None
    }
}

/// The problem of the first record that has one.
pub open spec fn first_record_problem(records: Seq<RecordConfig>) -> Option<Seq<char>>
    decreases records.len(),
{
    if records.len() == 0 {
        None
    } else {
        match record_problem(records[0]) {
            Some(msg) => Some(msg),
            None => first_record_problem(records.drop_first()),
        }
    }
}

/// What is wrong with a configuration, or `None` when it can be used.
pub open spec fn config_problem(config: Config) -> Option<Seq<char>> {
    if config.record@.len() == 0 {
        Some("no [[record]] entries defined"@)
    } else {
        first_record_problem(config.record@)
    }
}

/// A record's problem as a message, or `None`.
fn check_record(r: &RecordConfig) -> (msg: Option<String>)
    ensures
        match msg {
            Some(m) => record_problem(*r) == Some(m@),
            None => record_problem(*r) is None,
        },
{
    if r.name.as_str().is_empty() {
        Some(String::from_str("record name must not be empty"))
    } else if r.hosted_zone_id.as_str().is_empty() {
        Some(String::from_str("record hosted_zone_id must not be empty"))
    } else if r.interface.as_str().is_empty() {
        Some(String::from_str("record interface must not be empty"))
    } else if r.ttl <= 0 {
        let mut m = String::from_str("record '");
        m.append(r.name.as_str());
        m.append("' has invalid ttl ");
        push_decimal(&mut m, r.ttl);
        Some(m)
    } else {
        None
    }
}

/// When none of the first `i` records has a problem, the first problem
/// is that of the records from `i` on.
proof fn lemma_first_problem_skip(records: Seq<RecordConfig>, i: int)
    requires
        0 <= i <= records.len(),
        forall|j: int| 0 <= j < i ==> (#[trigger] record_problem(records[j])) is None,
    ensures
        first_record_problem(records) == first_record_problem(records.skip(i)),
    decreases i,
{
    if i == 0 {
        assert(records.skip(0) =~= records);
    } else {
        let rest = records.drop_first();
        assert forall|j: int| 0 <= j < i - 1 implies (#[trigger] record_problem(rest[j])) is None by {
            assert(rest[j] == records[j + 1]);
        }
        lemma_first_problem_skip(rest, i - 1);
        assert(rest.skip(i - 1) =~= records.skip(i));
        assert(record_problem(records[0]) is None);
    }
}

/// Checks a freshly parsed configuration, as loading does after parsing:
/// it needs at least one record, and every record needs a name, a hosted
/// zone, an interface and a positive ttl. The configuration comes back
/// unchanged when it passes; otherwise the error names the first problem.
pub fn validate(config: Config) -> (r: Result<Config, Error>)
    ensures
        match r {
            Ok(c) => config_problem(config) is None && c == config,
            Err(e) => match e {
                Error::Config(msg) => config_problem(config) == Some(msg@),
                _ => false,
            },
        },
{
    if config.record.len() == 0 {
        return Err(Error::Config(String::from_str("no [[record]] entries defined")));
    }
    let n = config.record.len();
    let mut i: usize = 0;
    while i < n
        invariant
            n == config.record@.len(),
            i <= n,
            forall|j: int| 0 <= j < i ==> (#[trigger] record_problem(config.record@[j])) is None,
        decreases n - i,
    {
        match check_record(&config.record[i]) {
            Some(msg) => {
                proof {
                    lemma_first_problem_skip(config.record@, i as int);
                    assert(config.record@.skip(i as int)[0] == config.record@[i as int]);
                }
                return Err(Error::Config(msg));
            },
            None => {},
        }
        i = i + 1;
    }
    proof {
        lemma_first_problem_skip(config.record@, n as int);
    }
    Ok(config)
}

/// A record without a problem has a name, a hosted zone, an interface
/// and a positive ttl.
pub open spec fn record_well_formed(r: RecordConfig) -> bool {
    &&& r.name@.len() > 0
    &&& r.hosted_zone_id@.len() > 0
    &&& r.interface@.len() > 0
    &&& r.ttl > 0
}

proof fn lemma_no_first_problem(records: Seq<RecordConfig>)
    requires
        first_record_problem(records) is None,
    ensures
        forall|i: int| 0 <= i < records.len() ==> record_well_formed(#[trigger] records[i]),
    decreases records.len(),
{
    if records.len() > 0 {
        lemma_no_first_problem(records.drop_first());
        assert forall|i: int| 0 <= i < records.len() implies record_well_formed(
            #[trigger] records[i],
        ) by {
            if i > 0 {
                assert(records[i] == records.drop_first()[i - 1]);
            }
        }
    }
}

/// A configuration that passes the checks has at least one record, and
/// every record has a name, a hosted zone, an interface and a positive
/// ttl; one that has those passes.
pub proof fn lemma_accepted_config_is_well_formed(config: Config)
    ensures
        config_problem(config) is None <==> (config.record@.len() > 0 && forall|i: int|
            0 <= i < config.record@.len() ==> record_well_formed(#[trigger] config.record@[i])),
{
    if config_problem(config) is None {
        lemma_no_first_problem(config.record@);
    } else if config.record@.len() > 0 {
        lemma_first_problem_found(config.record@);
    }
}

proof fn lemma_first_problem_found(records: Seq<RecordConfig>)
    requires
        first_record_problem(records) is Some,
    ensures
        exists|i: int| 0 <= i < records.len() && !record_well_formed(#[trigger] records[i]),
    decreases records.len(),
{
    if record_problem(records[0]) is Some {
        assert(!record_well_formed(records[0]));
    } else {
        lemma_first_problem_found(records.drop_first());
        let i = choose|i: int|
            0 <= i < records.drop_first().len() && !record_well_formed(
                #[trigger] records.drop_first()[i],
            );
        assert(records[i + 1] == records.drop_first()[i]);
    }
}

/// Credentials given in the configuration itself.
#[derive(Debug)]
pub struct StaticCredentials {
    pub access_key_id: String,
    pub secret_access_key: String,
    pub session_token: Option<String>,
}

impl GlobalConfig {
    /// The credentials to hand to the SDK when the file gives both an
    /// access key id and a secret key (the session token is optional);
    /// `None` means the SDK's default credential chain is used.
    pub fn static_credentials(&self) -> (c: Option<StaticCredentials>)
        ensures
            match c {
                Some(c) => {
                    &&& self.aws_access_key_id matches Some(k) && c.access_key_id@ == k@
                    &&& self.aws_secret_access_key matches Some(s) && c.secret_access_key@ == s@
                    &&& match self.aws_session_token {
                        Some(t) => c.session_token matches Some(ct) && ct@ == t@,
                        None => c.session_token is None,
                    }
                },
                None => self.aws_access_key_id is None || self.aws_secret_access_key is None,
            },
    {
        match (&self.aws_access_key_id, &self.aws_secret_access_key) {
            (Some(key_id), Some(secret)) => {
                let session_token = match &self.aws_session_token {
                    Some(t) => Some(t.clone()),
                    None => None,
                };
                Some(
                    StaticCredentials {
                        access_key_id: key_id.clone(),
                        secret_access_key: secret.clone(),
                        session_token,
                    },
                )
            },
            _ => None,
        }
    }
}

} // verus!
