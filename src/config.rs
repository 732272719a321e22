//! Session configuration.
use vstd::prelude::*;

verus! {

#[verifier::external_type_specification]
#[verifier::external_body]
pub struct ExParseError(url::ParseError);

/// The serialization of the absolute URL parsed from `s`, if it is one.
pub uninterp spec fn parsed_endpoint(s: Seq<char>) -> Option<Seq<char>>;

/// Relies on `url::Url::parse`: it parses an absolute URL or reports why it
/// cannot; the parsed URL is handed back in its serialized form.
#[verifier::external_body]
pub(crate) fn parse_endpoint(s: &str) -> (r: Result<String, url::ParseError>)
    ensures
        r is Ok <==> parsed_endpoint(s@) is Some,
        r is Ok ==> r->Ok_0@ == parsed_endpoint(s@)->Some_0,
{
    match url::Url::parse(s) {
        Ok(u) => Ok(String::from(u)),
        Err(e) => Err(e),
    }
}

/// Every one of `urls` is an absolute URL.
pub open spec fn all_parse(urls: Seq<String>) -> bool {
    forall|i: int| 0 <= i < urls.len() ==> (#[trigger] parsed_endpoint(urls[i]@)) is Some
}

/// `k` is the index of the first of `urls` that is not an absolute URL.
pub open spec fn first_bad(urls: Seq<String>, k: int) -> bool {
    &&& 0 <= k < urls.len()
    &&& parsed_endpoint(urls[k]@) is None
    &&& forall|j: int| 0 <= j < k ==> (#[trigger] parsed_endpoint(urls[j]@)) is Some
}

/// Tunables of a session, as the caller sets them.
pub struct PyConfig {
    /// Consecutive failed connection attempts after which the session fails,
    /// and consecutive idle polls after which an open connection is dropped.
    pub max_allowed_loops: u32,
    /// Pause of the driver between polls, in milliseconds.
    pub sleep_interval: u64,
    /// Delay before reconnecting, in seconds.
    pub reconnect_time: u64,
    /// Bound on one connection attempt, in seconds.
    pub connection_initialization_timeout_secs: u64,
    /// Default bound on a correlated send, in seconds.
    pub timeout_secs: u64,
    /// Candidate endpoints, tried in order.
    pub urls: Vec<String>,
}

/// A configuration whose endpoints have been parsed.
pub struct SessionConfig {
    pub max_allowed_loops: u32,
    pub sleep_interval_ms: u64,
    pub reconnect_time_s: u64,
    pub connection_init_timeout_s: u64,
    pub timeout_s: u64,
    /// The endpoints in their serialized form, in the caller's order.
    pub urls: Vec<String>,
}

/// Why a configuration was refused.
#[derive(Debug, Clone, PartialEq, Eq)]
pub enum ConfigError {
    /// This candidate endpoint is not an absolute URL.
    InvalidUrl(String),
}

/// Seconds as milliseconds, or the largest value when that does not fit.
pub open spec fn secs_to_ms(s: u64) -> u64 {
    if s * 1000 > u64::MAX { u64::MAX } else { (s * 1000) as u64 }
}

/// Converts seconds to milliseconds, saturating.
pub fn to_millis(s: u64) -> (r: u64)
    ensures
        r == secs_to_ms(s),
{
    if s > u64::MAX / 1000 {
        u64::MAX
    } else {
        s * 1000
    }
}

impl PyConfig {
    /// The default configuration: 100 attempts, 100 ms between polls,
    /// 5 s before reconnecting, 30 s to connect, 30 s per request, and the
    /// venue's default endpoints.
    pub fn new() -> (r: PyConfig)
        ensures
            r.max_allowed_loops == 100,
            r.sleep_interval == 100,
            r.reconnect_time == 5,
            r.connection_initialization_timeout_secs == 30,
            r.timeout_secs == 30,
            r.urls@.len() == 0,
    {
        PyConfig {
            max_allowed_loops: 100,
            sleep_interval: 100,
            reconnect_time: 5,
            connection_initialization_timeout_secs: 30,
            timeout_secs: 30,
            urls: Vec::new(),
        }
    }

    /// Checks the endpoints. Succeeds when every one of them is an absolute
    /// URL; otherwise names the first that is not.
    pub fn build(&self) -> (r: Result<SessionConfig, ConfigError>)
        ensures
            r is Ok <==> all_parse(self.urls@),
            r is Ok ==> ({
                let c = r->Ok_0;
                &&& c.max_allowed_loops == self.max_allowed_loops
                &&& c.sleep_interval_ms == self.sleep_interval
                &&& c.reconnect_time_s == self.reconnect_time
                &&& c.connection_init_timeout_s == self.connection_initialization_timeout_secs
                &&& c.timeout_s == self.timeout_secs
                &&& c.urls@.len() == self.urls@.len()
                &&& forall|i: int| 0 <= i < self.urls@.len() ==> #[trigger] c.urls@[i]@
                    == parsed_endpoint(self.urls@[i]@)->Some_0
            }),
            r is Err ==> exists|k: int| first_bad(self.urls@, k)
                && r->Err_0 == ConfigError::InvalidUrl(self.urls@[k]),
    {
        let mut parsed: Vec<String> = Vec::new();
        let mut i: usize = 0;
        while i < self.urls.len()
            invariant
                i <= self.urls@.len(),
                parsed@.len() == i,
                forall|j: int| 0 <= j < i ==> (#[trigger] parsed_endpoint(self.urls@[j]@)) is Some,
                forall|j: int| 0 <= j < i ==> #[trigger] parsed@[j]@ == parsed_endpoint(self.urls@[j]@)->Some_0,
            decreases self.urls@.len() - i,
        {
            match parse_endpoint(self.urls[i].as_str()) {
                Ok(u) => {
                    parsed.push(u);
                },
                Err(_) => {
                    assert(first_bad(self.urls@, i as int));
                    return Err(ConfigError::InvalidUrl(self.urls[i].clone()));
                },
            }
            i = i + 1;
        }
        Ok(SessionConfig {
            max_allowed_loops: self.max_allowed_loops,
            sleep_interval_ms: self.sleep_interval,
            reconnect_time_s: self.reconnect_time,
            connection_init_timeout_s: self.connection_initialization_timeout_secs,
            timeout_s: self.timeout_secs,
            urls: parsed,
        })
    }
}

} // verus!
