//! The watcher's configuration and its startup validation.

use vstd::prelude::*;

verus! {

/// The configuration of one watch run.  Immutable once validated: the poll
/// loop holds a single copy for its whole lifetime.
pub struct WatchConfig {
    pub smtp_server: String,
    pub smtp_port: u16,
    pub smtp_user: String,
    pub smtp_pass: String,
    pub domain_name: String,
    pub email: String,
    pub log: bool,
    pub provider: String,
    pub api_key: String,
    /// Poll interval in seconds.
    pub frequency: u32,
}

/// A configuration fault found at startup.  Any of these is fatal: the
/// process must not enter the poll loop.
#[derive(Clone, Copy, Debug, PartialEq, Eq, Structural)]
pub enum ConfigError {
    /// The sender address (the SMTP user) does not parse as an email
    /// address.
    InvalidSenderAddress,
    /// The notification recipient does not parse as an email address.
    InvalidRecipientAddress,
    /// The watched domain name is not a plausible domain.
    ImplausibleDomain,
    /// The SMTP port is zero.
    ZeroPort,
    /// The poll interval is zero seconds.
    ZeroFrequency,
}

/// Whether a string parses as an email address.
pub uninterp spec fn addr_ok(s: Seq<char>) -> bool;

/// Relies on lettre::Address's FromStr impl: whether a string is a valid
/// email address is a function of the string alone.
#[verifier::external_body]
fn address_is_valid(s: &str) -> (r: bool)
    ensures
        r == addr_ok(s@),
{
    s.parse::<lettre::Address>().is_ok()
}

/// A character allowed in a domain name: an ASCII letter, a digit, a
/// hyphen or a dot.
pub open spec fn domain_char(c: char) -> bool {
    ('a' <= c && c <= 'z') || ('A' <= c && c <= 'Z') || ('0' <= c && c <= '9') || c == '-' || c
        == '.'
}

/// A syntactically plausible domain name: non-empty, made of letters,
/// digits, hyphens and dots only, holding at least one dot, and neither
/// starting nor ending with a dot or a hyphen.
pub open spec fn plausible_domain(s: Seq<char>) -> bool {
    &&& s.len() >= 1
    &&& forall|i: int| 0 <= i < s.len() ==> domain_char(#[trigger] s[i])
    &&& exists|i: int| 0 <= i < s.len() && s[i] == '.'
    &&& s[0] != '.' && s[0] != '-'
    &&& s[s.len() - 1] != '.' && s[s.len() - 1] != '-'
}

/// Decides whether a string is a plausible domain name.
pub fn is_plausible_domain(s: &str) -> (r: bool)
    ensures
        r == plausible_domain(s@),
{
    let n = s.unicode_len();
    if n == 0 {
        return false;
    }
    let first = s.get_char(0);
    if first == '.' || first == '-' {
        return false;
    }
    let last = s.get_char(n - 1);
    if last == '.' || last == '-' {
        return false;
    }
    let mut has_dot = false;
    let mut i: usize = 0;
    while i < n
        invariant
            n == s@.len(),
            1 <= n,
            i <= n,
            s@[0] != '.' && s@[0] != '-',
            s@[n - 1] != '.' && s@[n - 1] != '-',
            forall|k: int| 0 <= k < i ==> domain_char(#[trigger] s@[k]),
            has_dot <==> exists|k: int| 0 <= k < i && s@[k] == '.',
        decreases n - i,
    {
        let c = s.get_char(i);
        if !(('a' <= c && c <= 'z') || ('A' <= c && c <= 'Z') || ('0' <= c && c <= '9') || c == '-'
            || c == '.') {
            assert(!domain_char(s@[i as int]));
            return false;
        }
        if c == '.' {
            has_dot = true;
        }
        i = i + 1;
    }
    has_dot
}

impl WatchConfig {
    /// A well-formed configuration: both mail addresses parse, the domain
    /// is plausible, and port and poll interval are non-zero.
    pub open spec fn wf(self) -> bool {
        &&& addr_ok(self.smtp_user@)
        &&& addr_ok(self.email@)
        &&& plausible_domain(self.domain_name@)
        &&& self.smtp_port != 0
        &&& self.frequency != 0
    }

    /// The outcome of validation: the first fault, checked in a fixed
    /// order — sender address, recipient address, domain, port, interval.
    pub open spec fn spec_validate(self) -> Result<(), ConfigError> {
        if !addr_ok(self.smtp_user@) {
            Err(ConfigError::InvalidSenderAddress)
        } else if !addr_ok(self.email@) {
            Err(ConfigError::InvalidRecipientAddress)
        } else if !plausible_domain(self.domain_name@) {
            Err(ConfigError::ImplausibleDomain)
        } else if self.smtp_port == 0 {
            Err(ConfigError::ZeroPort)
        } else if self.frequency == 0 {
            Err(ConfigError::ZeroFrequency)
        } else {
            Ok(())
        }
    }
}

/// Validates a configuration once at startup.  Succeeds exactly on
/// well-formed configurations; on a fault it reports the first failing
/// check.
pub fn validate_config(c: &WatchConfig) -> (r: Result<(), ConfigError>)
    ensures
        r == c.spec_validate(),
        r is Ok <==> c.wf(),
{
    if !address_is_valid(c.smtp_user.as_str()) {
        Err(ConfigError::InvalidSenderAddress)
    } else if !address_is_valid(c.email.as_str()) {
        Err(ConfigError::InvalidRecipientAddress)
    } else if !is_plausible_domain(c.domain_name.as_str()) {
        Err(ConfigError::ImplausibleDomain)
    } else if c.smtp_port == 0 {
        Err(ConfigError::ZeroPort)
    } else if c.frequency == 0 {
        Err(ConfigError::ZeroFrequency)
    } else {
        Ok(())
    }
}

} // verus!
