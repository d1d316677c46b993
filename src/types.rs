//! The data of a search run: its configuration and stopping policy, the keys it finds,
//! and the counters and stop flag shared by its threads.
use vstd::prelude::*;
use vstd::string::StringExecFns;
use std::sync::atomic::{AtomicBool, AtomicU64, AtomicUsize, Ordering};
use crate::secure::SecureString;

verus! {

/// When a search ends.
#[derive(Debug, Clone, Copy, PartialEq, Eq, Structural)]
pub enum SearchBehavior {
    /// Stop once this many matching keys have been found.
    FindN(usize),
    /// Run until cancelled from outside.
    Continuous,
}

/// What a search looks for and how it runs; shared read-only by all workers.
#[derive(Debug, Clone)]
pub struct SearchConfig {
    /// Uppercase hex digits the public key must start with.
    pub prefix: String,
    pub search_behavior: SearchBehavior,
    pub cpu_threads: usize,
}

/// A digit 0-9 or a letter a-f in either case.
pub open spec fn is_hex_char(c: char) -> bool {
    ('0' <= c && c <= '9') || ('a' <= c && c <= 'f') || ('A' <= c && c <= 'F')
}

/// A digit 0-9 or an uppercase letter A-F.
pub open spec fn is_upper_hex_char(c: char) -> bool {
    ('0' <= c && c <= '9') || ('A' <= c && c <= 'F')
}

/// Every character is a hex digit.
pub open spec fn all_hex(s: Seq<char>) -> bool {
    forall|i: int| 0 <= i < s.len() ==> is_hex_char(#[trigger] s[i])
}

/// The ASCII uppercase of a character; every other character is left as it is.
pub open spec fn ascii_upper(c: char) -> char {
    if 'a' <= c && c <= 'z' {
        ((c as u32) - 32) as char
    } else {
        c
    }
}

/// The ASCII uppercase of a text, character by character.
pub open spec fn ascii_upper_text(s: Seq<char>) -> Seq<char> {
    s.map_values(|c: char| ascii_upper(c))
}

/// The stopping policy for a requested number of keys: zero means no limit.
pub open spec fn behavior_for(max_keys: usize) -> SearchBehavior {
    if max_keys == 0 {
        SearchBehavior::Continuous
    } else {
        SearchBehavior::FindN(max_keys)
    }
}

/// Workers for a machine with `available` cores: one core is left to the rest of the
/// system, and there is always at least one worker.
pub open spec fn worker_count_for(available: usize) -> usize {
    if available <= 1 {
        1
    } else {
        (available - 1) as usize
    }
}

impl SearchConfig {
    /// The configuration is usable: a non-empty pattern of uppercase hex digits, at
    /// least one worker, and a positive target when the search stops after N keys.
    pub open spec fn wf(&self) -> bool {
        &&& self.prefix@.len() > 0
        &&& forall|i: int| 0 <= i < self.prefix@.len() ==> is_upper_hex_char(#[trigger] self.prefix@[i])
        &&& self.cpu_threads >= 1
        &&& (self.search_behavior matches SearchBehavior::FindN(n) ==> n >= 1)
    }
}

/// Why a search configuration was refused.
#[derive(Debug, Clone)]
pub enum ConfigError {
    /// The pattern (shown uppercased) holds a character that is not a hex digit.
    InvalidHex { pattern: String },
    /// The pattern is empty.
    EmptyPattern,
}

impl ConfigError {
    /// The text shown to the user.
    pub fn message(&self) -> (r: String)
        ensures
            r@ == match self {
                ConfigError::InvalidHex { pattern } => "Invalid hex characters in pattern '"@
                    + pattern@ + "'. Only 0-9 and A-F are allowed."@,
                ConfigError::EmptyPattern => "Pattern cannot be empty."@,
            },
    {
        match self {
            ConfigError::InvalidHex { pattern } => {
                let mut text = String::from_str("Invalid hex characters in pattern '");
                text.append(pattern.as_str());
                text.append("'. Only 0-9 and A-F are allowed.");
                text
            },
            ConfigError::EmptyPattern => String::from_str("Pattern cannot be empty."),
        }
    }
}

/// Relies on str::to_ascii_uppercase: ASCII letters 'a' to 'z' become 'A' to 'Z', every
/// other character is kept.
#[verifier::external_body]
fn to_ascii_uppercase(s: &str) -> (r: String)
    ensures
        r@ == ascii_upper_text(s@),
{
    s.to_ascii_uppercase()
}

fn is_hex_digit(c: char) -> (r: bool)
    ensures
        r == is_hex_char(c),
{
    ('0' <= c && c <= '9') || ('a' <= c && c <= 'f') || ('A' <= c && c <= 'F')
}

/// The number of search workers for a machine with `available` cores.
pub fn worker_count(available: usize) -> (r: usize)
    ensures
        r == worker_count_for(available),
        r >= 1,
{
    if available <= 1 {
        1
    } else {
        available - 1
    }
}

/// Validates a user pattern and builds the search configuration. The pattern is
/// refused if it holds a character that is not a hex digit, else if it is empty; an
/// accepted pattern is stored uppercased. `max_keys` of zero means no limit.
pub fn create_search_config(pattern: String, max_keys: usize, available_cores: usize) -> (r:
    Result<SearchConfig, ConfigError>)
    ensures
        match r {
            Err(ConfigError::InvalidHex { pattern: shown }) => !all_hex(pattern@) && shown@
                == ascii_upper_text(pattern@),
            Err(ConfigError::EmptyPattern) => all_hex(pattern@) && pattern@.len() == 0,
            Ok(c) => {
                &&& all_hex(pattern@)
                &&& pattern@.len() > 0
                &&& c.prefix@ == ascii_upper_text(pattern@)
                &&& c.search_behavior == behavior_for(max_keys)
                &&& c.cpu_threads == worker_count_for(available_cores)
                &&& c.wf()
            },
        },
{
    broadcast use vstd::string::group_string_axioms;

    let upper = to_ascii_uppercase(pattern.as_str());
    let mut valid = true;
    for c in it: pattern.as_str().chars()
        invariant
            it.seq() == pattern@,
            valid == (forall|i: int| 0 <= i < it.index() ==> is_hex_char(#[trigger] pattern@[i])),
    {
        if !is_hex_digit(c) {
            valid = false;
        }
    }
    if !valid {
        return Err(ConfigError::InvalidHex { pattern: upper });
    }
    if pattern.as_str().is_empty() {
        return Err(ConfigError::EmptyPattern);
    }
    let search_behavior = if max_keys == 0 {
        SearchBehavior::Continuous
    } else {
        SearchBehavior::FindN(max_keys)
    };
    let config = SearchConfig { prefix: upper, search_behavior, cpu_threads: worker_count(available_cores) };
    assert forall|i: int| 0 <= i < config.prefix@.len() implies is_upper_hex_char(
        #[trigger] config.prefix@[i],
    ) by {
        assert(is_hex_char(pattern@[i]));
    }
    Ok(config)
}

/// A key pair whose public key matched: the private key as uppercase hex of its
/// expanded encoding, kept secret, and the public key as uppercase hex.
pub struct FoundKey {
    pub private_key: SecureString,
    pub public_key: String,
}

impl FoundKey {
    /// Debug text that shows the public key and hides the private key.
    pub fn debug_repr(&self) -> (r: String)
        ensures
            r@ == "FoundKey { private_key: "@ + crate::secure::redacted_debug_text()
                + ", public_key: \""@ + self.public_key@ + "\" }"@,
    {
        let mut text = String::from_str("FoundKey { private_key: ");
        let secret = self.private_key.debug_repr();
        text.append(secret.as_str());
        text.append(", public_key: \"");
        text.append(self.public_key.as_str());
        text.append("\" }");
        text
    }
}

/// Counters and stop flag of one search run, shared by every worker and the threads
/// that watch them. All access is relaxed: the values are for monitoring, and the stop
/// flag only has to be seen eventually.
pub struct SearchStats {
    /// Candidates generated, summed over the workers' flushed counts.
    pub total_attempts: AtomicU64,
    /// Matching keys found.
    pub prefix_matches: AtomicUsize,
    /// Set once the search should end; never cleared during a run.
    pub stop_search: AtomicBool,
}

impl SearchStats {
    /// Counters at zero and the stop flag clear.
    pub fn new() -> Self {
        Self {
            total_attempts: AtomicU64::new(0),
            prefix_matches: AtomicUsize::new(0),
            stop_search: AtomicBool::new(false),
        }
    }

    /// Asks every worker to stop. Setting the flag again is harmless.
    pub fn request_stop(&self) {
        self.stop_search.store(true, Ordering::Relaxed);
    }

    /// Whether a stop has been asked for.
    pub fn stop_requested(&self) -> bool {
        self.stop_search.load(Ordering::Relaxed)
    }
}

} // verus!
