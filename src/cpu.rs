//! The search workers: each one draws random seeds from its own generator, derives and
//! matches public keys, sends matching key pairs to the consumer, and adds its count of
//! candidates to the shared total in batches.
use vstd::prelude::*;
use std::sync::Arc;
use std::sync::atomic::Ordering;
use crossbeam::channel::Sender;
use rand::rngs::ThreadRng;
use rand::RngCore;
use crate::keys::{
    create_meshcore_private_key, derive_public_key, expanded_key_of, public_key_of,
    validate_meshcore_key_format,
};
use crate::pattern::{check_prefix_match, encode_upper_hex, hex_string_to_bytes, is_byte_prefix, upper_hex};
use crate::secure::SecureString;
use crate::types::{FoundKey, SearchConfig, SearchStats};

verus! {

/// Candidates a worker generates between two additions to the shared attempt counter.
pub const FLUSH_INTERVAL: u64 = 5000;

#[verifier::external_type_specification]
#[verifier::external_body]
#[verifier::reject_recursive_types(T)]
pub struct ExSender<T>(Sender<T>);

#[verifier::external_type_specification]
#[verifier::external_body]
pub struct ExThreadRng(ThreadRng);

/// Relies on rand::thread_rng: a handle to the calling thread's own generator.
pub assume_specification[ rand::thread_rng ]() -> ThreadRng;

/// Relies on rand's RngCore::fill_bytes for ThreadRng: 32 random bytes; nothing is known
/// of their values.
#[verifier::external_body]
fn random_seed(rng: &mut ThreadRng) -> [u8; 32] {
    let mut seed = [0u8; 32];
    rng.fill_bytes(&mut seed);
    seed
}

/// Relies on crossbeam::channel::Sender::send: the key is queued unless every receiver
/// is gone, which is reported as `false`; which of the two happens is not known here.
#[verifier::external_body]
fn deliver(sender: &Sender<FoundKey>, key: FoundKey) -> bool {
    sender.send(key).is_ok()
}

/// Candidates per batch for a pattern of `prefix_len` characters: short patterns match
/// quickly and get small batches, longer ones larger batches.
pub open spec fn batch_size_spec(prefix_len: usize) -> u64 {
    if 1 <= prefix_len <= 4 {
        1024
    } else if 5 <= prefix_len <= 6 {
        2048
    } else {
        4096
    }
}

/// Candidates per batch for a pattern of `prefix_len` characters.
pub fn batch_size_for(prefix_len: usize) -> (r: u64)
    ensures
        r == batch_size_spec(prefix_len),
        r >= 1,
{
    if 1 <= prefix_len && prefix_len <= 4 {
        1024
    } else if 5 <= prefix_len && prefix_len <= 6 {
        2048
    } else {
        4096
    }
}

/// Tests one seed against the byte pattern: if the seed's public key starts with
/// `prefix_bytes`, returns the key pair with the expanded private key and the public
/// key, both as uppercase hex; otherwise nothing.
pub fn evaluate_seed(seed: &[u8; 32], prefix_bytes: &[u8]) -> (r: Option<FoundKey>)
    ensures
        r is Some <==> is_byte_prefix(public_key_of(seed@), prefix_bytes@),
        r matches Some(k) ==> k.public_key@ == upper_hex(public_key_of(seed@))
            && k.private_key.view() == upper_hex(expanded_key_of(seed@)),
{
    let public_key = derive_public_key(seed);
    if !check_prefix_match(public_key.as_slice(), prefix_bytes) {
        return None;
    }
    let expanded = create_meshcore_private_key(seed);
    if !validate_meshcore_key_format(expanded.as_slice()) {
        return None;
    }
    Some(
        FoundKey {
            private_key: SecureString::new(encode_upper_hex(expanded.as_slice())),
            public_key: encode_upper_hex(public_key.as_slice()),
        },
    )
}

/// Why a worker returned.
#[derive(Debug, Clone, Copy, PartialEq, Eq, Structural)]
pub enum WorkerExit {
    /// It read the stop flag as set.
    StopRequested,
    /// Sending a found key failed because the consumer is gone.
    ChannelClosed,
    /// Its own count of candidates reached `u64::MAX`.
    CounterExhausted,
}

/// What one worker did during a run.
#[derive(Debug, Clone, Copy, PartialEq, Eq, Structural)]
pub struct WorkerReport {
    /// The worker's number.
    pub worker: usize,
    /// Candidates generated.
    pub attempts: u64,
    /// Sum of the counts added to the shared attempt counter.
    pub flushed: u64,
    /// Candidates that matched and were added to the shared match counter.
    pub matches: u64,
    /// Found keys handed to the channel.
    pub delivered: u64,
    /// Reads of the stop flag.
    pub stop_checks: u64,
    pub exit: WorkerExit,
}

/// The counts a worker keeps while it runs, and the reason to return once there is one.
struct WorkerLoop {
    attempts: u64,
    unflushed: u64,
    flushed: u64,
    matches: u64,
    delivered: u64,
    stop_checks: u64,
    exit: Option<WorkerExit>,
}

impl WorkerLoop {
    spec fn inv(&self) -> bool {
        &&& self.flushed + self.unflushed == self.attempts
        &&& self.unflushed < FLUSH_INTERVAL
        &&& self.delivered <= self.matches <= self.attempts
        &&& self.stop_checks == if self.exit == Some(WorkerExit::StopRequested) {
            self.attempts + 1
        } else {
            self.attempts as int
        }
        &&& match self.exit {
            Some(WorkerExit::ChannelClosed) => self.delivered + 1 == self.matches,
            Some(WorkerExit::CounterExhausted) => self.attempts == u64::MAX
                && self.delivered == self.matches,
            _ => self.delivered == self.matches,
        }
    }
}

/// Reads the stop flag and, if it is clear, generates one candidate and reports it: a
/// match is counted in the shared match counter and sent, and the attempt is added to
/// the shared total once a full flush interval has accumulated.
fn worker_step(
    state: &mut WorkerLoop,
    rng: &mut ThreadRng,
    prefix_bytes: &[u8],
    stats: &SearchStats,
    found_sender: &Sender<FoundKey>,
)
    requires
        old(state).inv(),
        old(state).exit is None,
        old(state).attempts < u64::MAX,
    ensures
        final(state).inv(),
        final(state).exit == Some(WorkerExit::StopRequested) ==> final(state).attempts == old(
            state,
        ).attempts,
        final(state).exit != Some(WorkerExit::StopRequested) ==> final(state).attempts == old(
            state,
        ).attempts + 1,
{
    state.stop_checks = state.stop_checks + 1;
    if stats.stop_search.load(Ordering::Relaxed) {
        state.exit = Some(WorkerExit::StopRequested);
        return;
    }
    let seed = random_seed(rng);
    let found = evaluate_seed(&seed, prefix_bytes);
    state.attempts = state.attempts + 1;
    state.unflushed = state.unflushed + 1;
    if let Some(key) = found {
        state.matches = state.matches + 1;
        stats.prefix_matches.fetch_add(1, Ordering::Relaxed);
        if deliver(found_sender, key) {
            state.delivered = state.delivered + 1;
        } else {
            state.exit = Some(WorkerExit::ChannelClosed);
        }
    }
    if state.unflushed == FLUSH_INTERVAL {
        stats.total_attempts.fetch_add(state.unflushed, Ordering::Relaxed);
        state.flushed = state.flushed + state.unflushed;
        state.unflushed = 0;
    }
}

/// The CPU search engine: its workers run on plain threads, one generator each.
pub struct CpuKeySearcher;

impl CpuKeySearcher {
    /// Runs one worker until it reads the stop flag as set, the consumer is gone, or
    /// its own count of candidates is exhausted. The flag is read once before every
    /// candidate, and the first read that finds it set ends the worker, so no candidate
    /// follows it. Before returning, the worker adds its remaining count to the shared
    /// total, so the counts it has added sum to the candidates it generated.
    pub fn search(
        config: Arc<SearchConfig>,
        stats: Arc<SearchStats>,
        found_sender: Sender<FoundKey>,
        thread_id: usize,
    ) -> (r: WorkerReport)
        ensures
            r.worker == thread_id,
            r.flushed == r.attempts,
            r.delivered <= r.matches <= r.attempts,
            r.exit == WorkerExit::ChannelClosed ==> r.delivered + 1 == r.matches,
            r.exit != WorkerExit::ChannelClosed ==> r.delivered == r.matches,
            r.exit == WorkerExit::CounterExhausted ==> r.attempts == u64::MAX,
            r.exit == WorkerExit::StopRequested ==> r.stop_checks == r.attempts + 1,
            r.exit != WorkerExit::StopRequested ==> r.stop_checks == r.attempts,
    {
        let batch_size = batch_size_for(config.prefix.as_str().len());
        let prefix_bytes = hex_string_to_bytes(config.prefix.as_str());
        let mut rng = rand::thread_rng();
        let mut state = WorkerLoop {
            attempts: 0,
            unflushed: 0,
            flushed: 0,
            matches: 0,
            delivered: 0,
            stop_checks: 0,
            exit: None,
        };
        while state.exit.is_none()
            invariant
                state.inv(),
                batch_size >= 1,
            decreases u64::MAX - state.attempts, if state.exit is None { 1int } else { 0int },
        {
            let mut i: u64 = 0;
            let ghost start = state.attempts;
            while i < batch_size && state.exit.is_none()
                invariant
                    state.inv(),
                    i <= batch_size,
                    state.attempts == start + i,
                decreases batch_size - i, if state.exit is None { 1int } else { 0int },
            {
                if state.attempts == u64::MAX {
                    state.exit = Some(WorkerExit::CounterExhausted);
                } else {
                    worker_step(&mut state, &mut rng, prefix_bytes.as_slice(), &stats, &found_sender);
                    if state.exit != Some(WorkerExit::StopRequested) {
                        i = i + 1;
                    }
                }
            }
        }
        if state.unflushed > 0 {
            stats.total_attempts.fetch_add(state.unflushed, Ordering::Relaxed);
            state.flushed = state.flushed + state.unflushed;
            state.unflushed = 0;
        }
        let exit = state.exit.unwrap();
        WorkerReport {
            worker: thread_id,
            attempts: state.attempts,
            flushed: state.flushed,
            matches: state.matches,
            delivered: state.delivered,
            stop_checks: state.stop_checks,
            exit,
        }
    }
}

} // verus!
