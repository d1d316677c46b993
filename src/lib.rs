//! Vanity Ed25519 key search: key derivation in an expanded 64-byte private-key
//! encoding, prefix matching of public keys, and the worker loop and stop rules of a
//! concurrent search.
pub mod coordinator;
pub mod cpu;
pub mod keys;
pub mod pattern;
pub mod secure;
pub mod types;

pub use coordinator::{target_reached, KeyConsumer};
pub use cpu::{batch_size_for, evaluate_seed, CpuKeySearcher, WorkerExit, WorkerReport, FLUSH_INTERVAL};
pub use keys::{
    create_meshcore_private_key, extract_public_key_from_meshcore_key,
    validate_meshcore_key_format,
};
pub use pattern::{check_prefix_match, hex_string_to_bytes};
pub use secure::SecureString;
pub use types::{
    create_search_config, worker_count, ConfigError, FoundKey, SearchBehavior, SearchConfig,
    SearchStats,
};
