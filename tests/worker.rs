use crossbeam::channel;
use meshcore_keygen::{
    batch_size_for, CpuKeySearcher, FoundKey, KeyConsumer, SearchBehavior, SearchConfig,
    SearchStats, WorkerExit, WorkerReport,
};
use std::sync::atomic::Ordering;
use std::sync::Arc;

#[test]
fn test_cpu_searcher_creation() {
    let _searcher = CpuKeySearcher {};
}

#[test]
fn test_cpu_search_basic() {
    let config = Arc::new(SearchConfig {
        prefix: "A".to_string(),
        search_behavior: SearchBehavior::FindN(1),
        cpu_threads: 1,
    });

    let stats = Arc::new(SearchStats::new());
    let (sender, _receiver) = channel::unbounded();

    stats.stop_search.store(true, Ordering::Relaxed);
    CpuKeySearcher::search(config, stats, sender, 0);
}

#[test]
fn test_batch_size_scaling() {
    let short_config = SearchConfig {
        prefix: "A".to_string(),
        search_behavior: SearchBehavior::FindN(1),
        cpu_threads: 1,
    };

    let long_config = SearchConfig {
        prefix: "ABCDEFGH".to_string(),
        search_behavior: SearchBehavior::FindN(1),
        cpu_threads: 1,
    };

    assert!(short_config.prefix.len() < long_config.prefix.len());
}

#[test]
fn batch_sizes_grow_with_pattern_length() {
    assert_eq!(batch_size_for(1), 1024);
    assert_eq!(batch_size_for(4), 1024);
    assert_eq!(batch_size_for(5), 2048);
    assert_eq!(batch_size_for(6), 2048);
    assert_eq!(batch_size_for(7), 4096);
    assert_eq!(batch_size_for(64), 4096);
    assert_eq!(batch_size_for(0), 4096);
}

fn config(prefix: &str, behavior: SearchBehavior, workers: usize) -> Arc<SearchConfig> {
    Arc::new(SearchConfig {
        prefix: prefix.to_string(),
        search_behavior: behavior,
        cpu_threads: workers,
    })
}

#[test]
fn worker_with_stop_preset_generates_nothing() {
    let stats = Arc::new(SearchStats::new());
    stats.request_stop();
    let (sender, receiver) = channel::unbounded();
    let report = CpuKeySearcher::search(config("0", SearchBehavior::Continuous, 1), Arc::clone(&stats), sender, 3);
    assert_eq!(
        report,
        WorkerReport {
            worker: 3,
            attempts: 0,
            flushed: 0,
            matches: 0,
            delivered: 0,
            stop_checks: 1,
            exit: WorkerExit::StopRequested,
        }
    );
    assert!(receiver.try_recv().is_err());
    assert_eq!(stats.total_attempts.load(Ordering::Relaxed), 0);
}

#[test]
fn worker_exits_when_consumer_is_gone() {
    let stats = Arc::new(SearchStats::new());
    let (sender, receiver) = channel::unbounded::<FoundKey>();
    drop(receiver);
    let report = CpuKeySearcher::search(config("", SearchBehavior::Continuous, 1), Arc::clone(&stats), sender, 0);
    assert_eq!(report.exit, WorkerExit::ChannelClosed);
    assert_eq!(report.attempts, 1);
    assert_eq!(report.matches, 1);
    assert_eq!(report.delivered, 0);
    assert_eq!(stats.total_attempts.load(Ordering::Relaxed), 1);
    assert_eq!(stats.prefix_matches.load(Ordering::Relaxed), 1);
}

fn spawn_and_run<F>(
    cfg: Arc<SearchConfig>,
    stats: Arc<SearchStats>,
    consume: F,
) -> Vec<WorkerReport>
where
    F: FnOnce(&channel::Receiver<FoundKey>, &SearchStats),
{
    let (sender, receiver) = channel::unbounded();
    crossbeam::scope(|scope| {
        let handles: Vec<_> = (0..cfg.cpu_threads)
            .map(|id| {
                let cfg = Arc::clone(&cfg);
                let stats = Arc::clone(&stats);
                let sender = sender.clone();
                scope.spawn(move |_| CpuKeySearcher::search(cfg, stats, sender, id))
            })
            .collect();
        drop(sender);
        consume(&receiver, &stats);
        handles.into_iter().map(|h| h.join().unwrap()).collect::<Vec<_>>()
    })
    .unwrap()
}

#[test]
fn stop_after_one_match_delivers_exactly_one_key() {
    let cfg = config("A", SearchBehavior::FindN(1), 3);
    let stats = Arc::new(SearchStats::new());
    let mut processed: Vec<String> = Vec::new();
    let reports = spawn_and_run(Arc::clone(&cfg), Arc::clone(&stats), |receiver, stats| {
        let mut consumer = KeyConsumer::new(cfg.search_behavior);
        while let Ok(key) = receiver.recv() {
            processed.push(key.public_key.clone());
            if consumer.record_processed() {
                stats.request_stop();
                break;
            }
        }
    });
    assert_eq!(processed.len(), 1);
    assert!(processed[0].starts_with("A0"));
    assert!(stats.stop_search.load(Ordering::Relaxed));
    assert_eq!(reports.len(), 3);
    assert!(reports.iter().all(|r| r.exit == WorkerExit::StopRequested));
}

#[test]
fn attempt_counter_equals_sum_of_worker_candidates() {
    let cfg = config("F", SearchBehavior::Continuous, 3);
    let stats = Arc::new(SearchStats::new());
    let reports = spawn_and_run(Arc::clone(&cfg), Arc::clone(&stats), |receiver, stats| {
        let mut seen = 0;
        while let Ok(_key) = receiver.recv() {
            seen += 1;
            if seen == 3 {
                stats.request_stop();
                break;
            }
        }
    });
    let attempts: u64 = reports.iter().map(|r| r.attempts).sum();
    let matches: u64 = reports.iter().map(|r| r.matches).sum();
    assert!(attempts > 0);
    assert_eq!(stats.total_attempts.load(Ordering::Relaxed), attempts);
    assert_eq!(stats.prefix_matches.load(Ordering::Relaxed) as u64, matches);
    assert!(reports.iter().all(|r| r.flushed == r.attempts));
}

#[test]
fn preset_stop_flag_ends_every_worker_without_deliveries() {
    let cfg = config("1", SearchBehavior::Continuous, 8);
    let stats = Arc::new(SearchStats::new());
    stats.request_stop();
    let mut delivered = 0;
    let reports = spawn_and_run(Arc::clone(&cfg), Arc::clone(&stats), |receiver, _stats| {
        while let Ok(_key) = receiver.recv() {
            delivered += 1;
        }
    });
    assert_eq!(delivered, 0);
    assert_eq!(reports.len(), 8);
    for report in &reports {
        assert_eq!(report.attempts, 0);
        assert_eq!(report.stop_checks, 1);
        assert_eq!(report.exit, WorkerExit::StopRequested);
    }
    assert_eq!(stats.total_attempts.load(Ordering::Relaxed), 0);
}
