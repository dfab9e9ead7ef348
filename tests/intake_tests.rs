use experiment_load::config::ExperimentDocument;
use experiment_load::cycle::{LoadCycle, CYCLE_FLOOR_MS, GENERATION_TASKS, MAX_BATCH_SIZE, MIN_BATCH_SIZE};
use experiment_load::registry::Registry;
use tokio::sync::mpsc;

fn document(offset: u64) -> ExperimentDocument {
    ExperimentDocument {
        owner: "owner@example.org".to_string(),
        start_temperature: 16000,
        start_offset_secs: offset,
        num_sensors: 2,
        sample_rate: 100,
        lower_threshold: 25500,
        upper_threshold: 26500,
        stabilization_samples: 2,
        carry_out_samples: 20,
        secret_key: None,
    }
}

#[test]
fn empty_drain_leaves_registry_empty() {
    let (_tx, mut rx) = mpsc::channel::<ExperimentDocument>(8);
    let mut registry = Registry::new();
    assert_eq!(registry.receive_experiments(&mut rx), 0);
    assert_eq!(registry.len(), 0);
}

#[test]
fn empty_drain_leaves_registry_unchanged() {
    let (tx, mut rx) = mpsc::channel::<ExperimentDocument>(8);
    let mut registry = Registry::new();
    tx.try_send(document(1)).unwrap();
    assert_eq!(registry.receive_experiments(&mut rx), 1);
    assert_eq!(registry.receive_experiments(&mut rx), 0);
    assert_eq!(registry.len(), 1);
    assert_eq!(registry.documents()[0].start_offset_secs, 1);
}

#[test]
fn drain_of_closed_channel_returns() {
    let (tx, mut rx) = mpsc::channel::<ExperimentDocument>(8);
    tx.try_send(document(4)).unwrap();
    drop(tx);
    let mut registry = Registry::new();
    assert_eq!(registry.receive_experiments(&mut rx), 1);
    assert_eq!(registry.receive_experiments(&mut rx), 0);
    assert_eq!(registry.len(), 1);
}

#[test]
fn registry_size_is_cumulative_count() {
    let (tx, mut rx) = mpsc::channel::<ExperimentDocument>(16);
    let mut registry = Registry::new();
    let mut total = 0;
    let mut next = 0u64;
    for k in [3usize, 0, 5, 1] {
        for _ in 0..k {
            tx.try_send(document(next)).unwrap();
            next += 1;
        }
        let n = registry.receive_experiments(&mut rx);
        assert_eq!(n, k);
        total += n;
        assert_eq!(registry.len(), total);
    }
    let offsets: Vec<u64> = registry.documents().iter().map(|d| d.start_offset_secs).collect();
    assert_eq!(offsets, (0..9).collect::<Vec<u64>>());
}

#[test]
fn insert_appends_at_end() {
    let mut registry = Registry::new();
    registry.insert(document(7));
    registry.insert(document(2));
    assert_eq!(registry.len(), 2);
    assert_eq!(registry.documents()[1].start_offset_secs, 2);
}

#[test]
fn batch_size_stays_in_range() {
    for _ in 0..10_000 {
        let b = experiment_load::cycle::choose_batch_size();
        assert!((100..200).contains(&b));
    }
    assert_eq!((MIN_BATCH_SIZE, MAX_BATCH_SIZE), (100, 200));
}

#[test]
fn cycle_bootstraps_then_drains_each_iteration() {
    let (tx, mut rx) = mpsc::channel::<ExperimentDocument>(8);
    let mut cycle = LoadCycle::new();
    assert!(!cycle.is_bootstrapped());
    cycle.bootstrap(document(0));
    assert!(cycle.is_bootstrapped());
    assert_eq!(cycle.registry().len(), 1);

    let (plan, received) = cycle.begin_iteration(&mut rx);
    assert_eq!(received, 0);
    assert_eq!(cycle.registry().len(), 1);
    assert!((100..200).contains(&plan.batch_size));
    assert_eq!(plan.generation_tasks, 60);
    assert_eq!(plan.floor_ms, 60_000);
    assert_eq!((GENERATION_TASKS, CYCLE_FLOOR_MS), (60, 60_000));

    tx.try_send(document(1)).unwrap();
    tx.try_send(document(2)).unwrap();
    let (_, received) = cycle.begin_iteration(&mut rx);
    assert_eq!(received, 2);
    assert_eq!(cycle.registry().len(), 3);
}

#[test]
fn take_in_appends_a_received_document() {
    let mut registry = Registry::new();
    registry.insert(document(1));
    assert!(registry.take_in(Some(document(9))));
    assert_eq!(registry.len(), 2);
    assert_eq!(registry.documents()[0].start_offset_secs, 1);
    assert_eq!(registry.documents()[1].start_offset_secs, 9);
}

#[test]
fn take_in_of_nothing_ends_the_drain() {
    let mut registry = Registry::new();
    registry.insert(document(1));
    assert!(!registry.take_in(None));
    assert_eq!(registry.len(), 1);
    assert_eq!(registry.documents()[0].start_offset_secs, 1);
}

#[test]
fn closed_channel_buffered_documents_kept_in_order() {
    let (tx, mut rx) = mpsc::channel::<ExperimentDocument>(8);
    for o in [5u64, 3, 8] {
        tx.try_send(document(o)).unwrap();
    }
    drop(tx);
    let mut registry = Registry::new();
    registry.insert(document(0));
    assert_eq!(registry.receive_experiments(&mut rx), 3);
    let offsets: Vec<u64> = registry.documents().iter().map(|d| d.start_offset_secs).collect();
    assert_eq!(offsets, vec![0, 5, 3, 8]);
    assert!(rx.try_recv().is_err());
}
