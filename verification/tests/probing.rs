//! The capability prober's report and queue-family selection.

use gpu_harness::probe::{select_queue_family, Adapter, ProbeReport, QueueFamily};

fn family(graphics: bool, compute: bool, queues: u32) -> QueueFamily {
    QueueFamily {
        supports_graphics: graphics,
        supports_compute: compute,
        queues_count: queues,
    }
}

fn adapter(name: &str, families: Vec<QueueFamily>) -> Adapter {
    Adapter {
        name: String::from(name),
        queue_families: families,
    }
}

#[test]
fn adapter_count_matches_report() {
    let report = ProbeReport { adapters: vec![] };
    assert_eq!(report.adapter_count(), 0);
    let report = ProbeReport {
        adapters: vec![adapter("iGPU", vec![family(true, true, 1)])],
    };
    assert_eq!(report.adapter_count(), 1);
}

#[test]
fn first_compute_family_is_chosen() {
    let a = adapter(
        "dGPU",
        vec![
            family(true, false, 16),
            family(false, true, 2),
            family(false, true, 8),
        ],
    );
    assert_eq!(select_queue_family(&a), Some(1));
}

#[test]
fn no_compute_family_is_reported() {
    let a = adapter("display-only", vec![family(true, false, 4)]);
    assert_eq!(select_queue_family(&a), None);
}

#[test]
fn adapter_without_families_has_no_queue_family() {
    let a = adapter("bare", vec![]);
    assert_eq!(select_queue_family(&a), None);
}
