//! Container statistics: byte counters and readiness.

use rproxy::bench::metrics::{container_ready, io_kind_of, io_totals, network_totals, traffic_between, ByteCounters, IoKind};

#[test]
fn network_bytes_are_summed_over_interfaces() {
    assert_eq!(network_totals(&vec![(10, 1), (20, 2), (30, 3)]), (60, 6));
    assert_eq!(network_totals(&Vec::new()), (0, 0));
}

#[test]
fn io_bytes_by_operation() {
    let entries = vec![
        ("read".to_string(), 100),
        ("Write".to_string(), 7),
        ("Read".to_string(), 1),
        ("sync".to_string(), 1000),
        ("write".to_string(), 3),
        ("READ".to_string(), 50),
    ];
    assert_eq!(io_totals(&entries), (101, 10));
    assert_eq!(io_kind_of("Total"), IoKind::Other);
}

#[test]
fn traffic_between_samples() {
    let first = ByteCounters { network_rx_bytes: 100, network_tx_bytes: 50, io_read_bytes: 10, io_write_bytes: 20 };
    let last = ByteCounters { network_rx_bytes: 150, network_tx_bytes: 40, io_read_bytes: 10, io_write_bytes: 25 };
    assert_eq!(
        traffic_between(&first, &last),
        ByteCounters { network_rx_bytes: 50, network_tx_bytes: 0, io_read_bytes: 0, io_write_bytes: 5 }
    );
}

#[test]
fn readiness() {
    assert!(container_ready(Some(false), Some(true)));
    assert!(!container_ready(Some(true), Some(false)));
    assert!(container_ready(Some(true), None));
    assert!(!container_ready(Some(false), None));
    assert!(!container_ready(None, None));
}
