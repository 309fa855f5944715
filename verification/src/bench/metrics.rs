//! The byte counters of container statistics, and the readiness check of a
//! container. The CPU and memory figures are fractional and stay with the
//! program that reads the statistics.

use vstd::prelude::*;

use crate::text::{chars_eq, chars_of};

verus! {

/// The byte counters of one statistics sample.
#[derive(Debug, Clone, Copy, PartialEq, Eq, Structural)]
pub struct ByteCounters {
    pub network_rx_bytes: u64,
    pub network_tx_bytes: u64,
    pub io_read_bytes: u64,
    pub io_write_bytes: u64,
}

/// Received bytes over all interfaces.
pub open spec fn sum_rx(nets: Seq<(u64, u64)>) -> int
    decreases nets.len(),
{
    if nets.len() == 0 {
        0
    } else {
        sum_rx(nets.drop_last()) + nets.last().0
    }
}

/// Sent bytes over all interfaces.
pub open spec fn sum_tx(nets: Seq<(u64, u64)>) -> int
    decreases nets.len(),
{
    if nets.len() == 0 {
        0
    } else {
        sum_tx(nets.drop_last()) + nets.last().1
    }
}

proof fn lemma_net_sums_grow(nets: Seq<(u64, u64)>, k: int)
    requires
        0 <= k <= nets.len(),
    ensures
        0 <= sum_rx(nets.take(k)) <= sum_rx(nets),
        0 <= sum_tx(nets.take(k)) <= sum_tx(nets),
    decreases nets.len(),
{
    if nets.len() > 0 {
        if k == nets.len() {
            assert(nets.take(k) =~= nets);
            lemma_net_sums_grow(nets.drop_last(), k - 1);
            assert(nets.drop_last().take(k - 1) =~= nets.drop_last());
        } else {
            lemma_net_sums_grow(nets.drop_last(), k);
            assert(nets.drop_last().take(k) =~= nets.take(k));
            lemma_net_sums_grow(nets.drop_last(), nets.len() - 1);
            assert(nets.drop_last().take(nets.len() - 1) =~= nets.drop_last());
        }
    } else {
        assert(nets.take(k) =~= nets);
    }
}

/// Received and sent bytes summed over the interfaces of a sample, each
/// given as (received, sent).
pub fn network_totals(nets: &Vec<(u64, u64)>) -> (r: (u64, u64))
    requires
        sum_rx(nets@) <= u64::MAX,
        sum_tx(nets@) <= u64::MAX,
    ensures
        r.0 == sum_rx(nets@),
        r.1 == sum_tx(nets@),
{
    let mut rx: u64 = 0;
    let mut tx: u64 = 0;
    let mut i: usize = 0;
    while i < nets.len()
        invariant
            i <= nets@.len(),
            rx == sum_rx(nets@.take(i as int)),
            tx == sum_tx(nets@.take(i as int)),
            sum_rx(nets@) <= u64::MAX,
            sum_tx(nets@) <= u64::MAX,
        decreases nets@.len() - i,
    {
        proof {
            lemma_net_sums_grow(nets@, i + 1);
            assert(nets@.take(i + 1).drop_last() =~= nets@.take(i as int));
        }
        rx = rx + nets[i].0;
        tx = tx + nets[i].1;
        i = i + 1;
    }
    proof {
        assert(nets@.take(nets@.len() as int) =~= nets@);
    }
    (rx, tx)
}

/// What a block-I/O entry counts.
#[derive(Debug, Clone, Copy, PartialEq, Eq, Structural)]
pub enum IoKind {
    Read,
    Write,
    Other,
}

/// The kind of a block-I/O operation name: `read` or `Read`, `write` or
/// `Write`, anything else.
pub open spec fn io_kind(op: Seq<char>) -> IoKind {
    if op == "read"@ || op == "Read"@ {
        IoKind::Read
    } else if op == "write"@ || op == "Write"@ {
        IoKind::Write
    } else {
        IoKind::Other
    }
}

/// `read` and `Read` are reads, `write` and `Write` writes, and every other
/// operation name is neither.
pub proof fn law_io_kinds(op: Seq<char>)
    ensures
        (op == "read"@ || op == "Read"@) ==> io_kind(op) == IoKind::Read,
        (op == "write"@ || op == "Write"@) ==> io_kind(op) == IoKind::Write,
        !(op == "read"@ || op == "Read"@ || op == "write"@ || op == "Write"@) ==> io_kind(op)
            == IoKind::Other,
{
    reveal_strlit("read");
    reveal_strlit("Read");
    reveal_strlit("write");
    reveal_strlit("Write");
    assert("read"@[0] == 'r' && "Read"@[0] == 'R' && "write"@[0] == 'w' && "Write"@[0] == 'W');
}

/// Bytes of the entries of one kind.
pub open spec fn io_sum(entries: Seq<(Seq<char>, u64)>, kind: IoKind) -> int
    decreases entries.len(),
{
    if entries.len() == 0 {
        0
    } else {
        io_sum(entries.drop_last(), kind) + (if io_kind(entries.last().0) == kind {
            entries.last().1 as int
        } else {
            0
        })
    }
}

/// The block-I/O entries of a sample as (operation name, bytes).
pub open spec fn io_entries(v: Seq<(String, u64)>) -> Seq<(Seq<char>, u64)> {
    v.map_values(|e: (String, u64)| (e.0@, e.1))
}

proof fn lemma_io_sum_grows(entries: Seq<(Seq<char>, u64)>, kind: IoKind, k: int)
    requires
        0 <= k <= entries.len(),
    ensures
        0 <= io_sum(entries.take(k), kind) <= io_sum(entries, kind),
    decreases entries.len(),
{
    if entries.len() > 0 {
        if k == entries.len() {
            assert(entries.take(k) =~= entries);
            lemma_io_sum_grows(entries.drop_last(), kind, k - 1);
            assert(entries.drop_last().take(k - 1) =~= entries.drop_last());
        } else {
            lemma_io_sum_grows(entries.drop_last(), kind, k);
            assert(entries.drop_last().take(k) =~= entries.take(k));
            lemma_io_sum_grows(entries.drop_last(), kind, entries.len() - 1);
            assert(entries.drop_last().take(entries.len() - 1) =~= entries.drop_last());
        }
    } else {
        assert(entries.take(k) =~= entries);
    }
}

/// The kind of an operation name.
pub fn io_kind_of(op: &str) -> (r: IoKind)
    ensures
        r == io_kind(op@),
{
    let n = chars_of(op);
    if chars_eq(&n, &chars_of("read")) || chars_eq(&n, &chars_of("Read")) {
        IoKind::Read
    } else if chars_eq(&n, &chars_of("write")) || chars_eq(&n, &chars_of("Write")) {
        IoKind::Write
    } else {
        IoKind::Other
    }
}

/// Read and written bytes summed over the block-I/O entries of a sample;
/// entries of other operations are left out.
pub fn io_totals(entries: &Vec<(String, u64)>) -> (r: (u64, u64))
    requires
        io_sum(io_entries(entries@), IoKind::Read) <= u64::MAX,
        io_sum(io_entries(entries@), IoKind::Write) <= u64::MAX,
    ensures
        r.0 == io_sum(io_entries(entries@), IoKind::Read),
        r.1 == io_sum(io_entries(entries@), IoKind::Write),
{
    let ghost es = io_entries(entries@);
    let mut read: u64 = 0;
    let mut write: u64 = 0;
    let mut i: usize = 0;
    while i < entries.len()
        invariant
            i <= entries@.len(),
            es == io_entries(entries@),
            read == io_sum(es.take(i as int), IoKind::Read),
            write == io_sum(es.take(i as int), IoKind::Write),
            io_sum(es, IoKind::Read) <= u64::MAX,
            io_sum(es, IoKind::Write) <= u64::MAX,
        decreases entries@.len() - i,
    {
        proof {
            lemma_io_sum_grows(es, IoKind::Read, i + 1);
            lemma_io_sum_grows(es, IoKind::Write, i + 1);
            assert(es.take(i + 1).drop_last() =~= es.take(i as int));
            assert(es[i as int] == (entries@[i as int].0@, entries@[i as int].1));
        }
        let kind = io_kind_of(entries[i].0.as_str());
        match kind {
            IoKind::Read => {
                read = read + entries[i].1;
            },
            IoKind::Write => {
                write = write + entries[i].1;
            },
            IoKind::Other => {},
        }
        i = i + 1;
    }
    proof {
        assert(es.take(entries@.len() as int) =~= es);
    }
    (read, write)
}

/// The bytes moved between a first and a last sample; a counter that went
/// down (a restarted container) counts as zero.
pub fn traffic_between(first: &ByteCounters, last: &ByteCounters) -> (r: ByteCounters)
    ensures
        r.network_rx_bytes == (if last.network_rx_bytes >= first.network_rx_bytes {
            last.network_rx_bytes - first.network_rx_bytes
        } else {
            0
        }),
        r.network_tx_bytes == (if last.network_tx_bytes >= first.network_tx_bytes {
            last.network_tx_bytes - first.network_tx_bytes
        } else {
            0
        }),
        r.io_read_bytes == (if last.io_read_bytes >= first.io_read_bytes {
            last.io_read_bytes - first.io_read_bytes
        } else {
            0
        }),
        r.io_write_bytes == (if last.io_write_bytes >= first.io_write_bytes {
            last.io_write_bytes - first.io_write_bytes
        } else {
            0
        }),
{
    ByteCounters {
        network_rx_bytes: last.network_rx_bytes.saturating_sub(first.network_rx_bytes),
        network_tx_bytes: last.network_tx_bytes.saturating_sub(first.network_tx_bytes),
        io_read_bytes: last.io_read_bytes.saturating_sub(first.io_read_bytes),
        io_write_bytes: last.io_write_bytes.saturating_sub(first.io_write_bytes),
    }
}

/// Whether a container counts as up: when it has a health check, when that
/// reports healthy; without one, when it is running.
pub fn container_ready(running: Option<bool>, healthy: Option<bool>) -> (r: bool)
    ensures
        r == (match healthy {
            Some(h) => h,
            None => running == Some(true),
        }),
{
    match healthy {
        Some(h) => h,
        None => match running {
            Some(true) => true,
            _ => false,
        },
    }
}

} // verus!
