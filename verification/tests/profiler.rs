//! Metrics parsing tests over a canned sample output.

use oxideterm::metrics::{
    build_sample_command, extract_section, parse_cpu_snapshot, parse_loadavg, parse_meminfo,
    parse_metrics, parse_net_snapshot, parse_nproc, CpuSnapshot, MetricsSource, NetSnapshot,
    PreviousSample,
};
use oxideterm::util::now_ms;

const SAMPLE_OUTPUT: &str = r#"===STAT===
cpu  10132153 290696 3084719 46828483 16683 0 25195 0 0 0
cpu0 1393280 32966 572056 13343292 6130 0 17875 0 0 0
===MEMINFO===
MemTotal:       16384000 kB
MemFree:         2048000 kB
MemAvailable:    8192000 kB
Buffers:          512000 kB
Cached:          4096000 kB
===LOADAVG===
0.52 0.58 0.59 2/345 12345
===NETDEV===
Inter-|   Receive                                                |  Transmit
 face |bytes    packets errs drop fifo frame compressed multicast|bytes    packets errs drop fifo colls carrier compressed
    lo: 1234567     890    0    0    0     0          0         0  1234567     890    0    0    0     0       0          0
  eth0: 987654321  12345    0    0    0     0          0         0 123456789   6789    0    0    0     0       0          0
===NPROC===
4
===END==="#;

#[test]
fn test_parse_cpu_snapshot() {
    let snap = parse_cpu_snapshot(SAMPLE_OUTPUT).unwrap();
    assert_eq!(snap.user, 10132153);
    assert_eq!(snap.nice, 290696);
    assert_eq!(snap.system, 3084719);
    assert_eq!(snap.idle, 46828483);
}

#[test]
fn test_parse_meminfo() {
    let (used, total) = parse_meminfo(SAMPLE_OUTPUT).unwrap();
    assert_eq!(total, 16384000 * 1024);
    assert_eq!(used, (16384000 - 8192000) * 1024);
}

#[test]
fn loadavg_in_hundredths() {
    let (l1, l5, l15) = parse_loadavg(SAMPLE_OUTPUT).unwrap();
    assert_eq!(l1, 52);
    assert_eq!(l5, 58);
    assert_eq!(l15, 59);
}

#[test]
fn test_parse_net_snapshot() {
    let snap = parse_net_snapshot(SAMPLE_OUTPUT).unwrap();
    // Should exclude lo, only eth0
    assert_eq!(snap.rx_bytes, 987654321);
    assert_eq!(snap.tx_bytes, 123456789);
}

#[test]
fn test_parse_nproc() {
    let cores = parse_nproc(SAMPLE_OUTPUT).unwrap();
    assert_eq!(cores, 4);
}

#[test]
fn test_parse_metrics_first_sample_no_delta() {
    let metrics = parse_metrics(SAMPLE_OUTPUT, &None);
    // The first sample has no CPU share or net rate: no delta baseline yet.
    assert!(metrics.cpu_percent.is_none());
    assert!(metrics.net_rx_bytes_per_sec.is_none());
    assert!(metrics.net_tx_bytes_per_sec.is_none());
    // But memory and load should be present
    assert!(metrics.memory_used.is_some());
    assert!(metrics.load_avg_1.is_some());
    assert_eq!(metrics.cpu_cores, Some(4));
    assert_eq!(metrics.source, MetricsSource::Full);
}

#[test]
fn test_parse_metrics_with_delta() {
    let prev = PreviousSample {
        cpu: CpuSnapshot {
            user: 10000000,
            nice: 290000,
            system: 3000000,
            idle: 46000000,
            iowait: 16000,
            irq: 0,
            softirq: 25000,
            steal: 0,
        },
        net: NetSnapshot { rx_bytes: 900000000, tx_bytes: 100000000 },
        timestamp_ms: now_ms() - 5000,
    };

    let metrics = parse_metrics(SAMPLE_OUTPUT, &Some(prev));
    assert!(metrics.cpu_percent.is_some());
    assert!(metrics.net_rx_bytes_per_sec.is_some());
    assert!(metrics.net_tx_bytes_per_sec.is_some());
}

#[test]
fn test_extract_section() {
    let section = extract_section(SAMPLE_OUTPUT, "LOADAVG").unwrap();
    assert!(section.starts_with("0.52"));
}

#[test]
fn test_empty_output() {
    let metrics = parse_metrics("", &None);
    assert_eq!(metrics.source, MetricsSource::RttOnly);
}

#[test]
fn sample_command_selects_platform_listing() {
    let linux = build_sample_command("Linux");
    assert!(linux.contains("ss -tlnp"));
    assert!(linux.ends_with("echo '===END==='\n"));
    let mac = build_sample_command("Darwin");
    assert!(mac.contains("lsof -iTCP"));
    let win = build_sample_command("Windows");
    assert!(win.contains("Get-NetTCPConnection"));
    let bsd = build_sample_command("FreeBSD");
    assert!(bsd.contains("sockstat"));
    let unknown = build_sample_command("Plan9");
    assert!(unknown.contains("ss -tlnp"));
}

#[test]
fn cpu_snapshot_totals() {
    let snap = parse_cpu_snapshot(SAMPLE_OUTPUT).unwrap();
    assert_eq!(
        snap.total(),
        10132153 + 290696 + 3084719 + 46828483 + 16683 + 0 + 25195 + 0
    );
    assert_eq!(snap.active(), snap.total() - snap.idle - snap.iowait);
}
