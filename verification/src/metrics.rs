//! Remote host resource sampling: command construction and output parsing.
//!
//! One composite shell command reads `/proc/stat`, `/proc/meminfo`,
//! `/proc/loadavg`, `/proc/net/dev` and `nproc` between `===NAME===`
//! markers; the parsers here take that output apart.  Ratios are carried as
//! integer hundredths (a CPU load of 12.34% is 1234), so no parsed value is
//! ever approximate.  CPU share and network rates need a delta between two
//! samples, so the first sample leaves them empty.

use vstd::prelude::*;
use vstd::string::StringSliceAdditionalSpecFns;
use crate::util::{
    all_digits, dec_val, lossy_string, spec_find, spec_lines, spec_starts_with,
    spec_tokens, spec_trim, trim_bytes, utf8_lossy_of,
};

verus! {

/// Number of history points kept (ring buffer).
pub const HISTORY_CAPACITY: usize = 60;

/// Maximum output size of a single sample read.
pub const MAX_OUTPUT_SIZE: usize = 65536;

/// Seconds allowed for reading one sample's output.
pub const SAMPLE_TIMEOUT_SECS: u64 = 5;

/// Seconds between samples.
pub const DEFAULT_INTERVAL_SECS: u64 = 10;

/// Consecutive failures before degrading to RTT-only metrics.
pub const MAX_CONSECUTIVE_FAILURES: u32 = 3;

/// Profiler running state.
#[derive(Debug, Clone, Copy, PartialEq, Eq, Structural)]
pub enum ProfilerState {
    Running,
    Stopped,
    Degraded,
}

/// How much of the metrics the sample could provide.
#[derive(Debug, Clone, Copy, PartialEq, Eq, Structural)]
pub enum MetricsSource {
    /// CPU, memory and load were all parsed.
    Full,
    /// Some of them were.
    Partial,
    /// None were; only round-trip time is available.
    RttOnly,
    /// The sample itself failed.
    Failed,
}

/// One metrics snapshot.  Ratios are integer hundredths: `cpu_percent`,
/// `memory_percent` and the load averages are scaled by 100.
#[derive(Debug, Clone, Copy, PartialEq, Eq, Structural)]
pub struct ResourceMetrics {
    pub timestamp_ms: u64,
    /// CPU share in hundredths of a percent: 1234 means 12.34%.
    pub cpu_percent: Option<u64>,
    pub memory_used: Option<u64>,
    pub memory_total: Option<u64>,
    /// Memory share in hundredths of a percent.
    pub memory_percent: Option<u64>,
    /// One-minute load average in hundredths: 52 means 0.52.
    pub load_avg_1: Option<u64>,
    /// Five-minute load average in hundredths.
    pub load_avg_5: Option<u64>,
    /// Fifteen-minute load average in hundredths.
    pub load_avg_15: Option<u64>,
    pub cpu_cores: Option<u32>,
    pub net_rx_bytes_per_sec: Option<u64>,
    pub net_tx_bytes_per_sec: Option<u64>,
    pub ssh_rtt_ms: Option<u64>,
    pub source: MetricsSource,
}

/// Raw CPU counters from the first `/proc/stat` line.
#[derive(Debug, Clone, Copy, PartialEq, Eq, Structural)]
pub struct CpuSnapshot {
    pub user: u64,
    pub nice: u64,
    pub system: u64,
    pub idle: u64,
    pub iowait: u64,
    pub irq: u64,
    pub softirq: u64,
    pub steal: u64,
}

/// Raw network counters aggregated over `/proc/net/dev`.
#[derive(Debug, Clone, Copy, PartialEq, Eq, Structural)]
pub struct NetSnapshot {
    pub rx_bytes: u64,
    pub tx_bytes: u64,
}

/// Previous sample state for delta calculations.
#[derive(Debug, Clone, Copy, PartialEq, Eq, Structural)]
pub struct PreviousSample {
    pub cpu: CpuSnapshot,
    pub net: NetSnapshot,
    pub timestamp_ms: u64,
}

/// Saturating sum of two values.
pub open spec fn sat_add(a: int, b: int) -> int {
    if a + b > u64::MAX {
        u64::MAX as int
    } else {
        a + b
    }
}

/// Saturating difference of two values.
pub open spec fn sat_sub(a: int, b: int) -> int {
    if a >= b {
        a - b
    } else {
        0
    }
}

impl CpuSnapshot {
    /// Sum of all counters, saturating.
    pub open spec fn spec_total(&self) -> int {
        sat_add(
            sat_add(
                sat_add(
                    sat_add(
                        sat_add(sat_add(sat_add(self.user as int, self.nice as int), self.system as int), self.idle as int),
                        self.iowait as int,
                    ),
                    self.irq as int,
                ),
                self.softirq as int,
            ),
            self.steal as int,
        )
    }

    /// Busy time: total less idle and I/O wait, saturating.
    pub open spec fn spec_active(&self) -> int {
        sat_sub(sat_sub(self.spec_total(), self.idle as int), self.iowait as int)
    }

    /// Sum of all counters.
    pub fn total(&self) -> (r: u64)
        ensures
            r == self.spec_total(),
    {
        self.user.saturating_add(self.nice).saturating_add(self.system).saturating_add(
            self.idle,
        ).saturating_add(self.iowait).saturating_add(self.irq).saturating_add(
            self.softirq,
        ).saturating_add(self.steal)
    }

    /// Busy time: total less idle and I/O wait.
    pub fn active(&self) -> (r: u64)
        ensures
            r == self.spec_active(),
    {
        self.total().saturating_sub(self.idle).saturating_sub(self.iowait)
    }
}

/// A decimal token's value, if it is well-formed and fits.
pub open spec fn spec_u64(s: Seq<u8>) -> Option<u64> {
    if s.len() > 0 && all_digits(s) && dec_val(s) <= u64::MAX {
        Some(dec_val(s) as u64)
    } else {
        None
    }
}

/// Parse a decimal token.
pub fn parse_u64_opt(s: &[u8]) -> (r: Option<u64>)
    ensures
        r == spec_u64(s@),
{
    crate::util::parse_u64_bytes(s)
}

/// A decimal token's value as `u32`, if it fits.
pub open spec fn spec_u32(s: Seq<u8>) -> Option<u32> {
    match spec_u64(s) {
        Some(v) => if v <= u32::MAX {
            Some(v as u32)
        } else {
            None
        },
        None => None,
    }
}

/// The section of the sample output between `===MARKER===` and the next
/// `===`, trimmed; the markers carve the sample output into named parts.
pub open spec fn spec_section(out: Seq<u8>, marker: Seq<u8>) -> Option<Seq<u8>> {
    let sm = "===".spec_bytes() + marker + "===".spec_bytes();
    match spec_find(out, sm) {
        None => None,
        Some(s) => {
            let rest = out.skip(s + sm.len() as int);
            let end = match spec_find(rest, "===".spec_bytes()) {
                Some(e) => e,
                None => rest.len() as int,
            };
            Some(spec_trim(rest.take(end)))
        },
    }
}

/// Extract the trimmed section between markers, as raw bytes.
pub fn section_bytes(out: &[u8], marker: &[u8]) -> (r: Option<Vec<u8>>)
    ensures
        match r {
            Some(v) => spec_section(out@, marker@) == Some(v@),
            None => spec_section(out@, marker@) is None,
        },
{
    let mut sm: Vec<u8> = Vec::new();
    sm.extend_from_slice("===".as_bytes());
    sm.extend_from_slice(marker);
    sm.extend_from_slice("===".as_bytes());
    proof {
        assert(sm@ =~= "===".spec_bytes() + marker@ + "===".spec_bytes());
        crate::util::lemma_spec_find_correct(out@, sm@);
    }
    match crate::util::find_sub_spec(out, sm.as_slice()) {
        None => None,
        Some(s) => {
            let ol = out.len();
            proof {
                assert(crate::util::is_match_at(out@, sm@, s as int));
                assert(s + sm@.len() <= ol as int);
            }
            let rest = vstd::slice::slice_subrange(out, s + sm.len(), ol);
            proof {
                assert(rest@ =~= out@.skip(s + sm@.len() as int));
            }
            let end = match crate::util::find_sub_spec(rest, "===".as_bytes()) {
                Some(e) => e,
                None => rest.len(),
            };
            proof {
                crate::util::lemma_spec_find_correct(rest@, "===".spec_bytes());
                if spec_find(rest@, "===".spec_bytes()) is Some {
                    assert(crate::util::is_match_at(
                        rest@,
                        "===".spec_bytes(),
                        spec_find(rest@, "===".spec_bytes())->Some_0,
                    ));
                }
            }
            let piece = vstd::slice::slice_subrange(rest, 0, end);
            proof {
                assert(piece@ =~= rest@.take(end as int));
            }
            Some(trim_bytes(piece))
        },
    }
}

/// Extract the trimmed section between markers, as text.
pub fn extract_section(output: &str, marker: &str) -> (r: Option<String>)
    ensures
        r is Some <==> spec_section(output.spec_bytes(), marker.spec_bytes()) is Some,
        r matches Some(t) ==> t@ == utf8_lossy_of(
            spec_section(output.spec_bytes(), marker.spec_bytes())->Some_0,
        ),
{
    match section_bytes(output.as_bytes(), marker.as_bytes()) {
        Some(v) => Some(lossy_string(v.as_slice())),
        None => None,
    }
}

/// The parsed first `/proc/stat` line, if the STAT section holds one.
pub open spec fn spec_cpu(out: Seq<u8>) -> Option<CpuSnapshot> {
    match spec_section(out, "STAT".spec_bytes()) {
        None => None,
        Some(sec) => {
            let ls = spec_lines(sec);
            if ls.len() == 0 {
                None
            } else {
                let line = ls[0];
                if !spec_starts_with(line, "cpu ".spec_bytes()) {
                    None
                } else {
                    let ts = spec_tokens(line);
                    if ts.len() < 9 {
                        None
                    } else {
                        if spec_u64(ts[1]) is Some && spec_u64(ts[2]) is Some && spec_u64(
                            ts[3],
                        ) is Some && spec_u64(ts[4]) is Some && spec_u64(ts[5]) is Some
                            && spec_u64(ts[6]) is Some && spec_u64(ts[7]) is Some && spec_u64(
                            ts[8],
                        ) is Some {
                            Some(
                                CpuSnapshot {
                                    user: spec_u64(ts[1])->Some_0,
                                    nice: spec_u64(ts[2])->Some_0,
                                    system: spec_u64(ts[3])->Some_0,
                                    idle: spec_u64(ts[4])->Some_0,
                                    iowait: spec_u64(ts[5])->Some_0,
                                    irq: spec_u64(ts[6])->Some_0,
                                    softirq: spec_u64(ts[7])->Some_0,
                                    steal: spec_u64(ts[8])->Some_0,
                                },
                            )
                        } else {
                            None
                        }
                    }
                }
            }
        },
    }
}

/// Token `i` of a token list, tied to the spec-level tokens.
fn tok_at<'a>(toks: &'a Vec<Vec<u8>>, i: usize) -> (r: &'a Vec<u8>)
    requires
        i < toks@.len(),
    ensures
        r@ == toks.deep_view()[i as int],
{
    let v = &toks[i];
    proof {
        assert(toks.deep_view()[i as int] =~= toks@[i as int]@);
    }
    v
}

/// Line `i` of a line list, tied to the spec-level lines.
fn line_at<'a>(ls: &'a Vec<Vec<u8>>, i: usize) -> (r: &'a Vec<u8>)
    requires
        i < ls@.len(),
    ensures
        r@ == ls.deep_view()[i as int],
{
    let v = &ls[i];
    proof {
        assert(ls.deep_view()[i as int] =~= ls@[i as int]@);
    }
    v
}

/// Parse the first `/proc/stat` line of the STAT section.
pub fn parse_cpu_snapshot(output: &str) -> (r: Option<CpuSnapshot>)
    ensures
        r == spec_cpu(output.spec_bytes()),
{
    let sec = match section_bytes(output.as_bytes(), "STAT".as_bytes()) {
        Some(s) => s,
        None => {
            return None;
        },
    };
    let ls = crate::util::lines_of(sec.as_slice());
    if ls.len() == 0 {
        return None;
    }
    let line = line_at(&ls, 0);
    if !crate::util::starts_with_bytes(line.as_slice(), "cpu ".as_bytes()) {
        return None;
    }
    let toks = crate::util::tokens(line.as_slice());
    if toks.len() < 9 {
        return None;
    }
    let user = parse_u64_opt(tok_at(&toks, 1).as_slice());
    let nice = parse_u64_opt(tok_at(&toks, 2).as_slice());
    let system = parse_u64_opt(tok_at(&toks, 3).as_slice());
    let idle = parse_u64_opt(tok_at(&toks, 4).as_slice());
    let iowait = parse_u64_opt(tok_at(&toks, 5).as_slice());
    let irq = parse_u64_opt(tok_at(&toks, 6).as_slice());
    let softirq = parse_u64_opt(tok_at(&toks, 7).as_slice());
    let steal = parse_u64_opt(tok_at(&toks, 8).as_slice());
    match (user, nice, system, idle, iowait, irq, softirq, steal) {
        (
            Some(user),
            Some(nice),
            Some(system),
            Some(idle),
            Some(iowait),
            Some(irq),
            Some(softirq),
            Some(steal),
        ) => Some(CpuSnapshot { user, nice, system, idle, iowait, irq, softirq, steal }),
        _ => None,
    }
}

/// The `1234` out of a `Key:  1234 kB` line.
pub open spec fn spec_kb_value(line: Seq<u8>) -> Option<u64> {
    let ts = spec_tokens(line);
    if ts.len() >= 2 {
        spec_u64(ts[1])
    } else {
        None
    }
}

/// Extract the numeric field of a meminfo line.
pub fn extract_kb_value(line: &str) -> (r: Option<u64>)
    ensures
        r == spec_kb_value(line.spec_bytes()),
{
    extract_kb_value_bytes(line.as_bytes())
}

fn extract_kb_value_bytes(line: &[u8]) -> (r: Option<u64>)
    ensures
        r == spec_kb_value(line@),
{
    let toks = crate::util::tokens(line);
    if toks.len() >= 2 {
        parse_u64_opt(tok_at(&toks, 1).as_slice())
    } else {
        None
    }
}

/// The meminfo scan: walk the lines, keeping the latest `MemTotal:` and
/// `MemAvailable:` readings, stopping once both are present.
pub open spec fn spec_mem_scan(ls: Seq<Seq<u8>>, i: int, t: Option<u64>, a: Option<u64>) -> (
    Option<u64>,
    Option<u64>,
)
    decreases ls.len() - i,
{
    if i < 0 || i >= ls.len() {
        (t, a)
    } else {
        let line = ls[i];
        let t2 = if spec_starts_with(line, "MemTotal:".spec_bytes()) {
            spec_kb_value(line)
        } else {
            t
        };
        let a2 = if spec_starts_with(line, "MemAvailable:".spec_bytes()) {
            spec_kb_value(line)
        } else {
            a
        };
        if t2 is Some && a2 is Some {
            (t2, a2)
        } else {
            spec_mem_scan(ls, i + 1, t2, a2)
        }
    }
}

/// Used and total memory in bytes from the MEMINFO section: total and
/// available are read in kB; a kB figure too large for the byte conversion
/// makes the section unusable.
pub open spec fn spec_meminfo(out: Seq<u8>) -> Option<(u64, u64)> {
    match spec_section(out, "MEMINFO".spec_bytes()) {
        None => None,
        Some(sec) => {
            let scan = spec_mem_scan(spec_lines(sec), 0, None, None);
            match scan {
                (Some(t), Some(a)) => {
                    if t > u64::MAX / 1024 || a > u64::MAX / 1024 {
                        None
                    } else {
                        let total = (t * 1024) as u64;
                        let avail = (a * 1024) as u64;
                        Some((sat_sub(total as int, avail as int) as u64, total))
                    }
                },
                _ => None,
            }
        },
    }
}

/// Parse the MEMINFO section into (used bytes, total bytes).
pub fn parse_meminfo(output: &str) -> (r: Option<(u64, u64)>)
    ensures
        r == spec_meminfo(output.spec_bytes()),
{
    let sec = match section_bytes(output.as_bytes(), "MEMINFO".as_bytes()) {
        Some(s) => s,
        None => {
            return None;
        },
    };
    let ls = crate::util::lines_of(sec.as_slice());
    let ghost lsv = ls.deep_view();
    let mut t: Option<u64> = None;
    let mut a: Option<u64> = None;
    let mut i: usize = 0;
    while i < ls.len() && !(t.is_some() && a.is_some())
        invariant
            0 <= i <= lsv.len(),
            lsv == ls.deep_view(),
            spec_mem_scan(lsv, 0, None, None) == if t is Some && a is Some {
                (t, a)
            } else {
                spec_mem_scan(lsv, i as int, t, a)
            },
        decreases lsv.len() - i,
    {
        let ghost (t0, a0) = (t, a);
        let line = line_at(&ls, i);
        if crate::util::starts_with_bytes(line.as_slice(), "MemTotal:".as_bytes()) {
            t = extract_kb_value_bytes(line.as_slice());
        }
        if crate::util::starts_with_bytes(line.as_slice(), "MemAvailable:".as_bytes()) {
            a = extract_kb_value_bytes(line.as_slice());
        }
        proof {
            assert(spec_mem_scan(lsv, i as int, t0, a0) == if t is Some && a is Some {
                (t, a)
            } else {
                spec_mem_scan(lsv, i + 1, t, a)
            });
        }
        i = i + 1;
    }
    proof {
        if !(t is Some && a is Some) {
            assert(spec_mem_scan(lsv, i as int, t, a) == (t, a));
        }
    }
    match (t, a) {
        (Some(t), Some(a)) => {
            if t > u64::MAX / 1024 || a > u64::MAX / 1024 {
                None
            } else {
                let total = t * 1024;
                let avail = a * 1024;
                Some((total.saturating_sub(avail), total))
            }
        },
        _ => None,
    }
}

/// A plain decimal reading like `0.52`, as integer hundredths: the whole
/// part and up to two fractional digits count.
pub open spec fn spec_fixed2(s: Seq<u8>) -> Option<u64> {
    match crate::util::spec_find_byte(s, 46) {
        None => {
            match spec_u64(s) {
                Some(v) => if v <= u64::MAX / 100 {
                    Some((v * 100) as u64)
                } else {
                    None
                },
                None => None,
            }
        },
        Some(i) => {
            let whole = s.take(i);
            let frac = s.skip(i + 1);
            if whole.len() == 0 || frac.len() == 0 || !all_digits(frac) {
                None
            } else {
                let f2 = if frac.len() >= 2 {
                    dec_val(frac.take(2))
                } else {
                    dec_val(frac) * 10
                };
                match spec_u64(whole) {
                    Some(w) => if w <= (u64::MAX - 99) / 100 {
                        Some((w * 100 + f2) as u64)
                    } else {
                        None
                    },
                    None => None,
                }
            }
        },
    }
}

/// Parse a decimal reading into integer hundredths.
pub fn parse_fixed2(s: &[u8]) -> (r: Option<u64>)
    ensures
        r == spec_fixed2(s@),
{
    match crate::util::find_byte_spec(s, 46) {
        None => {
            match parse_u64_opt(s) {
                Some(v) => if v <= u64::MAX / 100 {
                    Some(v * 100)
                } else {
                    None
                },
                None => None,
            }
        },
        Some(i) => {
            let sl = s.len();
            proof {
                crate::util::lemma_spec_find_byte_correct(s@, 46);
                assert(i < sl);
            }
            let whole = vstd::slice::slice_subrange(s, 0, i);
            let frac = vstd::slice::slice_subrange(s, i + 1, sl);
            proof {
                assert(whole@ =~= s@.take(i as int));
                assert(frac@ =~= s@.skip(i + 1));
            }
            if whole.len() == 0 || frac.len() == 0 {
                return None;
            }
            let mut k: usize = 0;
            while k < frac.len()
                invariant
                    crate::util::spec_find_byte(s@, 46) == Some(i as int),
                    0 <= i < s@.len(),
                    whole@ == s@.take(i as int),
                    frac@ == s@.skip(i + 1),
                    whole@.len() > 0,
                    frac@.len() > 0,
                    0 <= k <= frac@.len(),
                    forall|j: int| 0 <= j < k ==> (48 <= #[trigger] frac@[j] <= 57),
                decreases frac@.len() - k,
            {
                let b = *vstd::slice::slice_index_get(frac, k);
                if b < 48 || b > 57 {
                    proof {
                        assert(!(48 <= frac@[k as int] <= 57));
                        assert(!all_digits(frac@));
                    }
                    return None;
                }
                k = k + 1;
            }
            proof {
                assert(all_digits(frac@));
            }
            let f2: u64 = if frac.len() >= 2 {
                let two = vstd::slice::slice_subrange(frac, 0, 2);
                proof {
                    assert(two@ =~= frac@.take(2));
                    assert(all_digits(two@));
                    crate::util::lemma_dec_val_nonneg(two@);
                    assert(dec_val(two@) == dec_val(two@.drop_last()) * 10 + (two@.last()
                        - 48));
                    assert(two@.drop_last() =~= two@.take(1));
                    assert(dec_val(two@.take(1)) == dec_val(two@.take(1).drop_last()) * 10 + (
                    two@.take(1).last() - 48));
                    assert(two@.take(1).drop_last() =~= Seq::<u8>::empty());
                    assert(dec_val(two@) <= 99);
                }
                match parse_u64_opt(two) {
                    Some(v) => v,
                    None => {
                        return None;
                    },
                }
            } else {
                proof {
                    assert(frac@.take(frac@.len() as int) =~= frac@);
                    assert(dec_val(frac@) == dec_val(frac@.drop_last()) * 10 + (frac@.last()
                        - 48));
                    assert(frac@.drop_last() =~= Seq::<u8>::empty());
                    assert(dec_val(frac@) <= 9);
                }
                match parse_u64_opt(frac) {
                    Some(v) => v * 10,
                    None => {
                        return None;
                    },
                }
            };
            match parse_u64_opt(whole) {
                Some(w) => {
                    if w <= (u64::MAX - 99) / 100 {
                        proof {
                            assert(f2 <= 99);
                        }
                        Some(w * 100 + f2)
                    } else {
                        None
                    }
                },
                None => None,
            }
        },
    }
}

/// The three load averages of the LOADAVG section, in integer hundredths.
pub open spec fn spec_loadavg(out: Seq<u8>) -> Option<(u64, u64, u64)> {
    match spec_section(out, "LOADAVG".spec_bytes()) {
        None => None,
        Some(sec) => {
            let ls = spec_lines(sec);
            if ls.len() == 0 {
                None
            } else {
                let ts = spec_tokens(ls[0]);
                if ts.len() < 3 {
                    None
                } else {
                    match (spec_fixed2(ts[0]), spec_fixed2(ts[1]), spec_fixed2(ts[2])) {
                        (Some(a), Some(b), Some(c)) => Some((a, b, c)),
                        _ => None,
                    }
                }
            }
        },
    }
}

/// Parse the LOADAVG section into hundredths.
pub fn parse_loadavg(output: &str) -> (r: Option<(u64, u64, u64)>)
    ensures
        r == spec_loadavg(output.spec_bytes()),
{
    let sec = match section_bytes(output.as_bytes(), "LOADAVG".as_bytes()) {
        Some(s) => s,
        None => {
            return None;
        },
    };
    let ls = crate::util::lines_of(sec.as_slice());
    if ls.len() == 0 {
        return None;
    }
    let toks = crate::util::tokens(line_at(&ls, 0).as_slice());
    if toks.len() < 3 {
        return None;
    }
    let a = parse_fixed2(tok_at(&toks, 0).as_slice());
    let b = parse_fixed2(tok_at(&toks, 1).as_slice());
    let c = parse_fixed2(tok_at(&toks, 2).as_slice());
    match (a, b, c) {
        (Some(a), Some(b), Some(c)) => Some((a, b, c)),
        _ => None,
    }
}

/// One step of the `/proc/net/dev` scan: a non-header line with an
/// interface other than `lo` and at least nine fields after the colon adds
/// its receive and transmit byte counters, saturating.
pub open spec fn spec_net_scan(ls: Seq<Seq<u8>>, i: int, rx: u64, tx: u64, found: bool) -> (
    u64,
    u64,
    bool,
)
    decreases ls.len() - i,
{
    if i < 0 || i >= ls.len() {
        (rx, tx, found)
    } else {
        let line = spec_trim(ls[i]);
        if crate::util::contains_byte(line, 124) || line.len() == 0 {
            spec_net_scan(ls, i + 1, rx, tx, found)
        } else {
            match crate::util::spec_find_byte(line, 58) {
                None => spec_net_scan(ls, i + 1, rx, tx, found),
                Some(c) => {
                    let iface = spec_trim(line.take(c));
                    let rest = line.skip(c + 1);
                    if iface == "lo".spec_bytes() {
                        spec_net_scan(ls, i + 1, rx, tx, found)
                    } else {
                        let ts = spec_tokens(rest);
                        if ts.len() >= 9 {
                            match (spec_u64(ts[0]), spec_u64(ts[8])) {
                                (Some(r), Some(t)) => spec_net_scan(
                                    ls,
                                    i + 1,
                                    sat_add(rx as int, r as int) as u64,
                                    sat_add(tx as int, t as int) as u64,
                                    true,
                                ),
                                _ => spec_net_scan(ls, i + 1, rx, tx, found),
                            }
                        } else {
                            spec_net_scan(ls, i + 1, rx, tx, found)
                        }
                    }
                },
            }
        }
    }
}

/// The aggregated network counters of the NETDEV section, when any
/// interface other than loopback was readable.
pub open spec fn spec_net(out: Seq<u8>) -> Option<NetSnapshot> {
    match spec_section(out, "NETDEV".spec_bytes()) {
        None => None,
        Some(sec) => {
            let (rx, tx, found) = spec_net_scan(spec_lines(sec), 0, 0, 0, false);
            if found {
                Some(NetSnapshot { rx_bytes: rx, tx_bytes: tx })
            } else {
                None
            }
        },
    }
}

/// Parse the NETDEV section, aggregating all interfaces but loopback.
pub fn parse_net_snapshot(output: &str) -> (r: Option<NetSnapshot>)
    ensures
        r == spec_net(output.spec_bytes()),
{
    let sec = match section_bytes(output.as_bytes(), "NETDEV".as_bytes()) {
        Some(s) => s,
        None => {
            return None;
        },
    };
    let ls = crate::util::lines_of(sec.as_slice());
    let ghost lsv = ls.deep_view();
    let mut rx: u64 = 0;
    let mut tx: u64 = 0;
    let mut found = false;
    let mut i: usize = 0;
    while i < ls.len()
        invariant
            0 <= i <= lsv.len(),
            lsv == ls.deep_view(),
            spec_net_scan(lsv, 0, 0, 0, false) == spec_net_scan(lsv, i as int, rx, tx, found),
        decreases lsv.len() - i,
    {
        let raw = line_at(&ls, i);
        let line = trim_bytes(raw.as_slice());
        let has_pipe = match crate::util::find_byte(line.as_slice(), 124) {
            Some(_) => true,
            None => false,
        };
        proof {
            assert(has_pipe == crate::util::contains_byte(line@, 124));
        }
        if !(has_pipe || line.len() == 0) {
            match crate::util::find_byte_spec(line.as_slice(), 58) {
                None => {},
                Some(c) => {
                    let ll = line.len();
                    proof {
                        crate::util::lemma_spec_find_byte_correct(line@, 58);
                        assert(c < ll);
                    }
                    let iface_raw = vstd::slice::slice_subrange(line.as_slice(), 0, c);
                    let rest = vstd::slice::slice_subrange(line.as_slice(), c + 1, ll);
                    proof {
                        assert(iface_raw@ =~= line@.take(c as int));
                        assert(rest@ =~= line@.skip(c + 1));
                    }
                    let iface = trim_bytes(iface_raw);
                    if !crate::util::bytes_eq(iface.as_slice(), "lo".as_bytes()) {
                        proof {
                            if iface@ == "lo".spec_bytes() {
                                assert(iface@ =~= "lo".spec_bytes());
                            }
                        }
                        let ts = crate::util::tokens(rest);
                        if ts.len() >= 9 {
                            let rv = parse_u64_opt(tok_at(&ts, 0).as_slice());
                            let tv = parse_u64_opt(tok_at(&ts, 8).as_slice());
                            match (rv, tv) {
                                (Some(r), Some(t)) => {
                                    rx = rx.saturating_add(r);
                                    tx = tx.saturating_add(t);
                                    found = true;
                                },
                                _ => {},
                            }
                        }
                    }
                },
            }
        }
        i = i + 1;
    }
    if found {
        Some(NetSnapshot { rx_bytes: rx, tx_bytes: tx })
    } else {
        None
    }
}

/// The core count of the NPROC section.
pub open spec fn spec_nproc(out: Seq<u8>) -> Option<u32> {
    match spec_section(out, "NPROC".spec_bytes()) {
        None => None,
        Some(sec) => {
            let ls = spec_lines(sec);
            if ls.len() == 0 {
                None
            } else {
                spec_u32(spec_trim(ls[0]))
            }
        },
    }
}

/// Parse the NPROC section.
pub fn parse_nproc(output: &str) -> (r: Option<u32>)
    ensures
        r == spec_nproc(output.spec_bytes()),
{
    let sec = match section_bytes(output.as_bytes(), "NPROC".as_bytes()) {
        Some(s) => s,
        None => {
            return None;
        },
    };
    let ls = crate::util::lines_of(sec.as_slice());
    if ls.len() == 0 {
        return None;
    }
    let first = trim_bytes(line_at(&ls, 0).as_slice());
    match parse_u64_opt(first.as_slice()) {
        Some(v) => if v <= u32::MAX as u64 {
            Some(v as u32)
        } else {
            None
        },
        None => None,
    }
}

/// CPU share over the delta to the previous sample, in hundredths of a
/// percent, capped at the representable range.
pub open spec fn spec_cpu_percent(out: Seq<u8>, prev: Option<PreviousSample>) -> Option<u64> {
    match (spec_cpu(out), prev) {
        (Some(curr), Some(p)) => {
            let total_delta = sat_sub(curr.spec_total(), p.cpu.spec_total());
            let active_delta = sat_sub(curr.spec_active(), p.cpu.spec_active());
            if total_delta > 0 {
                let v = active_delta * 10000 / total_delta;
                if v > u64::MAX {
                    Some(u64::MAX)
                } else {
                    Some(v as u64)
                }
            } else {
                None
            }
        },
        _ => None,
    }
}

/// Byte rates over the delta to the previous sample.
pub open spec fn spec_net_rates(out: Seq<u8>, prev: Option<PreviousSample>, ts: u64) -> (
    Option<u64>,
    Option<u64>,
) {
    match (spec_net(out), prev) {
        (Some(curr), Some(p)) => {
            let elapsed = sat_sub(ts as int, p.timestamp_ms as int);
            if elapsed > 0 {
                let r = sat_sub(curr.rx_bytes as int, p.net.rx_bytes as int) * 1000 / elapsed;
                let t = sat_sub(curr.tx_bytes as int, p.net.tx_bytes as int) * 1000 / elapsed;
                (
                    Some(if r > u64::MAX { u64::MAX } else { r as u64 }),
                    Some(if t > u64::MAX { u64::MAX } else { t as u64 }),
                )
            } else {
                (None, None)
            }
        },
        _ => (None, None),
    }
}

/// The full parse of one sample, given the previous sample and the
/// timestamp the new one carries.
pub open spec fn spec_metrics(out: Seq<u8>, prev: Option<PreviousSample>, ts: u64)
    -> ResourceMetrics {
    let mem = spec_meminfo(out);
    let load = spec_loadavg(out);
    let rates = spec_net_rates(out, prev, ts);
    let has_cpu = spec_cpu(out) is Some;
    let has_mem = mem is Some;
    let has_load = load is Some;
    ResourceMetrics {
        timestamp_ms: ts,
        cpu_percent: spec_cpu_percent(out, prev),
        memory_used: match mem {
            Some(m) => Some(m.0),
            None => None,
        },
        memory_total: match mem {
            Some(m) => Some(m.1),
            None => None,
        },
        memory_percent: match mem {
            Some(m) => if m.1 > 0 {
                Some((m.0 as int * 10000 / m.1 as int) as u64)
            } else {
                None
            },
            None => None,
        },
        load_avg_1: match load {
            Some(l) => Some(l.0),
            None => None,
        },
        load_avg_5: match load {
            Some(l) => Some(l.1),
            None => None,
        },
        load_avg_15: match load {
            Some(l) => Some(l.2),
            None => None,
        },
        cpu_cores: spec_nproc(out),
        net_rx_bytes_per_sec: rates.0,
        net_tx_bytes_per_sec: rates.1,
        ssh_rtt_ms: None,
        source: if has_cpu && has_mem && has_load {
            MetricsSource::Full
        } else if has_cpu || has_mem || has_load {
            MetricsSource::Partial
        } else {
            MetricsSource::RttOnly
        },
    }
}

/// Parse all metrics out of one composite sample output.  The timestamp is
/// the wall clock at the time of the call.
pub fn parse_metrics(output: &str, prev: &Option<PreviousSample>) -> (r: ResourceMetrics)
    ensures
        r == spec_metrics(output.spec_bytes(), *prev, r.timestamp_ms),
{
    let ts = crate::util::now_ms();
    let cpu_snap = parse_cpu_snapshot(output);
    let net_snap = parse_net_snapshot(output);
    let mem = parse_meminfo(output);
    let load = parse_loadavg(output);
    let nproc = parse_nproc(output);

    let cpu_percent: Option<u64> = match (&cpu_snap, prev) {
        (Some(curr), Some(p)) => {
            let total_delta = curr.total().saturating_sub(p.cpu.total());
            let active_delta = curr.active().saturating_sub(p.cpu.active());
            if total_delta > 0 {
                let v: u128 = (active_delta as u128) * 10000 / (total_delta as u128);
                if v > u64::MAX as u128 {
                    Some(u64::MAX)
                } else {
                    Some(v as u64)
                }
            } else {
                None
            }
        },
        _ => None,
    };

    let (net_rx, net_tx): (Option<u64>, Option<u64>) = match (&net_snap, prev) {
        (Some(curr), Some(p)) => {
            let elapsed = ts.saturating_sub(p.timestamp_ms);
            if elapsed > 0 {
                let r: u128 = (curr.rx_bytes.saturating_sub(p.net.rx_bytes) as u128) * 1000 / (
                elapsed as u128);
                let t: u128 = (curr.tx_bytes.saturating_sub(p.net.tx_bytes) as u128) * 1000 / (
                elapsed as u128);
                (
                    Some(if r > u64::MAX as u128 { u64::MAX } else { r as u64 }),
                    Some(if t > u64::MAX as u128 { u64::MAX } else { t as u64 }),
                )
            } else {
                (None, None)
            }
        },
        _ => (None, None),
    };

    let (mem_used, mem_total, mem_percent): (Option<u64>, Option<u64>, Option<u64>) = match mem {
        Some((used, total)) => {
            let pct = if total > 0 {
                proof {
                    assert(used <= total);
                    assert((used as int) * 10000 / (total as int) <= 10000) by (nonlinear_arith)
                        requires
                            0 <= used <= total,
                            0 < total,
                    ;
                }
                let p: u128 = (used as u128) * 10000 / (total as u128);
                Some(p as u64)
            } else {
                None
            };
            (Some(used), Some(total), pct)
        },
        None => (None, None, None),
    };

    let has_cpu = cpu_snap.is_some();
    let has_mem = mem.is_some();
    let has_load = load.is_some();
    let source = if has_cpu && has_mem && has_load {
        MetricsSource::Full
    } else if has_cpu || has_mem || has_load {
        MetricsSource::Partial
    } else {
        MetricsSource::RttOnly
    };

    ResourceMetrics {
        timestamp_ms: ts,
        cpu_percent,
        memory_used: mem_used,
        memory_total: mem_total,
        memory_percent: mem_percent,
        load_avg_1: match load {
            Some(l) => Some(l.0),
            None => None,
        },
        load_avg_5: match load {
            Some(l) => Some(l.1),
            None => None,
        },
        load_avg_15: match load {
            Some(l) => Some(l.2),
            None => None,
        },
        cpu_cores: nproc,
        net_rx_bytes_per_sec: net_rx,
        net_tx_bytes_per_sec: net_tx,
        ssh_rtt_ms: None,
        source,
    }
}

/// Empty metrics with a given source and the current wall clock.
pub fn make_empty_metrics(source: MetricsSource) -> (r: ResourceMetrics)
    ensures
        r.cpu_percent is None,
        r.memory_used is None,
        r.memory_total is None,
        r.memory_percent is None,
        r.load_avg_1 is None,
        r.load_avg_5 is None,
        r.load_avg_15 is None,
        r.cpu_cores is None,
        r.net_rx_bytes_per_sec is None,
        r.net_tx_bytes_per_sec is None,
        r.ssh_rtt_ms is None,
        r.source == source,
{
    ResourceMetrics {
        timestamp_ms: crate::util::now_ms(),
        cpu_percent: None,
        memory_used: None,
        memory_total: None,
        memory_percent: None,
        load_avg_1: None,
        load_avg_5: None,
        load_avg_15: None,
        cpu_cores: None,
        net_rx_bytes_per_sec: None,
        net_tx_bytes_per_sec: None,
        ssh_rtt_ms: None,
        source,
    }
}

/// The latest metrics plus a bounded history for sparkline rendering.
pub struct MetricsHistory {
    latest: Option<ResourceMetrics>,
    history: Vec<ResourceMetrics>,
}

impl MetricsHistory {
    /// The most recent snapshot.
    pub closed spec fn spec_latest(&self) -> Option<ResourceMetrics> {
        self.latest
    }

    /// The kept history, oldest first.
    pub closed spec fn spec_history(&self) -> Seq<ResourceMetrics> {
        self.history@
    }

    /// The ring never exceeds its capacity.
    pub closed spec fn wf(&self) -> bool {
        self.history@.len() <= HISTORY_CAPACITY
    }

    /// Empty history.
    pub fn new() -> (r: Self)
        ensures
            r.wf(),
            r.spec_latest() is None,
            r.spec_history() =~= Seq::<ResourceMetrics>::empty(),
    {
        MetricsHistory { latest: None, history: Vec::new() }
    }

    /// Read the latest snapshot.
    pub fn latest(&self) -> (r: Option<ResourceMetrics>)
        ensures
            r == self.spec_latest(),
    {
        self.latest
    }

    /// Copy the history out, oldest first.
    pub fn history(&self) -> (r: Vec<ResourceMetrics>)
        ensures
            r@ == self.spec_history(),
    {
        self.history.clone()
    }
}

/// Record a new snapshot: it becomes the latest, and enters the history,
/// evicting the oldest entry once the ring is full.
pub fn store_metrics(store: &mut MetricsHistory, metrics: &ResourceMetrics)
    requires
        old(store).wf(),
    ensures
        final(store).wf(),
        final(store).spec_latest() == Some(*metrics),
        final(store).spec_history() == if old(store).spec_history().len() >= HISTORY_CAPACITY {
            old(store).spec_history().skip(1).push(*metrics)
        } else {
            old(store).spec_history().push(*metrics)
        },
{
    store.latest = Some(*metrics);
    if store.history.len() >= HISTORY_CAPACITY {
        store.history.remove(0);
        proof {
            assert(store.history@ =~= old(store).history@.skip(1));
        }
    }
    store.history.push(*metrics);
}

} // verus!

verus! {

/// The Linux metrics command: the `/proc` pseudo-files between markers.
pub open spec fn metrics_command_bytes() -> Seq<u8> {
    "echo '===STAT==='; head -1 /proc/stat 2>/dev/null; echo '===MEMINFO==='; grep -E '^(MemTotal|MemAvailable):' /proc/meminfo 2>/dev/null; echo '===LOADAVG==='; cat /proc/loadavg 2>/dev/null; echo '===NETDEV==='; cat /proc/net/dev 2>/dev/null; echo '===NPROC==='; nproc 2>/dev/null".spec_bytes()
}

/// The platform port-scan command the OS name selects; Linux-style systems
/// and anything unrecognized get the `ss`/`netstat` command with the docker
/// listing, macOS `lsof`, Windows PowerShell, the BSDs `sockstat`.
pub open spec fn port_command_bytes(os: Seq<u8>) -> Seq<u8> {
    if os == "macOS".spec_bytes() || os == "macos".spec_bytes() || os == "Darwin".spec_bytes() {
        "echo '===PORTS==='; ((lsof -iTCP -sTCP:LISTEN -nP 2>/dev/null | tail -n +2) || true); echo '===PORTS_END==='; echo '===DOCKER==='; ((docker ps --format '{{.ID}}\t{{.Names}}\t{{.Ports}}' 2>/dev/null || sudo -n docker ps --format '{{.ID}}\t{{.Names}}\t{{.Ports}}' 2>/dev/null) || true); echo '===DOCKER_END==='".spec_bytes()
    } else if os == "Windows".spec_bytes() || os == "windows".spec_bytes() {
        "echo '===PORTS==='; powershell -NoProfile -Command \"Get-NetTCPConnection -State Listen 2>$null | Select-Object LocalAddress,LocalPort,OwningProcess | Format-Table -HideTableHeaders\" 2>/dev/null; echo '===PORTS_END==='".spec_bytes()
    } else if os == "FreeBSD".spec_bytes() || os == "freebsd".spec_bytes() || os
        == "OpenBSD".spec_bytes() || os == "NetBSD".spec_bytes() {
        "echo '===PORTS==='; sockstat -4 -6 -l -P tcp 2>/dev/null | tail -n +2; echo '===PORTS_END==='".spec_bytes()
    } else {
        "echo '===PORTS==='; ((ss -tlnp 2>/dev/null || netstat -tlnp 2>/dev/null) | grep -i listen || true); echo '===PORTS_END==='; echo '===DOCKER==='; ((docker ps --format '{{.ID}}\t{{.Names}}\t{{.Ports}}' 2>/dev/null || sudo -n docker ps --format '{{.ID}}\t{{.Names}}\t{{.Ports}}' 2>/dev/null) || true); echo '===DOCKER_END==='".spec_bytes()
    }
}

/// The complete sampling command for one cycle: metrics section, port scan,
/// end marker, trailing newline.
pub open spec fn spec_sample_command(os: Seq<u8>) -> Seq<u8> {
    metrics_command_bytes() + "; ".spec_bytes() + port_command_bytes(os)
        + "; echo '===END==='\n".spec_bytes()
}

/// Build the complete sampling command for the given remote OS, ready to
/// send to the shell channel.
pub fn build_sample_command(os_type: &str) -> (r: String)
    ensures
        r@ == utf8_lossy_of(spec_sample_command(os_type.spec_bytes())),
{
    let os = os_type.as_bytes();
    let port_cmd: &str = if crate::util::bytes_eq(os, "macOS".as_bytes()) || crate::util::bytes_eq(
        os,
        "macos".as_bytes(),
    ) || crate::util::bytes_eq(os, "Darwin".as_bytes()) {
        "echo '===PORTS==='; ((lsof -iTCP -sTCP:LISTEN -nP 2>/dev/null | tail -n +2) || true); echo '===PORTS_END==='; echo '===DOCKER==='; ((docker ps --format '{{.ID}}\t{{.Names}}\t{{.Ports}}' 2>/dev/null || sudo -n docker ps --format '{{.ID}}\t{{.Names}}\t{{.Ports}}' 2>/dev/null) || true); echo '===DOCKER_END==='"
    } else if crate::util::bytes_eq(os, "Windows".as_bytes()) || crate::util::bytes_eq(
        os,
        "windows".as_bytes(),
    ) {
        "echo '===PORTS==='; powershell -NoProfile -Command \"Get-NetTCPConnection -State Listen 2>$null | Select-Object LocalAddress,LocalPort,OwningProcess | Format-Table -HideTableHeaders\" 2>/dev/null; echo '===PORTS_END==='"
    } else if crate::util::bytes_eq(os, "FreeBSD".as_bytes()) || crate::util::bytes_eq(
        os,
        "freebsd".as_bytes(),
    ) || crate::util::bytes_eq(os, "OpenBSD".as_bytes()) || crate::util::bytes_eq(
        os,
        "NetBSD".as_bytes(),
    ) {
        "echo '===PORTS==='; sockstat -4 -6 -l -P tcp 2>/dev/null | tail -n +2; echo '===PORTS_END==='"
    } else {
        "echo '===PORTS==='; ((ss -tlnp 2>/dev/null || netstat -tlnp 2>/dev/null) | grep -i listen || true); echo '===PORTS_END==='; echo '===DOCKER==='; ((docker ps --format '{{.ID}}\t{{.Names}}\t{{.Ports}}' 2>/dev/null || sudo -n docker ps --format '{{.ID}}\t{{.Names}}\t{{.Ports}}' 2>/dev/null) || true); echo '===DOCKER_END==='"
    };
    proof {
        assert(port_cmd.spec_bytes() == port_command_bytes(os_type.spec_bytes()));
    }
    let mut buf: Vec<u8> = Vec::new();
    buf.extend_from_slice("echo '===STAT==='; head -1 /proc/stat 2>/dev/null; echo '===MEMINFO==='; grep -E '^(MemTotal|MemAvailable):' /proc/meminfo 2>/dev/null; echo '===LOADAVG==='; cat /proc/loadavg 2>/dev/null; echo '===NETDEV==='; cat /proc/net/dev 2>/dev/null; echo '===NPROC==='; nproc 2>/dev/null".as_bytes());
    buf.extend_from_slice("; ".as_bytes());
    buf.extend_from_slice(port_cmd.as_bytes());
    buf.extend_from_slice("; echo '===END==='\n".as_bytes());
    proof {
        assert(buf@ =~= spec_sample_command(os_type.spec_bytes()));
    }
    crate::util::lossy_string(buf.as_slice())
}

} // verus!
