//! Connection health presentation: status labels, colors and uptime text.

use vstd::prelude::*;
use crate::util::{ascii_chars, ascii_to_string, dec_bytes, lemma_dec_bytes_ascii, u64_to_dec};

verus! {

/// Health classification of one connection.
#[derive(Debug, Clone, Copy, PartialEq, Eq, Structural)]
pub enum HealthStatus {
    Healthy,
    Degraded,
    Unresponsive,
    Disconnected,
    Unknown,
}

/// Quick health check result, suitable for status indicators.
#[derive(Debug, Clone)]
pub struct QuickHealthCheck {
    pub session_id: String,
    pub status: HealthStatus,
    pub latency_ms: Option<u64>,
    pub message: String,
}

/// Frontend-friendly health status response.
#[derive(Debug, Clone)]
pub struct HealthStatusResponse {
    pub session_id: String,
    pub status: String,
    pub status_color: String,
    pub latency_ms: Option<u64>,
    pub message: String,
    pub uptime_formatted: String,
}

/// The uptime text: seconds below a minute, minutes and seconds below an
/// hour, hours and minutes below a day, days and hours from there on.
pub open spec fn uptime_bytes(secs: int) -> Seq<u8> {
    if secs < 60 {
        dec_bytes(secs) + seq![115u8]
    } else if secs < 3600 {
        dec_bytes(secs / 60) + seq![109u8, 32u8] + dec_bytes(secs % 60) + seq![115u8]
    } else if secs < 86400 {
        dec_bytes(secs / 3600) + seq![104u8, 32u8] + dec_bytes((secs % 3600) / 60) + seq![109u8]
    } else {
        dec_bytes(secs / 86400) + seq![100u8, 32u8] + dec_bytes((secs % 86400) / 3600)
            + seq![104u8]
    }
}

/// Format an uptime in seconds as human-readable text.
pub fn format_uptime(secs: u64) -> (r: String)
    ensures
        r@ == ascii_chars(uptime_bytes(secs as int)),
{
    let mut buf: Vec<u8> = Vec::new();
    if secs < 60 {
        let mut d = u64_to_dec(secs);
        buf.append(&mut d);
        buf.push(115);
    } else if secs < 3600 {
        let mut m = u64_to_dec(secs / 60);
        buf.append(&mut m);
        buf.push(109);
        buf.push(32);
        let mut s2 = u64_to_dec(secs % 60);
        buf.append(&mut s2);
        buf.push(115);
    } else if secs < 86400 {
        let mut h = u64_to_dec(secs / 3600);
        buf.append(&mut h);
        buf.push(104);
        buf.push(32);
        let mut m = u64_to_dec((secs % 3600) / 60);
        buf.append(&mut m);
        buf.push(109);
    } else {
        let mut d = u64_to_dec(secs / 86400);
        buf.append(&mut d);
        buf.push(100);
        buf.push(32);
        let mut h = u64_to_dec((secs % 86400) / 3600);
        buf.append(&mut h);
        buf.push(104);
    }
    proof {
        assert(buf@ =~= uptime_bytes(secs as int));
        lemma_dec_bytes_ascii(secs as int);
        lemma_dec_bytes_ascii(secs as int / 60);
        lemma_dec_bytes_ascii(secs as int % 60);
        lemma_dec_bytes_ascii(secs as int / 3600);
        lemma_dec_bytes_ascii((secs as int % 3600) / 60);
        lemma_dec_bytes_ascii(secs as int / 86400);
        lemma_dec_bytes_ascii((secs as int % 86400) / 3600);
        assert(forall|i: int| 0 <= i < buf@.len() ==> buf@[i] < 128);
    }
    ascii_to_string(buf)
}

/// The status word of a health classification.
pub open spec fn status_word(s: HealthStatus) -> Seq<char> {
    match s {
        HealthStatus::Healthy => "healthy"@,
        HealthStatus::Degraded => "degraded"@,
        HealthStatus::Unresponsive => "unresponsive"@,
        HealthStatus::Disconnected => "disconnected"@,
        HealthStatus::Unknown => "unknown"@,
    }
}

/// The indicator color of a health classification.
pub open spec fn status_color(s: HealthStatus) -> Seq<char> {
    match s {
        HealthStatus::Healthy => "#22c55e"@,
        HealthStatus::Degraded => "#f59e0b"@,
        HealthStatus::Unresponsive => "#ef4444"@,
        HealthStatus::Disconnected => "#6b7280"@,
        HealthStatus::Unknown => "#9ca3af"@,
    }
}

impl HealthStatusResponse {
    /// Render a quick check plus an uptime into the display form: status
    /// word, indicator color, formatted uptime; id, latency and message
    /// carried through.
    pub fn from_check(check: QuickHealthCheck, uptime_secs: u64) -> (r: Self)
        ensures
            r.session_id == check.session_id,
            r.status@ == status_word(check.status),
            r.status_color@ == status_color(check.status),
            r.latency_ms == check.latency_ms,
            r.message == check.message,
            r.uptime_formatted@ == ascii_chars(uptime_bytes(uptime_secs as int)),
    {
        let (status, color): (&str, &str) = match check.status {
            HealthStatus::Healthy => ("healthy", "#22c55e"),
            HealthStatus::Degraded => ("degraded", "#f59e0b"),
            HealthStatus::Unresponsive => ("unresponsive", "#ef4444"),
            HealthStatus::Disconnected => ("disconnected", "#6b7280"),
            HealthStatus::Unknown => ("unknown", "#9ca3af"),
        };
        HealthStatusResponse {
            session_id: check.session_id,
            status: status.to_owned(),
            status_color: color.to_owned(),
            latency_ms: check.latency_ms,
            message: check.message,
            uptime_formatted: format_uptime(uptime_secs),
        }
    }
}

} // verus!
