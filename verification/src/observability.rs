//! Command timing and the redaction of database hosts in logs.
use vstd::prelude::*;
use std::time::{Duration, Instant};
use crate::text::{chars_of, has_prefix, has_suffix, owned, trim, trim_str};

verus! {

#[verifier::external_type_specification]
#[verifier::external_body]
pub struct ExInstant(Instant);

/// Whole seconds of a duration (`Duration::as_secs`).
pub uninterp spec fn duration_secs_of(d: Duration) -> u64;

/// Milliseconds past the whole seconds of a duration (`Duration::subsec_millis`).
pub uninterp spec fn duration_subsec_millis_of(d: Duration) -> u32;

/// `Instant::now`: the current instant; nothing is known of its value.
#[verifier::external_body]
fn instant_now() -> Instant {
    Instant::now()
}

/// `Instant::elapsed`: the time since the instant; nothing is known of its value.
#[verifier::external_body]
fn instant_elapsed(start: &Instant) -> Duration {
    start.elapsed()
}

/// `Duration::as_secs`: the whole seconds.
#[verifier::external_body]
fn duration_secs(d: &Duration) -> (r: u64)
    ensures
        r == duration_secs_of(*d),
{
    d.as_secs()
}

/// `Duration::subsec_millis`: the milliseconds below one second, always under 1000.
#[verifier::external_body]
fn duration_subsec_millis(d: &Duration) -> (r: u32)
    ensures
        r == duration_subsec_millis_of(*d),
        r < 1000,
{
    d.subsec_millis()
}

/// Whole milliseconds of `secs` seconds and `subsec_millis` milliseconds, saturated at `u64::MAX`.
pub open spec fn total_millis_spec(secs: u64, subsec_millis: u32) -> u64 {
    if secs * 1000 + subsec_millis > u64::MAX {
        u64::MAX
    } else {
        (secs * 1000 + subsec_millis) as u64
    }
}

pub fn total_millis(secs: u64, subsec_millis: u32) -> (r: u64)
    ensures
        r == total_millis_spec(secs, subsec_millis),
{
    let total: u128 = secs as u128 * 1000 + subsec_millis as u128;
    if total > u64::MAX as u128 {
        u64::MAX
    } else {
        total as u64
    }
}

/// Whole milliseconds of a duration (`Duration::as_millis`), saturated at `u64::MAX`.
pub fn duration_ms(duration: Duration) -> (r: u64)
    ensures
        r == total_millis_spec(duration_secs_of(duration), duration_subsec_millis_of(duration)),
{
    let secs = duration_secs(&duration);
    let millis = duration_subsec_millis(&duration);
    total_millis(secs, millis)
}

/// A longer duration never reads as fewer milliseconds: durations ordered by their
/// whole seconds, then by the milliseconds below a second (under 1000), give ordered
/// millisecond counts.
pub proof fn lemma_total_millis_monotone(s1: u64, m1: u32, s2: u64, m2: u32)
    requires
        m1 < 1000,
        m2 < 1000,
        s1 < s2 || (s1 == s2 && m1 <= m2),
    ensures
        total_millis_spec(s1, m1) <= total_millis_spec(s2, m2),
{
    if s1 < s2 {
        assert(s1 * 1000 + m1 < s2 * 1000 + m2) by (nonlinear_arith)
            requires
                s1 < s2,
                m1 < 1000,
        ;
    }
}

/// The whole milliseconds of a duration, saturated at `u64::MAX`.
pub open spec fn duration_millis_spec(d: Duration) -> u64 {
    total_millis_spec(duration_secs_of(d), duration_subsec_millis_of(d))
}

/// The same order stated over durations: the one with more whole seconds, or as many
/// and more milliseconds below a second, reads as at least as many milliseconds.
pub proof fn lemma_duration_millis_monotone(d1: Duration, d2: Duration)
    requires
        duration_subsec_millis_of(d1) < 1000,
        duration_subsec_millis_of(d2) < 1000,
        duration_secs_of(d1) < duration_secs_of(d2) || (duration_secs_of(d1) == duration_secs_of(d2)
            && duration_subsec_millis_of(d1) <= duration_subsec_millis_of(d2)),
    ensures
        duration_millis_spec(d1) <= duration_millis_spec(d2),
{
    lemma_total_millis_monotone(
        duration_secs_of(d1),
        duration_subsec_millis_of(d1),
        duration_secs_of(d2),
        duration_subsec_millis_of(d2),
    );
}

/// Measures how long a command takes.
pub struct CommandTimer {
    started_at: Instant,
}

impl CommandTimer {
    pub fn start() -> Self {
        CommandTimer { started_at: instant_now() }
    }

    /// Milliseconds since the timer started: the whole milliseconds of the elapsed
    /// duration, saturated at `u64::MAX`. Which duration elapsed depends on the clock.
    pub fn elapsed_ms(&self) -> (r: u64)
        ensures
            exists|elapsed: Duration| r == #[trigger] duration_millis_spec(elapsed),
    {
        let elapsed = instant_elapsed(&self.started_at);
        let r = duration_ms(elapsed);
        assert(r == duration_millis_spec(elapsed));
        r
    }
}

/// The part of a database host that may be an IP address: the trimmed host, without
/// the brackets of an `[IPv6]` form.
pub open spec fn host_address_spec(host: Seq<char>) -> Seq<char> {
    let t = trim(host);
    if has_prefix(t, "["@) && has_suffix(t, "]"@) && t.len() >= 2 {
        t.subrange(1, t.len() - 1)
    } else {
        t
    }
}

/// What is logged for a database host, given whether its address part reads as an IP
/// address: `<empty>` for a blank host, a redaction marker for an IP, else the trimmed host.
pub open spec fn redacted_host_spec(host: Seq<char>, address_is_ip: bool) -> Seq<char> {
    if trim(host).len() == 0 {
        "<empty>"@
    } else if address_is_ip {
        "<ip-address-redacted>"@
    } else {
        trim(host)
    }
}

pub fn database_host_address(host: &str) -> (r: &str)
    ensures
        r@ == host_address_spec(host@),
{
    proof {
        reveal_strlit("[");
        reveal_strlit("]");
    }
    let trimmed = trim_str(host);
    let cs = chars_of(trimmed);
    let n = cs.len();
    if n >= 2 && cs[0] == '[' && cs[n - 1] == ']' {
        assert(cs@.take(1) =~= "["@);
        assert(cs@.skip(n - 1) =~= "]"@);
        trimmed.substring_char(1, n - 1)
    } else {
        proof {
            if has_prefix(cs@, "["@) && has_suffix(cs@, "]"@) && n >= 2 {
                assert(cs@.take(1)[0] == cs@[0]);
                assert(cs@.skip(n - 1)[0] == cs@[n - 1]);
            }
        }
        trimmed
    }
}

pub fn redact_database_host(host: &str, address_is_ip: bool) -> (r: String)
    ensures
        r@ == redacted_host_spec(host@, address_is_ip),
{
    let trimmed = trim_str(host);
    if trimmed.unicode_len() == 0 {
        owned("<empty>")
    } else if address_is_ip {
        owned("<ip-address-redacted>")
    } else {
        owned(trimmed)
    }
}

/// A logged host is never blank.
pub proof fn lemma_redacted_host_not_blank(host: Seq<char>, address_is_ip: bool)
    ensures
        redacted_host_spec(host, address_is_ip).len() > 0,
{
    reveal_strlit("<empty>");
    reveal_strlit("<ip-address-redacted>");
}

} // verus!
