//! Waiting for the sandbox to become healthy: what is sent, what
//! counts as healthy, and how long to wait between attempts.

use vstd::prelude::*;
use crate::parse::{contains_text, find_text};
use crate::text::{chars_of, concat2, decimal, decimal_string};
use crate::vm::error::VMError;

verus! {

/// The time between two attempts, in milliseconds, at the start.
pub const FIRST_DELAY_MS: u64 = 500;

/// The longest time between two attempts, in milliseconds.
pub const MAX_DELAY_MS: u64 = 5000;

/// How many bytes of the response are read.
pub const RESPONSE_LIMIT: usize = 256;

/// Whether the response `response` shows a healthy service: it holds
/// `200 OK` or `ok`.
pub open spec fn healthy_response(response: Seq<char>) -> bool {
    contains_text(response, "200 OK"@) || contains_text(response, "ok"@)
}

/// Whether `response`, the beginning of what the service answered,
/// shows that it is healthy.
pub fn health_response_ok(response: &str) -> (r: bool)
    ensures
        r == healthy_response(response@),
{
    let hay = chars_of(response);
    let long = chars_of("200 OK");
    let short = chars_of("ok");
    find_text(&hay, &long) || find_text(&hay, &short)
}

/// The request that asks the service for its health.
pub fn health_request() -> (out: &'static str)
    ensures
        out@ == "GET /health HTTP/1.1\r\nHost: localhost\r\n\r\n"@,
{
    "GET /health HTTP/1.1\r\nHost: localhost\r\n\r\n"
}

/// The address of the service on the host, for the port `port`.
pub fn health_address(port: u16) -> (out: String)
    ensures
        out@ == "127.0.0.1:"@ + decimal(port as nat),
{
    let p = decimal_string(port as u64);
    concat2("127.0.0.1:", p.as_str())
}

/// What a health check does next.
pub enum HealthStep {
    /// Connect to `address`, send the health request, read the
    /// beginning of the response, and report it.
    Probe { address: String },
    /// Wait this many milliseconds, then ask again.
    Wait { millis: u64 },
    /// The service is healthy.
    Healthy,
    /// The time is up; the error names the time allowed.
    TimedOut(VMError),
}

/// A health check in progress: attempts are made until one shows a
/// healthy service or the time is up.
pub struct HealthProbe {
    pub port: u16,
    /// The time allowed in all, in milliseconds.
    pub timeout_ms: u64,
    /// The time to wait after the next attempt that fails.
    pub delay_ms: u64,
    /// Whether the time between attempts doubles, up to the longest.
    pub backoff: bool,
}

/// The time to wait after a wait of `delay` milliseconds.
pub open spec fn next_delay(delay: u64, backoff: bool) -> u64 {
    if !backoff {
        delay
    } else if delay >= 2500 {
        5000
    } else {
        (delay * 2) as u64
    }
}

impl HealthProbe {
    /// The delay lies between the first and the longest.
    pub open spec fn wf(&self) -> bool {
        FIRST_DELAY_MS <= self.delay_ms <= MAX_DELAY_MS
    }

    /// A health check of the service at `port` that gives up after
    /// `timeout_ms` milliseconds.
    pub fn new(port: u16, timeout_ms: u64, backoff: bool) -> (out: HealthProbe)
        ensures
            out.wf(),
            out.port == port,
            out.timeout_ms == timeout_ms,
            out.delay_ms == FIRST_DELAY_MS,
            out.backoff == backoff,
    {
        HealthProbe { port, timeout_ms, delay_ms: FIRST_DELAY_MS, backoff }
    }

    /// What the check does when `elapsed_ms` milliseconds have passed
    /// since it began: another attempt while time is left, else the
    /// timeout.
    pub open spec fn poll_spec(&self, elapsed_ms: u64) -> HealthStepView {
        if elapsed_ms < self.timeout_ms {
            HealthStepView::Probe { address: "127.0.0.1:"@ + decimal(self.port as nat) }
        } else {
            HealthStepView::TimedOut(VMError::HealthTimeout(self.timeout_ms))
        }
    }

    /// The time for which the check waits after an attempt that failed:
    /// the delay, but not beyond the time allowed.
    pub open spec fn wait_spec(&self, elapsed_ms: u64) -> u64 {
        if self.delay_ms <= self.timeout_ms - elapsed_ms {
            self.delay_ms
        } else {
            (self.timeout_ms - elapsed_ms) as u64
        }
    }

    /// What the check does after an attempt: it ends on a healthy
    /// response, times out where no time is left, and else waits.
    pub open spec fn observe_spec(&self, response: Option<Seq<char>>, elapsed_ms: u64) -> HealthStepView {
        if response is Some && healthy_response(response->0) {
            HealthStepView::Healthy
        } else if elapsed_ms >= self.timeout_ms {
            HealthStepView::TimedOut(VMError::HealthTimeout(self.timeout_ms))
        } else {
            HealthStepView::Wait { millis: self.wait_spec(elapsed_ms) }
        }
    }

    /// What to do when `elapsed_ms` milliseconds have passed since the
    /// check began. A timeout names the time allowed.
    pub fn poll(&self, elapsed_ms: u64) -> (step: HealthStep)
        ensures
            step@ == self.poll_spec(elapsed_ms),
    {
        if elapsed_ms < self.timeout_ms {
            HealthStep::Probe { address: health_address(self.port) }
        } else {
            HealthStep::TimedOut(VMError::HealthTimeout(self.timeout_ms))
        }
    }

    /// Takes what an attempt gave: the beginning of the response, or
    /// nothing where the service could not be reached or read.
    /// `elapsed_ms` is the time since the check began.
    ///
    /// Only a wait changes the check: the next delay is the double of
    /// this one, up to the longest, where the check backs off.
    pub fn observe(&mut self, response: Option<&str>, elapsed_ms: u64) -> (step: HealthStep)
        requires
            old(self).wf(),
        ensures
            final(self).wf(),
            step@ == old(self).observe_spec(response_view(response), elapsed_ms),
            final(self).port == old(self).port,
            final(self).timeout_ms == old(self).timeout_ms,
            final(self).backoff == old(self).backoff,
            final(self).delay_ms == (if step is Wait {
                next_delay(old(self).delay_ms, old(self).backoff)
            } else {
                old(self).delay_ms
            }),
    {
        let healthy = match response {
            Some(text) => health_response_ok(text),
            None => false,
        };
        if healthy {
            return HealthStep::Healthy;
        }
        if elapsed_ms >= self.timeout_ms {
            return HealthStep::TimedOut(VMError::HealthTimeout(self.timeout_ms));
        }
        let left = self.timeout_ms - elapsed_ms;
        let millis = if self.delay_ms <= left {
            self.delay_ms
        } else {
            left
        };
        if self.backoff {
            self.delay_ms = if self.delay_ms >= 2500 {
                MAX_DELAY_MS
            } else {
                self.delay_ms * 2
            };
        }
        HealthStep::Wait { millis }
    }
}

/// A `HealthStep` as a plain value.
pub enum HealthStepView {
    Probe { address: Seq<char> },
    Wait { millis: u64 },
    Healthy,
    TimedOut(VMError),
}

impl View for HealthStep {
    type V = HealthStepView;

    open spec fn view(&self) -> HealthStepView {
        match self {
            HealthStep::Probe { address } => HealthStepView::Probe { address: address@ },
            HealthStep::Wait { millis } => HealthStepView::Wait { millis: *millis },
            HealthStep::Healthy => HealthStepView::Healthy,
            HealthStep::TimedOut(e) => HealthStepView::TimedOut(*e),
        }
    }
}

/// The view of a response that may be absent.
pub open spec fn response_view(response: Option<&str>) -> Option<Seq<char>> {
    match response {
        Some(text) => Some(text@),
        None => None,
    }
}

/// A health check never waits beyond the time allowed, nor longer than
/// the longest delay, and with a time allowed that has passed it times
/// out whatever the attempt gave, unless that was a healthy response.
pub proof fn law_wait_within_timeout(probe: HealthProbe, response: Option<Seq<char>>, elapsed_ms: u64)
    requires
        probe.wf(),
    ensures
        probe.observe_spec(response, elapsed_ms) matches HealthStepView::Wait { millis } ==> (
        elapsed_ms + millis <= probe.timeout_ms && 0 < millis <= MAX_DELAY_MS),
        FIRST_DELAY_MS <= next_delay(probe.delay_ms, probe.backoff) <= MAX_DELAY_MS,
        next_delay(probe.delay_ms, probe.backoff) >= probe.delay_ms,
        elapsed_ms >= probe.timeout_ms ==> probe.poll_spec(elapsed_ms) == HealthStepView::TimedOut(
            VMError::HealthTimeout(probe.timeout_ms),
        ),
        elapsed_ms >= probe.timeout_ms && !(response is Some && healthy_response(response->0))
            ==> probe.observe_spec(response, elapsed_ms) == HealthStepView::TimedOut(
            VMError::HealthTimeout(probe.timeout_ms),
        ),
{
}

} // verus!
