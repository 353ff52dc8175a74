use vstd::prelude::*;

verus! {

/// Number of health probes made after a launch before giving up.
pub const HEALTH_MAX_ATTEMPTS: u32 = 120;

/// Milliseconds slept before each health probe, and once more after success.
pub const HEALTH_INTERVAL_MS: u64 = 500;

/// An HTTP status code of the success class (2xx).
pub open spec fn spec_is_success(status: u16) -> bool {
    200 <= status && status <= 299
}

/// Whether an HTTP status code is of the success class (2xx).
pub fn is_success(status: u16) -> (r: bool)
    ensures
        r == spec_is_success(status),
{
    200 <= status && status <= 299
}

/// The outcome of one request to the health endpoint.
pub enum HealthProbeResult {
    /// The endpoint answered with a success status.
    Ready,
    /// The endpoint answered with this other status.
    NotReady(u16),
    /// No answer arrived; the request failed with this message.
    Unreachable(String),
}

impl HealthProbeResult {
    /// Classifies an answer: the status code of a response, or the error
    /// that kept the response from arriving.
    pub fn classify(answer: Result<u16, String>) -> (r: HealthProbeResult)
        ensures
            match answer {
                Ok(s) => if spec_is_success(s) {
                    r is Ready
                } else {
                    r == HealthProbeResult::NotReady(s)
                },
                Err(e) => r == HealthProbeResult::Unreachable(e),
            },
    {
        match answer {
            Ok(s) => if is_success(s) {
                HealthProbeResult::Ready
            } else {
                HealthProbeResult::NotReady(s)
            },
            Err(e) => HealthProbeResult::Unreachable(e),
        }
    }

    pub fn is_ready(&self) -> (r: bool)
        ensures
            r == self is Ready,
    {
        match self {
            HealthProbeResult::Ready => true,
            _ => false,
        }
    }
}

/// Where the health prober stands.
pub enum ProbeStage {
    /// A sleep was requested; the next probe follows it.
    Sleeping,
    /// A probe was requested; its result is awaited.
    Probing,
    /// A probe succeeded; the settling sleep was requested.
    Settling,
    /// The backend is ready.
    Ready,
    /// Every attempt failed.
    TimedOut,
}

/// What the host must do next for the prober.
pub enum ProbeAction {
    /// Sleep this many milliseconds, then report `ProbeEvent::Slept`.
    Sleep(u64),
    /// Request the health endpoint on this port, then report the result.
    Probe(u16),
    /// The backend on this port is ready.
    Ready(u16),
    /// The backend did not become ready within the attempts allowed.
    TimedOut,
}

/// What the host reports back to the prober.
pub enum ProbeEvent {
    Slept,
    Probed(HealthProbeResult),
}

/// No probe in `h` succeeded.
pub open spec fn none_ready(h: Seq<bool>) -> bool {
    forall|i: int| 0 <= i < h.len() ==> !h[i]
}

/// Bounded health polling: sleep, probe, and repeat up to `max_attempts`
/// times; after the first successful probe sleep once more and report ready.
pub struct Prober {
    pub port: u16,
    pub max_attempts: u32,
    pub interval_ms: u64,
    /// Probes whose result has arrived.
    pub attempts: u32,
    /// Sleeps requested so far.
    pub sleeps: u64,
    pub stage: ProbeStage,
    /// For each probe made, whether it succeeded.
    pub history: Ghost<Seq<bool>>,
}

impl Prober {
    pub open spec fn wf(&self) -> bool {
        &&& self.attempts <= self.max_attempts
        &&& self.history@.len() == self.attempts
        &&& match self.stage {
            ProbeStage::Sleeping | ProbeStage::Probing => {
                &&& self.attempts < self.max_attempts
                &&& none_ready(self.history@)
                &&& self.sleeps == self.attempts + 1
            },
            ProbeStage::Settling | ProbeStage::Ready => {
                &&& self.attempts >= 1
                &&& self.history@.last()
                &&& none_ready(self.history@.drop_last())
                &&& self.sleeps == self.attempts + 1
            },
            ProbeStage::TimedOut => {
                &&& self.attempts == self.max_attempts
                &&& none_ready(self.history@)
                &&& self.sleeps == self.attempts
            },
        }
    }

    /// The action that the current stage asks of the host.
    pub open spec fn pending_spec(&self) -> ProbeAction {
        match self.stage {
            ProbeStage::Sleeping | ProbeStage::Settling => ProbeAction::Sleep(self.interval_ms),
            ProbeStage::Probing => ProbeAction::Probe(self.port),
            ProbeStage::Ready => ProbeAction::Ready(self.port),
            ProbeStage::TimedOut => ProbeAction::TimedOut,
        }
    }

    /// Steps left before the prober is done, whatever the probes return.
    pub open spec fn remaining(&self) -> nat {
        match self.stage {
            ProbeStage::Sleeping => 2 * (self.max_attempts - self.attempts) as nat + 1,
            ProbeStage::Probing => 2 * (self.max_attempts - self.attempts) as nat,
            ProbeStage::Settling => 1,
            ProbeStage::Ready | ProbeStage::TimedOut => 0,
        }
    }

    pub open spec fn is_done(&self) -> bool {
        self.stage is Ready || self.stage is TimedOut
    }

    /// The effect of `ev` on the prober: `self` before, `next` after.
    pub open spec fn transition(&self, ev: ProbeEvent, next: Prober) -> bool {
        &&& next.port == self.port
        &&& next.max_attempts == self.max_attempts
        &&& next.interval_ms == self.interval_ms
        &&& match (self.stage, ev) {
            (ProbeStage::Sleeping, ProbeEvent::Slept) => {
                &&& next.stage is Probing
                &&& next.attempts == self.attempts
                &&& next.sleeps == self.sleeps
                &&& next.history == self.history
            },
            (ProbeStage::Probing, ProbeEvent::Probed(res)) => {
                &&& next.attempts == self.attempts + 1
                &&& next.history@ == self.history@.push(res is Ready)
                &&& if res is Ready {
                    next.stage is Settling
                } else if next.attempts == next.max_attempts {
                    next.stage is TimedOut
                } else {
                    next.stage is Sleeping
                }
            },
            (ProbeStage::Settling, ProbeEvent::Slept) => {
                &&& next.stage is Ready
                &&& next.attempts == self.attempts
                &&& next.sleeps == self.sleeps
                &&& next.history == self.history
            },
            _ => next == *self,
        }
    }

    /// Starts polling the health endpoint on `port`; the first action is a sleep
    /// (or an immediate time-out when no attempt is allowed).
    pub fn start(port: u16, max_attempts: u32, interval_ms: u64) -> (r: (Prober, ProbeAction))
        ensures
            r.0.wf(),
            r.0.port == port,
            r.0.max_attempts == max_attempts,
            r.0.interval_ms == interval_ms,
            r.0.attempts == 0,
            if max_attempts == 0 {
                r.0.stage is TimedOut
            } else {
                r.0.stage is Sleeping
            },
            r.1 == r.0.pending_spec(),
    {
        let stage = if max_attempts == 0 {
            ProbeStage::TimedOut
        } else {
            ProbeStage::Sleeping
        };
        let sleeps: u64 = if max_attempts == 0 {
            0
        } else {
            1
        };
        let p = Prober {
            port,
            max_attempts,
            interval_ms,
            attempts: 0,
            sleeps,
            stage,
            history: Ghost(Seq::empty()),
        };
        let a = p.pending();
        (p, a)
    }

    /// The action that the current stage asks of the host.
    pub fn pending(&self) -> (r: ProbeAction)
        ensures
            r == self.pending_spec(),
    {
        match self.stage {
            ProbeStage::Sleeping | ProbeStage::Settling => ProbeAction::Sleep(self.interval_ms),
            ProbeStage::Probing => ProbeAction::Probe(self.port),
            ProbeStage::Ready => ProbeAction::Ready(self.port),
            ProbeStage::TimedOut => ProbeAction::TimedOut,
        }
    }

    /// Takes the outcome of the last action and returns the next one. An
    /// event that the current stage does not await changes nothing.
    pub fn step(&mut self, ev: ProbeEvent) -> (r: ProbeAction)
        requires
            old(self).wf(),
        ensures
            final(self).wf(),
            r == final(self).pending_spec(),
            old(self).transition(ev, *final(self)),
            *final(self) == *old(self) || final(self).remaining() < old(self).remaining(),
    {
        match (&self.stage, &ev) {
            (ProbeStage::Sleeping, ProbeEvent::Slept) => {
                self.stage = ProbeStage::Probing;
            },
            (ProbeStage::Probing, ProbeEvent::Probed(res)) => {
                let ready = res.is_ready();
                let ghost h = self.history@;
                self.attempts = self.attempts + 1;
                self.history = Ghost(h.push(ready));
                proof {
                    assert(self.history@.drop_last() =~= h);
                }
                if ready {
                    self.stage = ProbeStage::Settling;
                    self.sleeps = self.sleeps + 1;
                } else if self.attempts == self.max_attempts {
                    self.stage = ProbeStage::TimedOut;
                } else {
                    self.stage = ProbeStage::Sleeping;
                    self.sleeps = self.sleeps + 1;
                }
            },
            (ProbeStage::Settling, ProbeEvent::Slept) => {
                self.stage = ProbeStage::Ready;
            },
            _ => {},
        }
        self.pending()
    }
}

/// Polling that times out has made exactly the number of attempts allowed,
/// none of them successful, and has slept once before each: its waiting
/// time is the attempt count times the interval.
pub proof fn lemma_timeout_bound(p: Prober)
    requires
        p.wf(),
        p.stage is TimedOut,
    ensures
        p.attempts == p.max_attempts,
        p.sleeps == p.max_attempts,
        none_ready(p.history@),
{
}

/// Polling reports ready only after a probe answered with success, and it
/// stopped probing at the first such answer.
pub proof fn lemma_ready_after_success(p: Prober)
    requires
        p.wf(),
        p.stage is Ready,
    ensures
        p.history@.len() >= 1,
        p.history@.last(),
        forall|i: int| 0 <= i < p.history@.len() - 1 ==> !p.history@[i],
{
    assert forall|i: int| 0 <= i < p.history@.len() - 1 implies !p.history@[i] by {
        assert(p.history@[i] == p.history@.drop_last()[i]);
    }
}

/// Every event either leaves the polling as it was or brings it closer to
/// its end, so it cannot go on without bound.
pub proof fn lemma_probe_progress(p: Prober, ev: ProbeEvent, p2: Prober)
    requires
        p.wf(),
        p.transition(ev, p2),
    ensures
        p2 == p || p2.remaining() < p.remaining(),
{
}

} // verus!
