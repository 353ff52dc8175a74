use vstd::prelude::*;
use vstd::string::StringExecFns;
use crate::health::{none_ready, HealthProbeResult, ProbeAction, ProbeEvent, ProbeStage, Prober};
use crate::supervisor::{stopped, Phase, Supervisor};

verus! {

/// Relies on portpicker::pick_unused_port to find a local port that was free
/// on TCP and UDP when it looked, or `None`. Which port comes back depends on
/// the machine, so nothing more is stated.
pub assume_specification[ portpicker::pick_unused_port ]() -> Option<u16>;

/// Why a start failed.
pub enum StartError {
    /// No free local port could be found.
    PortAllocationFailed,
    /// The backend could not be launched; the message says why.
    SpawnFailed(String),
    /// The backend did not become healthy in time. It stays recorded.
    HealthTimeout,
    /// The launch was taken over by another call or a stop before this call
    /// could launch or record its backend; a backend it spawned was handed
    /// out for termination.
    Superseded,
}

impl StartError {
    /// A message for the user.
    pub fn message(&self) -> (r: String)
        ensures
            r@ == match self {
                StartError::PortAllocationFailed => "Failed to find available port"@,
                StartError::SpawnFailed(m) => m@,
                StartError::HealthTimeout => "Backend failed to start within timeout"@,
                StartError::Superseded => "Backend launch was superseded"@,
            },
    {
        match self {
            StartError::PortAllocationFailed => <String as StringExecFns>::from_str(
                "Failed to find available port",
            ),
            StartError::SpawnFailed(m) => m.clone(),
            StartError::HealthTimeout => <String as StringExecFns>::from_str(
                "Backend failed to start within timeout",
            ),
            StartError::Superseded => <String as StringExecFns>::from_str(
                "Backend launch was superseded",
            ),
        }
    }
}

/// What the host must do next for a start call. `H` is the process handle.
pub enum StartAction<H> {
    /// Request the health endpoint on this port; report `Probed`.
    Probe(u16),
    /// Sleep this many milliseconds; report `Slept`.
    Sleep(u64),
    /// Terminate this process (see `kill_process_tree`); report `Killed`.
    Kill(H),
    /// Find a free local port; report `PortPicked`.
    PickPort,
    /// Launch the backend on this port; report `Spawned`.
    Spawn(u16),
    /// The call is over with this result.
    Finish(Result<u16, StartError>),
    /// The event was not the one awaited; nothing changed.
    Ignored,
}

/// What the host reports back to a start call.
pub enum StartEvent<H> {
    /// The call was just made.
    Begin,
    Probed(HealthProbeResult),
    Slept,
    Killed,
    PortPicked(Option<u16>),
    Spawned(Result<H, String>),
}

/// Where a start call stands.
#[derive(PartialEq, Eq, Structural)]
pub enum StartStage {
    /// Nothing done yet; `Begin` is awaited.
    Fresh,
    /// The recorded backend is being probed once.
    Checking,
    /// Another call is launching; a sleep was requested before looking again.
    Waiting,
    /// The stale backend was handed out for termination.
    Killing,
    /// A free port was requested.
    Picking,
    /// A launch was requested.
    Spawning,
    /// The launched backend is polled for health.
    Probing,
    /// A backend spawned too late is being terminated.
    Discarding,
    /// The result was returned.
    Finished,
}

/// One call of start: brings the supervised backend to a healthy state and
/// yields its port, or fails.
pub struct StartCall {
    pub stage: StartStage,
    /// The launch this call looks at or owns.
    pub launch: u64,
    /// The port probed or launched on.
    pub port: u16,
    pub max_attempts: u32,
    pub interval_ms: u64,
    pub prober: Prober,
}

/// What a start call does on looking at the record: `s` and `sup` before,
/// `s2` and `sup2` after, `r` the action.
pub open spec fn decided<H>(
    s: StartCall,
    sup: Supervisor<H>,
    s2: StartCall,
    sup2: Supervisor<H>,
    r: StartAction<H>,
) -> bool {
    match sup.phase {
        Phase::Running => {
            &&& r == StartAction::<H>::Probe(sup.port)
            &&& s2.stage is Checking
            &&& s2.port == sup.port
            &&& s2.launch == sup.launch
            &&& sup2 == sup
        },
        Phase::Starting => {
            &&& sup2 == sup
            &&& s2.launch == s.launch
            &&& r == StartAction::<H>::Sleep(s.interval_ms)
            &&& s2.stage is Waiting
        },
        Phase::Idle => {
            &&& r == StartAction::<H>::PickPort
            &&& s2.stage is Picking
            &&& sup2.owned_by(s2.launch)
            &&& sup2.launch == (sup.launch + 1) % 0x1_0000_0000_0000_0000
            &&& sup2.port == sup.port
            &&& sup2.child == sup.child
        },
    }
}

/// The prober's share of a start event, if it has one.
pub open spec fn probe_event<H>(ev: StartEvent<H>) -> Option<ProbeEvent> {
    match ev {
        StartEvent::Slept => Some(ProbeEvent::Slept),
        StartEvent::Probed(res) => Some(ProbeEvent::Probed(res)),
        _ => None,
    }
}

/// The record after launch `launch` ends: the backend stays recorded as
/// running if there is one.
pub open spec fn settled<H>(sup: Supervisor<H>, launch: u64, sup2: Supervisor<H>) -> bool {
    &&& sup2.port == sup.port
    &&& sup2.child == sup.child
    &&& sup2.launch == sup.launch
    &&& if sup.owned_by(launch) {
        if sup.child is Some {
            sup2.phase is Running
        } else {
            sup2.phase is Idle
        }
    } else {
        sup2.phase == sup.phase
    }
}

/// One step of a start call: `s` and `sup` before, `ev` the event, `s2` and
/// `sup2` after, `r` the action returned.
pub open spec fn stepped<H>(
    s: StartCall,
    sup: Supervisor<H>,
    ev: StartEvent<H>,
    s2: StartCall,
    sup2: Supervisor<H>,
    r: StartAction<H>,
) -> bool {
    &&& s2.max_attempts == s.max_attempts
    &&& s2.interval_ms == s.interval_ms
    &&& (s2.launch == s.launch || s2.launch == sup2.launch)
    // a recorded backend stays recorded or is handed out for termination
    &&& (sup.child is Some && sup2.child != sup.child ==> {
        &&& sup2.child is None
        &&& r == StartAction::<H>::Kill(sup.child->0)
    })
    // a backend is recorded only into an empty record, by its own launch
    &&& (sup.child is None && sup2.child is Some ==> {
        &&& ev == StartEvent::<H>::Spawned(Ok(sup2.child->0))
        &&& sup.owned_by(s.launch)
        &&& sup2.launch == s2.launch
    })
    // a launch is requested only by the owner of the launch, with nothing recorded
    &&& (r is Spawn ==> {
        &&& sup2.owned_by(s2.launch)
        &&& sup2.child is None
    })
    &&& match (s.stage, ev) {
        (StartStage::Fresh, StartEvent::Begin) | (StartStage::Waiting, StartEvent::Slept) => {
            decided(s, sup, s2, sup2, r)
        },
        (StartStage::Checking, StartEvent::Probed(res)) => {
            if sup.launch == s.launch && sup.phase is Running {
                if res is Ready {
                    &&& r == StartAction::<H>::Finish(Ok(s.port))
                    &&& s2.stage is Finished
                    &&& sup2 == sup
                } else {
                    &&& r == StartAction::<H>::Kill(sup.child->0)
                    &&& s2.stage is Killing
                    &&& sup2.child is None
                    &&& sup2.port == sup.port
                    &&& sup2.owned_by(s2.launch)
                    &&& sup2.launch == (sup.launch + 1) % 0x1_0000_0000_0000_0000
                }
            } else {
                decided(s, sup, s2, sup2, r)
            }
        },
        (StartStage::Killing, StartEvent::Killed) => {
            &&& r == StartAction::<H>::PickPort
            &&& s2.stage is Picking
            &&& s2.launch == s.launch
            &&& sup2 == sup
        },
        (StartStage::Picking, StartEvent::PortPicked(Some(p))) => {
            &&& sup2 == sup
            &&& if sup.owned_by(s.launch) && sup.child is None {
                &&& r == StartAction::<H>::Spawn(p)
                &&& s2.stage is Spawning
                &&& s2.port == p
                &&& s2.launch == s.launch
            } else {
                &&& r == StartAction::<H>::Finish(Err(StartError::Superseded))
                &&& s2.stage is Finished
                &&& s2.launch == s.launch
            }
        },
        (StartStage::Picking, StartEvent::PortPicked(None)) => {
            &&& r == StartAction::<H>::Finish(Err(StartError::PortAllocationFailed))
            &&& s2.stage is Finished
            &&& s2.launch == s.launch
            &&& settled(sup, s.launch, sup2)
        },
        (StartStage::Spawning, StartEvent::Spawned(Ok(h))) => {
            if sup.owned_by(s.launch) && sup.child is None {
                &&& sup2.child == Some(h)
                &&& sup2.port == s.port
                &&& sup2.launch == sup.launch
                &&& if s.max_attempts > 0 {
                    &&& r == StartAction::<H>::Sleep(s.interval_ms)
                    &&& s2.stage is Probing
                    &&& s2.prober.attempts == 0
                    &&& s2.port == s.port
                    &&& s2.launch == s.launch
                    &&& s2.prober.stage is Sleeping
                    &&& sup2.phase is Starting
                } else {
                    &&& r == StartAction::<H>::Finish(Err(StartError::HealthTimeout))
                    &&& s2.stage is Finished
                    &&& sup2.phase is Running
                }
            } else {
                &&& r == StartAction::<H>::Kill(h)
                &&& s2.stage is Discarding
                &&& sup2 == sup
            }
        },
        (StartStage::Spawning, StartEvent::Spawned(Err(m))) => {
            &&& r == StartAction::<H>::Finish(Err(StartError::SpawnFailed(m)))
            &&& s2.stage is Finished
            &&& settled(sup, s.launch, sup2)
        },
        (StartStage::Discarding, StartEvent::Killed) => {
            &&& r == StartAction::<H>::Finish(Err(StartError::Superseded))
            &&& s2.stage is Finished
            &&& sup2 == sup
        },
        (StartStage::Probing, StartEvent::Slept) | (StartStage::Probing, StartEvent::Probed(_)) => {
            &&& s.prober.transition(probe_event(ev)->0, s2.prober)
            &&& s2.port == s.port
            &&& s2.launch == s.launch
            &&& match s2.prober.stage {
                ProbeStage::Ready => {
                    &&& r == StartAction::<H>::Finish(Ok(s.port))
                    &&& s2.stage is Finished
                    &&& settled(sup, s.launch, sup2)
                },
                ProbeStage::TimedOut => {
                    &&& r == StartAction::<H>::Finish(Err(StartError::HealthTimeout))
                    &&& s2.stage is Finished
                    &&& settled(sup, s.launch, sup2)
                },
                ProbeStage::Probing => {
                    &&& r == StartAction::<H>::Probe(s.port)
                    &&& s2.stage is Probing
                    &&& sup2 == sup
                },
                _ => {
                    &&& r == StartAction::<H>::Sleep(s.interval_ms)
                    &&& s2.stage is Probing
                    &&& sup2 == sup
                },
            }
        },
        (_, StartEvent::Spawned(Ok(h))) => {
            &&& r == StartAction::<H>::Kill(h)
            &&& s2 == s
            &&& sup2 == sup
        },
        _ => {
            &&& r is Ignored
            &&& s2 == s
            &&& sup2 == sup
        },
    }
}

impl StartCall {
    pub open spec fn wf(&self) -> bool {
        &&& self.prober.wf()
        &&& (self.stage is Probing ==> {
            &&& !self.prober.is_done()
            &&& self.prober.port == self.port
            &&& self.prober.max_attempts == self.max_attempts
            &&& self.prober.interval_ms == self.interval_ms
        })
    }

    /// A call that probes up to `max_attempts` times, `interval_ms` apart.
    /// While another call's launch is under way it looks again at the same
    /// interval, for as long as that launch lasts; the owner's polling is
    /// bounded, so the wait is too.
    pub fn new(max_attempts: u32, interval_ms: u64) -> (r: StartCall)
        ensures
            r.wf(),
            r.stage is Fresh,
            r.max_attempts == max_attempts,
            r.interval_ms == interval_ms,
    {
        let (prober, _) = Prober::start(0, max_attempts, interval_ms);
        StartCall {
            stage: StartStage::Fresh,
            launch: 0,
            port: 0,
            max_attempts,
            interval_ms,
            prober,
        }
    }

    /// Looks at the record and decides: probe the recorded backend, wait
    /// for the launch under way, or claim a new launch.
    fn decide<H>(&mut self, sup: &mut Supervisor<H>) -> (r: StartAction<H>)
        requires
            old(self).wf(),
            old(sup).wf(),
        ensures
            final(self).wf(),
            final(sup).wf(),
            final(self).max_attempts == old(self).max_attempts,
            final(self).interval_ms == old(self).interval_ms,
            final(sup).port == old(sup).port,
            final(sup).child == old(sup).child,
            decided(*old(self), *old(sup), *final(self), *final(sup), r),
    {
        match sup.phase {
            Phase::Running => {
                self.stage = StartStage::Checking;
                self.port = sup.port;
                self.launch = sup.launch;
                StartAction::Probe(sup.port)
            },
            Phase::Starting => {
                self.stage = StartStage::Waiting;
                StartAction::Sleep(self.interval_ms)
            },
            Phase::Idle => {
                self.launch = sup.claim();
                self.stage = StartStage::Picking;
                StartAction::PickPort
            },
        }
    }

    /// Takes the outcome of the last action and returns the next one. Each
    /// call is made under the host's lock on `sup`; the action is performed
    /// after the lock is released.
    pub fn step<H>(&mut self, sup: &mut Supervisor<H>, ev: StartEvent<H>) -> (r: StartAction<H>)
        requires
            old(self).wf(),
            old(sup).wf(),
        ensures
            final(self).wf(),
            final(sup).wf(),
            stepped(*old(self), *old(sup), ev, *final(self), *final(sup), r),
    {
        match ev {
            StartEvent::Begin => {
                if self.stage == StartStage::Fresh {
                    return self.decide(sup);
                }
                StartAction::Ignored
            },
            StartEvent::Slept => {
                if self.stage == StartStage::Waiting {
                    return self.decide(sup);
                }
                if self.stage == StartStage::Probing {
                    return self.advance_probe(sup, ProbeEvent::Slept);
                }
                StartAction::Ignored
            },
            StartEvent::Probed(res) => {
                if self.stage == StartStage::Checking {
                    if sup.launch == self.launch && sup.phase == Phase::Running {
                        if res.is_ready() {
                            self.stage = StartStage::Finished;
                            return StartAction::Finish(Ok(self.port));
                        }
                        let old_child = sup.child.take();
                        self.launch = sup.claim();
                        self.stage = StartStage::Killing;
                        return match old_child {
                            Some(h) => StartAction::Kill(h),
                            None => StartAction::Ignored,
                        };
                    }
                    return self.decide(sup);
                }
                if self.stage == StartStage::Probing {
                    return self.advance_probe(sup, ProbeEvent::Probed(res));
                }
                StartAction::Ignored
            },
            StartEvent::Killed => {
                if self.stage == StartStage::Killing {
                    self.stage = StartStage::Picking;
                    return StartAction::PickPort;
                }
                if self.stage == StartStage::Discarding {
                    self.stage = StartStage::Finished;
                    return StartAction::Finish(Err(StartError::Superseded));
                }
                StartAction::Ignored
            },
            StartEvent::PortPicked(picked) => {
                if self.stage == StartStage::Picking {
                    match picked {
                        Some(p) => {
                            if !(sup.phase == Phase::Starting && sup.launch == self.launch
                                && sup.child.is_none()) {
                                self.stage = StartStage::Finished;
                                return StartAction::Finish(Err(StartError::Superseded));
                            }
                            self.port = p;
                            self.stage = StartStage::Spawning;
                            return StartAction::Spawn(p);
                        },
                        None => {
                            sup.settle(self.launch);
                            self.stage = StartStage::Finished;
                            return StartAction::Finish(Err(StartError::PortAllocationFailed));
                        },
                    }
                }
                StartAction::Ignored
            },
            StartEvent::Spawned(spawned) => {
                match spawned {
                    Ok(h) => {
                        if self.stage != StartStage::Spawning {
                            return StartAction::Kill(h);
                        }
                        if sup.phase == Phase::Starting && sup.launch == self.launch
                            && sup.child.is_none() {
                            sup.child = Some(h);
                            sup.port = self.port;
                            let (prober, first) = Prober::start(
                                self.port,
                                self.max_attempts,
                                self.interval_ms,
                            );
                            self.prober = prober;
                            match first {
                                ProbeAction::Sleep(ms) => {
                                    self.stage = StartStage::Probing;
                                    StartAction::Sleep(ms)
                                },
                                _ => {
                                    sup.settle(self.launch);
                                    self.stage = StartStage::Finished;
                                    StartAction::Finish(Err(StartError::HealthTimeout))
                                },
                            }
                        } else {
                            self.stage = StartStage::Discarding;
                            StartAction::Kill(h)
                        }
                    },
                    Err(m) => {
                        if self.stage != StartStage::Spawning {
                            return StartAction::Ignored;
                        }
                        sup.settle(self.launch);
                        self.stage = StartStage::Finished;
                        StartAction::Finish(Err(StartError::SpawnFailed(m)))
                    },
                }
            },
        }
    }

    /// Performs the `PickPort` action itself: asks for a free local port and
    /// takes the answer as the `PortPicked` event. Outside the `Picking`
    /// stage nothing changes.
    pub fn allocate_port<H>(&mut self, sup: &mut Supervisor<H>) -> (r: StartAction<H>)
        requires
            old(self).wf(),
            old(sup).wf(),
        ensures
            final(self).wf(),
            final(sup).wf(),
            final(self).max_attempts == old(self).max_attempts,
            final(self).interval_ms == old(self).interval_ms,
            final(self).launch == old(self).launch,
            !(old(self).stage is Picking) ==> {
                &&& r is Ignored
                &&& *final(self) == *old(self)
                &&& *final(sup) == *old(sup)
            },
            old(self).stage is Picking ==> match r {
                StartAction::Spawn(p) => {
                    &&& old(sup).owned_by(old(self).launch)
                    &&& old(sup).child is None
                    &&& final(self).stage is Spawning
                    &&& final(self).port == p
                    &&& *final(sup) == *old(sup)
                },
                StartAction::Finish(Err(StartError::PortAllocationFailed)) => {
                    &&& final(self).stage is Finished
                    &&& settled(*old(sup), old(self).launch, *final(sup))
                },
                StartAction::Finish(Err(StartError::Superseded)) => {
                    &&& !(old(sup).owned_by(old(self).launch) && old(sup).child is None)
                    &&& final(self).stage is Finished
                    &&& *final(sup) == *old(sup)
                },
                _ => false,
            },
    {
        if self.stage != StartStage::Picking {
            return StartAction::Ignored;
        }
        let picked = portpicker::pick_unused_port();
        self.step(sup, StartEvent::PortPicked(picked))
    }

    /// Hands a sleep or probe outcome to the prober and turns its answer
    /// into the call's next action.
    fn advance_probe<H>(&mut self, sup: &mut Supervisor<H>, ev: ProbeEvent) -> (r: StartAction<H>)
        requires
            old(self).wf(),
            old(sup).wf(),
            old(self).stage is Probing,
            ev is Slept || ev is Probed,
        ensures
            final(self).wf(),
            final(sup).wf(),
            final(self).max_attempts == old(self).max_attempts,
            final(self).interval_ms == old(self).interval_ms,
            final(self).port == old(self).port,
            final(self).launch == old(self).launch,
            old(self).prober.transition(ev, final(self).prober),
            match final(self).prober.stage {
                ProbeStage::Ready => {
                    &&& r == StartAction::<H>::Finish(Ok(old(self).port))
                    &&& final(self).stage is Finished
                    &&& settled(*old(sup), old(self).launch, *final(sup))
                },
                ProbeStage::TimedOut => {
                    &&& r == StartAction::<H>::Finish(Err(StartError::HealthTimeout))
                    &&& final(self).stage is Finished
                    &&& settled(*old(sup), old(self).launch, *final(sup))
                },
                ProbeStage::Probing => {
                    &&& r == StartAction::<H>::Probe(old(self).port)
                    &&& final(self).stage is Probing
                    &&& *final(sup) == *old(sup)
                },
                _ => {
                    &&& r == StartAction::<H>::Sleep(old(self).interval_ms)
                    &&& final(self).stage is Probing
                    &&& *final(sup) == *old(sup)
                },
            },
    {
        let a = self.prober.step(ev);
        match a {
            ProbeAction::Sleep(ms) => StartAction::Sleep(ms),
            ProbeAction::Probe(p) => StartAction::Probe(p),
            ProbeAction::Ready(p) => {
                sup.settle(self.launch);
                self.stage = StartStage::Finished;
                StartAction::Finish(Ok(p))
            },
            ProbeAction::TimedOut => {
                sup.settle(self.launch);
                self.stage = StartStage::Finished;
                StartAction::Finish(Err(StartError::HealthTimeout))
            },
        }
    }
}

/// A launch is requested only by the call that owns the launch under way,
/// with no backend recorded; a spawned backend is either recorded into an
/// empty record or handed out for termination; and while a launch is under
/// way, a call that has just looked at the record neither asks for a port nor
/// launches.
pub proof fn lemma_single_launch<H>(
    s: StartCall,
    sup: Supervisor<H>,
    ev: StartEvent<H>,
    s2: StartCall,
    sup2: Supervisor<H>,
    r: StartAction<H>,
)
    requires
        s.wf(),
        sup.wf(),
        stepped(s, sup, ev, s2, sup2, r),
    ensures
        r is Spawn ==> sup2.owned_by(s2.launch) && sup2.child is None,
        ev is Spawned && ev->Spawned_0 is Ok ==> {
            let h = ev->Spawned_0->Ok_0;
            (sup.child is None && sup2.child == Some(h)) || r == StartAction::<H>::Kill(h)
        },
        sup.phase is Starting && (s.stage is Fresh || s.stage is Waiting) ==> !(r is Spawn)
            && !(r is PickPort),
{
}

/// A start call returns a port only on a successful answer of the health
/// endpoint: the single probe of a recorded backend, or the last probe of
/// the polling after a launch.
pub proof fn lemma_ready_needs_health<H>(
    s: StartCall,
    sup: Supervisor<H>,
    ev: StartEvent<H>,
    s2: StartCall,
    sup2: Supervisor<H>,
    r: StartAction<H>,
)
    requires
        s.wf(),
        sup.wf(),
        s2.wf(),
        stepped(s, sup, ev, s2, sup2, r),
        r is Finish && r->Finish_0 is Ok,
    ensures
        (s.stage is Checking && ev is Probed && ev->Probed_0 is Ready) || (s.stage is Probing
            && s2.prober.stage is Ready && s2.prober.attempts >= 1
            && s2.prober.history@.last() && r->Finish_0->Ok_0 == s2.prober.port),
{
}

/// A recorded backend whose health probe fails is taken out of the record
/// and handed out for termination, and only once that is done is a new port
/// asked for, under a new launch owned by the same call.
pub proof fn lemma_unhealthy_replaced<H>(
    s: StartCall,
    sup: Supervisor<H>,
    res: HealthProbeResult,
    s2: StartCall,
    sup2: Supervisor<H>,
    r2: StartAction<H>,
    s3: StartCall,
    sup3: Supervisor<H>,
    r3: StartAction<H>,
)
    requires
        s.wf(),
        sup.wf(),
        s.stage is Checking,
        sup.phase is Running,
        sup.launch == s.launch,
        !(res is Ready),
        stepped(s, sup, StartEvent::Probed(res), s2, sup2, r2),
        stepped(s2, sup2, StartEvent::Killed, s3, sup3, r3),
    ensures
        r2 == StartAction::<H>::Kill(sup.child->0),
        sup2.child is None,
        r3 is PickPort,
        sup3.owned_by(s3.launch),
        sup3.child is None,
        sup3.launch != sup.launch,
{
}

/// The call holds a launch it has claimed and not yet brought to a backend.
pub open spec fn claims_launch(c: StartCall) -> bool {
    c.stage is Killing || c.stage is Picking || c.stage is Spawning
}

/// The call owns the launch under way.
pub open spec fn owner<H>(c: StartCall, sup: Supervisor<H>) -> bool {
    (claims_launch(c) || c.stage is Probing) && sup.owned_by(c.launch)
}

/// The shape that any number of concurrent start calls keep around one
/// record: no call looks at a launch newer than the record's, every call
/// holding a claimed launch owns the launch under way
/// while nothing is recorded, the owner that polls has its backend
/// recorded, and no two calls own the launch.
pub open spec fn exclusive<H>(calls: Seq<StartCall>, sup: Supervisor<H>) -> bool {
    &&& sup.wf()
    &&& forall|i: int|
        0 <= i < calls.len() ==> (#[trigger] calls[i]).wf() && calls[i].launch <= sup.launch
    &&& forall|i: int|
        0 <= i < calls.len() && claims_launch(#[trigger] calls[i]) ==> sup.owned_by(calls[i].launch)
            && sup.child is None
    &&& forall|i: int|
        0 <= i < calls.len() && (#[trigger] calls[i]).stage is Probing && sup.owned_by(
            calls[i].launch,
        ) ==> sup.child is Some
    &&& forall|i: int, j: int|
        0 <= i < calls.len() && 0 <= j < calls.len() && i != j && owner(#[trigger] calls[i], sup)
            ==> !owner(#[trigger] calls[j], sup)
}

/// A new record with any number of fresh calls is in shape.
pub proof fn lemma_exclusive_initial<H>(calls: Seq<StartCall>, sup: Supervisor<H>)
    requires
        sup.wf(),
        sup.phase is Idle,
        forall|i: int|
            0 <= i < calls.len() ==> (#[trigger] calls[i]).wf() && calls[i].stage is Fresh
                && calls[i].launch <= sup.launch,
    ensures
        exclusive(calls, sup),
{
}

/// A call joining, or a stop, keeps the shape.
pub proof fn lemma_exclusive_join_stop<H>(calls: Seq<StartCall>, sup: Supervisor<H>, c: StartCall)
    requires
        exclusive(calls, sup),
        c.wf(),
        c.stage is Fresh,
        c.launch <= sup.launch,
    ensures
        exclusive(calls.push(c), sup),
        exclusive(calls, stopped(sup)),
{
    let calls2 = calls.push(c);
    assert forall|i: int| 0 <= i < calls2.len() implies (#[trigger] calls2[i]).wf()
        && calls2[i].launch <= sup.launch by {
        if i < calls.len() {
            assert(calls2[i] == calls[i]);
        }
    }
    assert forall|i: int, j: int|
        0 <= i < calls2.len() && 0 <= j < calls2.len() && i != j && owner(#[trigger] calls2[i], sup)
            implies !owner(#[trigger] calls2[j], sup) by {
        if i < calls.len() && j < calls.len() {
            assert(calls2[i] == calls[i] && calls2[j] == calls[j]);
        }
    }
    if sup.child is Some {
        assert forall|i: int| 0 <= i < calls.len() implies !claims_launch(#[trigger] calls[i]) by {
        }
    }
}

/// Mutual exclusion of launches: whichever call takes a step, on whatever
/// event, concurrent start calls keep the shape, as long as the launch
/// counter has not reached its largest value. So at most one call is ever
/// about to launch a backend, and never while one is recorded.
pub proof fn lemma_exclusive_step<H>(
    calls: Seq<StartCall>,
    sup: Supervisor<H>,
    k: int,
    ev: StartEvent<H>,
    s2: StartCall,
    sup2: Supervisor<H>,
    r: StartAction<H>,
)
    requires
        exclusive(calls, sup),
        sup.launch < u64::MAX,
        0 <= k < calls.len(),
        s2.wf(),
        sup2.wf(),
        stepped(calls[k], sup, ev, s2, sup2, r),
    ensures
        exclusive(calls.update(k, s2), sup2),
        forall|i: int, j: int|
            0 <= i < calls.len() && 0 <= j < calls.len() && i != j
                && (#[trigger] calls.update(k, s2)[i]).stage is Spawning
                ==> !((#[trigger] calls.update(k, s2)[j]).stage is Spawning),
{
    let calls2 = calls.update(k, s2);
    assert forall|i: int| 0 <= i < calls2.len() implies (#[trigger] calls2[i]).wf()
        && calls2[i].launch <= sup2.launch by {
        if i != k {
            assert(calls2[i] == calls[i]);
        }
    }
    assert forall|i: int| 0 <= i < calls2.len() && claims_launch(#[trigger] calls2[i]) implies sup2.owned_by(
        calls2[i].launch,
    ) && sup2.child is None by {
        if i != k {
            assert(calls2[i] == calls[i]);
            assert(owner(calls[i], sup));
        }
    }
    assert forall|i: int|
        0 <= i < calls2.len() && (#[trigger] calls2[i]).stage is Probing && sup2.owned_by(
            calls2[i].launch,
        ) implies sup2.child is Some by {
        if i != k {
            assert(calls2[i] == calls[i]);
        }
    }
    assert forall|i: int, j: int|
        0 <= i < calls2.len() && 0 <= j < calls2.len() && i != j && owner(#[trigger] calls2[i], sup2)
            implies !owner(#[trigger] calls2[j], sup2) by {
        if i != k {
            assert(calls2[i] == calls[i]);
        }
        if j != k {
            assert(calls2[j] == calls[j]);
        }
    }
}

/// A launch whose health probes all fail ends in a time-out only after
/// exactly `max_attempts` probes, all failed, with one sleep of the interval
/// before each and no settling sleep; the launched backend is not handed out
/// for termination and stays recorded, as running if the launch was still
/// under way.
pub proof fn lemma_timeout_keeps_backend<H>(
    s: StartCall,
    sup: Supervisor<H>,
    ev: StartEvent<H>,
    s2: StartCall,
    sup2: Supervisor<H>,
    r: StartAction<H>,
)
    requires
        s.wf(),
        sup.wf(),
        s2.wf(),
        s.stage is Probing,
        stepped(s, sup, ev, s2, sup2, r),
        r == StartAction::<H>::Finish(Err(StartError::HealthTimeout)),
    ensures
        s2.prober.stage is TimedOut,
        s2.prober.attempts == s.max_attempts,
        s2.prober.sleeps == s.max_attempts,
        s2.prober.interval_ms == s.interval_ms,
        none_ready(s2.prober.history@),
        sup2.child == sup.child,
        sup2.port == sup.port,
        sup.owned_by(s.launch) && sup.child is Some ==> sup2.phase is Running,
{
}

/// A launch that is granted begins its polling with no probe made and one
/// sleep of the interval requested, with the new backend recorded on the
/// launched port.
pub proof fn lemma_launch_starts_polling<H>(
    s: StartCall,
    sup: Supervisor<H>,
    h: H,
    s2: StartCall,
    sup2: Supervisor<H>,
    r: StartAction<H>,
)
    requires
        s.wf(),
        sup.wf(),
        s2.wf(),
        s.stage is Spawning,
        s.max_attempts > 0,
        sup.owned_by(s.launch),
        sup.child is None,
        stepped(s, sup, StartEvent::Spawned(Ok(h)), s2, sup2, r),
    ensures
        r == StartAction::<H>::Sleep(s.interval_ms),
        s2.stage is Probing,
        s2.prober.attempts == 0,
        s2.prober.sleeps == 1,
        s2.prober.port == s.port,
        sup2.child == Some(h),
        sup2.port == s.port,
{
}

} // verus!
