use vstd::prelude::*;

verus! {

/// What the supervisor believes of the backend.
#[derive(PartialEq, Eq, Structural)]
pub enum Phase {
    /// No backend is running and no start is under way.
    Idle,
    /// One start call owns the launch and is bringing a backend up.
    Starting,
    /// A backend is recorded and no start is bringing up another.
    Running,
}

/// The shared record of the supervised backend: its port and the handle of
/// its process. The host keeps one behind a lock for its whole lifetime.
pub struct Supervisor<H> {
    /// The port last assigned to a backend.
    pub port: u16,
    /// The handle of the backend process believed to be running.
    pub child: Option<H>,
    pub phase: Phase,
    /// Identifies the current launch; every claim of the launch takes a new one.
    pub launch: u64,
}

/// The record after a stop: no backend, and the phase idle if one was taken.
pub open spec fn stopped<H>(sup: Supervisor<H>) -> Supervisor<H> {
    if sup.child is Some {
        Supervisor { child: None, phase: Phase::Idle, ..sup }
    } else {
        sup
    }
}

/// Stopping with nothing recorded changes nothing and hands nothing out to
/// terminate; so a second stop right after a first is a no-op.
pub proof fn lemma_stop_idempotent<H>(sup: Supervisor<H>)
    requires
        sup.wf(),
    ensures
        stopped(sup).wf(),
        stopped(sup).child is None,
        stopped(stopped(sup)) == stopped(sup),
        sup.child is None ==> stopped(sup) == sup,
{
}

impl<H> Supervisor<H> {
    pub open spec fn wf(&self) -> bool {
        &&& (self.phase is Idle ==> self.child is None)
        &&& (self.phase is Running ==> self.child is Some)
    }

    /// A record with no backend, reporting `port` until a backend is launched.
    pub fn new(port: u16) -> (r: Supervisor<H>)
        ensures
            r.wf(),
            r.port == port,
            r.child is None,
            r.phase is Idle,
            r.launch == 0,
    {
        Supervisor { port, child: None, phase: Phase::Idle, launch: 0 }
    }

    /// The recorded port, whatever the backend's health.
    pub fn get_port(&self) -> (r: u16)
        ensures
            r == self.port,
    {
        self.port
    }

    /// Takes the backend's handle out of the record, for the caller to
    /// terminate. With no backend recorded nothing changes.
    pub fn stop(&mut self) -> (r: Option<H>)
        requires
            old(self).wf(),
        ensures
            final(self).wf(),
            r == old(self).child,
            *final(self) == stopped(*old(self)),
    {
        let r = self.child.take();
        if r.is_some() {
            self.phase = Phase::Idle;
        }
        r
    }

    /// The stop made when the host closes or quits: the same as `stop`.
    pub fn cleanup(&mut self) -> (r: Option<H>)
        requires
            old(self).wf(),
        ensures
            final(self).wf(),
            r == old(self).child,
            *final(self) == stopped(*old(self)),
    {
        self.stop()
    }

    /// Makes the caller the owner of a new launch.
    pub(crate) fn claim(&mut self) -> (r: u64)
        ensures
            final(self).phase is Starting,
            final(self).launch == r,
            r == (old(self).launch + 1) % 0x1_0000_0000_0000_0000,
            final(self).port == old(self).port,
            final(self).child == old(self).child,
    {
        self.launch = self.launch.wrapping_add(1);
        self.phase = Phase::Starting;
        self.launch
    }

    /// Whether `launch` is the launch under way.
    pub open spec fn owned_by(&self, launch: u64) -> bool {
        self.phase is Starting && self.launch == launch
    }

    /// Ends the launch `launch` if it is still under way: the backend stays
    /// recorded as running if there is one.
    pub(crate) fn settle(&mut self, launch: u64)
        requires
            old(self).wf(),
        ensures
            final(self).wf(),
            final(self).port == old(self).port,
            final(self).child == old(self).child,
            final(self).launch == old(self).launch,
            if old(self).owned_by(launch) {
                if old(self).child is Some {
                    final(self).phase is Running
                } else {
                    final(self).phase is Idle
                }
            } else {
                final(self).phase == old(self).phase
            },
    {
        if self.phase == Phase::Starting && self.launch == launch {
            if self.child.is_some() {
                self.phase = Phase::Running;
            } else {
                self.phase = Phase::Idle;
            }
        }
    }
}

} // verus!
