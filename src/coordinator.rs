//! The worker-pool coordinator: decides, event by event, which requests are
//! admitted, when admission stops, and when the drain is over. The caller
//! runs the transport and the tasks and reports back what happened.

use crate::counter::InFlightCounter;
use vstd::prelude::*;

verus! {

/// The coordinator's life: admitting requests, waiting for the admitted ones
/// to finish, or done.
#[derive(PartialEq, Eq, Structural, Clone, Copy, Debug)]
pub enum Phase {
    Running,
    Draining,
    Terminated,
}

/// What the caller does with a published message.
#[derive(PartialEq, Eq, Structural, Clone, Copy, Debug)]
pub enum Action {
    /// Start a task for this request.
    Spawn,
    /// Drop the message.
    Ignore,
}

/// The coordinator as a mathematical value.
pub struct CoordinatorModel {
    pub phase: Phase,
    pub request_topic: Seq<char>,
    pub control_topic: Seq<char>,
    pub cap: nat,
    pub admitted: nat,
    pub in_flight: nat,
}

impl CoordinatorModel {
    /// The invariant every reachable state keeps: no more in flight than
    /// admitted, no more admitted than the cap, admission only below the cap,
    /// a drain only while something is in flight, nothing left when done.
    pub open spec fn wf(self) -> bool {
        &&& self.in_flight <= self.admitted <= self.cap <= usize::MAX
        &&& self.phase == Phase::Running ==> self.admitted < self.cap
        &&& self.phase == Phase::Draining ==> self.in_flight > 0
        &&& self.phase == Phase::Terminated ==> self.in_flight == 0
    }

    /// The state after one completed task. A completion with nothing in
    /// flight changes nothing.
    pub open spec fn after_completion(self) -> CoordinatorModel {
        if self.in_flight == 0 {
            self
        } else {
            CoordinatorModel {
                in_flight: (self.in_flight - 1) as nat,
                phase: if self.phase == Phase::Draining && self.in_flight == 1 {
                    Phase::Terminated
                } else {
                    self.phase
                },
                ..self
            }
        }
    }

    /// The state after a message on `topic`, and what to do with it. While
    /// running, a request is admitted, and admission stops once the cap is
    /// reached; a message on the control topic starts the drain. Anything
    /// else, and everything once running has stopped, is ignored.
    pub open spec fn after_publish(self, topic: Seq<char>) -> (CoordinatorModel, Action) {
        if self.phase == Phase::Running && topic == self.request_topic {
            let admitted = self.admitted + 1;
            let in_flight = self.in_flight + 1;
            (
                CoordinatorModel {
                    admitted,
                    in_flight,
                    phase: if admitted == self.cap { Phase::Draining } else { Phase::Running },
                    ..self
                },
                Action::Spawn,
            )
        } else if self.phase == Phase::Running && topic == self.control_topic {
            (
                CoordinatorModel {
                    phase: if self.in_flight == 0 { Phase::Terminated } else { Phase::Draining },
                    ..self
                },
                Action::Ignore,
            )
        } else {
            (self, Action::Ignore)
        }
    }

    /// One input: a message on a topic, or (`None`) a completed task.
    pub open spec fn step(self, input: Option<Seq<char>>) -> CoordinatorModel {
        match input {
            Some(topic) => self.after_publish(topic).0,
            None => self.after_completion(),
        }
    }

    /// The state after a sequence of inputs.
    pub open spec fn run(self, inputs: Seq<Option<Seq<char>>>) -> CoordinatorModel
        decreases inputs.len(),
    {
        if inputs.len() == 0 {
            self
        } else {
            self.step(inputs[0]).run(inputs.drop_first())
        }
    }

    /// How many tasks a sequence of inputs starts.
    pub open spec fn spawns(self, inputs: Seq<Option<Seq<char>>>) -> nat
        decreases inputs.len(),
    {
        if inputs.len() == 0 {
            0
        } else {
            let first: nat = match inputs[0] {
                Some(topic) => if self.after_publish(topic).1 == Action::Spawn { 1 } else { 0 },
                None => 0,
            };
            first + self.step(inputs[0]).spawns(inputs.drop_first())
        }
    }
}

/// The coordinator's state: the topics it listens to, the admission cap,
/// how many requests it admitted, and the in-flight counter.
pub struct Coordinator {
    request_topic: String,
    control_topic: String,
    cap: usize,
    admitted: usize,
    in_flight: InFlightCounter,
    phase: Phase,
}

impl View for Coordinator {
    type V = CoordinatorModel;

    closed spec fn view(&self) -> CoordinatorModel {
        CoordinatorModel {
            phase: self.phase,
            request_topic: self.request_topic@,
            control_topic: self.control_topic@,
            cap: self.cap as nat,
            admitted: self.admitted as nat,
            in_flight: self.in_flight@,
        }
    }
}

impl Coordinator {
    /// A coordinator that admits at most `cap` requests on `request_topic`
    /// and drains on a message on `control_topic`. With a cap of zero there
    /// is nothing to do and it starts out terminated.
    pub fn new(request_topic: String, control_topic: String, cap: usize) -> (r: Self)
        ensures
            r@.wf(),
            r@.request_topic == request_topic@,
            r@.control_topic == control_topic@,
            r@.cap == cap,
            r@.admitted == 0,
            r@.in_flight == 0,
            r@.phase == (if cap == 0 { Phase::Terminated } else { Phase::Running }),
    {
        Coordinator {
            request_topic,
            control_topic,
            cap,
            admitted: 0,
            in_flight: InFlightCounter::new(),
            phase: if cap == 0 { Phase::Terminated } else { Phase::Running },
        }
    }

    /// Handles a message published on `topic`.
    pub fn on_publish(&mut self, topic: &String) -> (a: Action)
        requires
            old(self)@.wf(),
        ensures
            final(self)@.wf(),
            (final(self)@, a) == old(self)@.after_publish(topic@),
    {
        if self.phase == Phase::Running && *topic == self.request_topic {
            self.admitted = self.admitted + 1;
            self.in_flight.increment();
            if self.admitted == self.cap {
                self.phase = Phase::Draining;
            }
            Action::Spawn
        } else if self.phase == Phase::Running && *topic == self.control_topic {
            if self.in_flight.read() == 0 {
                self.phase = Phase::Terminated;
            } else {
                self.phase = Phase::Draining;
            }
            Action::Ignore
        } else {
            Action::Ignore
        }
    }

    /// Handles the completion of a task.
    pub fn on_task_completed(&mut self)
        requires
            old(self)@.wf(),
        ensures
            final(self)@.wf(),
            final(self)@ == old(self)@.after_completion(),
    {
        let n = self.in_flight.read();
        if n > 0 {
            self.in_flight.decrement();
            if self.phase == Phase::Draining && n == 1 {
                self.phase = Phase::Terminated;
            }
        }
    }

    /// The number of requests in flight.
    pub fn in_flight(&self) -> (r: usize)
        ensures
            r == self@.in_flight,
    {
        self.in_flight.read()
    }

    /// The number of requests admitted so far.
    pub fn admitted(&self) -> (r: usize)
        ensures
            r == self@.admitted,
    {
        self.admitted
    }

    /// The current phase.
    pub fn phase(&self) -> (r: Phase)
        ensures
            r == self@.phase,
    {
        self.phase
    }

    /// Whether every admitted request has finished and nothing more will be
    /// admitted.
    pub fn is_terminated(&self) -> (r: bool)
        ensures
            r == (self@.phase == Phase::Terminated),
    {
        self.phase == Phase::Terminated
    }
}

/// Every input keeps the coordinator's invariant, its cap and its topics.
pub proof fn lemma_step_wf(m: CoordinatorModel, input: Option<Seq<char>>)
    requires
        m.wf(),
    ensures
        m.step(input).wf(),
        m.step(input).cap == m.cap,
        m.step(input).request_topic == m.request_topic,
        m.step(input).control_topic == m.control_topic,
        m.step(input).admitted >= m.admitted,
{
}

/// Admission is capped: from any reachable state, a sequence of inputs starts
/// exactly as many tasks as it adds to the admitted count, so that count never
/// passes the cap; once the cap is reached no input starts another task, and
/// the coordinator is no longer running.
pub proof fn lemma_admission_cap(m: CoordinatorModel, inputs: Seq<Option<Seq<char>>>)
    requires
        m.wf(),
    ensures
        m.run(inputs).wf(),
        m.run(inputs).admitted == m.admitted + m.spawns(inputs),
        m.admitted + m.spawns(inputs) <= m.cap,
        m.admitted == m.cap ==> m.spawns(inputs) == 0 && m.run(inputs).phase != Phase::Running,
    decreases inputs.len(),
{
    if inputs.len() > 0 {
        lemma_step_wf(m, inputs[0]);
        lemma_admission_cap(m.step(inputs[0]), inputs.drop_first());
    }
}

/// A drain ends: a draining coordinator with `n` tasks in flight is
/// terminated, with nothing in flight, after those `n` tasks complete.
pub proof fn lemma_drain_completes(m: CoordinatorModel)
    requires
        m.wf(),
        m.phase == Phase::Draining,
    ensures
        m.run(Seq::new(m.in_flight, |i: int| None::<Seq<char>>)).phase == Phase::Terminated,
        m.run(Seq::new(m.in_flight, |i: int| None::<Seq<char>>)).in_flight == 0,
    decreases m.in_flight,
{
    let inputs = Seq::new(m.in_flight, |i: int| None::<Seq<char>>);
    let next = m.step(None);
    assert(inputs.drop_first() =~= Seq::new(next.in_flight, |i: int| None::<Seq<char>>));
    if m.in_flight > 1 {
        lemma_drain_completes(next);
    } else {
        assert(next.run(inputs.drop_first()) == next);
    }
}

} // verus!
