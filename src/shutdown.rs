//! The decisions of the accept loop: which connections are in flight, and what
//! the loop does next on each event it observes.
use vstd::prelude::*;

verus! {

/// What the accept loop observed.
pub enum LoopEvent {
    /// A new connection was accepted.
    Accepted,
    /// Accepting failed (a transient error of the listener).
    AcceptFailed,
    /// The interrupt signal arrived.
    Interrupted,
    /// The connection with this id finished.
    Closed(u64),
}

/// What the accept loop does next.
#[derive(PartialEq, Eq, Structural, Clone, Copy, Debug)]
pub enum Action {
    /// Serve the accepted connection concurrently, tracked under this id.
    Serve(u64),
    /// Report the accept error and keep accepting.
    ReportAcceptError,
    /// Drop the accepted connection: no id is left to track it under.
    Refuse,
    /// Keep accepting.
    Continue,
    /// Stop accepting and leave the loop.
    Stop,
}

pub struct CoordinatorView {
    pub signaled: bool,
    pub in_flight: Set<u64>,
    pub next_id: u64,
}

/// The next state and the action for an event.
pub open spec fn step(s: CoordinatorView, ev: LoopEvent) -> (CoordinatorView, Action) {
    match ev {
        LoopEvent::Interrupted => (
            CoordinatorView { signaled: true, in_flight: s.in_flight, next_id: s.next_id },
            Action::Stop,
        ),
        LoopEvent::Closed(id) => (
            CoordinatorView { signaled: s.signaled, in_flight: s.in_flight.remove(id), next_id: s.next_id },
            if s.signaled { Action::Stop } else { Action::Continue },
        ),
        LoopEvent::AcceptFailed => (s, if s.signaled { Action::Stop } else { Action::ReportAcceptError }),
        LoopEvent::Accepted => if s.signaled {
            (s, Action::Stop)
        } else if s.next_id < u64::MAX {
            (
                CoordinatorView {
                    signaled: false,
                    in_flight: s.in_flight.insert(s.next_id),
                    next_id: (s.next_id + 1) as u64,
                },
                Action::Serve(s.next_id),
            )
        } else {
            (s, Action::Refuse)
        },
    }
}

/// Owns the shutdown signal and the set of connections in flight.
pub struct Coordinator {
    signaled: bool,
    in_flight: Vec<u64>,
    next_id: u64,
}

impl View for Coordinator {
    type V = CoordinatorView;

    closed spec fn view(&self) -> CoordinatorView {
        CoordinatorView {
            signaled: self.signaled,
            in_flight: Set::new(|id: u64| self.in_flight@.contains(id)),
            next_id: self.next_id,
        }
    }
}

impl Coordinator {
    /// Each id in flight is tracked once and was handed out before.
    pub closed spec fn wf(&self) -> bool {
        &&& self.in_flight@.no_duplicates()
        &&& forall|i: int| 0 <= i < self.in_flight@.len() ==> #[trigger] self.in_flight@[i] < self.next_id
    }

    pub fn new() -> (r: Self)
        ensures
            r.wf(),
            !r@.signaled,
            r@.in_flight == Set::<u64>::empty(),
            r@.next_id == 0,
    {
        let r = Coordinator { signaled: false, in_flight: Vec::new(), next_id: 0 };
        assert(r@.in_flight =~= Set::<u64>::empty());
        r
    }

    /// Whether the interrupt signal has arrived.
    pub fn is_signaled(&self) -> (r: bool)
        ensures
            r == self@.signaled,
    {
        self.signaled
    }

    /// How many connections are in flight.
    pub fn in_flight_count(&self) -> (r: usize)
        requires
            self.wf(),
        ensures
            r == self@.in_flight.len(),
    {
        proof {
            self.in_flight@.unique_seq_to_set();
            assert(self@.in_flight =~= self.in_flight@.to_set());
        }
        self.in_flight.len()
    }

    fn untrack(&mut self, id: u64)
        requires
            old(self).wf(),
        ensures
            final(self).wf(),
            final(self).signaled == old(self).signaled,
            final(self).next_id == old(self).next_id,
            final(self)@.in_flight == old(self)@.in_flight.remove(id),
    {
        let mut i: usize = 0;
        while i < self.in_flight.len()
            invariant
                self.wf(),
                *self == *old(self),
                0 <= i <= self.in_flight@.len(),
                forall|j: int| 0 <= j < i ==> self.in_flight@[j] != id,
            decreases self.in_flight@.len() - i,
        {
            if self.in_flight[i] == id {
                let ghost before = self.in_flight@;
                self.in_flight.remove(i);
                proof {
                    let after = self.in_flight@;
                    assert(after =~= before.remove(i as int));
                    assert forall|x: u64| after.contains(x) <==> (before.contains(x) && x != id) by {
                        if after.contains(x) {
                            let k = choose|k: int| 0 <= k < after.len() && after[k] == x;
                            if k < i {
                                assert(before[k] == x);
                            } else {
                                assert(before[k + 1] == x);
                            }
                        }
                        if before.contains(x) && x != id {
                            let k = choose|k: int| 0 <= k < before.len() && before[k] == x;
                            if k < i {
                                assert(after[k] == x);
                            } else {
                                assert(k != i);
                                assert(after[k - 1] == x);
                            }
                        }
                    }
                    assert(self@.in_flight =~= old(self)@.in_flight.remove(id));
                }
                return;
            }
            i = i + 1;
        }
        assert(!self.in_flight@.contains(id));
        assert(self@.in_flight =~= old(self)@.in_flight.remove(id));
    }

    /// Decides what the accept loop does on `ev`, and records its effect.
    pub fn on_event(&mut self, ev: LoopEvent) -> (act: Action)
        requires
            old(self).wf(),
        ensures
            final(self).wf(),
            (final(self)@, act) == step(old(self)@, ev),
    {
        match ev {
            LoopEvent::Interrupted => {
                self.signaled = true;
                Action::Stop
            },
            LoopEvent::Closed(id) => {
                self.untrack(id);
                if self.signaled { Action::Stop } else { Action::Continue }
            },
            LoopEvent::AcceptFailed => {
                if self.signaled { Action::Stop } else { Action::ReportAcceptError }
            },
            LoopEvent::Accepted => {
                if self.signaled {
                    Action::Stop
                } else if self.next_id < u64::MAX {
                    let id = self.next_id;
                    let ghost before = self.in_flight@;
                    self.in_flight.push(id);
                    self.next_id = id + 1;
                    proof {
                        assert(!before.contains(id));
                        assert(self.in_flight@ =~= before.push(id));
                        assert forall|x: u64| self.in_flight@.contains(x) <==> (before.contains(x) || x == id) by {
                            if self.in_flight@.contains(x) && x != id {
                                let k = choose|k: int| 0 <= k < self.in_flight@.len() && self.in_flight@[k] == x;
                                assert(before[k] == x);
                            }
                            if before.contains(x) {
                                let k = choose|k: int| 0 <= k < before.len() && before[k] == x;
                                assert(self.in_flight@[k] == x);
                            }
                            if x == id {
                                assert(self.in_flight@[before.len() as int] == id);
                            }
                        }
                        assert(self@.in_flight =~= old(self)@.in_flight.insert(id));
                    }
                    Action::Serve(id)
                } else {
                    Action::Refuse
                }
            },
        }
    }
}

/// The interrupt signal fires once: a second one changes nothing.
pub proof fn lemma_interrupt_is_idempotent(s: CoordinatorView)
    ensures
        step(step(s, LoopEvent::Interrupted).0, LoopEvent::Interrupted) == step(s, LoopEvent::Interrupted),
{
}

/// Once the signal has arrived no connection is served again: every event
/// leaves the loop stopping, and the signal stays set.
pub proof fn lemma_no_serve_after_interrupt(s: CoordinatorView, ev: LoopEvent)
    requires
        s.signaled,
    ensures
        step(s, ev).1 == Action::Stop,
        step(s, ev).0.signaled,
        step(s, ev).0.next_id == s.next_id,
{
}

/// Connections finish independently: the tracked set does not depend on the
/// order in which two connections finish, and each close removes only its own
/// connection.
pub proof fn lemma_close_order_is_irrelevant(s: CoordinatorView, a: u64, b: u64)
    ensures
        step(step(s, LoopEvent::Closed(a)).0, LoopEvent::Closed(b)) == step(step(s, LoopEvent::Closed(b)).0, LoopEvent::Closed(a)),
        step(s, LoopEvent::Closed(a)).0.in_flight == s.in_flight.remove(a),
{
    assert(s.in_flight.remove(a).remove(b) =~= s.in_flight.remove(b).remove(a));
}

/// A transient accept error never ends the loop before the signal.
pub proof fn lemma_accept_error_continues(s: CoordinatorView)
    requires
        !s.signaled,
    ensures
        step(s, LoopEvent::AcceptFailed) == (s, Action::ReportAcceptError),
{
}

} // verus!
