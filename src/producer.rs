use vstd::prelude::*;

verus! {

/// What the producer does after one delivery attempt.
#[derive(Clone, Copy, Debug, PartialEq, Eq, Structural)]
pub enum ProducerStep {
    /// The signal was delivered: sleep for the interval and try again.
    Sleep,
    /// The loop is gone: stop for good.
    Stop,
}

/// Whether a producer is still running after its delivery attempts came out
/// as `outcomes` (`true` for delivered), in order.
pub open spec fn running_after(outcomes: Seq<bool>) -> bool
    decreases outcomes.len(),
{
    if outcomes.len() == 0 {
        true
    } else {
        running_after(outcomes.drop_last()) && outcomes.last()
    }
}

/// The background producer of wake signals. It keeps delivering while the
/// loop takes its signals, and stops at the first delivery that fails.
pub struct Producer {
    running: bool,
}

impl View for Producer {
    type V = bool;

    closed spec fn view(&self) -> bool {
        self.running
    }
}

impl Producer {
    /// A producer that has made no attempt yet.
    pub fn new() -> (p: Self)
        ensures
            p@,
    {
        Producer { running: true }
    }

    /// Whether another delivery may be attempted.
    pub fn is_running(&self) -> (r: bool)
        ensures
            r == self@,
    {
        self.running
    }

    /// Records the outcome of one delivery attempt and says what comes next.
    /// Only a running producer attempts a delivery.
    pub fn after_delivery(&mut self, delivered: bool) -> (step: ProducerStep)
        requires
            old(self)@,
        ensures
            final(self)@ == delivered,
            step == (if delivered {
                ProducerStep::Sleep
            } else {
                ProducerStep::Stop
            }),
    {
        self.running = delivered;
        if delivered {
            ProducerStep::Sleep
        } else {
            ProducerStep::Stop
        }
    }
}

/// One failed delivery stops the producer for good: whatever would come of
/// later attempts, it is no longer running.
pub proof fn lemma_stop_is_permanent(outcomes: Seq<bool>, k: int)
    requires
        0 <= k < outcomes.len(),
        !outcomes[k],
    ensures
        !running_after(outcomes),
    decreases outcomes.len(),
{
    if k < outcomes.len() - 1 {
        lemma_stop_is_permanent(outcomes.drop_last(), k);
    }
}

/// A producer runs exactly as long as every delivery so far succeeded.
pub proof fn lemma_running_iff_all_delivered(outcomes: Seq<bool>)
    ensures
        running_after(outcomes) == (forall|i: int| 0 <= i < outcomes.len() ==> outcomes[i]),
    decreases outcomes.len(),
{
    if outcomes.len() > 0 {
        lemma_running_iff_all_delivered(outcomes.drop_last());
        if !outcomes.last() {
            assert(!outcomes[outcomes.len() - 1]);
        } else if !running_after(outcomes.drop_last()) {
            let i = choose|i: int| 0 <= i < outcomes.len() - 1 && !outcomes.drop_last()[i];
            assert(!outcomes[i]);
        } else {
            assert forall|i: int| 0 <= i < outcomes.len() implies outcomes[i] by {
                if i < outcomes.len() - 1 {
                    assert(outcomes.drop_last()[i] == outcomes[i]);
                }
            }
        }
    }
}

} // verus!
