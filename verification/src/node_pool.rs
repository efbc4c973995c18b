//! The node pool: the set of currently-healthy node addresses, the cycle that
//! replaces it from fresh probe results, and the cooperative-cancellation
//! state machine of the background synchronizer.

use vstd::prelude::*;

use crate::error::Error;

verus! {

/// The subset of configured nodes that answered the most recent health probes.
/// Membership is the only relevant property; the set is only ever replaced
/// whole, never edited in place.
pub struct HealthySet {
    nodes: Vec<String>,
}

/// True when the address `a` stands somewhere in `s`.
pub open spec fn seq_has_addr(s: Seq<String>, a: Seq<char>) -> bool {
    exists|m: int| 0 <= m < s.len() && s[m]@ == a
}

/// True when one of the first `k` nodes listed in `nodes` reads `a` and its
/// probe answered healthy.
pub open spec fn probe_selected_upto(
    nodes: Seq<String>,
    health: Seq<bool>,
    k: int,
    a: Seq<char>,
) -> bool {
    exists|i: int| 0 <= i < k && health[i] && nodes[i]@ == a
}

/// True when some node listed in `nodes` reads `a` and answered healthy.
pub open spec fn probe_selected(nodes: Seq<String>, health: Seq<bool>, a: Seq<char>) -> bool {
    probe_selected_upto(nodes, health, nodes.len() as int, a)
}

impl HealthySet {
    /// True when the address `a` is in the set.
    pub closed spec fn spec_contains(&self, a: Seq<char>) -> bool {
        seq_has_addr(self.nodes@, a)
    }

    /// True when no node is in the set.
    pub closed spec fn spec_is_empty(&self) -> bool {
        self.nodes@.len() == 0
    }

    /// How many entries the set holds.
    pub closed spec fn spec_len(&self) -> nat {
        self.nodes@.len()
    }

    /// The empty pool: no node is known healthy yet.
    pub fn new() -> (r: Self)
        ensures
            r.spec_is_empty(),
    {
        HealthySet { nodes: Vec::new() }
    }

    /// Builds the healthy set of one probe cycle: exactly those entries of
    /// `nodes` whose probe answered healthy, and nothing else. Replacing the
    /// previous set with this result retains no stale entry.
    pub fn from_probe_results(nodes: &Vec<String>, health: &Vec<bool>) -> (r: Self)
        requires
            nodes@.len() == health@.len(),
        ensures
            forall|a: Seq<char>| r.spec_contains(a) <==> probe_selected(nodes@, health@, a),
            r.spec_is_empty() <==> (forall|i: int|
                0 <= i < health@.len() ==> !#[trigger] health@[i]),
    {
        let mut out: Vec<String> = Vec::new();
        let mut k: usize = 0;
        while k < nodes.len()
            invariant
                k <= nodes@.len(),
                nodes@.len() == health@.len(),
                forall|j: int|
                    0 <= j < k && health@[j] ==> seq_has_addr(out@, #[trigger] nodes@[j]@),
                forall|m: int|
                    0 <= m < out@.len() ==> probe_selected_upto(
                        nodes@,
                        health@,
                        k as int,
                        #[trigger] out@[m]@,
                    ),
            decreases nodes@.len() - k,
        {
            let ghost old_out = out@;
            if health[k] {
                out.push(nodes[k].clone());
                proof {
                    assert(out@[old_out.len() as int]@ == nodes@[k as int]@);
                }
            }
            proof {
                assert forall|j: int| 0 <= j < k + 1 && health@[j] implies seq_has_addr(
                    out@,
                    #[trigger] nodes@[j]@,
                ) by {
                    if j < k {
                        let m = choose|m: int|
                            0 <= m < old_out.len() && old_out[m]@ == nodes@[j]@;
                        assert(out@[m]@ == nodes@[j]@);
                    } else {
                        assert(out@[old_out.len() as int]@ == nodes@[j]@);
                    }
                }
                assert forall|m: int| 0 <= m < out@.len() implies probe_selected_upto(
                    nodes@,
                    health@,
                    k + 1,
                    #[trigger] out@[m]@,
                ) by {
                    if m < old_out.len() {
                        let i = choose|i: int|
                            0 <= i < k && health@[i] && nodes@[i]@ == old_out[m]@;
                        assert(0 <= i < k + 1 && health@[i] && nodes@[i]@ == out@[m]@);
                    } else {
                        assert(health@[k as int] && nodes@[k as int]@ == out@[m]@);
                    }
                }
            }
            k = k + 1;
        }
        let r = HealthySet { nodes: out };
        proof {
            assert forall|a: Seq<char>| r.spec_contains(a) implies probe_selected(
                nodes@,
                health@,
                a,
            ) by {
                let m = choose|m: int| 0 <= m < r.nodes@.len() && r.nodes@[m]@ == a;
                assert(probe_selected_upto(nodes@, health@, k as int, r.nodes@[m]@));
            }
            assert forall|a: Seq<char>| probe_selected(nodes@, health@, a) implies r.spec_contains(
                a,
            ) by {
                let i = choose|i: int| 0 <= i < nodes@.len() && health@[i] && nodes@[i]@ == a;
                assert(seq_has_addr(r.nodes@, nodes@[i]@));
            }
            if r.nodes@.len() > 0 {
                assert(probe_selected(nodes@, health@, r.nodes@[0]@));
            }
            if exists|i: int| 0 <= i < health@.len() && #[trigger] health@[i] {
                let i = choose|i: int| 0 <= i < health@.len() && #[trigger] health@[i];
                assert(r.spec_contains(nodes@[i]@));
            }
        }
        r
    }

    /// One arbitrary address of the set, or `NodePoolEmpty` when no node is
    /// healthy; the call never waits for the next probe cycle. Callers must
    /// not assume the same address is returned twice.
    pub fn get_node(&self) -> (r: Result<String, Error>)
        ensures
            r is Ok <==> !self.spec_is_empty(),
            r is Ok ==> self.spec_contains(r.unwrap()@),
            r is Err ==> r matches Err(Error::NodePoolEmpty),
    {
        if self.nodes.len() == 0 {
            Err(Error::NodePoolEmpty)
        } else {
            let picked = self.nodes[0].clone();
            proof {
                assert(self.nodes@[0]@ == picked@);
            }
            Ok(picked)
        }
    }

    /// How many nodes are currently known healthy.
    pub fn len(&self) -> (n: usize)
        ensures
            n == self.spec_len(),
            n == 0 <==> self.spec_is_empty(),
    {
        self.nodes.len()
    }
}

/// What the background synchronizer does next after one wait ends.
#[derive(PartialEq, Eq, Structural, Debug, Clone, Copy)]
pub enum SyncAction {
    /// Probe every configured node and replace the healthy set.
    Probe,
    /// Terminate the loop without another probe cycle.
    Shutdown,
}

/// How one wait of the synchronizer ended: the repeat timer ran out, or the
/// cancellation signal fired first and short-circuited the wait.
#[derive(PartialEq, Eq, Structural, Debug, Clone, Copy)]
pub enum SyncEvent {
    IntervalElapsed,
    CancelReceived,
}

/// The decision state of the background node-pool synchronizer. The loop
/// around it waits one interval, reports how the wait ended, and performs the
/// returned action; a probe cycle is never ordered once cancellation has been
/// observed.
pub struct Synchronizer {
    cancelled: bool,
}

impl Synchronizer {
    /// True once the cancellation signal has been observed.
    pub closed spec fn spec_cancelled(&self) -> bool {
        self.cancelled
    }

    /// A running synchronizer that has not observed cancellation.
    pub fn new() -> (s: Self)
        ensures
            !s.spec_cancelled(),
    {
        Synchronizer { cancelled: false }
    }

    /// Decides what follows one wait: a probe cycle exactly when the timer ran
    /// out and no cancellation has ever been observed; otherwise shutdown.
    pub fn on_event(&mut self, event: SyncEvent) -> (a: SyncAction)
        ensures
            final(self).spec_cancelled() == (old(self).spec_cancelled() || event
                is CancelReceived),
            a is Probe <==> (!old(self).spec_cancelled() && event is IntervalElapsed),
    {
        match event {
            SyncEvent::IntervalElapsed => {
                if self.cancelled {
                    SyncAction::Shutdown
                } else {
                    SyncAction::Probe
                }
            },
            SyncEvent::CancelReceived => {
                self.cancelled = true;
                SyncAction::Shutdown
            },
        }
    }
}

} // verus!
