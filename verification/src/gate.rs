//! The agent gate: the queueing discipline that guards the one shared agent.
//! At most one invocation holds the agent at a time; waiting invocations are
//! served in arrival order, and acquisition can only wait, never fail. The
//! suspension itself (parking a task until its turn) belongs to the embedding
//! application's scheduler; this machine decides, step by step, who may hold
//! the agent next.

use vstd::prelude::*;

verus! {

/// The guard over the one shared agent instance. Invocations are named by the
/// caller's identifiers; every arrival and every grant is recorded, in order.
pub struct AgentGate {
    /// The invocation holding the agent now, if any.
    pub holder: Option<u64>,
    /// The invocations waiting for the agent, earliest arrival first.
    pub waiting: Vec<u64>,
    /// Every arrival so far, in order.
    pub arrived: Ghost<Seq<u64>>,
    /// Every grant so far, in order.
    pub granted: Ghost<Seq<u64>>,
}

impl AgentGate {
    /// This record-keeping is consistent: everyone who arrived was either
    /// granted the agent already or is still waiting, in arrival order.
    pub open spec fn wf(self) -> bool {
        self.arrived@ == self.granted@ + self.waiting@
    }

    /// A fresh gate: the agent is free and nobody waits.
    pub fn new() -> (r: AgentGate)
        ensures
            r.wf(),
            r.holder is None,
            r.waiting@ == Seq::<u64>::empty(),
            r.arrived@ == Seq::<u64>::empty(),
            r.granted@ == Seq::<u64>::empty(),
    {
        AgentGate {
            holder: None,
            waiting: Vec::new(),
            arrived: Ghost(Seq::empty()),
            granted: Ghost(Seq::empty()),
        }
    }

    /// One invocation asks for the agent: it joins the end of the queue.
    /// Arrival never fails and grants nothing by itself.
    pub fn arrive(&mut self, id: u64)
        requires
            old(self).wf(),
        ensures
            final(self).wf(),
            final(self).waiting@ == old(self).waiting@.push(id),
            final(self).arrived@ == old(self).arrived@.push(id),
            final(self).granted == old(self).granted,
            final(self).holder == old(self).holder,
    {
        self.waiting.push(id);
        proof {
            self.arrived@ = self.arrived@.push(id);
            assert(self.arrived@ =~= self.granted@ + self.waiting@);
        }
    }

    /// Hand the agent to the next invocation when it is free and somebody
    /// waits: exactly the earliest arrival still waiting is granted, and it
    /// now holds the agent exclusively. Otherwise nothing changes.
    pub fn try_grant(&mut self) -> (r: Option<u64>)
        requires
            old(self).wf(),
        ensures
            final(self).wf(),
            final(self).arrived == old(self).arrived,
            if old(self).holder is None && old(self).waiting@.len() > 0 {
                let next = old(self).waiting@[0];
                r == Some(next) && final(self).holder == Some(next) && final(self).waiting@ == old(
                    self,
                ).waiting@.drop_first() && final(self).granted@ == old(self).granted@.push(next)
            } else {
                r is None && final(self).holder == old(self).holder && final(self).waiting == old(
                    self,
                ).waiting && final(self).granted == old(self).granted
            },
    {
        if self.holder.is_none() && self.waiting.len() > 0 {
            let next = self.waiting.remove(0);
            self.holder = Some(next);
            proof {
                self.granted@ = self.granted@.push(next);
                assert(self.arrived@ =~= self.granted@ + self.waiting@);
            }
            Some(next)
        } else {
            None
        }
    }

    /// The holding invocation gives the agent back, once its whole relay is
    /// over. Only the holder can release.
    pub fn release(&mut self, id: u64)
        requires
            old(self).wf(),
            old(self).holder == Some(id),
        ensures
            final(self).wf(),
            final(self).holder is None,
            final(self).waiting == old(self).waiting,
            final(self).arrived == old(self).arrived,
            final(self).granted == old(self).granted,
    {
        self.holder = None;
    }
}

/// Law: invocations are served in arrival order — at every point the
/// grants made so far are exactly the earliest arrivals, in the same order.
pub proof fn lemma_grants_follow_arrival_order(gate: AgentGate)
    requires
        gate.wf(),
    ensures
        gate.granted@.len() <= gate.arrived@.len(),
        gate.granted@ == gate.arrived@.take(gate.granted@.len() as int),
{
    assert(gate.granted@ =~= gate.arrived@.take(gate.granted@.len() as int));
}

} // verus!
