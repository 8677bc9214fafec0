//! The event relay: it drains the agent's reply stream and forwards each item,
//! translated into its tagged notification, to the consumer's sink, in
//! production order. A stream error is forwarded once on the error channel and
//! ends the relay; a sink failure ends the relay at once with nothing more
//! forwarded.
//!
//! The stream and the sink are asynchronous collaborators, so the relay is a
//! step machine: the caller hands it one stream item at a time, forwards the
//! emission the machine hands back, and reports the sink's verdict. The
//! machine's contracts pin every step; `relay_run` is the mathematical model
//! of a whole run, and `run_relay` drives the machine over an in-memory
//! stream and sink, proved to realize that model.

use vstd::prelude::*;
use crate::event::AgentEvent;
use crate::event::Emission;
use crate::event::spec_notify;
use crate::event::notify;

verus! {

/// One item of the agent's reply stream: an event, or the stream's error with
/// its description. An error is always the stream's last item.
#[derive(Clone, Debug, PartialEq, Eq)]
pub enum StreamItem {
    Event(AgentEvent),
    Failed(String),
}

/// The event carried by a stream item.
pub open spec fn event_of(it: StreamItem) -> AgentEvent
    recommends
        it is Event,
{
    it->Event_0
}

/// The error description carried by a stream item.
pub open spec fn failure_of(it: StreamItem) -> String
    recommends
        it is Failed,
{
    it->Failed_0
}

/// How one relay run ended.
pub enum RelayEnd {
    /// The stream was drained to its end and every notification was accepted.
    Completed,
    /// One stream item was an error: its description went out once on the
    /// error channel and the invocation failed with that same description.
    StreamFailed(String),
    /// The sink refused an emission: the relay stopped at once, forwarding
    /// nothing further, and the invocation failed with the sink's reason.
    SinkFailed,
}

/// The complete record of one relay run: every emission handed to the sink in
/// order, the ones the sink accepted in order, and how the run ended.
pub struct RelayRun {
    pub attempted: Seq<Emission>,
    pub delivered: Seq<Emission>,
    pub end: RelayEnd,
}

/// The mathematical model of one relay run over a stream whose items are
/// `items`, against a sink that accepts the next `grant` emissions and refuses
/// every one after those.
pub open spec fn relay_run(items: Seq<StreamItem>, grant: nat) -> RelayRun
    decreases items.len(),
{
    if items.len() == 0 {
        RelayRun { attempted: Seq::empty(), delivered: Seq::empty(), end: RelayEnd::Completed }
    } else {
        match items[0] {
            StreamItem::Event(e) => {
                let em = Emission::Event(spec_notify(e));
                if grant == 0 {
                    RelayRun {
                        attempted: seq![em],
                        delivered: Seq::empty(),
                        end: RelayEnd::SinkFailed,
                    }
                } else {
                    let rest = relay_run(items.drop_first(), (grant - 1) as nat);
                    RelayRun {
                        attempted: seq![em] + rest.attempted,
                        delivered: seq![em] + rest.delivered,
                        end: rest.end,
                    }
                }
            },
            StreamItem::Failed(d) => {
                let em = Emission::Error(d);
                if grant == 0 {
                    RelayRun {
                        attempted: seq![em],
                        delivered: Seq::empty(),
                        end: RelayEnd::SinkFailed,
                    }
                } else {
                    RelayRun {
                        attempted: seq![em],
                        delivered: seq![em],
                        end: RelayEnd::StreamFailed(d),
                    }
                }
            },
        }
    }
}

/// Where the relay stands in its step protocol.
pub enum Phase {
    /// Waiting for the next stream item.
    Ready,
    /// An event notification was handed out; waiting for the sink's verdict.
    SentEvent,
    /// The stream failed with the carried description; its error notification
    /// was handed out and the relay ends once the sink answers.
    SentError(String),
    /// The relay is over; the carried value is the invocation's result.
    Done(Result<(), String>),
}

/// The relay step machine for one invocation. The caller feeds it stream items
/// with `on_item`, forwards each emission it hands back, and reports the
/// sink's verdict with `on_verdict`; `into_result` yields the invocation's
/// result once the machine is done.
pub struct Relay {
    /// Where the machine stands in its protocol.
    pub phase: Phase,
    /// Every emission handed out for forwarding, in order.
    pub attempted: Ghost<Seq<Emission>>,
    /// The emissions the sink has accepted, in order.
    pub delivered: Ghost<Seq<Emission>>,
}

impl Relay {
    /// The machine's records are consistent with its phase: while a verdict is
    /// pending, exactly the last attempted emission is undecided; otherwise
    /// every attempted emission has been decided.
    pub open spec fn wf(self) -> bool {
        match self.phase {
            Phase::Ready => self.attempted@ == self.delivered@,
            Phase::SentEvent => self.attempted@.len() == self.delivered@.len() + 1
                && self.attempted@.drop_last() == self.delivered@
                && self.attempted@.last() is Event,
            Phase::SentError(d) => self.attempted@.len() == self.delivered@.len() + 1
                && self.attempted@.drop_last() == self.delivered@
                && self.attempted@.last() == Emission::Error(d),
            Phase::Done(_) => true,
        }
    }

    /// A fresh machine: ready, with nothing attempted or delivered.
    pub fn new() -> (r: Relay)
        ensures
            r.wf(),
            r.phase is Ready,
            r.attempted@ == Seq::<Emission>::empty(),
            r.delivered@ == Seq::<Emission>::empty(),
    {
        Relay {
            phase: Phase::Ready,
            attempted: Ghost(Seq::empty()),
            delivered: Ghost(Seq::empty()),
        }
    }

    /// Whether the machine is waiting for the next stream item.
    pub fn is_ready(&self) -> (r: bool)
        ensures
            r == (self.phase is Ready),
    {
        matches!(self.phase, Phase::Ready)
    }

    /// Whether the machine is done.
    pub fn is_done(&self) -> (r: bool)
        ensures
            r == (self.phase is Done),
    {
        matches!(self.phase, Phase::Done(_))
    }

    /// Feed the next stream item, or `None` at the stream's end. The machine
    /// hands back the one emission to forward now: the item's tagged
    /// notification for an event, the error notification for a stream error,
    /// and nothing at the stream's end, where the relay completes cleanly.
    pub fn on_item(&mut self, item: Option<StreamItem>) -> (out: Option<Emission>)
        requires
            old(self).wf(),
            old(self).phase is Ready,
        ensures
            final(self).wf(),
            final(self).delivered == old(self).delivered,
            match item {
                None => out is None && final(self).phase == Phase::Done(Ok::<(), String>(()))
                    && final(self).attempted == old(self).attempted,
                Some(StreamItem::Event(e)) => {
                    let em = Emission::Event(spec_notify(e));
                    out == Some(em) && final(self).phase is SentEvent && final(self).attempted@
                        == old(self).attempted@.push(em)
                },
                Some(StreamItem::Failed(d)) => {
                    let em = Emission::Error(d);
                    out == Some(em) && final(self).phase == Phase::SentError(d)
                        && final(self).attempted@ == old(self).attempted@.push(em)
                },
            },
    {
        match item {
            None => {
                self.phase = Phase::Done(Ok(()));
                None
            },
            Some(StreamItem::Event(e)) => {
                let ghost em = Emission::Event(spec_notify(e));
                let n = notify(e);
                self.phase = Phase::SentEvent;
                proof {
                    self.attempted@ = self.attempted@.push(em);
                    assert(self.attempted@.drop_last() =~= old(self).attempted@);
                }
                Some(Emission::Event(n))
            },
            Some(StreamItem::Failed(d)) => {
                let ghost em = Emission::Error(d);
                let kept = d.clone();
                self.phase = Phase::SentError(kept);
                proof {
                    self.attempted@ = self.attempted@.push(em);
                    assert(self.attempted@.drop_last() =~= old(self).attempted@);
                }
                Some(Emission::Error(d))
            },
        }
    }

    /// Report the sink's verdict on the emission handed out last. On success
    /// after an event the machine is ready for the next item; on success after
    /// the error notification the relay ends, failed with the stream's error;
    /// on a sink failure the relay ends at once, failed with the sink's
    /// reason, and the pending emission stays undelivered.
    pub fn on_verdict(&mut self, verdict: Result<(), String>)
        requires
            old(self).wf(),
            old(self).phase is SentEvent || old(self).phase is SentError,
        ensures
            final(self).wf(),
            final(self).attempted == old(self).attempted,
            match verdict {
                Ok(_) => final(self).delivered@ == old(self).delivered@.push(
                    old(self).attempted@.last(),
                ) && match old(self).phase {
                    Phase::SentEvent => final(self).phase is Ready,
                    Phase::SentError(d) => final(self).phase == Phase::Done(
                        Err::<(), String>(d),
                    ),
                    _ => false,
                },
                Err(s) => final(self).delivered == old(self).delivered && final(self).phase
                    == Phase::Done(Err::<(), String>(s)),
            },
    {
        let mut ph = Phase::Ready;
        core::mem::swap(&mut ph, &mut self.phase);
        match (ph, verdict) {
            (Phase::SentEvent, Ok(_)) => {
                proof {
                    self.delivered@ = self.delivered@.push(self.attempted@.last());
                    assert(self.attempted@ =~= self.delivered@);
                }
                self.phase = Phase::Ready;
            },
            (Phase::SentError(d), Ok(_)) => {
                proof {
                    self.delivered@ = self.delivered@.push(self.attempted@.last());
                }
                self.phase = Phase::Done(Err(d));
            },
            (_, Err(s)) => {
                self.phase = Phase::Done(Err(s));
            },
            (ph_other, Ok(_)) => {
                proof {
                    assert(false);
                }
                self.phase = ph_other;
            },
        }
    }

    /// The invocation's result, once the relay is over.
    pub fn into_result(self) -> (r: Result<(), String>)
        requires
            self.phase is Done,
        ensures
            self.phase == Phase::Done(r),
    {
        match self.phase {
            Phase::Done(r) => r,
            _ => {
                proof {
                    assert(false);
                }
                Ok(())
            },
        }
    }
}

/// An in-memory sink: it records the emissions it accepts, in order, and
/// refuses every emission past a fixed grant, each time with the same fixed
/// reason. It stands in for the consumer when a whole reply stream is relayed
/// in memory.
pub struct VecSink {
    /// The emissions accepted so far, in order.
    pub accepted: Vec<Emission>,
    /// How many more emissions this sink will accept before it refuses.
    pub grant: usize,
    /// The description returned with every refusal.
    pub refusal: String,
    /// Every emission handed to this sink, accepted or refused, in order.
    pub offered: Ghost<Seq<Emission>>,
}

impl VecSink {
    /// A fresh sink that will accept the next `grant` emissions and refuse
    /// every later one with the description `refusal`.
    pub fn new(grant: usize, refusal: String) -> (r: VecSink)
        ensures
            r.accepted@ == Seq::<Emission>::empty(),
            r.grant == grant,
            r.refusal == refusal,
            r.offered@ == Seq::<Emission>::empty(),
    {
        VecSink { accepted: Vec::new(), grant, refusal, offered: Ghost(Seq::empty()) }
    }

    /// Hand one emission to the sink. While the grant lasts the emission is
    /// accepted and recorded; afterwards it is refused with the sink's fixed
    /// reason and not recorded.
    pub fn forward(&mut self, em: Emission) -> (r: Result<(), String>)
        ensures
            final(self).offered@ == old(self).offered@.push(em),
            final(self).refusal == old(self).refusal,
            if old(self).grant > 0 {
                r == Ok::<(), String>(()) && final(self).accepted@ == old(self).accepted@.push(em)
                    && final(self).grant == old(self).grant - 1
            } else {
                r == Err::<(), String>(old(self).refusal)
                    && final(self).accepted == old(self).accepted && final(self).grant == 0
            },
    {
        proof {
            self.offered@ = self.offered@.push(em);
        }
        if self.grant > 0 {
            self.grant = self.grant - 1;
            self.accepted.push(em);
            Ok(())
        } else {
            Err(self.refusal.clone())
        }
    }
}

/// Relay one whole reply stream, already in memory, to a sink: the stream's
/// items are forwarded in order as the model `relay_run` prescribes, and the
/// result is the invocation's — success on a drained stream, the stream
/// error's description once that error's notification went out, and the
/// sink's reason when the sink refused.
pub fn run_relay(items: Vec<StreamItem>, sink: &mut VecSink) -> (r: Result<(), String>)
    ensures
        ({
            let run = relay_run(items@, old(sink).grant as nat);
            &&& final(sink).accepted@ == old(sink).accepted@ + run.delivered
            &&& final(sink).offered@ == old(sink).offered@ + run.attempted
            &&& final(sink).refusal == old(sink).refusal
            &&& final(sink).grant == old(sink).grant - run.delivered.len()
            &&& match run.end {
                RelayEnd::Completed => r == Ok::<(), String>(()),
                RelayEnd::StreamFailed(d) => r == Err::<(), String>(d),
                RelayEnd::SinkFailed => r == Err::<(), String>(old(sink).refusal),
            }
        }),
{
    let mut items = items;
    let ghost run = relay_run(items@, old(sink).grant as nat);
    let mut relay = Relay::new();
    proof {
        assert(old(sink).offered@ + relay.attempted@ =~= old(sink).offered@);
        assert(old(sink).accepted@ + relay.delivered@ =~= old(sink).accepted@);
        assert(run.attempted =~= relay.attempted@ + run.attempted);
        assert(run.delivered =~= relay.delivered@ + run.delivered);
    }
    loop
        invariant
            relay.wf(),
            relay.phase is Ready || relay.phase is Done,
            sink.refusal == old(sink).refusal,
            sink.offered@ == old(sink).offered@ + relay.attempted@,
            sink.accepted@ == old(sink).accepted@ + relay.delivered@,
            sink.grant == old(sink).grant - relay.delivered@.len(),
            relay.phase is Ready ==> {
                let rest = relay_run(items@, sink.grant as nat);
                &&& run.attempted == relay.attempted@ + rest.attempted
                &&& run.delivered == relay.delivered@ + rest.delivered
                &&& run.end == rest.end
            },
            relay.phase matches Phase::Done(res) ==> {
                &&& run.attempted == relay.attempted@
                &&& run.delivered == relay.delivered@
                &&& match run.end {
                    RelayEnd::Completed => res == Ok::<(), String>(()),
                    RelayEnd::StreamFailed(d) => res == Err::<(), String>(d),
                    RelayEnd::SinkFailed => res == Err::<(), String>(old(sink).refusal),
                }
            },
        ensures
            sink.refusal == old(sink).refusal,
            sink.offered@ == old(sink).offered@ + run.attempted,
            sink.accepted@ == old(sink).accepted@ + run.delivered,
            sink.grant == old(sink).grant - run.delivered.len(),
            relay.phase matches Phase::Done(res) && match run.end {
                RelayEnd::Completed => res == Ok::<(), String>(()),
                RelayEnd::StreamFailed(d) => res == Err::<(), String>(d),
                RelayEnd::SinkFailed => res == Err::<(), String>(old(sink).refusal),
            },
        decreases 2 * items@.len() + (if relay.phase is Ready {
            1int
        } else {
            0int
        }),
    {
        if !relay.is_ready() {
            break;
        }
        let ghost items_pre = items@;
        let ghost grant_pre = sink.grant as nat;
        let ghost attempted_pre = relay.attempted@;
        let ghost delivered_pre = relay.delivered@;
        let item: Option<StreamItem> = if items.len() > 0 {
            Some(items.remove(0))
        } else {
            None
        };
        let out = relay.on_item(item);
        match out {
            Some(em) => {
                let ghost em_spec = em;
                let verdict = sink.forward(em);
                relay.on_verdict(verdict);
                proof {
                    let rest_pre = relay_run(items_pre, grant_pre);
                    assert(items_pre.drop_first() =~= items@);
                    assert(rest_pre.attempted[0] == em_spec);
                    assert(relay.attempted@ =~= attempted_pre.push(em_spec));
                    assert(sink.offered@ =~= old(sink).offered@ + relay.attempted@);
                    if grant_pre > 0 {
                        assert(relay.delivered@ =~= delivered_pre.push(em_spec));
                        assert(sink.accepted@ =~= old(sink).accepted@ + relay.delivered@);
                        if items_pre[0] is Event {
                            let rest_now = relay_run(items@, sink.grant as nat);
                            assert(rest_pre.attempted =~= seq![em_spec] + rest_now.attempted);
                            assert(run.attempted =~= relay.attempted@ + rest_now.attempted);
                            assert(rest_pre.delivered =~= seq![em_spec] + rest_now.delivered);
                            assert(run.delivered =~= relay.delivered@ + rest_now.delivered);
                        } else {
                            assert(rest_pre.attempted =~= seq![em_spec]);
                            assert(rest_pre.delivered =~= seq![em_spec]);
                            assert(run.attempted =~= relay.attempted@);
                            assert(run.delivered =~= relay.delivered@);
                        }
                    } else {
                        assert(rest_pre.attempted =~= seq![em_spec]);
                        assert(run.attempted =~= relay.attempted@);
                        assert(run.delivered =~= relay.delivered@);
                    }
                }
            },
            None => {
                proof {
                    assert(items_pre.len() == 0);
                    assert(run.attempted =~= relay.attempted@);
                    assert(run.delivered =~= relay.delivered@);
                }
            },
        }
    }
    relay.into_result()
}

/// Law: when every stream item is an event and the sink accepts them all, the
/// consumer receives exactly one notification per event, in production order,
/// each the tagged translation of its event, and the relay completes
/// successfully with nothing attempted beyond what was delivered.
pub proof fn lemma_all_events_delivered(items: Seq<StreamItem>, grant: nat)
    requires
        grant >= items.len(),
        forall|i: int| 0 <= i < items.len() ==> (#[trigger] items[i]) is Event,
    ensures
        relay_run(items, grant).end is Completed,
        relay_run(items, grant).delivered.len() == items.len(),
        relay_run(items, grant).attempted == relay_run(items, grant).delivered,
        forall|i: int|
            0 <= i < items.len() ==> #[trigger] relay_run(items, grant).delivered[i]
                == Emission::Event(spec_notify(event_of(items[i]))),
    decreases items.len(),
{
    let run = relay_run(items, grant);
    if items.len() == 0 {
        assert(run.attempted =~= run.delivered);
    } else {
        let rest = items.drop_first();
        assert(forall|i: int| 0 <= i < rest.len() ==> #[trigger] rest[i] == items[i + 1]);
        lemma_all_events_delivered(rest, (grant - 1) as nat);
        let rest_run = relay_run(rest, (grant - 1) as nat);
        let em = Emission::Event(spec_notify(event_of(items[0])));
        assert(run.delivered =~= seq![em] + rest_run.delivered);
        assert(run.attempted =~= seq![em] + rest_run.attempted);
        assert(run.attempted =~= run.delivered);
        assert forall|i: int| 0 <= i < items.len() implies #[trigger] run.delivered[i]
            == Emission::Event(spec_notify(event_of(items[i]))) by {
            if i > 0 {
                assert(run.delivered[i] == rest_run.delivered[i - 1]);
                assert(rest[i - 1] == items[i]);
            }
        }
    }
}

/// Law: when the stream's first error is its (k+1)-th item and the sink
/// accepts every emission up to it, the consumer receives exactly the k
/// preceding events' notifications, in order, then exactly one error
/// notification carrying the error's description, nothing after it, and the
/// invocation fails with that same description.
pub proof fn lemma_stream_error_stops_relay(items: Seq<StreamItem>, grant: nat, k: int)
    requires
        0 <= k < items.len(),
        items[k] is Failed,
        forall|i: int| 0 <= i < k ==> (#[trigger] items[i]) is Event,
        grant > k,
    ensures
        ({
            let run = relay_run(items, grant);
            &&& run.end == RelayEnd::StreamFailed(failure_of(items[k]))
            &&& run.delivered.len() == k + 1
            &&& forall|i: int|
                0 <= i < k ==> #[trigger] run.delivered[i] == Emission::Event(
                    spec_notify(event_of(items[i])),
                )
            &&& run.delivered[k] == Emission::Error(failure_of(items[k]))
            &&& run.attempted == run.delivered
        }),
    decreases k,
{
    let run = relay_run(items, grant);
    if k == 0 {
        assert(run.attempted =~= run.delivered);
    } else {
        let rest = items.drop_first();
        assert(forall|i: int| 0 <= i < rest.len() ==> #[trigger] rest[i] == items[i + 1]);
        lemma_stream_error_stops_relay(rest, (grant - 1) as nat, k - 1);
        let rest_run = relay_run(rest, (grant - 1) as nat);
        let em = Emission::Event(spec_notify(event_of(items[0])));
        assert(run.delivered =~= seq![em] + rest_run.delivered);
        assert(run.attempted =~= seq![em] + rest_run.attempted);
        assert(run.attempted =~= run.delivered);
        assert(rest[k - 1] == items[k]);
        assert forall|i: int| 0 <= i < k implies #[trigger] run.delivered[i] == Emission::Event(
            spec_notify(event_of(items[i])),
        ) by {
            if i > 0 {
                assert(run.delivered[i] == rest_run.delivered[i - 1]);
                assert(rest[i - 1] == items[i]);
            }
        }
    }
}

/// Law: when the sink refuses the very first notification of a stream that
/// holds at least one item, nothing is delivered, exactly one forward is
/// attempted, and the invocation fails for the sink's reason.
pub proof fn lemma_sink_refusal_stops_relay(items: Seq<StreamItem>)
    requires
        items.len() > 0,
    ensures
        relay_run(items, 0).end is SinkFailed,
        relay_run(items, 0).delivered.len() == 0,
        relay_run(items, 0).attempted.len() == 1,
{
}

/// Law: two replies relayed one after the other against the same sink leave
/// their deliveries as two contiguous blocks, the first invocation's whole
/// block before the second's begins, and the total count is the sum of the two
/// invocations' own counts. (That the two relays run one after the other, and
/// never side by side, is what the exclusive agent lock guarantees; the lock
/// itself belongs to the embedding application.)
pub proof fn lemma_replies_do_not_interleave(
    prior: Seq<Emission>,
    items1: Seq<StreamItem>,
    grant1: nat,
    items2: Seq<StreamItem>,
    grant2: nat,
)
    ensures
        ({
            let d1 = relay_run(items1, grant1).delivered;
            let d2 = relay_run(items2, grant2).delivered;
            let whole = prior + d1 + d2;
            &&& whole.len() == prior.len() + d1.len() + d2.len()
            &&& whole.subrange(prior.len() as int, (prior.len() + d1.len()) as int) == d1
            &&& whole.subrange((prior.len() + d1.len()) as int, whole.len() as int) == d2
        }),
{
    let d1 = relay_run(items1, grant1).delivered;
    let d2 = relay_run(items2, grant2).delivered;
    let whole = prior + d1 + d2;
    assert(whole.subrange(prior.len() as int, (prior.len() + d1.len()) as int) =~= d1);
    assert(whole.subrange((prior.len() + d1.len()) as int, whole.len() as int) =~= d2);
}

} // verus!
