use vstd::prelude::*;
use vstd::multiset::Multiset;
use crate::mail::is_valid_address;
use crate::mail::prepare_message;
use crate::mail::OutboundMessage;
use crate::mail::ParsedMailbox;
use crate::models::email_request;

verus! {

/// The items of `batch` whose send attempt succeeded, in batch order:
/// `outcomes[i]` is true exactly when item `i` was sent.
pub open spec fn succeeded_of(batch: Seq<email_request>, outcomes: Seq<bool>) -> Seq<
    email_request,
>
    decreases batch.len(),
{
    if batch.len() == 0 || outcomes.len() == 0 {
        Seq::empty()
    } else {
        succeeded_of(batch.drop_last(), outcomes.drop_last()) + (if outcomes.last() {
            seq![batch.last()]
        } else {
            Seq::empty()
        })
    }
}

/// The items of `batch` whose send attempt failed, in batch order.
pub open spec fn failed_of(batch: Seq<email_request>, outcomes: Seq<bool>) -> Seq<email_request>
    decreases batch.len(),
{
    if batch.len() == 0 || outcomes.len() == 0 {
        Seq::empty()
    } else {
        failed_of(batch.drop_last(), outcomes.drop_last()) + (if outcomes.last() {
            Seq::empty()
        } else {
            seq![batch.last()]
        })
    }
}

/// Recording one more outcome extends exactly one side of the partition, by
/// exactly the item attempted.
pub proof fn lemma_partition_push(
    batch: Seq<email_request>,
    outcomes: Seq<bool>,
    item: email_request,
    sent: bool,
)
    ensures
        succeeded_of(batch.push(item), outcomes.push(sent)) == (if sent {
            succeeded_of(batch, outcomes).push(item)
        } else {
            succeeded_of(batch, outcomes)
        }),
        failed_of(batch.push(item), outcomes.push(sent)) == (if sent {
            failed_of(batch, outcomes)
        } else {
            failed_of(batch, outcomes).push(item)
        }),
{
    assert(batch.push(item).drop_last() =~= batch);
    assert(outcomes.push(sent).drop_last() =~= outcomes);
    if sent {
        assert(succeeded_of(batch.push(item), outcomes.push(sent)) =~= succeeded_of(
            batch,
            outcomes,
        ).push(item));
        assert(failed_of(batch.push(item), outcomes.push(sent)) =~= failed_of(batch, outcomes));
    } else {
        assert(succeeded_of(batch.push(item), outcomes.push(sent)) =~= succeeded_of(
            batch,
            outcomes,
        ));
        assert(failed_of(batch.push(item), outcomes.push(sent)) =~= failed_of(
            batch,
            outcomes,
        ).push(item));
    }
}

/// Law: every batch item is accounted for. For any batch and any per-item
/// outcomes, the succeeded and failed counts sum to the batch size; both
/// dispatch policies produce their outcome through these two functions.
pub proof fn lemma_dispatch_accounting(batch: Seq<email_request>, outcomes: Seq<bool>)
    requires
        batch.len() == outcomes.len(),
    ensures
        succeeded_of(batch, outcomes).len() + failed_of(batch, outcomes).len() == batch.len(),
    decreases batch.len(),
{
    if batch.len() > 0 {
        lemma_dispatch_accounting(batch.drop_last(), outcomes.drop_last());
    }
}

/// Law: each batch item lands in exactly one of succeeded and failed.
/// Together the two sides hold exactly the items of the batch, multiplicity
/// included: no item is dropped, none is double-counted.
pub proof fn lemma_dispatch_partition(batch: Seq<email_request>, outcomes: Seq<bool>)
    requires
        batch.len() == outcomes.len(),
    ensures
        succeeded_of(batch, outcomes).to_multiset().add(failed_of(batch, outcomes).to_multiset())
            == batch.to_multiset(),
    decreases batch.len(),
{
    broadcast use vstd::seq_lib::group_to_multiset_ensures;
    broadcast use vstd::multiset::group_multiset_axioms;
    broadcast use vstd::multiset::group_multiset_properties;

    let s = succeeded_of(batch, outcomes);
    let f = failed_of(batch, outcomes);
    if batch.len() == 0 {
        assert(batch.to_multiset() =~= Multiset::<email_request>::empty());
        assert(s.to_multiset().add(f.to_multiset()) =~= Multiset::<email_request>::empty());
    } else {
        let b = batch.drop_last();
        let o = outcomes.drop_last();
        let x = batch.last();
        lemma_dispatch_partition(b, o);
        lemma_partition_push(b, o, x, outcomes.last());
        assert(batch =~= b.push(x));
        assert(batch.to_multiset() == b.push(x).to_multiset());
        if outcomes.last() {
            assert(s == succeeded_of(b, o).push(x));
            assert(s.to_multiset().add(f.to_multiset()) =~= batch.to_multiset());
        } else {
            assert(f == failed_of(b, o).push(x));
            assert(s.to_multiset().add(f.to_multiset()) =~= batch.to_multiset());
        }
    }
}

/// Law: an empty batch partitions into empty succeeded and failed sides.
pub proof fn lemma_empty_batch()
    ensures
        succeeded_of(Seq::<email_request>::empty(), Seq::<bool>::empty()) == Seq::<
            email_request,
        >::empty(),
        failed_of(Seq::<email_request>::empty(), Seq::<bool>::empty()) == Seq::<
            email_request,
        >::empty(),
{
}

/// The partition of one batch after a dispatch pass: the items that were
/// sent and the items that failed, each exactly as originally supplied.
#[derive(Debug, Clone, PartialEq, Eq)]
pub struct DispatchOutcome {
    pub succeeded: Vec<email_request>,
    pub failed: Vec<email_request>,
}

/// Fold per-item outcomes gathered by the bounded-parallel policy's workers
/// back into one dispatch outcome: `sent[i]` reports item `i` of `batch`.
pub fn collect_outcomes(batch: Vec<email_request>, sent: &Vec<bool>) -> (out: DispatchOutcome)
    requires
        sent@.len() == batch@.len(),
    ensures
        out.succeeded@ == succeeded_of(batch@, sent@),
        out.failed@ == failed_of(batch@, sent@),
        out.succeeded@.len() + out.failed@.len() == batch@.len(),
        out.succeeded@.to_multiset().add(out.failed@.to_multiset()) == batch@.to_multiset(),
{
    let ghost b0 = batch@;
    let mut rest = batch;
    let mut succeeded: Vec<email_request> = Vec::new();
    let mut failed: Vec<email_request> = Vec::new();
    let mut i: usize = 0;
    while i < sent.len()
        invariant
            sent@.len() == b0.len(),
            i <= b0.len(),
            rest@ == b0.skip(i as int),
            succeeded@ == succeeded_of(b0.take(i as int), sent@.take(i as int)),
            failed@ == failed_of(b0.take(i as int), sent@.take(i as int)),
        decreases b0.len() - i,
    {
        let head = rest.remove(0);
        proof {
            assert(head == b0[i as int]);
            assert(rest@ =~= b0.skip(i + 1));
            lemma_partition_push(b0.take(i as int), sent@.take(i as int), b0[i as int], sent@[
                i as int
            ]);
            assert(b0.take(i + 1) =~= b0.take(i as int).push(b0[i as int]));
            assert(sent@.take(i + 1) =~= sent@.take(i as int).push(sent@[i as int]));
        }
        if sent[i] {
            succeeded.push(head);
        } else {
            failed.push(head);
        }
        i = i + 1;
    }
    proof {
        assert(b0.take(i as int) =~= b0);
        assert(sent@.take(i as int) =~= sent@);
        lemma_dispatch_accounting(b0, sent@);
        lemma_dispatch_partition(b0, sent@);
    }
    DispatchOutcome { succeeded, failed }
}

/// What the sequential driver must do next for the current batch item.
pub enum StepAction {
    /// A message stands ready for the current item: submit it to the outbound
    /// transport, then report the result with `record`.
    Transmit(OutboundMessage),
    /// The current item failed message construction and was recorded as
    /// failed; no transport call is made for it. Take the next step.
    Proceed,
    /// Every batch item has been attempted.
    Finished,
}

/// The batch dispatcher: walks one batch item by item, collecting per-item
/// failures without aborting the batch. The caller alternates `step`, which
/// either finishes, records a construction failure, or hands back a built
/// message, with `record`, which files the transport's verdict on that
/// message. Once finished, `finish` yields the aggregated outcome.
pub struct BatchDispatcher {
    remaining: Vec<email_request>,
    succeeded: Vec<email_request>,
    failed: Vec<email_request>,
    awaiting: bool,
    batch: Ghost<Seq<email_request>>,
    outcomes: Ghost<Seq<bool>>,
}

impl BatchDispatcher {
    /// The whole batch this dispatcher was created over.
    pub closed spec fn batch(self) -> Seq<email_request> {
        self.batch@
    }

    /// The per-item outcomes recorded so far, in batch order.
    pub closed spec fn outcomes(self) -> Seq<bool> {
        self.outcomes@
    }

    /// How many batch items have been fully attempted.
    pub open spec fn processed(self) -> nat {
        self.outcomes().len()
    }

    /// Whether a message was handed out whose transport verdict is still owed.
    pub closed spec fn awaiting_outcome(self) -> bool {
        self.awaiting
    }

    /// Internal invariant: the collected lists partition the attempted prefix
    /// of the batch according to the recorded outcomes.
    pub closed spec fn wf(self) -> bool {
        let k = self.outcomes@.len() as int;
        &&& self.outcomes@.len() <= self.batch@.len()
        &&& self.remaining@ == self.batch@.skip(k)
        &&& self.succeeded@ == succeeded_of(self.batch@.take(k), self.outcomes@)
        &&& self.failed@ == failed_of(self.batch@.take(k), self.outcomes@)
        &&& (self.awaiting ==> self.outcomes@.len() < self.batch@.len())
    }

    /// Start a dispatch pass over `batch`. No transport call has been made
    /// and nothing is recorded yet.
    pub fn new(batch: Vec<email_request>) -> (d: Self)
        ensures
            d.wf(),
            d.batch() == batch@,
            d.outcomes() == Seq::<bool>::empty(),
            !d.awaiting_outcome(),
    {
        let ghost b = batch@;
        proof {
            assert(b.skip(0) =~= b);
            assert(b.take(0) =~= Seq::<email_request>::empty());
        }
        BatchDispatcher {
            remaining: batch,
            succeeded: Vec::new(),
            failed: Vec::new(),
            awaiting: false,
            batch: Ghost(b),
            outcomes: Ghost(Seq::empty()),
        }
    }

    /// Take the next dispatch step: finish if the batch is exhausted; if the
    /// current item's message cannot be constructed, record it as failed and
    /// ask the caller to proceed; otherwise hand the built message out for
    /// transmission. A construction failure never aborts the batch and
    /// triggers no transport call.
    pub fn step(&mut self, from: &ParsedMailbox) -> (a: StepAction)
        requires
            old(self).wf(),
            !old(self).awaiting_outcome(),
        ensures
            final(self).wf(),
            final(self).batch() == old(self).batch(),
            (a is Finished) <==> old(self).processed() == old(self).batch().len(),
            a is Finished ==> *final(self) == *old(self),
            a matches StepAction::Transmit(m) ==> {
                &&& final(self).outcomes() == old(self).outcomes()
                &&& final(self).awaiting_outcome()
                &&& is_valid_address(
                    old(self).batch()[old(self).processed() as int].to_email@,
                )
                &&& m.sender() == from.address()
                &&& m.recipient() == old(self).batch()[old(self).processed() as int].to_email@
                &&& m.subject() == old(self).batch()[old(self).processed() as int].subject@
                &&& m.body() == old(self).batch()[old(self).processed() as int].body@
            },
            a is Proceed ==> {
                &&& final(self).outcomes() == old(self).outcomes().push(false)
                &&& !final(self).awaiting_outcome()
                &&& !is_valid_address(
                    old(self).batch()[old(self).processed() as int].to_email@,
                )
            },
            (old(self).processed() < old(self).batch().len() && is_valid_address(
                old(self).batch()[old(self).processed() as int].to_email@,
            )) ==> a is Transmit,
    {
        if self.remaining.len() == 0 {
            return StepAction::Finished;
        }
        let built = prepare_message(from, &self.remaining[0]);
        match built {
            Ok(m) => {
                self.awaiting = true;
                StepAction::Transmit(m)
            },
            Err(_) => {
                let ghost k = self.outcomes@.len() as int;
                let head = self.remaining.remove(0);
                self.failed.push(head);
                self.awaiting = false;
                proof {
                    assert(head == self.batch@[k]);
                    assert(self.remaining@ =~= self.batch@.skip(k + 1));
                    lemma_partition_push(
                        self.batch@.take(k),
                        self.outcomes@,
                        self.batch@[k],
                        false,
                    );
                    assert(self.batch@.take(k + 1) =~= self.batch@.take(k).push(self.batch@[k]));
                }
                self.outcomes = Ghost(self.outcomes@.push(false));
                StepAction::Proceed
            },
        }
    }

    /// File the transport's verdict for the message handed out by the last
    /// `step`: the current item moves to succeeded or failed accordingly, and
    /// the batch continues either way.
    pub fn record(&mut self, sent: bool)
        requires
            old(self).wf(),
            old(self).awaiting_outcome(),
        ensures
            final(self).wf(),
            final(self).batch() == old(self).batch(),
            final(self).outcomes() == old(self).outcomes().push(sent),
            !final(self).awaiting_outcome(),
    {
        let ghost k = self.outcomes@.len() as int;
        let head = self.remaining.remove(0);
        if sent {
            self.succeeded.push(head);
        } else {
            self.failed.push(head);
        }
        self.awaiting = false;
        proof {
            assert(head == self.batch@[k]);
            assert(self.remaining@ =~= self.batch@.skip(k + 1));
            lemma_partition_push(self.batch@.take(k), self.outcomes@, self.batch@[k], sent);
            assert(self.batch@.take(k + 1) =~= self.batch@.take(k).push(self.batch@[k]));
        }
        self.outcomes = Ghost(self.outcomes@.push(sent));
    }

    /// Conclude the dispatch pass: every item of the batch stands in exactly
    /// one side of the outcome, as determined by the recorded outcomes.
    pub fn finish(self) -> (out: DispatchOutcome)
        requires
            self.wf(),
            !self.awaiting_outcome(),
            self.processed() == self.batch().len(),
        ensures
            out.succeeded@ == succeeded_of(self.batch(), self.outcomes()),
            out.failed@ == failed_of(self.batch(), self.outcomes()),
            out.succeeded@.len() + out.failed@.len() == self.batch().len(),
            out.succeeded@.to_multiset().add(out.failed@.to_multiset())
                == self.batch().to_multiset(),
    {
        proof {
            assert(self.batch@.take(self.outcomes@.len() as int) =~= self.batch@);
            lemma_dispatch_accounting(self.batch@, self.outcomes@);
            lemma_dispatch_partition(self.batch@, self.outcomes@);
        }
        DispatchOutcome { succeeded: self.succeeded, failed: self.failed }
    }
}

} // verus!
