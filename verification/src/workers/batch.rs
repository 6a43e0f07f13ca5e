//! One batch of pending events per topic. The worker loop hands each message
//! to the batches, flushes a batch to the store when it is full or when the
//! flush timer ticks, and clears it once the store has accepted it.
use vstd::prelude::*;
use crate::clickhouse_rows::{ClickRow, PurchaseRow, ViewRow, is_random_uuid};
use crate::models::{Event, EventType, event_type_of_topic};

verus! {

/// What became of one message from the broker.
#[derive(Debug, Clone, Copy, PartialEq, Eq, Structural)]
pub enum MessageOutcome {
    /// The message held no event that could be read; nothing was queued.
    NoPayload,
    /// The message came on a topic the workers do not batch; nothing was
    /// queued.
    UnknownTopic,
    /// The event was queued; its batch is still below the batch size.
    Queued(EventType),
    /// The event was queued and its batch has reached the batch size: the
    /// batch is to be flushed now.
    FlushDue(EventType),
}

/// The pending events of each topic, and the size at which a batch is
/// flushed.
#[derive(Debug)]
pub struct BatchMap {
    clicks: Vec<Event>,
    views: Vec<Event>,
    purchases: Vec<Event>,
    batch_size: usize,
}

impl BatchMap {
    /// The pending events of one topic, oldest first.
    pub closed spec fn pending(self, t: EventType) -> Seq<Event> {
        match t {
            EventType::Click => self.clicks@,
            EventType::View => self.views@,
            EventType::Purchase => self.purchases@,
        }
    }

    pub closed spec fn spec_batch_size(self) -> usize {
        self.batch_size
    }

    /// The topics with pending events, in flush order.
    pub open spec fn flush_plan(self) -> Seq<EventType> {
        (if self.pending(EventType::Click).len() > 0 { seq![EventType::Click] } else { Seq::empty() })
            + (if self.pending(EventType::View).len() > 0 { seq![EventType::View] } else { Seq::empty() })
            + (if self.pending(EventType::Purchase).len() > 0 { seq![EventType::Purchase] } else { Seq::empty() })
    }

    /// The first topic in flush order that has pending events.
    pub open spec fn first_pending(self) -> Option<EventType> {
        if self.pending(EventType::Click).len() > 0 {
            Some(EventType::Click)
        } else if self.pending(EventType::View).len() > 0 {
            Some(EventType::View)
        } else if self.pending(EventType::Purchase).len() > 0 {
            Some(EventType::Purchase)
        } else {
            None
        }
    }

    /// Empty batches that are flushed at `batch_size` events.
    pub fn new(batch_size: usize) -> (r: BatchMap)
        ensures
            r.spec_batch_size() == batch_size,
            forall|t: EventType| #[trigger] r.pending(t).len() == 0,
    {
        BatchMap { clicks: Vec::new(), views: Vec::new(), purchases: Vec::new(), batch_size }
    }

    pub fn batch_size(&self) -> (r: usize)
        ensures
            r == self.spec_batch_size(),
    {
        self.batch_size
    }

    /// The pending events of one topic.
    pub fn batch(&self, t: EventType) -> (r: &Vec<Event>)
        ensures
            r@ == self.pending(t),
    {
        match t {
            EventType::Click => &self.clicks,
            EventType::View => &self.views,
            EventType::Purchase => &self.purchases,
        }
    }

    /// Queues the event of a message that arrived on `topic`. A message
    /// without a readable event, or on a topic other than the three event
    /// topics, changes nothing. Otherwise the event goes to the end of its
    /// topic's batch, and the outcome says whether that batch is now due
    /// for a flush.
    pub fn handle_message(&mut self, topic: &str, event: Option<Event>) -> (r: MessageOutcome)
        ensures
            final(self).spec_batch_size() == old(self).spec_batch_size(),
            event is None ==> r == MessageOutcome::NoPayload && *final(self) == *old(self),
            event is Some && event_type_of_topic(topic@) is None ==> r == MessageOutcome::UnknownTopic
                && *final(self) == *old(self),
            event matches Some(e) ==> (event_type_of_topic(topic@) matches Some(t) ==> {
                &&& final(self).pending(t) == old(self).pending(t).push(e)
                &&& forall|u: EventType| u != t ==> #[trigger] final(self).pending(u) == old(self).pending(u)
                &&& r == if final(self).pending(t).len() >= old(self).spec_batch_size() {
                    MessageOutcome::FlushDue(t)
                } else {
                    MessageOutcome::Queued(t)
                }
            }),
    {
        let e = match event {
            Some(e) => e,
            None => {
                return MessageOutcome::NoPayload;
            },
        };
        let t = match EventType::from_topic(topic) {
            Some(t) => t,
            None => {
                return MessageOutcome::UnknownTopic;
            },
        };
        let len: usize = match t {
            EventType::Click => {
                self.clicks.push(e);
                self.clicks.len()
            },
            EventType::View => {
                self.views.push(e);
                self.views.len()
            },
            EventType::Purchase => {
                self.purchases.push(e);
                self.purchases.len()
            },
        };
        if len >= self.batch_size {
            MessageOutcome::FlushDue(t)
        } else {
            MessageOutcome::Queued(t)
        }
    }

    /// Drops the pending events of one topic, once the store has taken them.
    pub fn clear(&mut self, t: EventType)
        ensures
            final(self).spec_batch_size() == old(self).spec_batch_size(),
            final(self).pending(t) == Seq::<Event>::empty(),
            forall|u: EventType| u != t ==> #[trigger] final(self).pending(u) == old(self).pending(u),
    {
        match t {
            EventType::Click => self.clicks.clear(),
            EventType::View => self.views.clear(),
            EventType::Purchase => self.purchases.clear(),
        }
    }

    /// The next batch that a full flush writes: the first topic in flush
    /// order with pending events, or `None` when all batches are empty.
    pub fn next_flush(&self) -> (r: Option<EventType>)
        ensures
            r == self.first_pending(),
    {
        if self.clicks.len() > 0 {
            Some(EventType::Click)
        } else if self.views.len() > 0 {
            Some(EventType::View)
        } else if self.purchases.len() > 0 {
            Some(EventType::Purchase)
        } else {
            None
        }
    }
}

/// Flushing everything writes exactly the non-empty batches, once each, in
/// the order clicks, views, purchases: the batch that `next_flush` names is
/// the first of them, and once it is cleared the rest are still to come.
/// When `next_flush` names none, nothing is pending.
pub proof fn law_flush_all_writes_each_pending_batch_once(before: BatchMap, t: EventType, after: BatchMap)
    requires
        before.first_pending() == Some(t),
        after.pending(t) == Seq::<Event>::empty(),
        forall|u: EventType| u != t ==> #[trigger] after.pending(u) == before.pending(u),
    ensures
        before.flush_plan() == seq![t] + after.flush_plan(),
        after.flush_plan().len() + 1 == before.flush_plan().len(),
        before.flush_plan().len() <= 3,
{
    assert(after.pending(EventType::Click) == before.pending(EventType::Click) || t == EventType::Click);
    assert(after.pending(EventType::View) == before.pending(EventType::View) || t == EventType::View);
    assert(after.pending(EventType::Purchase) == before.pending(EventType::Purchase) || t == EventType::Purchase);
    assert(before.flush_plan() =~= seq![t] + after.flush_plan());
}

/// The batch a full flush writes next is a non-empty one, and every batch
/// before it in the order clicks, views, purchases is empty; when there is
/// none, every batch is empty.
pub proof fn law_next_flush_is_first_non_empty(b: BatchMap)
    ensures
        b.first_pending() matches Some(t) ==> {
            &&& b.pending(t).len() > 0
            &&& t != EventType::Click ==> b.pending(EventType::Click).len() == 0
            &&& t == EventType::Purchase ==> b.pending(EventType::View).len() == 0
        },
        b.first_pending() is None ==> forall|t: EventType| #[trigger] b.pending(t).len() == 0,
{
    if b.first_pending() is None {
        law_nothing_pending_when_no_flush_due(b);
    }
}

/// With no batch named by `next_flush`, every batch is empty.
pub proof fn law_nothing_pending_when_no_flush_due(b: BatchMap)
    requires
        b.first_pending() is None,
    ensures
        b.flush_plan().len() == 0,
        forall|t: EventType| #[trigger] b.pending(t).len() == 0,
{
    assert forall|t: EventType| #[trigger] b.pending(t).len() == 0 by {
        match t {
            EventType::Click => {},
            EventType::View => {},
            EventType::Purchase => {},
        }
    }
}

/// The click rows of a batch, in order, each under a fresh random
/// identifier.
pub fn click_rows(batch: &Vec<Event>) -> (r: Vec<ClickRow>)
    ensures
        r.len() == batch.len(),
        forall|i: int| 0 <= i < r.len() ==> #[trigger] r@[i].carries(batch@[i]) && is_random_uuid(r@[i].event_id),
{
    let mut out: Vec<ClickRow> = Vec::new();
    let mut i: usize = 0;
    while i < batch.len()
        invariant
            i <= batch.len(),
            out.len() == i,
            forall|j: int| 0 <= j < i ==> #[trigger] out@[j].carries(batch@[j]) && is_random_uuid(out@[j].event_id),
        decreases batch.len() - i,
    {
        let row = ClickRow::from_event(&batch[i]);
        let ghost before = out@;
        assert(row.carries(batch@[i as int]) && is_random_uuid(row.event_id));
        out.push(row);
        assert(out@[i as int] == row);
        assert forall|j: int| 0 <= j < i + 1 implies #[trigger] out@[j].carries(batch@[j]) && is_random_uuid(
            out@[j].event_id,
        ) by {
            if j < i {
                assert(out@[j] == before[j]);
            }
        }
        i = i + 1;
    }
    out
}

/// The view rows of a batch, in order, each under a fresh random identifier.
pub fn view_rows(batch: &Vec<Event>) -> (r: Vec<ViewRow>)
    ensures
        r.len() == batch.len(),
        forall|i: int| 0 <= i < r.len() ==> #[trigger] r@[i].carries(batch@[i]) && is_random_uuid(r@[i].event_id),
{
    let mut out: Vec<ViewRow> = Vec::new();
    let mut i: usize = 0;
    while i < batch.len()
        invariant
            i <= batch.len(),
            out.len() == i,
            forall|j: int| 0 <= j < i ==> #[trigger] out@[j].carries(batch@[j]) && is_random_uuid(out@[j].event_id),
        decreases batch.len() - i,
    {
        let row = ViewRow::from_event(&batch[i]);
        let ghost before = out@;
        assert(row.carries(batch@[i as int]) && is_random_uuid(row.event_id));
        out.push(row);
        assert(out@[i as int] == row);
        assert forall|j: int| 0 <= j < i + 1 implies #[trigger] out@[j].carries(batch@[j]) && is_random_uuid(
            out@[j].event_id,
        ) by {
            if j < i {
                assert(out@[j] == before[j]);
            }
        }
        i = i + 1;
    }
    out
}

/// The purchase rows of a batch, in order, each under a fresh random
/// identifier.
pub fn purchase_rows(batch: &Vec<Event>) -> (r: Vec<PurchaseRow>)
    ensures
        r.len() == batch.len(),
        forall|i: int| 0 <= i < r.len() ==> #[trigger] r@[i].carries(batch@[i]) && is_random_uuid(r@[i].event_id),
{
    let mut out: Vec<PurchaseRow> = Vec::new();
    let mut i: usize = 0;
    while i < batch.len()
        invariant
            i <= batch.len(),
            out.len() == i,
            forall|j: int| 0 <= j < i ==> #[trigger] out@[j].carries(batch@[j]) && is_random_uuid(out@[j].event_id),
        decreases batch.len() - i,
    {
        let row = PurchaseRow::from_event(&batch[i]);
        let ghost before = out@;
        assert(row.carries(batch@[i as int]) && is_random_uuid(row.event_id));
        out.push(row);
        assert(out@[i as int] == row);
        assert forall|j: int| 0 <= j < i + 1 implies #[trigger] out@[j].carries(batch@[j]) && is_random_uuid(
            out@[j].event_id,
        ) by {
            if j < i {
                assert(out@[j] == before[j]);
            }
        }
        i = i + 1;
    }
    out
}

} // verus!
