//! The dispatch client: a FIFO queue of submitted events behind a one-shot
//! shutdown flag. Submission stamps the shared integration key and enqueues
//! unless the client is already shut down — a silent no-op, never an error.
//! The first shutdown call flips the flag and hands every already-enqueued
//! event over for a draining delivery pass, in submission order; every later
//! call changes nothing. The worker dequeues strictly in submission order, so
//! no two events of one client are ever in delivery at once.

use vstd::prelude::*;
use crate::models::{AlertEvent, AlertEventView, EventStatus, Image};

verus! {

/// The dispatch handle for one integration.
pub struct FlashDutyClient {
    integration_key: String,
    shut_down: bool,
    pending: Vec<AlertEvent>,
}

/// The mathematical value of a client: its key, its shutdown flag, and the
/// queue of events submitted but not yet handed to delivery, earliest first.
#[verifier::ext_equal]
pub struct ClientView {
    pub integration_key: Seq<char>,
    pub shut_down: bool,
    pub pending: Seq<AlertEventView>,
}

impl View for FlashDutyClient {
    type V = ClientView;

    closed spec fn view(&self) -> ClientView {
        ClientView {
            integration_key: self.integration_key@,
            shut_down: self.shut_down,
            pending: self.pending.deep_view(),
        }
    }
}

/// The event one submission builds: the caller's fields stamped with the
/// client's shared integration key.
pub open spec fn spec_submitted_event(
    key: Seq<char>,
    event_status: EventStatus,
    title_rule: Seq<char>,
    alert_key: Option<Seq<char>>,
    description: Option<Seq<char>>,
    labels: Option<Seq<(Seq<char>, Seq<char>)>>,
    images: Option<Seq<crate::models::ImageView>>,
) -> AlertEventView {
    AlertEventView {
        integration_key: key,
        event_status,
        title_rule,
        alert_key,
        description,
        labels,
        images,
    }
}

/// A well-formed client: once the flag is set nothing sits in the queue,
/// because the first shutdown call drained it and no later submission
/// enqueues.
pub open spec fn client_wf(c: ClientView) -> bool {
    c.shut_down ==> c.pending.len() == 0
}

/// Submission: a no-op once the client is shut down, else the stamped event
/// joins the back of the queue.
pub open spec fn spec_submit(c: ClientView, ev: AlertEventView) -> ClientView {
    if c.shut_down {
        c
    } else {
        ClientView { pending: c.pending.push(ev), ..c }
    }
}

/// Shutdown: the first call sets the flag and hands every pending event to
/// the drain, in submission order; every later call changes nothing and
/// hands nothing out.
pub open spec fn spec_shutdown(c: ClientView) -> (ClientView, Option<Seq<AlertEventView>>) {
    if c.shut_down {
        (c, None)
    } else {
        (ClientView { shut_down: true, pending: Seq::empty(), ..c }, Some(c.pending))
    }
}

/// Worker dequeue: the earliest pending event leaves the queue first.
pub open spec fn spec_next_event(c: ClientView) -> (ClientView, Option<AlertEventView>) {
    if c.pending.len() == 0 {
        (c, None)
    } else {
        (ClientView { pending: c.pending.drop_first(), ..c }, Some(c.pending[0]))
    }
}

impl FlashDutyClient {
    /// Creates the client for one integration: running, with an empty queue.
    pub fn new(integration_key: String) -> (r: Self)
        ensures
            r@.integration_key == integration_key@,
            !r@.shut_down,
            r@.pending.len() == 0,
            client_wf(r@),
    {
        let r = FlashDutyClient { integration_key, shut_down: false, pending: Vec::new() };
        proof {
            assert(r@.pending =~= Seq::<AlertEventView>::empty());
        }
        r
    }

    /// Whether the shutdown flag has been set.
    pub fn is_shut_down(&self) -> (r: bool)
        ensures
            r == self@.shut_down,
    {
        self.shut_down
    }

    /// How many events sit in the queue, submitted but not yet handed over.
    pub fn pending_count(&self) -> (r: usize)
        ensures
            r == self@.pending.len(),
    {
        self.pending.len()
    }

    /// Fire-and-forget submission: builds the event, stamps the shared
    /// integration key, and puts the event at the back of the queue — unless
    /// the client is already shut down, in which case nothing is enqueued
    /// and nothing is raised.
    pub fn send_alert(
        &mut self,
        event_status: EventStatus,
        title_rule: String,
        alert_key: Option<String>,
        description: Option<String>,
        labels: Option<Vec<(String, String)>>,
        images: Option<Vec<Image>>,
    )
        requires
            (match labels {
                Some(ls) => crate::models::labels_unique(ls.deep_view()),
                None => true,
            }),
        ensures
            final(self)@ == spec_submit(
                old(self)@,
                spec_submitted_event(
                    old(self)@.integration_key,
                    event_status,
                    title_rule@,
                    alert_key.deep_view(),
                    description.deep_view(),
                    labels.deep_view(),
                    images.deep_view(),
                ),
            ),
    {
        if self.shut_down {
            return ;
        }
        let event = AlertEvent {
            integration_key: self.integration_key.clone(),
            event_status,
            title_rule,
            alert_key,
            description,
            labels,
            images,
        };
        self.pending.push(event);
        proof {
            assert(self@.pending =~= old(self)@.pending.push(event@));
            assert(self@ =~= spec_submit(old(self)@, event@));
        }
    }

    /// The one-shot drain: the first call flips the flag and returns every
    /// pending event, in submission order, for the draining delivery pass;
    /// every later call returns nothing and changes nothing.
    pub fn shutdown(&mut self) -> (drained: Option<Vec<AlertEvent>>)
        ensures
            final(self)@ == spec_shutdown(old(self)@).0,
            drained.deep_view() == spec_shutdown(old(self)@).1,
            final(self)@.shut_down,
            final(self)@.pending.len() == 0 || final(self)@ == old(self)@,
            client_wf(old(self)@) ==> client_wf(final(self)@) && final(self)@.pending.len() == 0,
    {
        if self.shut_down {
            return None;
        }
        self.shut_down = true;
        let mut drained: Vec<AlertEvent> = Vec::new();
        core::mem::swap(&mut drained, &mut self.pending);
        proof {
            assert(self@.pending =~= Seq::<AlertEventView>::empty());
            assert(self@ =~= spec_shutdown(old(self)@).0);
        }
        Some(drained)
    }

    /// Hands the worker the earliest pending event; the queue keeps strict
    /// submission order.
    pub fn next_event(&mut self) -> (r: Option<AlertEvent>)
        ensures
            final(self)@ == spec_next_event(old(self)@).0,
            r.deep_view() == spec_next_event(old(self)@).1,
    {
        if self.pending.len() == 0 {
            return None;
        }
        let ev = self.pending.remove(0);
        proof {
            assert(self@.pending =~= old(self)@.pending.drop_first());
            assert(self@ =~= spec_next_event(old(self)@).0);
        }
        Some(ev)
    }
}

/// Submitting after shutdown never enqueues: the client is unchanged, so no
/// delivery attempt can ever follow from the call.
pub proof fn lemma_submit_after_shutdown(c: ClientView, ev: AlertEventView)
    requires
        c.shut_down,
    ensures
        spec_submit(c, ev) == c,
{
}

/// Every transition preserves well-formedness: a client that starts
/// well-formed stays so through submissions, dequeues and shutdowns.
pub proof fn lemma_wf_preserved(c: ClientView, ev: AlertEventView)
    requires
        client_wf(c),
    ensures
        client_wf(spec_submit(c, ev)),
        client_wf(spec_next_event(c).0),
        client_wf(spec_shutdown(c).0),
{
}

/// Shutdown is idempotent: the first call leaves a shut-down client with an
/// empty queue, and any call on a shut-down client changes nothing and
/// drains nothing, so the teardown happens exactly once.
pub proof fn lemma_shutdown_idempotent(c: ClientView)
    ensures
        spec_shutdown(c).0.shut_down,
        spec_shutdown(spec_shutdown(c).0).0 == spec_shutdown(c).0,
        spec_shutdown(spec_shutdown(c).0).1 is None,
{
}

/// A sequence of submissions, earliest first.
pub open spec fn spec_submit_all(c: ClientView, evs: Seq<AlertEventView>) -> ClientView
    decreases evs.len(),
{
    if evs.len() == 0 {
        c
    } else {
        spec_submit_all(spec_submit(c, evs[0]), evs.drop_first())
    }
}

/// While the client runs, every submission is enqueued behind the earlier
/// ones: the queue holds all of them in exact submission order.
pub proof fn lemma_enqueue_order(c: ClientView, evs: Seq<AlertEventView>)
    requires
        !c.shut_down,
    ensures
        spec_submit_all(c, evs).pending == c.pending + evs,
        !spec_submit_all(c, evs).shut_down,
        spec_submit_all(c, evs).integration_key == c.integration_key,
    decreases evs.len(),
{
    if evs.len() == 0 {
        assert(c.pending + evs =~= c.pending);
    } else {
        lemma_enqueue_order(spec_submit(c, evs[0]), evs.drop_first());
        assert(c.pending.push(evs[0]) + evs.drop_first() =~= c.pending + evs);
    }
}

/// Every event successfully enqueued before the shutdown call is handed to
/// the draining delivery pass by that call, in submission order, and the
/// queue is empty afterwards: no enqueued event is left unattempted.
pub proof fn lemma_shutdown_drains_all(c: ClientView, evs: Seq<AlertEventView>)
    requires
        !c.shut_down,
    ensures
        spec_shutdown(spec_submit_all(c, evs)).1 == Some(c.pending + evs),
        spec_shutdown(spec_submit_all(c, evs)).0.pending.len() == 0,
{
    lemma_enqueue_order(c, evs);
}

/// The worker sees events strictly in submission order: after a sequence of
/// submissions into an empty queue, the first dequeue yields the earliest
/// submission and leaves the rest in order.
pub proof fn lemma_fifo_dequeue(c: ClientView, evs: Seq<AlertEventView>)
    requires
        !c.shut_down,
        c.pending.len() == 0,
        evs.len() > 0,
    ensures
        spec_next_event(spec_submit_all(c, evs)).1 == Some(evs[0]),
        spec_next_event(spec_submit_all(c, evs)).0.pending == evs.drop_first(),
{
    lemma_enqueue_order(c, evs);
    assert(c.pending + evs =~= evs);
    assert((c.pending + evs).drop_first() =~= evs.drop_first());
}

} // verus!
