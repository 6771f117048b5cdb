//! Gateway side of the tunnel: the table of in-flight requests, the table of
//! frames that still wait for an acknowledgement, and the collector that
//! times them out.

use std::collections::HashMap;
use vstd::prelude::*;
use crate::protocol::{
    MessageId, RequestId, ToClientTunnelMessage, ToClientTunnelMessageKind, ToGateway,
    ToServerTunnelMessageKind,
};

verus! {

broadcast use vstd::std_specs::hash::group_hash_axioms;

/// How often the collector runs, in milliseconds.
pub const GC_INTERVAL_MS: u64 = 60000;

/// How long a published frame may wait for its acknowledgement, in milliseconds.
pub const MESSAGE_ACK_TIMEOUT_MS: u64 = 5000;

/// How many items a request's delivery queue holds at most.
pub const DELIVERY_QUEUE_CAPACITY: usize = 128;

/// An item handed to the handler of an in-flight request.
pub enum TunnelMessageData {
    Message(ToServerTunnelMessageKind),
    Timeout,
}

/// A request that a gateway has tunnelled to a runner and not yet finished.
pub struct InFlightRequest {
    /// Broker subject of the runner that handles this request.
    pub receiver_subject: String,
    /// Items waiting for the request's handler, oldest first. The queue is
    /// part of the gateway's state, so what the receiver and the collector
    /// put in it is stated exactly; the handler takes items with `recv`.
    pub queue: Vec<TunnelMessageData>,
    /// True once the first frame of this request has been published.
    pub opened: bool,
}

/// A published frame whose acknowledgement has not arrived.
pub struct PendingMessage {
    pub message_id: MessageId,
    pub request_id: RequestId,
    /// When the frame was published, in milliseconds.
    pub send_instant: u64,
}

/// A frame to publish on the broker.
pub struct Publish {
    pub subject: String,
    pub message: ToClientTunnelMessage,
}

/// Why a frame could not be sent.
#[derive(Debug, PartialEq, Eq, Structural)]
pub enum GatewayError {
    RequestNotInFlight,
}

/// The tables of one gateway process.
pub struct SharedState {
    /// Broker subject on which this gateway receives replies.
    pub receiver_subject: String,
    pub requests_in_flight: HashMap<RequestId, InFlightRequest>,
    /// Frames waiting for an acknowledgement, in the order they were published.
    pub pending_messages: Vec<PendingMessage>,
}

/// Appends an item to a delivery queue unless the queue is full.
pub open spec fn enqueue(q: Seq<TunnelMessageData>, item: TunnelMessageData) -> Seq<
    TunnelMessageData,
> {
    if q.len() < DELIVERY_QUEUE_CAPACITY {
        q.push(item)
    } else {
        q
    }
}

/// A delivery queue after `n` timeouts were offered to it.
pub open spec fn with_timeouts(q: Seq<TunnelMessageData>, n: nat) -> Seq<TunnelMessageData>
    decreases n,
{
    if n == 0 {
        q
    } else {
        enqueue(with_timeouts(q, (n - 1) as nat), TunnelMessageData::Timeout)
    }
}

/// Whether a frame published at `sent` has waited longer than the ack timeout at `now`.
pub open spec fn is_expired(sent: u64, now: u64) -> bool {
    now > sent + MESSAGE_ACK_TIMEOUT_MS
}

/// The pending frames of `s` that have not expired at `now`, in order.
pub open spec fn unexpired(s: Seq<PendingMessage>, now: u64) -> Seq<PendingMessage>
    decreases s.len(),
{
    if s.len() == 0 {
        s
    } else {
        let rest = unexpired(s.drop_last(), now);
        if is_expired(s.last().send_instant, now) {
            rest
        } else {
            rest.push(s.last())
        }
    }
}

/// How many pending frames of `s` that belong to request `id` have expired at `now`.
pub open spec fn expired_count(s: Seq<PendingMessage>, id: RequestId, now: u64) -> nat
    decreases s.len(),
{
    if s.len() == 0 {
        0
    } else {
        let rest = expired_count(s.drop_last(), id, now);
        if s.last().request_id == id && is_expired(s.last().send_instant, now) {
            rest + 1
        } else {
            rest
        }
    }
}

/// The pending frames of `s` whose message id differs from `mid`, in order.
pub open spec fn without_message(s: Seq<PendingMessage>, mid: MessageId) -> Seq<PendingMessage>
    decreases s.len(),
{
    if s.len() == 0 {
        s
    } else {
        let rest = without_message(s.drop_last(), mid);
        if s.last().message_id == mid {
            rest
        } else {
            rest.push(s.last())
        }
    }
}

/// The pending frames of `s` that do not belong to request `id`, in order.
pub open spec fn without_request(s: Seq<PendingMessage>, id: RequestId) -> Seq<PendingMessage>
    decreases s.len(),
{
    if s.len() == 0 {
        s
    } else {
        let rest = without_request(s.drop_last(), id);
        if s.last().request_id == id {
            rest
        } else {
            rest.push(s.last())
        }
    }
}

pub open spec fn reply_to_view(o: Option<String>) -> Option<Seq<char>> {
    match o {
        Some(s) => Some(s@),
        None => None,
    }
}

proof fn lemma_expired_count_zero(s: Seq<PendingMessage>, id: RequestId, now: u64)
    requires
        forall|j: int|
            0 <= j < s.len() && (#[trigger] s[j]).request_id == id ==> !is_expired(s[j].send_instant, now),
    ensures
        expired_count(s, id, now) == 0,
    decreases s.len(),
{
    if s.len() > 0 {
        lemma_expired_count_zero(s.drop_last(), id, now);
    }
}

proof fn lemma_expired_count_one(s: Seq<PendingMessage>, i: int, now: u64)
    requires
        0 <= i < s.len(),
        is_expired(s[i].send_instant, now),
        forall|j: int|
            0 <= j < s.len() && j != i && (#[trigger] s[j]).request_id == s[i].request_id
                ==> !is_expired(s[j].send_instant, now),
    ensures
        expired_count(s, s[i].request_id, now) == 1,
    decreases s.len(),
{
    let id = s[i].request_id;
    if i == s.len() - 1 {
        let t = s.drop_last();
        assert forall|j: int| 0 <= j < t.len() && (#[trigger] t[j]).request_id == id implies !is_expired(
            t[j].send_instant,
            now,
        ) by {
            assert(t[j] == s[j]);
        }
        lemma_expired_count_zero(t, id, now);
    } else {
        let t = s.drop_last();
        assert(t[i] == s[i]);
        assert forall|j: int| 0 <= j < t.len() && j != i && (#[trigger] t[j]).request_id == t[i].request_id
            implies !is_expired(t[j].send_instant, now) by {
            assert(t[j] == s[j]);
        }
        lemma_expired_count_one(t, i, now);
    }
}

proof fn lemma_unexpired_all_fresh(s: Seq<PendingMessage>, now: u64)
    ensures
        forall|k: int|
            0 <= k < unexpired(s, now).len() ==> !is_expired(
                (#[trigger] unexpired(s, now)[k]).send_instant,
                now,
            ),
    decreases s.len(),
{
    if s.len() > 0 {
        lemma_unexpired_all_fresh(s.drop_last(), now);
        let rest = unexpired(s.drop_last(), now);
        assert forall|k: int| 0 <= k < unexpired(s, now).len() implies !is_expired(
            (#[trigger] unexpired(s, now)[k]).send_instant,
            now,
        ) by {
            if k < rest.len() {
                assert(unexpired(s, now)[k] == rest[k]);
            }
        }
    }
}

/// A frame that is never acknowledged is reaped by the first collection
/// after its ack timeout, and its request's delivery queue is offered exactly
/// one timeout for it: where it is the request's only expired frame, the
/// queue gains one `Timeout` (if there is room) and nothing else. No frame
/// that remains pending has expired.
pub proof fn lemma_unacked_frame_times_out(
    pending: Seq<PendingMessage>,
    i: int,
    q: Seq<TunnelMessageData>,
    now: u64,
)
    requires
        0 <= i < pending.len(),
        is_expired(pending[i].send_instant, now),
        forall|j: int|
            0 <= j < pending.len() && j != i && (#[trigger] pending[j]).request_id
                == pending[i].request_id ==> !is_expired(pending[j].send_instant, now),
    ensures
        with_timeouts(q, expired_count(pending, pending[i].request_id, now)) == enqueue(
            q,
            TunnelMessageData::Timeout,
        ),
        q.len() < DELIVERY_QUEUE_CAPACITY ==> with_timeouts(
            q,
            expired_count(pending, pending[i].request_id, now),
        ) == q.push(TunnelMessageData::Timeout),
        forall|k: int|
            0 <= k < unexpired(pending, now).len() ==> !is_expired(
                (#[trigger] unexpired(pending, now)[k]).send_instant,
                now,
            ),
{
    lemma_expired_count_one(pending, i, now);
    assert(with_timeouts(q, 0) == q);
    assert(with_timeouts(q, 1) == enqueue(with_timeouts(q, 0), TunnelMessageData::Timeout));
    lemma_unexpired_all_fresh(pending, now);
}

/// The reply subject a request's frame carries: the gateway's own subject
/// while the request is not opened, none afterwards.
pub open spec fn reply_to_for(opened: bool, gateway_subject: Seq<char>) -> Option<Seq<char>> {
    if opened {
        None
    } else {
        Some(gateway_subject)
    }
}

/// The reply subjects of `n` frames sent one after the other on a request
/// whose flag starts at `opened`; every send leaves the flag set.
pub open spec fn reply_tos(opened: bool, n: nat, gateway_subject: Seq<char>) -> Seq<Option<Seq<char>>>
    decreases n,
{
    if n == 0 {
        Seq::empty()
    } else {
        seq![reply_to_for(opened, gateway_subject)] + reply_tos(true, (n - 1) as nat, gateway_subject)
    }
}

proof fn lemma_opened_reply_tos_empty(n: nat, s: Seq<char>)
    ensures
        reply_tos(true, n, s).len() == n,
        forall|k: int| 0 <= k < n ==> (#[trigger] reply_tos(true, n, s)[k]) is None,
    decreases n,
{
    if n > 0 {
        lemma_opened_reply_tos_empty((n - 1) as nat, s);
        let t = reply_tos(true, (n - 1) as nat, s);
        assert forall|k: int| 0 <= k < n implies (#[trigger] reply_tos(true, n, s)[k]) is None by {
            if k > 0 {
                assert(reply_tos(true, n, s)[k] == t[k - 1]);
            }
        }
    }
}

/// The opened flag flips once: of the frames sent on a new request, the
/// first carries the gateway's reply subject and no later one does.
pub proof fn lemma_reply_to_only_on_first_frame(n: nat, gateway_subject: Seq<char>)
    ensures
        reply_tos(false, n, gateway_subject).len() == n,
        n > 0 ==> reply_tos(false, n, gateway_subject)[0] == Some(gateway_subject),
        forall|k: int| 0 < k < n ==> (#[trigger] reply_tos(false, n, gateway_subject)[k]) is None,
{
    if n > 0 {
        lemma_opened_reply_tos_empty((n - 1) as nat, gateway_subject);
        let t = reply_tos(true, (n - 1) as nat, gateway_subject);
        assert forall|k: int| 0 < k < n implies (#[trigger] reply_tos(false, n, gateway_subject)[k]) is None by {
            assert(reply_tos(false, n, gateway_subject)[k] == t[k - 1]);
        }
    }
}

impl SharedState {
    /// Every delivery queue is within its capacity, and every pending frame
    /// belongs to a request that is still in flight.
    pub open spec fn wf(&self) -> bool {
        &&& forall|id: RequestId| #[trigger]
            self.requests_in_flight@.contains_key(id)
                ==> self.requests_in_flight@[id].queue@.len() <= DELIVERY_QUEUE_CAPACITY
        &&& forall|i: int|
            0 <= i < self.pending_messages@.len() ==> self.requests_in_flight@.contains_key(
                #[trigger] self.pending_messages@[i].request_id,
            )
    }

    /// A gateway with no request in flight, receiving on `receiver_subject`.
    pub fn new(receiver_subject: String) -> (r: SharedState)
        ensures
            r.wf(),
            r.receiver_subject@ == receiver_subject@,
            r.requests_in_flight@ == Map::<RequestId, InFlightRequest>::empty(),
            r.pending_messages@ == Seq::<PendingMessage>::empty(),
    {
        SharedState {
            receiver_subject,
            requests_in_flight: HashMap::new(),
            pending_messages: Vec::new(),
        }
    }

    /// Installs request `request_id`, not yet opened, with an empty delivery
    /// queue. An id that is already in flight is refused and nothing changes.
    pub fn start_in_flight_request(&mut self, request_id: RequestId, receiver_subject: String) -> (r: bool)
        requires
            old(self).wf(),
        ensures
            final(self).wf(),
            r == !old(self).requests_in_flight@.contains_key(request_id),
            final(self).receiver_subject == old(self).receiver_subject,
            final(self).pending_messages@ == old(self).pending_messages@,
            !r ==> final(self).requests_in_flight@ == old(self).requests_in_flight@,
            r ==> final(self).requests_in_flight@ == old(self).requests_in_flight@.insert(
                request_id,
                InFlightRequest { receiver_subject, queue: final(self).requests_in_flight@[request_id].queue, opened: false },
            ),
            r ==> final(self).requests_in_flight@[request_id].queue@.len() == 0,
    {
        if self.requests_in_flight.contains_key(&request_id) {
            return false;
        }
        let req = InFlightRequest { receiver_subject, queue: Vec::new(), opened: false };
        self.requests_in_flight.insert(request_id, req);
        true
    }

    /// Prepares frame `message_id` of request `request_id` for publishing at
    /// `now`: records it as pending and marks the request opened. The first
    /// frame of a request carries this gateway's receiver subject as
    /// `gateway_reply_to`; later frames carry none. A request that is not in
    /// flight is an error and changes nothing.
    pub fn send_message(
        &mut self,
        request_id: RequestId,
        message_id: MessageId,
        message_kind: ToClientTunnelMessageKind,
        now: u64,
    ) -> (r: Result<Publish, GatewayError>)
        requires
            old(self).wf(),
        ensures
            final(self).wf(),
            final(self).receiver_subject == old(self).receiver_subject,
            !old(self).requests_in_flight@.contains_key(request_id) ==> {
                &&& r == Err::<Publish, GatewayError>(GatewayError::RequestNotInFlight)
                &&& final(self).requests_in_flight@ == old(self).requests_in_flight@
                &&& final(self).pending_messages@ == old(self).pending_messages@
            },
            old(self).requests_in_flight@.contains_key(request_id) ==> {
                let req = old(self).requests_in_flight@[request_id];
                &&& r is Ok
                &&& r->Ok_0.subject@ == req.receiver_subject@
                &&& r->Ok_0.message.request_id == request_id
                &&& r->Ok_0.message.message_id == message_id
                &&& r->Ok_0.message.message_kind == message_kind
                &&& reply_to_view(r->Ok_0.message.gateway_reply_to) == reply_to_for(
                    req.opened,
                    old(self).receiver_subject@,
                )
                &&& final(self).requests_in_flight@ == old(self).requests_in_flight@.insert(
                    request_id,
                    InFlightRequest { opened: true, ..req },
                )
                &&& final(self).pending_messages@ == old(self).pending_messages@.push(
                    PendingMessage { message_id, request_id, send_instant: now },
                )
            },
    {
        let removed = self.requests_in_flight.remove(&request_id);
        match removed {
            None => Err(GatewayError::RequestNotInFlight),
            Some(req) => {
                let subject = req.receiver_subject.clone();
                let include_reply_to = !req.opened;
                let opened_req = InFlightRequest { opened: true, ..req };
                self.requests_in_flight.insert(request_id, opened_req);
                self.pending_messages.push(
                    PendingMessage { message_id, request_id, send_instant: now },
                );
                let gateway_reply_to = if include_reply_to {
                    Some(self.receiver_subject.clone())
                } else {
                    None
                };
                let message = ToClientTunnelMessage {
                    request_id,
                    message_id,
                    gateway_reply_to,
                    message_kind,
                };
                Ok(Publish { subject, message })
            },
        }
    }

    /// Drops every pending frame with message id `mid`.
    fn remove_pending_message(&mut self, mid: MessageId)
        requires
            old(self).wf(),
        ensures
            final(self).wf(),
            final(self).receiver_subject == old(self).receiver_subject,
            final(self).requests_in_flight@ == old(self).requests_in_flight@,
            final(self).pending_messages@ == without_message(old(self).pending_messages@, mid),
    {
        let ghost old_pending = self.pending_messages@;
        let mut kept: Vec<PendingMessage> = Vec::new();
        let mut i: usize = 0;
        while i < self.pending_messages.len()
            invariant
                old(self).wf(),
                self.pending_messages@ == old_pending,
                self.requests_in_flight@ == old(self).requests_in_flight@,
                self.receiver_subject == old(self).receiver_subject,
                old_pending == old(self).pending_messages@,
                0 <= i <= old_pending.len(),
                kept@ == without_message(old_pending.take(i as int), mid),
                forall|j: int|
                    0 <= j < kept@.len() ==> self.requests_in_flight@.contains_key(
                        #[trigger] kept@[j].request_id,
                    ),
            decreases old_pending.len() - i,
        {
            let p = &self.pending_messages[i];
            proof {
                assert(old_pending.take(i as int + 1).drop_last() =~= old_pending.take(i as int));
            }
            if p.message_id != mid {
                kept.push(PendingMessage { message_id: p.message_id, request_id: p.request_id, send_instant: p.send_instant });
            }
            i = i + 1;
        }
        proof {
            assert(old_pending.take(old_pending.len() as int) =~= old_pending);
        }
        self.pending_messages = kept;
    }

    /// Handles one frame that arrived on this gateway's receiver subject. An
    /// acknowledgement drops the pending frames it acknowledges. Any other
    /// frame of a request in flight is offered to that request's delivery
    /// queue, and an acknowledgement with id `ack_message_id` is returned, to be
    /// published back to the runner. A frame of an unknown request is dropped.
    pub fn handle_tunnel_frame(&mut self, frame: ToGateway, ack_message_id: MessageId) -> (r: Option<Publish>)
        requires
            old(self).wf(),
        ensures
            final(self).wf(),
            final(self).receiver_subject == old(self).receiver_subject,
            frame.message.message_kind is TunnelAck ==> {
                &&& r is None
                &&& final(self).requests_in_flight@ == old(self).requests_in_flight@
                &&& final(self).pending_messages@ == without_message(
                    old(self).pending_messages@,
                    frame.message.message_id,
                )
            },
            !(frame.message.message_kind is TunnelAck) ==> final(self).pending_messages@ == old(self).pending_messages@,
            !(frame.message.message_kind is TunnelAck) && !old(self).requests_in_flight@.contains_key(frame.message.request_id) ==> {
                &&& r is None
                &&& final(self).requests_in_flight@ == old(self).requests_in_flight@
            },
            !(frame.message.message_kind is TunnelAck) && old(self).requests_in_flight@.contains_key(frame.message.request_id) ==> {
                let id = frame.message.request_id;
                let req = old(self).requests_in_flight@[id];
                &&& final(self).requests_in_flight@.dom() == old(self).requests_in_flight@.dom()
                &&& final(self).requests_in_flight@ == old(self).requests_in_flight@.insert(
                    id,
                    InFlightRequest { queue: final(self).requests_in_flight@[id].queue, ..req },
                )
                &&& final(self).requests_in_flight@[id].queue@ == enqueue(
                    req.queue@,
                    TunnelMessageData::Message(frame.message.message_kind),
                )
                &&& r is Some
                &&& r->Some_0.subject@ == req.receiver_subject@
                &&& r->Some_0.message.request_id == id
                &&& r->Some_0.message.message_id == ack_message_id
                &&& r->Some_0.message.gateway_reply_to is None
                &&& r->Some_0.message.message_kind is TunnelAck
            },
    {
        let msg = frame.message;
        if let ToServerTunnelMessageKind::TunnelAck = msg.message_kind {
            self.remove_pending_message(msg.message_id);
            return None;
        }
        let request_id = msg.request_id;
        let removed = self.requests_in_flight.remove(&request_id);
        match removed {
            None => None,
            Some(req) => {
                let mut req = req;
                if req.queue.len() < DELIVERY_QUEUE_CAPACITY {
                    req.queue.push(TunnelMessageData::Message(msg.message_kind));
                }
                let subject = req.receiver_subject.clone();
                self.requests_in_flight.insert(request_id, req);
                let message = ToClientTunnelMessage {
                    request_id,
                    message_id: ack_message_id,
                    gateway_reply_to: None,
                    message_kind: ToClientTunnelMessageKind::TunnelAck,
                };
                Some(Publish { subject, message })
            },
        }
    }

    /// Offers a timeout to the delivery queue of request `id`, if it is in flight.
    fn offer_timeout(&mut self, id: RequestId)
        requires
            old(self).wf(),
        ensures
            final(self).wf(),
            final(self).receiver_subject == old(self).receiver_subject,
            final(self).pending_messages@ == old(self).pending_messages@,
            final(self).requests_in_flight@.dom() == old(self).requests_in_flight@.dom(),
            forall|k: RequestId| #[trigger] final(self).requests_in_flight@.contains_key(k) && k != id
                ==> final(self).requests_in_flight@[k] == old(self).requests_in_flight@[k],
            old(self).requests_in_flight@.contains_key(id) ==> {
                let req = old(self).requests_in_flight@[id];
                let now_req = final(self).requests_in_flight@[id];
                &&& now_req.receiver_subject == req.receiver_subject
                &&& now_req.opened == req.opened
                &&& now_req.queue@ == enqueue(req.queue@, TunnelMessageData::Timeout)
            },
    {
        let removed = self.requests_in_flight.remove(&id);
        if let Some(req) = removed {
            let mut req = req;
            if req.queue.len() < DELIVERY_QUEUE_CAPACITY {
                req.queue.push(TunnelMessageData::Timeout);
            }
            self.requests_in_flight.insert(id, req);
        }
        proof {
            assert(self.requests_in_flight@.dom() =~= old(self).requests_in_flight@.dom());
        }
    }

    /// One pass of the collector at time `now`: every pending frame that has
    /// waited longer than the ack timeout is dropped, and for each such frame
    /// one timeout is offered to its request's delivery queue.
    pub fn gc(&mut self, now: u64)
        requires
            old(self).wf(),
        ensures
            final(self).wf(),
            final(self).receiver_subject == old(self).receiver_subject,
            final(self).pending_messages@ == unexpired(old(self).pending_messages@, now),
            final(self).requests_in_flight@.dom() == old(self).requests_in_flight@.dom(),
            forall|id: RequestId| #[trigger] final(self).requests_in_flight@.contains_key(id) ==> {
                let req = old(self).requests_in_flight@[id];
                let now_req = final(self).requests_in_flight@[id];
                &&& now_req.receiver_subject == req.receiver_subject
                &&& now_req.opened == req.opened
                &&& now_req.queue@ == with_timeouts(
                    req.queue@,
                    expired_count(old(self).pending_messages@, id, now),
                )
            },
    {
        let ghost old_pending = old(self).pending_messages@;
        let ghost old_map = old(self).requests_in_flight@;
        let mut pending: Vec<PendingMessage> = Vec::new();
        std::mem::swap(&mut pending, &mut self.pending_messages);
        let mut kept: Vec<PendingMessage> = Vec::new();
        let mut i: usize = 0;
        while i < pending.len()
            invariant
                pending@ == old_pending,
                0 <= i <= old_pending.len(),
                self.receiver_subject == old(self).receiver_subject,
                self.pending_messages@.len() == 0,
                self.requests_in_flight@.dom() == old_map.dom(),
                forall|j: int|
                    0 <= j < old_pending.len() ==> old_map.contains_key(
                        #[trigger] old_pending[j].request_id,
                    ),
                forall|id: RequestId| #[trigger] self.requests_in_flight@.contains_key(id) ==> {
                    let req = old_map[id];
                    let now_req = self.requests_in_flight@[id];
                    &&& now_req.receiver_subject == req.receiver_subject
                    &&& now_req.opened == req.opened
                    &&& now_req.queue@ == with_timeouts(
                        req.queue@,
                        expired_count(old_pending.take(i as int), id, now),
                    )
                    &&& now_req.queue@.len() <= DELIVERY_QUEUE_CAPACITY
                },
                kept@ == unexpired(old_pending.take(i as int), now),
                forall|j: int|
                    0 <= j < kept@.len() ==> old_map.contains_key(#[trigger] kept@[j].request_id),
            decreases old_pending.len() - i,
        {
            let p = &pending[i];
            let ghost before = self.requests_in_flight@;
            proof {
                assert(old_pending.take(i as int + 1).drop_last() =~= old_pending.take(i as int));
                assert(old_pending.take(i as int + 1).last() == old_pending[i as int]);
            }
            if now > p.send_instant && now - p.send_instant > MESSAGE_ACK_TIMEOUT_MS {
                self.offer_timeout(p.request_id);
            } else {
                kept.push(PendingMessage { message_id: p.message_id, request_id: p.request_id, send_instant: p.send_instant });
            }
            proof {
                assert forall|id: RequestId| #[trigger] self.requests_in_flight@.contains_key(id) implies
                    self.requests_in_flight@[id].queue@ == with_timeouts(
                        old_map[id].queue@,
                        expired_count(old_pending.take(i as int + 1), id, now),
                    ) by {
                    assert(before.contains_key(id));
                }
            }
            i = i + 1;
        }
        proof {
            assert(old_pending.take(old_pending.len() as int) =~= old_pending);
        }
        self.pending_messages = kept;
    }

    /// Takes the oldest item of request `request_id`'s delivery queue, if any.
    pub fn recv(&mut self, request_id: RequestId) -> (r: Option<TunnelMessageData>)
        requires
            old(self).wf(),
        ensures
            final(self).wf(),
            final(self).receiver_subject == old(self).receiver_subject,
            final(self).pending_messages@ == old(self).pending_messages@,
            !old(self).requests_in_flight@.contains_key(request_id)
                || old(self).requests_in_flight@[request_id].queue@.len() == 0 ==> {
                &&& r is None
                &&& final(self).requests_in_flight@ == old(self).requests_in_flight@
            },
            old(self).requests_in_flight@.contains_key(request_id)
                && old(self).requests_in_flight@[request_id].queue@.len() > 0 ==> {
                let req = old(self).requests_in_flight@[request_id];
                &&& r == Some(req.queue@[0])
                &&& final(self).requests_in_flight@ == old(self).requests_in_flight@.insert(
                    request_id,
                    InFlightRequest { queue: final(self).requests_in_flight@[request_id].queue, ..req },
                )
                &&& final(self).requests_in_flight@[request_id].queue@ == req.queue@.drop_first()
            },
    {
        let removed = self.requests_in_flight.remove(&request_id);
        match removed {
            None => None,
            Some(req) => {
                let mut req = req;
                if req.queue.len() == 0 {
                    self.requests_in_flight.insert(request_id, req);
                    proof {
                        assert(self.requests_in_flight@ =~= old(self).requests_in_flight@);
                    }
                    None
                } else {
                    let item = req.queue.remove(0);
                    self.requests_in_flight.insert(request_id, req);
                    Some(item)
                }
            },
        }
    }

    /// Ends request `request_id`: its handler is gone, so the request and
    /// every frame of it that still waits for an acknowledgement are dropped.
    pub fn finish_request(&mut self, request_id: RequestId)
        requires
            old(self).wf(),
        ensures
            final(self).wf(),
            final(self).receiver_subject == old(self).receiver_subject,
            final(self).requests_in_flight@ == old(self).requests_in_flight@.remove(request_id),
            final(self).pending_messages@ == without_request(old(self).pending_messages@, request_id),
    {
        let ghost old_pending = self.pending_messages@;
        let mut pending: Vec<PendingMessage> = Vec::new();
        std::mem::swap(&mut pending, &mut self.pending_messages);
        let mut kept: Vec<PendingMessage> = Vec::new();
        let mut i: usize = 0;
        while i < pending.len()
            invariant
                pending@ == old_pending,
                old_pending == old(self).pending_messages@,
                old(self).wf(),
                0 <= i <= old_pending.len(),
                kept@ == without_request(old_pending.take(i as int), request_id),
                forall|j: int|
                    0 <= j < kept@.len() ==> (#[trigger] kept@[j]).request_id != request_id
                        && old(self).requests_in_flight@.contains_key(kept@[j].request_id),
            decreases old_pending.len() - i,
        {
            let p = &pending[i];
            proof {
                assert(old_pending.take(i as int + 1).drop_last() =~= old_pending.take(i as int));
            }
            if p.request_id != request_id {
                kept.push(PendingMessage { message_id: p.message_id, request_id: p.request_id, send_instant: p.send_instant });
            }
            i = i + 1;
        }
        proof {
            assert(old_pending.take(old_pending.len() as int) =~= old_pending);
        }
        self.pending_messages = kept;
        self.requests_in_flight.remove(&request_id);
    }
}

} // verus!
