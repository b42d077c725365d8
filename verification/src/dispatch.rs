//! The dispatcher's bookkeeping: which calls are in flight, when the service
//! was last active, and when it may shut down for idleness.
//!
//! Time is a count of milliseconds on a monotonic clock. Each call gets a
//! ticket when it arrives; its reply is sent when the ticket is handed back.

use vstd::prelude::*;

verus! {

/// How long the service stays up without calls or work, in milliseconds.
pub const IDLE_THRESHOLD_MS: u64 = 30000;

/// The longest that one poll of the connection may block, in milliseconds.
pub const POLL_INTERVAL_MS: u64 = 100;

/// One item polled from the bus connection, with the message it carries.
#[derive(Debug, PartialEq, Eq)]
pub enum ConnectionItem<M> {
    /// The poll timed out, or the item carries no message.
    Nothing,
    /// A peer calls one of the service's methods.
    MethodCall(M),
    /// A signal that the connection listens for.
    Signal(M),
    /// A reply to a call that the service itself made.
    MethodReturn(M),
}

impl<M> ConnectionItem<M> {
    /// The message that the item carries, if any.
    pub open spec fn message(self) -> Option<M> {
        match self {
            ConnectionItem::Nothing => None,
            ConnectionItem::MethodCall(m) => Some(m),
            ConnectionItem::Signal(m) => Some(m),
            ConnectionItem::MethodReturn(m) => Some(m),
        }
    }

    /// Takes the message out of the item.
    pub fn into_message(self) -> (m: Option<M>)
        ensures
            m == self.message(),
    {
        match self {
            ConnectionItem::MethodCall(m) => Some(m),
            ConnectionItem::Signal(m) => Some(m),
            ConnectionItem::MethodReturn(m) => Some(m),
            ConnectionItem::Nothing => None,
        }
    }
}

/// A reply on its way to the bus: what to send, and the ticket of the call
/// that it answers.
#[derive(Debug, PartialEq, Eq)]
pub struct PendingReply<R> {
    pub destination: u64,
    pub reply: R,
}

/// What the dispatcher knows, as mathematics.
pub ghost struct DispatcherModel {
    /// The latest instant at which a call arrived or a reply was drained.
    pub last_activity: u64,
    /// The tickets of the calls whose replies have not been drained.
    pub in_flight: Set<u64>,
    /// The ticket that the next call will get.
    pub next_ticket: u64,
}

/// The later of two instants.
pub open spec fn later(a: u64, b: u64) -> u64 {
    if a >= b {
        a
    } else {
        b
    }
}

/// Every ticket in flight was handed out before.
pub open spec fn tickets_issued(m: DispatcherModel) -> bool {
    forall|t: u64| m.in_flight.contains(t) ==> t < m.next_ticket
}

/// The service is idle at `now`: nothing is in flight, and the threshold has
/// passed since the last activity.
pub open spec fn idle_at(m: DispatcherModel, now: u64) -> bool {
    m.in_flight =~= Set::empty() && now - m.last_activity >= IDLE_THRESHOLD_MS
}

/// The state after a call arrived at `now`.
pub open spec fn arrived(m: DispatcherModel, now: u64) -> DispatcherModel {
    DispatcherModel {
        last_activity: later(m.last_activity, now),
        in_flight: m.in_flight.insert(m.next_ticket),
        next_ticket: (m.next_ticket + 1) as u64,
    }
}

/// The state after the reply for `ticket` was drained at `now`. A ticket
/// that is not in flight changes nothing.
pub open spec fn completed(m: DispatcherModel, ticket: u64, now: u64) -> DispatcherModel {
    if m.in_flight.contains(ticket) {
        DispatcherModel {
            last_activity: later(m.last_activity, now),
            in_flight: m.in_flight.remove(ticket),
            next_ticket: m.next_ticket,
        }
    } else {
        m
    }
}

/// The dispatcher's record of activity and outstanding work.
#[derive(Debug)]
pub struct Dispatcher {
    last_activity: u64,
    tickets: Vec<u64>,
    next_ticket: u64,
}

impl Dispatcher {
    /// The model of this record.
    pub closed spec fn view(&self) -> DispatcherModel {
        DispatcherModel {
            last_activity: self.last_activity,
            in_flight: self.tickets@.to_set(),
            next_ticket: self.next_ticket,
        }
    }

    /// No ticket is held twice, and each was handed out before.
    pub closed spec fn wf(&self) -> bool {
        &&& self.tickets@.no_duplicates()
        &&& forall|i: int| 0 <= i < self.tickets@.len() ==> self.tickets@[i] < self.next_ticket
    }

    /// A well-formed record is a model in which every ticket in flight was
    /// issued, and the tickets in flight are finitely many.
    pub proof fn lemma_wf_model(&self)
        requires
            self.wf(),
        ensures
            tickets_issued(self@),
            self@.in_flight.finite(),
    {
        vstd::seq_lib::seq_to_set_is_finite(self.tickets@);
        assert forall|t: u64| self@.in_flight.contains(t) implies t < self@.next_ticket by {
            let i = choose|i: int| 0 <= i < self.tickets@.len() && self.tickets@[i] == t;
            assert(self.tickets@[i] < self.next_ticket);
        }
    }

    /// A dispatcher that starts at `now` with nothing in flight.
    pub fn new(now: u64) -> (d: Dispatcher)
        ensures
            d.wf(),
            d@ == (DispatcherModel {
                last_activity: now,
                in_flight: Set::<u64>::empty(),
                next_ticket: 0,
            }),
    {
        let d = Dispatcher { last_activity: now, tickets: Vec::new(), next_ticket: 0 };
        proof {
            assert(d.tickets@.to_set() =~= Set::<u64>::empty());
        }
        d
    }

    /// Takes one polled item at `now`. An item with a message counts as an
    /// arriving call: it gets the next ticket, and the message comes back with
    /// it for a worker to handle. Any other item changes nothing.
    pub fn on_item<M>(&mut self, item: ConnectionItem<M>, now: u64) -> (work: Option<(u64, M)>)
        requires
            old(self).wf(),
            old(self)@.next_ticket < u64::MAX,
        ensures
            final(self).wf(),
            match item.message() {
                Some(m) => work == Some((old(self)@.next_ticket, m)) && final(self)@ == arrived(
                    old(self)@,
                    now,
                ),
                None => work is None && final(self)@ == old(self)@,
            },
    {
        match item.into_message() {
            None => None,
            Some(m) => {
                let ticket: u64 = self.next_ticket;
                let ghost before = self.tickets@;
                if now > self.last_activity {
                    self.last_activity = now;
                }
                self.tickets.push(ticket);
                self.next_ticket = ticket + 1;
                proof {
                    assert(!before.contains(ticket));
                    assert(self.tickets@.to_set() =~= before.to_set().insert(ticket)) by {
                        assert forall|t: u64|
                            self.tickets@.to_set().contains(t) == before.to_set().insert(
                                ticket,
                            ).contains(t) by {
                            if before.contains(t) {
                                let i = choose|i: int| 0 <= i < before.len() && before[i] == t;
                                assert(self.tickets@[i] == t);
                            }
                            if t == ticket {
                                assert(self.tickets@[before.len() as int] == t);
                            }
                        }
                    }
                }
                Some((ticket, m))
            },
        }
    }

    /// Hands back `ticket` at `now`, as its worker is done. Says whether the
    /// ticket was in flight, which is when the worker's reply is to be sent.
    pub fn complete(&mut self, ticket: u64, now: u64) -> (send: bool)
        requires
            old(self).wf(),
        ensures
            final(self).wf(),
            send == old(self)@.in_flight.contains(ticket),
            final(self)@ == completed(old(self)@, ticket, now),
    {
        let ghost before = self.tickets@;
        let mut i: usize = 0;
        while i < self.tickets.len()
            invariant
                i <= self.tickets@.len(),
                self.tickets@ == before,
                self.wf(),
                *self == *old(self),
                forall|j: int| 0 <= j < i ==> before[j] != ticket,
            decreases self.tickets@.len() - i,
        {
            if self.tickets[i] == ticket {
                self.tickets.remove(i);
                if now > self.last_activity {
                    self.last_activity = now;
                }
                proof {
                    let after = self.tickets@;
                    assert(after == before.remove(i as int));
                    assert(before.contains(ticket));
                    assert forall|t: u64|
                        after.to_set().contains(t) == before.to_set().remove(ticket).contains(
                            t,
                        ) by {
                        if after.contains(t) {
                            let k = choose|k: int| 0 <= k < after.len() && after[k] == t;
                            if k < i {
                                assert(before[k] == t);
                            } else {
                                assert(before[k + 1] == t);
                            }
                        }
                        if before.contains(t) && t != ticket {
                            let k = choose|k: int| 0 <= k < before.len() && before[k] == t;
                            if k < i {
                                assert(after[k] == t);
                            } else {
                                assert(after[k - 1] == t);
                            }
                        }
                    }
                    assert(after.to_set() =~= before.to_set().remove(ticket));
                }
                return true;
            }
            i = i + 1;
        }
        proof {
            assert(!before.contains(ticket));
        }
        false
    }

    /// Takes one reply from the queue at `now`. The reply comes back for
    /// sending where its call is in flight, which then ends; a reply to any
    /// other ticket is dropped.
    pub fn drain<R>(&mut self, pending: PendingReply<R>, now: u64) -> (send: Option<R>)
        requires
            old(self).wf(),
        ensures
            final(self).wf(),
            final(self)@ == completed(old(self)@, pending.destination, now),
            send == (if old(self)@.in_flight.contains(pending.destination) {
                Some(pending.reply)
            } else {
                None
            }),
    {
        if self.complete(pending.destination, now) {
            Some(pending.reply)
        } else {
            None
        }
    }

    /// Whether a ticket is left for one more call.
    pub fn has_ticket(&self) -> (left: bool)
        ensures
            left == (self@.next_ticket < u64::MAX),
    {
        self.next_ticket < u64::MAX
    }

    /// How many calls are in flight.
    pub fn pending_requests(&self) -> (n: usize)
        requires
            self.wf(),
        ensures
            n == self@.in_flight.len(),
    {
        proof {
            self.tickets@.unique_seq_to_set();
        }
        self.tickets.len()
    }

    /// Whether the service is to shut down at `now`.
    pub fn should_exit(&self, now: u64) -> (exit: bool)
        requires
            self.wf(),
        ensures
            exit == idle_at(self@, now),
    {
        proof {
            if self.tickets@.len() > 0 {
                assert(self.tickets@.to_set().contains(self.tickets@[0]));
            } else {
                assert(self.tickets@.to_set() =~= Set::<u64>::empty());
            }
        }
        self.tickets.len() == 0 && now >= self.last_activity && now - self.last_activity
            >= IDLE_THRESHOLD_MS
    }
}

/// With nothing in flight, the service is idle once the threshold has passed
/// since the last activity, and not before.
pub proof fn lemma_quiet_service_shuts_down(m: DispatcherModel, now: u64)
    requires
        m.in_flight == Set::<u64>::empty(),
    ensures
        idle_at(m, now) <==> now >= m.last_activity + IDLE_THRESHOLD_MS,
{
}

/// A call that arrives resets the countdown: the service is not idle while
/// the call is in flight, and once its reply is drained the full threshold
/// runs again from the later of arrival and draining.
pub proof fn lemma_arrival_resets_countdown(m: DispatcherModel, at: u64, done: u64, now: u64)
    requires
        tickets_issued(m),
    ensures
        !idle_at(arrived(m, at), now),
        now < at + IDLE_THRESHOLD_MS ==> !idle_at(
            completed(arrived(m, at), m.next_ticket, done),
            now,
        ),
        now < done + IDLE_THRESHOLD_MS ==> !idle_at(
            completed(arrived(m, at), m.next_ticket, done),
            now,
        ),
{
    assert(arrived(m, at).in_flight.contains(m.next_ticket));
}

/// A call comes before its own reply: a ticket that was not handed out yet
/// is refused, and the ticket of a call that arrived is accepted.
pub proof fn lemma_call_before_reply(m: DispatcherModel, ticket: u64, at: u64)
    requires
        tickets_issued(m),
        ticket >= m.next_ticket,
    ensures
        !m.in_flight.contains(ticket),
        completed(m, ticket, at) == m,
        arrived(m, at).in_flight.contains(m.next_ticket),
{
}

/// A reply is sent at most once: after a ticket was handed back, handing it
/// back again is refused and changes nothing.
pub proof fn lemma_reply_sent_at_most_once(m: DispatcherModel, ticket: u64, first: u64, again: u64)
    ensures
        !completed(m, ticket, first).in_flight.contains(ticket),
        completed(completed(m, ticket, first), ticket, again) == completed(m, ticket, first),
{
}

/// Replies may be drained in any order: of two calls in flight, whichever
/// completes first leaves the other in flight, and both orders end with the
/// same calls in flight.
pub proof fn lemma_completion_order_is_free(m: DispatcherModel, a: u64, b: u64, t1: u64, t2: u64)
    requires
        a != b,
        m.in_flight.contains(a),
        m.in_flight.contains(b),
    ensures
        completed(m, a, t1).in_flight.contains(b),
        completed(m, b, t1).in_flight.contains(a),
        completed(completed(m, a, t1), b, t2).in_flight == completed(
            completed(m, b, t1),
            a,
            t2,
        ).in_flight,
        !completed(completed(m, a, t1), b, t2).in_flight.contains(a),
        !completed(completed(m, a, t1), b, t2).in_flight.contains(b),
{
    assert(completed(completed(m, a, t1), b, t2).in_flight =~= completed(
        completed(m, b, t1),
        a,
        t2,
    ).in_flight);
}

} // verus!
