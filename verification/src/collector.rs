//! The collector's handling of one connection: what each read leads to, in
//! the store and on the wire.

use crate::metrics::{MetricsView, SystemMetrics};
use crate::protocol::Reply;
use crate::store::{appended, first_arrivals, history_of, MetricsStore, Histories};
use vstd::prelude::*;

verus! {

/// What one read on a connection came to.
#[derive(Debug, PartialEq, Eq)]
pub enum ClientEvent {
    /// The stream yielded zero bytes: the peer closed the connection.
    Closed,
    /// A line arrived and held this record.
    Record(SystemMetrics),
    /// A line arrived that could not be read as a record.
    Malformed,
    /// Reading the line, or writing the reply to the one before, failed.
    Failed,
}

/// The mathematical value of a [`ClientEvent`].
pub enum EventView {
    Closed,
    Record(MetricsView),
    Malformed,
    Failed,
}

impl View for ClientEvent {
    type V = EventView;

    open spec fn view(&self) -> EventView {
        match self {
            ClientEvent::Closed => EventView::Closed,
            ClientEvent::Record(record) => EventView::Record(record@),
            ClientEvent::Malformed => EventView::Malformed,
            ClientEvent::Failed => EventView::Failed,
        }
    }
}

/// The value of what a line decoded to.
pub open spec fn decoded(parsed: Option<SystemMetrics>) -> Option<MetricsView> {
    match parsed {
        Some(record) => Some(record@),
        None => None,
    }
}

/// The event that a finished read stands for: zero bytes mean that the peer
/// closed; otherwise the line either held a record or was malformed.
pub open spec fn event_of_read(bytes_read: usize, parsed: Option<MetricsView>) -> EventView {
    if bytes_read == 0 {
        EventView::Closed
    } else {
        match parsed {
            Some(record) => EventView::Record(record),
            None => EventView::Malformed,
        }
    }
}

/// The reply owed to an event, or `None` where the event ends the handler.
pub open spec fn reply_to(event: EventView) -> Option<Reply> {
    match event {
        EventView::Record(_) => Some(Reply::Ack),
        EventView::Malformed => Some(Reply::InvalidFormat),
        EventView::Closed | EventView::Failed => None,
    }
}

/// The store after an event: a record is appended under its own hostname,
/// and nothing else touches the store.
pub open spec fn stored(store: Histories, event: EventView) -> Histories {
    match event {
        EventView::Record(record) => appended(store, record.hostname, record),
        _ => store,
    }
}

/// The first-arrival order of hosts after an event.
pub open spec fn hosts_after(hosts: Seq<Seq<char>>, store: Histories, event: EventView) -> Seq<
    Seq<char>,
> {
    match event {
        EventView::Record(record) => first_arrivals(hosts, store, record.hostname),
        _ => hosts,
    }
}

/// What a handler makes of one event: whether it runs on, what the store
/// holds afterwards, and the reply it writes.
pub struct Outcome {
    pub open: bool,
    pub store: Histories,
    pub reply: Option<Reply>,
}

/// The outcome of `event` for a handler that is running (`open`) or has
/// ended. A handler that has ended takes no more events; a running one
/// stores and replies as the event asks, and ends where no reply is owed.
pub open spec fn outcome(open: bool, store: Histories, event: EventView) -> Outcome {
    if open {
        Outcome {
            open: reply_to(event) is Some,
            store: stored(store, event),
            reply: reply_to(event),
        }
    } else {
        Outcome { open: false, store, reply: None }
    }
}

/// Where one connection stands: whether its handler still runs, what the
/// store holds, and the replies written so far.
pub struct Session {
    pub open: bool,
    pub store: Histories,
    pub replies: Seq<Reply>,
}

/// A connection that was just accepted, with the store as it found it.
pub open spec fn accepted(store: Histories) -> Session {
    Session { open: true, store, replies: Seq::empty() }
}

/// The session after one more event.
pub open spec fn step(session: Session, event: EventView) -> Session {
    let next = outcome(session.open, session.store, event);
    Session {
        open: next.open,
        store: next.store,
        replies: match next.reply {
            Some(reply) => session.replies.push(reply),
            None => session.replies,
        },
    }
}

/// The session after a connection's events, taken in order.
pub open spec fn run(store: Histories, events: Seq<EventView>) -> Session
    decreases events.len(),
{
    if events.len() == 0 {
        accepted(store)
    } else {
        step(run(store, events.drop_last()), events.last())
    }
}

impl ClientEvent {
    /// Classifies a finished read. `bytes_read` is what the read returned and
    /// `parsed` the record that the line decoded to, if it did.
    pub fn from_read(bytes_read: usize, parsed: Option<SystemMetrics>) -> (event: ClientEvent)
        ensures
            event@ == event_of_read(bytes_read, decoded(parsed)),
    {
        if bytes_read == 0 {
            ClientEvent::Closed
        } else {
            match parsed {
                Some(record) => ClientEvent::Record(record),
                None => ClientEvent::Malformed,
            }
        }
    }
}

/// The handler of one accepted connection.
pub struct ClientHandler {
    open: bool,
}

impl ClientHandler {
    /// Whether the handler still takes events.
    pub closed spec fn is_open(&self) -> bool {
        self.open
    }

    /// The handler of a connection that was just accepted.
    pub fn new() -> (handler: ClientHandler)
        ensures
            handler.is_open(),
    {
        ClientHandler { open: true }
    }

    /// Whether the handler still takes events.
    pub fn running(&self) -> (open: bool)
        ensures
            open == self.is_open(),
    {
        self.open
    }

    /// Handles one event of the connection against the shared store.
    ///
    /// A record is appended to the history of its host and acknowledged; a
    /// malformed line is answered with the error reply and changes nothing,
    /// and the connection stays usable. A closed or failed connection ends
    /// the handler without a reply and without touching the store. The
    /// result is the reply to write, or `None` once the handler has ended.
    pub fn handle(&mut self, store: &mut MetricsStore, event: ClientEvent) -> (reply: Option<Reply>)
        ensures
            final(self).is_open() == outcome(old(self).is_open(), old(store)@, event@).open,
            final(store)@ == outcome(old(self).is_open(), old(store)@, event@).store,
            reply == outcome(old(self).is_open(), old(store)@, event@).reply,
            final(store).hosts() == (if old(self).is_open() {
                hosts_after(old(store).hosts(), old(store)@, event@)
            } else {
                old(store).hosts()
            }),
    {
        if !self.open {
            return None;
        }
        match event {
            ClientEvent::Record(record) => {
                let hostname = record.hostname.clone();
                store.append(hostname.as_str(), record);
                Some(Reply::Ack)
            },
            ClientEvent::Malformed => Some(Reply::InvalidFormat),
            ClientEvent::Closed => {
                self.open = false;
                None
            },
            ClientEvent::Failed => {
                self.open = false;
                None
            },
        }
    }
}

/// The events of a connection that sends `records` one after another.
pub open spec fn sending(records: Seq<MetricsView>) -> Seq<EventView> {
    records.map_values(|record: MetricsView| EventView::Record(record))
}

/// Records sent for one host over one connection are each acknowledged, and
/// stand in that host's history in the order in which they were sent, behind
/// what the history held before.
pub proof fn lemma_ordering(store: Histories, records: Seq<MetricsView>, hostname: Seq<char>)
    requires
        forall|i: int| 0 <= i < records.len() ==> (#[trigger] records[i]).hostname == hostname,
    ensures
        run(store, sending(records)).open,
        run(store, sending(records)).replies == Seq::new(records.len(), |i: int| Reply::Ack),
        history_of(run(store, sending(records)).store, hostname) == history_of(store, hostname)
            + records,
    decreases records.len(),
{
    if records.len() > 0 {
        let earlier = records.drop_last();
        assert(sending(records).drop_last() =~= sending(earlier));
        lemma_ordering(store, earlier, hostname);
    }
}

/// Whatever a connection sends, and however it ends, the history of a host
/// for which it sends no record stays as it was.
pub proof fn lemma_isolation(store: Histories, events: Seq<EventView>, other: Seq<char>)
    requires
        forall|i: int|
            0 <= i < events.len() ==> match #[trigger] events[i] {
                EventView::Record(record) => record.hostname != other,
                _ => true,
            },
    ensures
        run(store, events).store.contains_key(other) == store.contains_key(other),
        history_of(run(store, events).store, other) == history_of(store, other),
    decreases events.len(),
{
    if events.len() > 0 {
        lemma_isolation(store, events.drop_last(), other);
    }
}

/// A malformed line draws exactly one error reply and changes nothing else:
/// the connection stays open, the store is untouched, and a record that
/// follows is stored and acknowledged as if the malformed line had not been.
pub proof fn lemma_malformed_line(session: Session, record: MetricsView)
    requires
        session.open,
    ensures
        step(session, EventView::Malformed) == (Session {
            replies: session.replies.push(Reply::InvalidFormat),
            ..session
        }),
        step(step(session, EventView::Malformed), EventView::Record(record)) == (Session {
            open: true,
            store: appended(session.store, record.hostname, record),
            replies: session.replies.push(Reply::InvalidFormat).push(Reply::Ack),
        }),
{
}

} // verus!
