//! The push side of event delivery: where the listener binds, what it
//! answers to a POST, and the queue between it and the dispatcher.

use crate::event::Event;
use std::collections::VecDeque;
use vstd::prelude::*;
use vstd::string::{StrSliceExecFns, StringExecFns};

verus! {

/// The answer to a body that was taken.
pub const STATUS_OK: u16 = 200;

/// The answer to a body that is no valid update.
pub const STATUS_BAD_REQUEST: u16 = 400;

/// The answer while the queue takes nothing.
pub const STATUS_UNAVAILABLE: u16 = 503;

/// Whether every character is a decimal digit.
pub open spec fn all_digits(text: Seq<char>) -> bool {
    forall|i: int| 0 <= i < text.len() ==> '0' <= #[trigger] text[i] <= '9'
}

/// The number that a sequence of decimal digits writes.
pub open spec fn decimal_value(digits: Seq<char>) -> nat
    decreases digits.len(),
{
    if digits.len() == 0 {
        0
    } else {
        10 * decimal_value(digits.drop_last()) + (digits.last() as nat - '0' as nat) as nat
    }
}

/// The text without the plus sign that may stand first.
pub open spec fn unsigned_part(text: Seq<char>) -> Seq<char> {
    if text.len() > 0 && text[0] == '+' {
        text.drop_first()
    } else {
        text
    }
}

/// The port that `text` names: decimal digits, at least one, after an
/// optional plus sign, and no more than a port can be.
pub open spec fn port_named(text: Seq<char>) -> Option<u16> {
    let digits = unsigned_part(text);
    if digits.len() > 0 && all_digits(digits) && decimal_value(digits) <= u16::MAX {
        Some(decimal_value(digits) as u16)
    } else {
        None
    }
}

proof fn decimal_value_grows(digits: Seq<char>, prefix: int)
    requires
        all_digits(digits),
        0 <= prefix <= digits.len(),
    ensures
        decimal_value(digits.subrange(0, prefix)) <= decimal_value(digits),
    decreases digits.len() - prefix,
{
    if prefix < digits.len() {
        decimal_value_grows(digits, prefix + 1);
        let longer = digits.subrange(0, prefix + 1);
        assert(longer.drop_last() =~= digits.subrange(0, prefix));
        assert(longer.last() == digits[prefix]);
    } else {
        assert(digits.subrange(0, prefix) =~= digits);
    }
}

/// Reads a port number.
pub fn parse_port(text: &str) -> (port: Option<u16>)
    ensures
        port == port_named(text@),
{
    let len = text.unicode_len();
    let start: usize = if len > 0 && text.get_char(0) == '+' {
        1
    } else {
        0
    };
    let ghost digits = unsigned_part(text@);
    if start == len {
        return None;
    }
    let mut value: u32 = 0;
    let mut at: usize = start;
    proof {
        assert(digits.subrange(0, 0) =~= Seq::<char>::empty());
    }
    while at < len
        invariant
            start <= at <= len,
            len == text@.len(),
            start <= 1,
            digits == unsigned_part(text@),
            digits.len() == len - start,
            forall|i: int| 0 <= i < digits.len() ==> digits[i] == text@[i + start],
            all_digits(digits.subrange(0, at - start)),
            value == decimal_value(digits.subrange(0, at - start)),
            value <= u16::MAX,
        decreases len - at,
    {
        let c = text.get_char(at);
        if c < '0' || c > '9' {
            proof {
                assert(digits[at - start] == c);
            }
            return None;
        }
        let digit: u32 = c as u32 - '0' as u32;
        let ghost longer = digits.subrange(0, at - start + 1);
        proof {
            assert(longer.drop_last() =~= digits.subrange(0, at - start));
            assert(longer.last() == c);
            assert forall|i: int| 0 <= i < longer.len() implies '0' <= #[trigger] longer[i]
                <= '9' by {
                if i < at - start {
                    assert(longer[i] == digits.subrange(0, at - start)[i]);
                }
            }
        }
        value = value * 10 + digit;
        if value > 65535 {
            proof {
                if all_digits(digits) {
                    decimal_value_grows(digits, at - start + 1);
                }
            }
            return None;
        }
        at = at + 1;
    }
    proof {
        assert(digits.subrange(0, at - start) =~= digits);
    }
    Some(value as u16)
}

/// Where the webhook listener binds and the address the platform is told
/// to post to.
#[derive(Debug, PartialEq, Eq)]
pub struct WebhookOptions {
    /// The local address to bind: every interface.
    pub address: [u8; 4],
    /// The local port to bind.
    pub port: u16,
    /// The public address of the endpoint.
    pub url: String,
}

/// The public address of the endpoint on `host`.
pub open spec fn webhook_url(host: Seq<char>) -> Seq<char> {
    "https://"@ + host + "/webhook"@
}

/// Works out the listener's options from the host name and the port's
/// text, or nothing where the text names no port.
pub fn start_webhook(host: &str, port: &str) -> (options: Option<WebhookOptions>)
    ensures
        match options {
            Some(o) => port_named(port@) == Some(o.port) && o.url@ == webhook_url(host@)
                && o.address@ == seq![0u8, 0u8, 0u8, 0u8],
            None => port_named(port@) is None,
        },
{
    match parse_port(port) {
        Some(port) => {
            let url = String::from_str("https://").concat(host).concat("/webhook");
            let address: [u8; 4] = [0, 0, 0, 0];
            proof {
                assert(address@ =~= seq![0u8, 0u8, 0u8, 0u8]);
            }
            Some(WebhookOptions { address, port, url })
        },
        None => None,
    }
}

/// What parsing the body of one POST gave.
#[derive(Debug, PartialEq, Eq)]
pub enum Payload {
    /// A valid update that is an event.
    Event(Event),
    /// A valid update that is no event for this bot.
    Nothing,
    /// No valid update.
    Malformed,
}

/// The queue as the contracts see it.
pub struct QueueView {
    pub events: Seq<Event>,
    pub closed: bool,
}

/// The queue between the listener and the dispatcher: first in, first out,
/// without a bound, until it is closed.
pub struct EventQueue {
    events: VecDeque<Event>,
    closed: bool,
}

impl View for EventQueue {
    type V = QueueView;

    closed spec fn view(&self) -> QueueView {
        QueueView { events: self.events@, closed: self.closed }
    }
}

/// The queue after one POST and the status to answer with: a valid update
/// is taken while the queue is open, and answered with 200; a malformed
/// body is refused with 400; while the queue is closed nothing valid is
/// taken and the answer is 503.
pub open spec fn accepted(queue: QueueView, payload: Payload) -> (QueueView, u16) {
    match payload {
        Payload::Malformed => (queue, STATUS_BAD_REQUEST),
        _ if queue.closed => (queue, STATUS_UNAVAILABLE),
        Payload::Event(event) => (
            QueueView { events: queue.events.push(event), closed: false },
            STATUS_OK,
        ),
        Payload::Nothing => (queue, STATUS_OK),
    }
}

impl EventQueue {
    /// An open, empty queue.
    pub fn new() -> (queue: EventQueue)
        ensures
            queue@ == (QueueView { events: Seq::empty(), closed: false }),
    {
        EventQueue { events: VecDeque::new(), closed: false }
    }

    /// How many events wait.
    pub fn len(&self) -> (n: usize)
        ensures
            n == self@.events.len(),
    {
        self.events.len()
    }

    /// Whether the queue has stopped taking events.
    pub fn is_closed(&self) -> (closed: bool)
        ensures
            closed == self@.closed,
    {
        self.closed
    }

    /// Stops the queue from taking events; those that wait stay.
    pub fn close(&mut self)
        ensures
            final(self)@ == (QueueView { events: old(self)@.events, closed: true }),
    {
        self.closed = true;
    }

    /// Handles one POST: takes the event, if there is one to take, and
    /// tells the status to answer with.
    pub fn accept(&mut self, payload: Payload) -> (status: u16)
        ensures
            (final(self)@, status) == accepted(old(self)@, payload),
    {
        match payload {
            Payload::Malformed => STATUS_BAD_REQUEST,
            Payload::Event(event) => {
                if self.closed {
                    STATUS_UNAVAILABLE
                } else {
                    self.events.push_back(event);
                    STATUS_OK
                }
            },
            Payload::Nothing => {
                if self.closed {
                    STATUS_UNAVAILABLE
                } else {
                    STATUS_OK
                }
            },
        }
    }

    /// Hands out the event that has waited longest.
    pub fn pop(&mut self) -> (event: Option<Event>)
        ensures
            final(self)@.closed == old(self)@.closed,
            match event {
                Some(e) => old(self)@.events.len() > 0 && e == old(self)@.events[0]
                    && final(self)@.events == old(self)@.events.drop_first(),
                None => old(self)@.events.len() == 0 && final(self)@.events == old(self)@.events,
            },
    {
        self.events.pop_front()
    }
}

/// The queue after these events were posted one after the other.
pub open spec fn posted(queue: QueueView, events: Seq<Event>) -> QueueView
    decreases events.len(),
{
    if events.len() == 0 {
        queue
    } else {
        posted(accepted(queue, Payload::Event(events[0])).0, events.drop_first())
    }
}

/// First in, first out: events posted to an open queue wait behind those
/// that were there, in the order in which they were posted.
pub proof fn queue_keeps_order(queue: QueueView, events: Seq<Event>)
    requires
        !queue.closed,
    ensures
        posted(queue, events) == (QueueView { events: queue.events + events, closed: false }),
    decreases events.len(),
{
    if events.len() == 0 {
        assert(queue.events + events =~= queue.events);
    } else {
        let next = accepted(queue, Payload::Event(events[0])).0;
        queue_keeps_order(next, events.drop_first());
        assert(next.events + events.drop_first() =~= queue.events + events);
    }
}

/// A POST that is not answered with 200 leaves the queue as it was, a
/// malformed body is always answered with a client error, and 200 means
/// that the event, if the body held one, is now last in the queue; events
/// that waited keep their places.
pub proof fn refusals_change_nothing(queue: QueueView, payload: Payload)
    ensures
        ({
            let (after, status) = accepted(queue, payload);
            &&& status != STATUS_OK ==> after == queue
            &&& payload is Malformed ==> 400 <= status < 500 && after == queue
            &&& status == STATUS_OK || (400 <= status < 600)
            &&& status == STATUS_OK ==> !queue.closed && !(payload is Malformed)
            &&& after.closed == queue.closed
            &&& payload matches Payload::Event(event) ==> status != STATUS_OK || (after.events
                == queue.events.push(event))
            &&& queue.events.is_prefix_of(after.events)
        }),
{
}

} // verus!
