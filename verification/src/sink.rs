//! The sink: it takes notifications off the queue one by one, echoes each to
//! the operator, hands it to the destination endpoint if one is configured,
//! and stops at the sentinel. Whether a delivery succeeds changes nothing in
//! what the sink does next.

use vstd::prelude::*;
use vstd::string::*;
use crate::json::{chat_payload, payload_text};
use crate::message::{echo_line, Message, MessageView};

verus! {

/// How one delivery attempt ended.
#[derive(Debug, Clone, Copy, PartialEq, Eq, Structural)]
pub enum DeliveryOutcome {
    /// The endpoint answered, with this HTTP status.
    Responded { status: u16 },
    /// No answer came: the request failed on the way.
    TransportError,
}

/// Whether an outcome counts as delivered: an answer with a status from 200
/// to 299.
pub open spec fn is_delivered(outcome: DeliveryOutcome) -> bool {
    outcome matches DeliveryOutcome::Responded { status } && 200 <= status < 300
}

/// What the sink asks of its surroundings for one notification.
#[derive(Debug, Clone, PartialEq, Eq)]
pub enum SinkAction {
    /// Return: the sentinel was consumed.
    Stop,
    /// Write `line` to the operator's console.
    Echo { line: String },
    /// Write `line` to the console, then send `payload` to the destination
    /// endpoint in a single attempt.
    Deliver { line: String, payload: String },
    /// Write `line` to the console, then `diagnostic` to the operator's error
    /// output: the notification could not be put into a payload.
    Report { line: String, diagnostic: String },
}

/// The mathematical value of a [`SinkAction`].
pub enum SinkActionView {
    Stop,
    Echo { line: Seq<char> },
    Deliver { line: Seq<char>, payload: Seq<char> },
    Report { line: Seq<char>, diagnostic: Seq<char> },
}

impl View for SinkAction {
    type V = SinkActionView;

    open spec fn view(&self) -> SinkActionView {
        match self {
            SinkAction::Stop => SinkActionView::Stop,
            SinkAction::Echo { line } => SinkActionView::Echo { line: line@ },
            SinkAction::Deliver { line, payload } => SinkActionView::Deliver {
                line: line@,
                payload: payload@,
            },
            SinkAction::Report { line, diagnostic } => SinkActionView::Report {
                line: line@,
                diagnostic: diagnostic@,
            },
        }
    }
}

/// The state of a sink: the address of the destination endpoint, empty if
/// there is none, and whether the sink has stopped.
pub struct SinkView {
    pub destination: Seq<char>,
    pub stopped: bool,
}

/// The one-line report of a failed delivery.
pub open spec fn delivery_failure_notice() -> Seq<char> {
    "failed to send message"@
}

/// The state of the sink after it has consumed `n`.
pub open spec fn sink_next(state: SinkView, n: MessageView) -> SinkView {
    if n is Disconnect {
        SinkView { stopped: true, ..state }
    } else {
        state
    }
}

/// The line that the sink echoes for `n`: one for every chat notification it
/// consumes before it stops, none otherwise.
pub open spec fn sink_echo(state: SinkView, n: MessageView) -> Option<Seq<char>> {
    match n {
        MessageView::Chat { username, content } if !state.stopped => Some(
            echo_line(username, content),
        ),
        _ => None,
    }
}

/// What the sink does for `n`, given the payload that serialising `n` gave,
/// if it gave one.
pub open spec fn sink_action(
    state: SinkView,
    n: MessageView,
    payload: Option<Seq<char>>,
) -> SinkActionView {
    match n {
        MessageView::Chat { username, content } if !state.stopped => {
            let line = echo_line(username, content);
            if state.destination.len() == 0 {
                SinkActionView::Echo { line }
            } else {
                match payload {
                    Some(p) => SinkActionView::Deliver { line, payload: p },
                    None => SinkActionView::Report { line, diagnostic: delivery_failure_notice() },
                }
            }
        },
        _ => SinkActionView::Stop,
    }
}

/// What serialising a notification gives: the payload of a chat
/// notification, where the serialiser accepts it. The sentinel has none.
pub open spec fn serialised(n: MessageView) -> Option<Seq<char>> {
    match n {
        MessageView::Chat { username, content } => payload_text(username, content),
        MessageView::Disconnect => None,
    }
}

/// What the sink reports to the operator about a delivery attempt: the
/// failure notice unless the notification was delivered.
pub open spec fn delivery_report(outcome: DeliveryOutcome) -> Option<Seq<char>> {
    if is_delivered(outcome) {
        None
    } else {
        Some(delivery_failure_notice())
    }
}

/// The consumer at the end of the notification queue.
pub struct Sink {
    webhook_url: String,
    stopped: bool,
}

impl View for Sink {
    type V = SinkView;

    closed spec fn view(&self) -> SinkView {
        SinkView { destination: self.webhook_url@, stopped: self.stopped }
    }
}

/// Writes the console line of a chat notification.
pub fn format_echo(username: &str, content: &str) -> (line: String)
    ensures
        line@ == echo_line(username@, content@),
{
    let mut line = String::from_str(username);
    line.append(": ");
    line.append(content);
    line
}

/// Tells whether a delivery attempt delivered the notification.
pub fn delivered(outcome: DeliveryOutcome) -> (ok: bool)
    ensures
        ok == is_delivered(outcome),
{
    match outcome {
        DeliveryOutcome::Responded { status } => 200 <= status && status < 300,
        DeliveryOutcome::TransportError => false,
    }
}

impl Sink {
    /// A sink that delivers to `webhook_url`, or only echoes if the address
    /// is empty.
    pub fn new(webhook_url: String) -> (sink: Sink)
        ensures
            sink@ == (SinkView { destination: webhook_url@, stopped: false }),
    {
        Sink { webhook_url, stopped: false }
    }

    /// Whether the sink has consumed the sentinel.
    pub fn is_stopped(&self) -> (b: bool)
        ensures
            b == self@.stopped,
    {
        self.stopped
    }

    /// Whether a destination endpoint is configured.
    pub fn has_destination(&self) -> (b: bool)
        ensures
            b == (self@.destination.len() > 0),
    {
        !self.webhook_url.as_str().is_empty()
    }

    /// The address of the destination endpoint.
    pub fn destination(&self) -> (url: &str)
        ensures
            url@ == self@.destination,
    {
        self.webhook_url.as_str()
    }

    /// Consumes `n`, with `payload` as the outcome of serialising it: says
    /// what to do for it, and stops at the sentinel.
    pub fn decide(&mut self, n: &Message, payload: Option<String>) -> (action: SinkAction)
        ensures
            final(self)@ == sink_next(old(self)@, n@),
            action@ == sink_action(
                old(self)@,
                n@,
                match payload {
                    Some(p) => Some(p@),
                    None => None,
                },
            ),
    {
        match n {
            Message::Disconnect => {
                self.stopped = true;
                SinkAction::Stop
            },
            Message::Chat { username, content } => {
                if self.stopped {
                    SinkAction::Stop
                } else {
                    let line = format_echo(username.as_str(), content.as_str());
                    if self.webhook_url.as_str().is_empty() {
                        SinkAction::Echo { line }
                    } else {
                        match payload {
                            Some(p) => SinkAction::Deliver { line, payload: p },
                            None => SinkAction::Report {
                                line,
                                diagnostic: String::from_str("failed to send message"),
                            },
                        }
                    }
                }
            },
        }
    }

    /// Consumes `n`: serialises it where a delivery is due, and says what to
    /// do for it. The payload of a delivery is the serialised notification;
    /// where the serialiser refuses, the failure is reported instead.
    pub fn consume(&mut self, n: &Message) -> (action: SinkAction)
        ensures
            final(self)@ == sink_next(old(self)@, n@),
            action@ == sink_action(old(self)@, n@, serialised(n@)),
    {
        let payload = match n {
            Message::Chat { username, content } => {
                if !self.stopped && !self.webhook_url.as_str().is_empty() {
                    chat_payload(username.as_str(), content.as_str())
                } else {
                    None
                }
            },
            Message::Disconnect => None,
        };
        self.decide(n, payload)
    }

    /// Takes the outcome of a delivery attempt and returns the line to report
    /// to the operator, if any. The sink itself stays as it is.
    pub fn settle(&self, outcome: DeliveryOutcome) -> (report: Option<String>)
        ensures
            match report {
                Some(line) => delivery_report(outcome) == Some(line@),
                None => delivery_report(outcome) is None,
            },
    {
        if delivered(outcome) {
            None
        } else {
            Some(String::from_str("failed to send message"))
        }
    }
}

/// The state of the sink after it has consumed a sequence of notifications
/// in order.
pub open spec fn sink_after(state: SinkView, queue: Seq<MessageView>) -> SinkView
    decreases queue.len(),
{
    if queue.len() == 0 {
        state
    } else {
        sink_next(sink_after(state, queue.drop_last()), queue.last())
    }
}

/// The lines that the sink echoes while it consumes a sequence of
/// notifications, in order.
pub open spec fn sink_echoes(state: SinkView, queue: Seq<MessageView>) -> Seq<Seq<char>>
    decreases queue.len(),
{
    if queue.len() == 0 {
        Seq::empty()
    } else {
        let earlier = sink_echoes(state, queue.drop_last());
        match sink_echo(sink_after(state, queue.drop_last()), queue.last()) {
            Some(line) => earlier.push(line),
            None => earlier,
        }
    }
}

/// The console lines of a sequence of notifications that are all chat
/// notifications.
pub open spec fn chat_lines(queue: Seq<MessageView>) -> Seq<Seq<char>> {
    queue.map_values(|n: MessageView| echo_line(n->username, n->content))
}

/// Whether every notification of a sequence is a chat notification.
pub open spec fn all_chat(queue: Seq<MessageView>) -> bool {
    forall|i: int| 0 <= i < queue.len() ==> (#[trigger] queue[i]) is Chat
}

/// The sink stops at the sentinel and at nothing else: after any sequence of
/// notifications a sink has stopped exactly if it had stopped before or the
/// sequence holds the sentinel.
pub proof fn lemma_sink_stops_at_sentinel(state: SinkView, queue: Seq<MessageView>)
    ensures
        sink_after(state, queue).stopped <==> state.stopped || exists|i: int|
            0 <= i < queue.len() && (#[trigger] queue[i]) is Disconnect,
        sink_after(state, queue).destination == state.destination,
    decreases queue.len(),
{
    if queue.len() > 0 {
        let earlier = queue.drop_last();
        lemma_sink_stops_at_sentinel(state, earlier);
        if exists|i: int| 0 <= i < earlier.len() && (#[trigger] earlier[i]) is Disconnect {
            let i = choose|i: int| 0 <= i < earlier.len() && (#[trigger] earlier[i]) is Disconnect;
            assert(queue[i] is Disconnect);
        }
        if exists|i: int| 0 <= i < queue.len() && (#[trigger] queue[i]) is Disconnect {
            let i = choose|i: int| 0 <= i < queue.len() && (#[trigger] queue[i]) is Disconnect;
            if i < earlier.len() {
                assert(earlier[i] is Disconnect);
            }
        }
    }
}

/// A sink that has not stopped echoes every chat notification it is given,
/// in order, and has still not stopped after them.
pub proof fn lemma_sink_echoes_every_chat(state: SinkView, queue: Seq<MessageView>)
    requires
        !state.stopped,
        all_chat(queue),
    ensures
        sink_echoes(state, queue) == chat_lines(queue),
        !sink_after(state, queue).stopped,
    decreases queue.len(),
{
    if queue.len() > 0 {
        lemma_sink_echoes_every_chat(state, queue.drop_last());
    }
}

/// A sink that has stopped echoes nothing more, whatever it is given.
pub proof fn lemma_stopped_sink_is_silent(state: SinkView, queue: Seq<MessageView>)
    requires
        state.stopped,
    ensures
        sink_echoes(state, queue) == Seq::<Seq<char>>::empty(),
        sink_after(state, queue).stopped,
    decreases queue.len(),
{
    if queue.len() > 0 {
        lemma_stopped_sink_is_silent(state, queue.drop_last());
    }
}

/// Consuming one sequence of notifications and then another is consuming
/// the two in one go.
pub proof fn lemma_sink_consumes_in_order(
    state: SinkView,
    first: Seq<MessageView>,
    second: Seq<MessageView>,
)
    ensures
        sink_after(state, first + second) == sink_after(sink_after(state, first), second),
        sink_echoes(state, first + second) == sink_echoes(state, first) + sink_echoes(
            sink_after(state, first),
            second,
        ),
    decreases second.len(),
{
    if second.len() > 0 {
        let shorter = second.drop_last();
        assert((first + second).drop_last() =~= first + shorter);
        lemma_sink_consumes_in_order(state, first, shorter);
    }
}

/// The sink drains the queue before it stops. Given a queue whose first
/// sentinel stands at position `k`, a sink that has not stopped echoes
/// exactly the `k` chat notifications before the sentinel, in order; it has
/// not stopped after the first `k` of them, and has stopped after `k + 1`.
pub proof fn lemma_sink_drains_before_stopping(state: SinkView, queue: Seq<MessageView>, k: int)
    requires
        !state.stopped,
        0 <= k < queue.len(),
        queue[k] is Disconnect,
        all_chat(queue.take(k)),
    ensures
        sink_echoes(state, queue) == chat_lines(queue.take(k)),
        !sink_after(state, queue.take(k)).stopped,
        sink_after(state, queue.take(k + 1)).stopped,
        sink_after(state, queue).stopped,
{
    // The queue in three parts: the chat notifications before the sentinel,
    // the sentinel, and what follows it.
    let head = queue.take(k);
    let one = seq![queue[k]];
    let rest = queue.skip(k + 1);
    assert(queue =~= head + (one + rest));
    assert(queue.take(k + 1) =~= head + one);
    let mid = sink_after(state, head);
    lemma_sink_echoes_every_chat(state, head);
    lemma_sink_consumes_in_order(state, head, one + rest);
    lemma_sink_consumes_in_order(state, head, one);
    lemma_sink_consumes_in_order(mid, one, rest);
    assert(sink_after(mid, one.drop_last()) == mid);
    assert(sink_echoes(mid, one.drop_last()) =~= Seq::<Seq<char>>::empty());
    lemma_stopped_sink_is_silent(sink_after(mid, one), rest);
}

/// The console line that an action holds; empty for `Stop`, which has none.
pub open spec fn action_line(action: SinkActionView) -> Seq<char> {
    match action {
        SinkActionView::Stop => Seq::empty(),
        SinkActionView::Echo { line } => line,
        SinkActionView::Deliver { line, .. } => line,
        SinkActionView::Report { line, .. } => line,
    }
}

/// Everything that a sink did while it consumed a queue: the state it ended
/// in, the lines it echoed, the payloads it sent, and the failures it
/// reported, each in order.
pub struct SessionView {
    pub state: SinkView,
    pub console: Seq<Seq<char>>,
    pub posted: Seq<Seq<char>>,
    pub reported: Seq<Seq<char>>,
}

/// What a sink does in one round of its loop, after `before`: it consumes
/// `n`, with `payload` as the outcome of serialising it, and where it sends
/// a payload, `outcome` is how that attempt ends.
pub open spec fn sink_round(
    before: SessionView,
    n: MessageView,
    payload: Option<Seq<char>>,
    outcome: DeliveryOutcome,
) -> SessionView {
    let state = sink_next(before.state, n);
    match sink_action(before.state, n, payload) {
        SinkActionView::Stop => SessionView { state, ..before },
        SinkActionView::Echo { line } => SessionView {
            state,
            console: before.console.push(line),
            ..before
        },
        SinkActionView::Deliver { line, payload } => SessionView {
            state,
            console: before.console.push(line),
            posted: before.posted.push(payload),
            reported: match delivery_report(outcome) {
                Some(notice) => before.reported.push(notice),
                None => before.reported,
            },
        },
        SinkActionView::Report { line, diagnostic } => SessionView {
            state,
            console: before.console.push(line),
            reported: before.reported.push(diagnostic),
            ..before
        },
    }
}

/// What a sink does while it consumes `queue` in order. `payloads[i]` is the
/// outcome of serialising the notification at position `i`, and
/// `outcomes[i]` is how its delivery ends, where one is attempted.
pub open spec fn sink_session(
    state: SinkView,
    queue: Seq<MessageView>,
    payloads: Seq<Option<Seq<char>>>,
    outcomes: Seq<DeliveryOutcome>,
) -> SessionView
    decreases queue.len(),
{
    if queue.len() == 0 {
        SessionView {
            state,
            console: Seq::empty(),
            posted: Seq::empty(),
            reported: Seq::empty(),
        }
    } else {
        sink_round(
            sink_session(state, queue.drop_last(), payloads.drop_last(), outcomes.drop_last()),
            queue.last(),
            payloads.last(),
            outcomes.last(),
        )
    }
}

/// The sink's progress does not depend on how deliveries go. Whatever the
/// payloads and whatever the outcomes of the attempts, a session ends in the
/// state that the queue alone determines, and echoes the lines that the
/// queue alone determines.
pub proof fn lemma_session_progress(
    state: SinkView,
    queue: Seq<MessageView>,
    payloads: Seq<Option<Seq<char>>>,
    outcomes: Seq<DeliveryOutcome>,
)
    ensures
        sink_session(state, queue, payloads, outcomes).state == sink_after(state, queue),
        sink_session(state, queue, payloads, outcomes).console == sink_echoes(state, queue),
    decreases queue.len(),
{
    if queue.len() > 0 {
        lemma_session_progress(
            state,
            queue.drop_last(),
            payloads.drop_last(),
            outcomes.drop_last(),
        );
    }
}

/// No delivery outcome affects what the sink does with the notifications
/// that follow. Two sessions over the same queue, with the same payloads,
/// end in the same state, echo the same lines and send the same payloads,
/// however differently their deliveries went.
pub proof fn lemma_delivery_outcomes_are_ignored(
    state: SinkView,
    queue: Seq<MessageView>,
    payloads: Seq<Option<Seq<char>>>,
    first: Seq<DeliveryOutcome>,
    second: Seq<DeliveryOutcome>,
)
    ensures
        sink_session(state, queue, payloads, first).state == sink_session(
            state,
            queue,
            payloads,
            second,
        ).state,
        sink_session(state, queue, payloads, first).console == sink_session(
            state,
            queue,
            payloads,
            second,
        ).console,
        sink_session(state, queue, payloads, first).posted == sink_session(
            state,
            queue,
            payloads,
            second,
        ).posted,
    decreases queue.len(),
{
    if queue.len() > 0 {
        lemma_delivery_outcomes_are_ignored(
            state,
            queue.drop_last(),
            payloads.drop_last(),
            first.drop_last(),
            second.drop_last(),
        );
    }
}

} // verus!
