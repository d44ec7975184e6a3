//! The shutdown coordinator: it stands between the materializer and the
//! notification queue, and makes shutdown a one-way transition. While it is
//! running, every tick's notifications pass. The first request to shut down
//! releases the sentinel; from then on nothing more is released.

use vstd::prelude::*;
use vstd::string::*;
use crate::batch::{ChannelCodes, ChatRowView, UpdateBatch, UpdateBatchView};
use crate::materializer::{
    absorb_batch, chat_notifications, tick_output, Materializer, MaterializerView,
};
use crate::message::{message_views, Message, MessageView};

verus! {

/// Where the pipeline stands on its way from start to exit.
#[derive(Debug, Clone, Copy, PartialEq, Eq, Structural)]
pub enum Phase {
    /// The change source is active and ticks are materialized.
    Running,
    /// The sentinel has been released; the sink is emptying the queue.
    Draining,
    /// The sink has returned and ingestion has stopped.
    Terminated,
}

/// What can happen to the pipeline.
#[derive(Debug, Clone, PartialEq, Eq)]
pub enum Event {
    /// The change source delivered one tick.
    Tick(UpdateBatch),
    /// The operator asked the pipeline to stop.
    Cancel,
    /// The change source reported that it is disconnected.
    SourceDisconnected,
    /// The sink consumed the sentinel and returned.
    SinkReturned,
    /// The task that drives the change source has ended.
    IngestionStopped,
}

/// The mathematical value of an [`Event`].
pub enum EventView {
    Tick(UpdateBatchView),
    Cancel,
    SourceDisconnected,
    SinkReturned,
    IngestionStopped,
}

impl View for Event {
    type V = EventView;

    open spec fn view(&self) -> EventView {
        match self {
            Event::Tick(batch) => EventView::Tick(batch@),
            Event::Cancel => EventView::Cancel,
            Event::SourceDisconnected => EventView::SourceDisconnected,
            Event::SinkReturned => EventView::SinkReturned,
            Event::IngestionStopped => EventView::IngestionStopped,
        }
    }
}

/// The state of the coordinator.
pub struct CoordinatorView {
    pub materializer: MaterializerView,
    pub phase: Phase,
    pub sink_returned: bool,
    pub ingestion_stopped: bool,
}

/// The state in which every pipeline starts: running, with empty caches.
pub open spec fn initial_state(codes: ChannelCodes) -> CoordinatorView {
    CoordinatorView {
        materializer: MaterializerView {
            claims: Map::empty(),
            empires: Map::empty(),
            players: Map::empty(),
            codes: codes,
        },
        phase: Phase::Running,
        sink_returned: false,
        ingestion_stopped: false,
    }
}

/// The phase of a pipeline that has released the sentinel: terminated once
/// both the sink and ingestion are done, draining until then.
pub open spec fn phase_after_sentinel(sink_returned: bool, ingestion_stopped: bool) -> Phase {
    if sink_returned && ingestion_stopped {
        Phase::Terminated
    } else {
        Phase::Draining
    }
}

/// The state that follows `state` when `event` happens.
pub open spec fn next_state(state: CoordinatorView, event: EventView) -> CoordinatorView {
    match event {
        EventView::Tick(batch) => {
            if state.phase is Running {
                CoordinatorView { materializer: absorb_batch(state.materializer, batch), ..state }
            } else {
                state
            }
        },
        EventView::Cancel | EventView::SourceDisconnected => {
            if state.phase is Running {
                CoordinatorView { phase: Phase::Draining, ..state }
            } else {
                state
            }
        },
        EventView::SinkReturned => {
            if state.phase is Draining {
                CoordinatorView {
                    sink_returned: true,
                    phase: phase_after_sentinel(true, state.ingestion_stopped),
                    ..state
                }
            } else {
                state
            }
        },
        EventView::IngestionStopped => {
            if state.phase is Terminated {
                state
            } else {
                CoordinatorView {
                    ingestion_stopped: true,
                    phase: phase_after_sentinel(state.sink_returned, true),
                    ..state
                }
            }
        },
    }
}

/// What is released to the queue when `event` happens in `state`.
pub open spec fn released(state: CoordinatorView, event: EventView) -> Seq<MessageView> {
    if state.phase is Running {
        match event {
            EventView::Tick(batch) => tick_output(state.materializer, batch),
            EventView::Cancel | EventView::SourceDisconnected | EventView::IngestionStopped => seq![
                MessageView::Disconnect,
            ],
            EventView::SinkReturned => Seq::empty(),
        }
    } else {
        Seq::empty()
    }
}

/// The state after a sequence of events, taken in order.
pub open spec fn state_after(state: CoordinatorView, events: Seq<EventView>) -> CoordinatorView
    decreases events.len(),
{
    if events.len() == 0 {
        state
    } else {
        next_state(state_after(state, events.drop_last()), events.last())
    }
}

/// Everything released to the queue during a sequence of events, in order.
pub open spec fn released_during(state: CoordinatorView, events: Seq<EventView>) -> Seq<
    MessageView,
>
    decreases events.len(),
{
    if events.len() == 0 {
        Seq::empty()
    } else {
        released_during(state, events.drop_last()) + released(
            state_after(state, events.drop_last()),
            events.last(),
        )
    }
}

/// Whether a stream of notifications keeps the sentinel's rule: the sentinel
/// occurs at most once, and only as the last element.
pub open spec fn sentinel_is_final(stream: Seq<MessageView>) -> bool {
    forall|i: int| 0 <= i < stream.len() && (#[trigger] stream[i]) is Disconnect ==> i
        == stream.len() - 1
}

/// Whether a stream of notifications holds the sentinel.
pub open spec fn has_sentinel(stream: Seq<MessageView>) -> bool {
    exists|i: int| 0 <= i < stream.len() && (#[trigger] stream[i]) is Disconnect
}

/// Decides what passes from the materializer to the notification queue.
pub struct Coordinator {
    materializer: Materializer,
    phase: Phase,
    sink_returned: bool,
    ingestion_stopped: bool,
}

impl View for Coordinator {
    type V = CoordinatorView;

    closed spec fn view(&self) -> CoordinatorView {
        CoordinatorView {
            materializer: self.materializer@,
            phase: self.phase,
            sink_returned: self.sink_returned,
            ingestion_stopped: self.ingestion_stopped,
        }
    }
}

impl Coordinator {
    /// A coordinator for a pipeline that is about to start.
    pub fn new(codes: ChannelCodes) -> (c: Coordinator)
        ensures
            c@ == initial_state(codes),
    {
        Coordinator {
            materializer: Materializer::new(codes),
            phase: Phase::Running,
            sink_returned: false,
            ingestion_stopped: false,
        }
    }

    /// The phase the pipeline is in.
    pub fn phase(&self) -> (p: Phase)
        ensures
            p == self@.phase,
    {
        self.phase
    }

    /// The materializer whose notifications the coordinator passes on.
    pub fn materializer(&self) -> (m: &Materializer)
        ensures
            m@ == self@.materializer,
    {
        &self.materializer
    }

    /// Notes that ingestion has stopped, and moves on to the phase that
    /// follows from it.
    fn settle_ingestion(&mut self)
        ensures
            final(self)@ == (CoordinatorView {
                ingestion_stopped: true,
                phase: phase_after_sentinel(old(self)@.sink_returned, true),
                ..old(self)@
            }),
    {
        self.ingestion_stopped = true;
        self.phase = if self.sink_returned {
            Phase::Terminated
        } else {
            Phase::Draining
        };
    }

    /// Takes one event and returns what is to be enqueued for it, in order:
    /// a tick's notifications while running, the sentinel for the first
    /// request to shut down, and nothing in every other case.
    pub fn handle(&mut self, event: &Event) -> (out: Vec<Message>)
        ensures
            final(self)@ == next_state(old(self)@, event@),
            message_views(out@) == released(old(self)@, event@),
    {
        let mut out: Vec<Message> = Vec::new();
        match event {
            Event::Tick(batch) => {
                if let Phase::Running = self.phase {
                    out = self.materializer.apply(batch);
                }
            },
            Event::Cancel | Event::SourceDisconnected => {
                if let Phase::Running = self.phase {
                    self.phase = Phase::Draining;
                    out.push(Message::Disconnect);
                }
            },
            Event::SinkReturned => {
                if let Phase::Draining = self.phase {
                    self.sink_returned = true;
                    if self.ingestion_stopped {
                        self.phase = Phase::Terminated;
                    }
                }
            },
            Event::IngestionStopped => {
                match self.phase {
                    Phase::Terminated => {},
                    Phase::Running => {
                        out.push(Message::Disconnect);
                        self.settle_ingestion();
                    },
                    Phase::Draining => {
                        self.settle_ingestion();
                    },
                }
            },
        }
        out
    }
}

/// The last line for the operator when the change source ended with a
/// fault: the fault's description after a fixed prefix.
pub open spec fn fault_report(detail: Seq<char>) -> Seq<char> {
    "db error: "@ + detail
}

/// What to tell the operator when a run has ended: nothing if the change
/// source disconnected without a fault, and else the report of the fault
/// that `fault` describes.
pub fn disconnection_report(fault: Option<&str>) -> (report: Option<String>)
    ensures
        match fault {
            Some(detail) => report matches Some(line) && line@ == fault_report(detail@),
            None => report is None,
        },
{
    match fault {
        Some(detail) => {
            let mut line = String::from_str("db error: ");
            line.append(detail);
            Some(line)
        },
        None => None,
    }
}

/// Whether a state can come up in a pipeline: while it runs neither the sink
/// nor ingestion is done, and it is terminated exactly when, past the
/// sentinel, both are.
pub open spec fn coherent(state: CoordinatorView) -> bool {
    &&& state.phase is Running ==> !state.sink_returned && !state.ingestion_stopped
    &&& !(state.phase is Running) ==> state.phase == phase_after_sentinel(
        state.sink_returned,
        state.ingestion_stopped,
    )
}

/// The chat rows of a tick never produce the sentinel.
pub proof fn lemma_chat_notifications_hold_no_sentinel(
    state: MaterializerView,
    rows: Seq<ChatRowView>,
)
    ensures
        !has_sentinel(chat_notifications(state, rows)),
    decreases rows.len(),
{
    if rows.len() > 0 {
        lemma_chat_notifications_hold_no_sentinel(state, rows.drop_last());
    }
}

/// A tick never produces the sentinel.
pub proof fn lemma_tick_holds_no_sentinel(state: MaterializerView, batch: UpdateBatchView)
    ensures
        !has_sentinel(tick_output(state, batch)),
{
    lemma_chat_notifications_hold_no_sentinel(absorb_batch(state, batch), batch.chats);
}

/// Every event leaves a coherent state coherent.
pub proof fn lemma_next_state_coherent(state: CoordinatorView, event: EventView)
    requires
        coherent(state),
    ensures
        coherent(next_state(state, event)),
{
}

/// The sentinel's rule, for every run. Whatever events happen to a pipeline
/// and in whatever order, the stream that is released to the queue holds the
/// sentinel at most once and nothing after it; it holds the sentinel exactly
/// if the pipeline has left the running phase; and the state stays coherent.
pub proof fn lemma_sentinel_released_once(codes: ChannelCodes, events: Seq<EventView>)
    ensures
        sentinel_is_final(released_during(initial_state(codes), events)),
        has_sentinel(released_during(initial_state(codes), events)) <==> !(state_after(
            initial_state(codes),
            events,
        ).phase is Running),
        coherent(state_after(initial_state(codes), events)),
    decreases events.len(),
{
    let start = initial_state(codes);
    if events.len() > 0 {
        let earlier = events.drop_last();
        let event = events.last();
        lemma_sentinel_released_once(codes, earlier);
        let before = state_after(start, earlier);
        let stream = released_during(start, earlier);
        let all = released_during(start, events);
        lemma_next_state_coherent(before, event);
        if before.phase is Running {
            // Nothing released so far is the sentinel, so a sentinel in `all`
            // can only come from this event, and then it is all that comes.
            if let EventView::Tick(batch) = event {
                lemma_tick_holds_no_sentinel(before.materializer, batch);
            }
            if has_sentinel(all) {
                let i = choose|i: int| 0 <= i < all.len() && (#[trigger] all[i]) is Disconnect;
                assert(i >= stream.len());
            }
            if !(next_state(before, event).phase is Running) {
                assert(all[stream.len() as int] is Disconnect);
            }
        }
    }
}

/// Shutdown is one-way: once the pipeline has left the running phase, no
/// event releases anything, and no event brings it back to running.
pub proof fn lemma_nothing_follows_shutdown(state: CoordinatorView, events: Seq<EventView>)
    requires
        !(state.phase is Running),
    ensures
        released_during(state, events) == Seq::<MessageView>::empty(),
        !(state_after(state, events).phase is Running),
    decreases events.len(),
{
    if events.len() > 0 {
        lemma_nothing_follows_shutdown(state, events.drop_last());
    }
}

} // verus!
