//! What holds of the pipeline as a whole: of the coordinator's stream when
//! the sink consumes it.

use vstd::prelude::*;
use crate::batch::ChannelCodes;
use crate::coordinator::{
    initial_state, lemma_sentinel_released_once, released_during, state_after, EventView,
};
use crate::sink::{
    all_chat, chat_lines, lemma_sink_drains_before_stopping, lemma_sink_echoes_every_chat,
    sink_after, sink_echoes, SinkView,
};

verus! {

/// The pipeline drains before it ends. Take any run of the pipeline that has
/// left the running phase, and a sink that consumes all that was released
/// during the run. The sink echoes every notification that was released
/// before the sentinel, in order, and then stops.
pub proof fn lemma_pipeline_drains(codes: ChannelCodes, events: Seq<EventView>, sink: SinkView)
    requires
        !sink.stopped,
        !(state_after(initial_state(codes), events).phase is Running),
    ensures
        ({
            let stream = released_during(initial_state(codes), events);
            &&& stream.len() > 0
            &&& stream.last() is Disconnect
            &&& all_chat(stream.drop_last())
            &&& sink_echoes(sink, stream) == chat_lines(stream.drop_last())
            &&& !sink_after(sink, stream.drop_last()).stopped
            &&& sink_after(sink, stream).stopped
        }),
{
    let stream = released_during(initial_state(codes), events);
    lemma_sentinel_released_once(codes, events);
    let at = choose|at: int| 0 <= at < stream.len() && (#[trigger] stream[at]) is Disconnect;
    assert(at == stream.len() - 1);
    assert(stream.take(at) =~= stream.drop_last());
    lemma_sink_drains_before_stopping(sink, stream, at);
}

/// While the pipeline runs, the sink does not stop. Take any run of the
/// pipeline that is still in the running phase: a sink that consumes all
/// that was released so far has echoed all of it and has not stopped.
pub proof fn lemma_running_pipeline_keeps_the_sink(
    codes: ChannelCodes,
    events: Seq<EventView>,
    sink: SinkView,
)
    requires
        !sink.stopped,
        state_after(initial_state(codes), events).phase is Running,
    ensures
        ({
            let stream = released_during(initial_state(codes), events);
            &&& all_chat(stream)
            &&& sink_echoes(sink, stream) == chat_lines(stream)
            &&& !sink_after(sink, stream).stopped
        }),
{
    let stream = released_during(initial_state(codes), events);
    lemma_sentinel_released_once(codes, events);
    lemma_sink_echoes_every_chat(sink, stream);
}

} // verus!
