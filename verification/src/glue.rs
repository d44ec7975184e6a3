//! Glue between the change source's callbacks and the pipeline's channels.

use tokio::sync::mpsc::UnboundedSender;
use vstd::prelude::*;

verus! {

/// Tokio's `UnboundedSender`, the sending half of an unbounded channel. Its
/// values are carried through as they are; nothing is said of what is inside.
#[verifier::external_type_specification]
#[verifier::external_body]
#[verifier::reject_recursive_types(T)]
pub struct ExUnboundedSender<T>(UnboundedSender<T>);

/// Binds a callback to the sending half of a channel: the function that
/// comes back takes an event and a row, and calls `callback` with them and
/// with `tx`.
pub fn with_channel<E, R, M, F: Fn(&E, &R, &UnboundedSender<M>)>(
    tx: UnboundedSender<M>,
    callback: F,
) -> (bound: impl FnMut(&E, &R))
    requires
        forall|e: &E, r: &R| call_requires(callback, (e, r, &tx)),
    ensures
        forall|e: &E, r: &R| call_requires(bound, (e, r)),
        forall|e: &E, r: &R, done: ()|
            call_ensures(bound, (e, r), done) ==> call_ensures(callback, (e, r, &tx), done),
{
    move |e: &E, r: &R| -> (done: ())
        ensures
            call_ensures(callback, (e, r, &tx), done),
        { callback(e, r, &tx) }
}

} // verus!
