use vstd::prelude::*;

verus! {

#[verifier::external_type_specification]
#[verifier::external_body]
#[verifier::reject_recursive_types(T)]
pub struct ExSender<T>(crossbeam::channel::Sender<T>);

#[verifier::external_type_specification]
#[verifier::external_body]
#[verifier::reject_recursive_types(T)]
pub struct ExReceiver<T>(crossbeam::channel::Receiver<T>);

#[verifier::external_type_specification]
#[verifier::external_body]
#[verifier::reject_recursive_types(T)]
pub struct ExSendError<T>(crossbeam::channel::SendError<T>);

/// Relies on crossbeam's `channel::unbounded`: a connected multi-producer,
/// single-consumer queue of unlimited capacity; sending on it never blocks.
#[verifier::external_body]
pub(crate) fn channel_pair() -> (r: (
    crossbeam::channel::Sender<i64>,
    crossbeam::channel::Receiver<i64>,
)) {
    crossbeam::channel::unbounded()
}

/// Relies on crossbeam's `Sender::send`: enqueues the message without
/// blocking (the channel is unbounded) and returns an error only when every
/// receiving end of the channel has been dropped.
#[verifier::external_body]
pub(crate) fn channel_send(s: &crossbeam::channel::Sender<i64>, value: i64) -> (r: Result<
    (),
    crossbeam::channel::SendError<i64>,
>) {
    s.send(value)
}

/// Relies on crossbeam's `Receiver::try_iter`: the messages currently
/// queued, in queue order, without blocking. Senders on other threads may
/// enqueue concurrently, so nothing is claimed of what comes back.
#[verifier::external_body]
pub(crate) fn channel_drain(rx: &crossbeam::channel::Receiver<i64>) -> (r: Vec<i64>) {
    rx.try_iter().collect()
}

} // verus!
