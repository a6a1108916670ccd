use vstd::prelude::*;

verus! {

/// crossbeam_channel's sending half. Engine types hold one to report events
/// and to message the decode worker; its behaviour is reached only through
/// the wrappers below.
#[verifier::external_type_specification]
#[verifier::external_body]
#[verifier::reject_recursive_types(T)]
pub struct ExSender<T>(crossbeam_channel::Sender<T>);

/// The error of a blocking send: the channel is disconnected and the
/// message comes back inside it.
#[verifier::external_type_specification]
#[verifier::external_body]
#[verifier::reject_recursive_types(T)]
pub struct ExSendError<T>(crossbeam_channel::SendError<T>);

/// The error of a non-blocking send: the channel is full or disconnected,
/// and the message comes back inside it.
#[verifier::external_type_specification]
#[verifier::external_body]
#[verifier::reject_recursive_types(T)]
pub struct ExTrySendError<T>(crossbeam_channel::TrySendError<T>);

/// Relies on crossbeam_channel::Sender::try_send: delivers the message
/// without blocking, or returns it inside an error when the channel is full
/// or disconnected. Which outcome comes back depends on the peer and on
/// other threads, so nothing is promised of it.
#[verifier::external_body]
pub(crate) fn try_send_msg<T>(s: &crossbeam_channel::Sender<T>, msg: T) -> (r: Result<
    (),
    crossbeam_channel::TrySendError<T>,
>) {
    s.try_send(msg)
}

/// Relies on crossbeam_channel::Sender::send: blocks until the message is
/// delivered, or returns it inside an error when the channel is
/// disconnected. Which outcome comes back depends on the peer, so nothing
/// is promised of it.
#[verifier::external_body]
pub(crate) fn send_msg<T>(s: &crossbeam_channel::Sender<T>, msg: T) -> (r: Result<
    (),
    crossbeam_channel::SendError<T>,
>) {
    s.send(msg)
}

/// Relies on crossbeam_channel::Sender::clone: the clone sends into the
/// same channel.
#[verifier::external_body]
pub(crate) fn clone_sender<T>(s: &crossbeam_channel::Sender<T>) -> (r: crossbeam_channel::Sender<
    T,
>) {
    s.clone()
}

} // verus!
