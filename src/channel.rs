//! The `flume` message channels that connect the session to its reader and
//! writer tasks. What a channel holds changes under other threads, so no
//! contract here speaks of the values that come out of one.

use vstd::prelude::*;

verus! {

/// flume::Sender: the sending end of a channel, opaque.
#[verifier::external_type_specification]
#[verifier::external_body]
#[verifier::reject_recursive_types(T)]
pub struct ExSender<T>(flume::Sender<T>);

/// flume::Receiver: the receiving end of a channel, opaque.
#[verifier::external_type_specification]
#[verifier::external_body]
#[verifier::reject_recursive_types(T)]
pub struct ExReceiver<T>(flume::Receiver<T>);

/// flume::SendError: a failed send, holding the message back.
#[verifier::external_type_specification]
#[verifier::reject_recursive_types(T)]
pub struct ExSendError<T>(flume::SendError<T>);

/// flume::TryRecvError: `Empty` or `Disconnected`.
#[verifier::external_type_specification]
pub struct ExTryRecvError(flume::TryRecvError);

/// flume::RecvTimeoutError: `Timeout` or `Disconnected`.
#[verifier::external_type_specification]
pub struct ExRecvTimeoutError(flume::RecvTimeoutError);

/// Relies on flume::unbounded: a new channel with no capacity limit.
pub assume_specification<T>[ flume::unbounded::<T> ]() -> (flume::Sender<T>, flume::Receiver<T>);

/// Relies on flume::Sender::send: on an unbounded channel it never blocks;
/// it fails only when every receiver is gone.
pub assume_specification<T>[ flume::Sender::<T>::send ](
    sender: &flume::Sender<T>,
    msg: T,
) -> Result<(), flume::SendError<T>>;

/// Relies on flume::Receiver::try_recv: never blocks; `Empty` when nothing
/// is queued, `Disconnected` when nothing is queued and every sender is gone.
pub assume_specification<T>[ flume::Receiver::<T>::try_recv ](
    receiver: &flume::Receiver<T>,
) -> Result<T, flume::TryRecvError>;

/// Relies on flume::Receiver::recv_timeout: waits at most `millis`
/// milliseconds for a value.
#[verifier::external_body]
pub(crate) fn recv_within<T>(receiver: &flume::Receiver<T>, millis: u64) -> Result<
    T,
    flume::RecvTimeoutError,
> {
    receiver.recv_timeout(std::time::Duration::from_millis(millis))
}

} // verus!
