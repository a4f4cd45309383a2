//! A handle on a background worker that runs at most one task at a time.

use std::sync::mpsc::{Receiver, RecvError, SyncSender, TrySendError};
use vstd::prelude::*;

verus! {

/// The sending end of a bounded channel of the standard library.
#[verifier::external_type_specification]
#[verifier::external_body]
#[verifier::reject_recursive_types(T)]
pub struct ExSyncSender<T>(SyncSender<T>);

/// The receiving end of a channel of the standard library.
#[verifier::external_type_specification]
#[verifier::external_body]
#[verifier::reject_recursive_types(T)]
pub struct ExReceiver<T>(Receiver<T>);

/// The error of `Receiver::recv`: every sender is gone.
#[verifier::external_type_specification]
#[verifier::external_body]
pub struct ExRecvError(RecvError);

/// The error of `SyncSender::try_send`, with its two variants: the channel
/// is full, or the receiver is gone.
#[verifier::external_type_specification]
#[verifier::reject_recursive_types(T)]
pub struct ExTrySendError<T>(TrySendError<T>);

/// `SyncSender::try_send` puts a value into the channel if it has room and
/// is connected, and does not wait. Nothing is claimed of which of the three
/// outcomes comes.
pub assume_specification<T>[ SyncSender::<T>::try_send ](
    sender: &SyncSender<T>,
    value: T,
) -> (r: Result<(), TrySendError<T>>)
;

/// `Receiver::recv` waits until a value comes or every sender is gone.
/// Nothing is claimed of what comes.
pub assume_specification<T>[ Receiver::<T>::recv ](
    receiver: &Receiver<T>,
) -> (r: Result<T, RecvError>)
;

/// Why a task was not handed over, or what became of the task before it.
#[derive(Debug, PartialEq, Eq)]
pub enum AsyncError<E> {
    /// The task before failed with this error.
    Task(E),
    /// The worker has gone away without a result for the task before.
    NoResult,
    /// The worker's mailbox holds a task already.
    MailboxFull,
    /// The worker's mailbox is closed.
    MailboxClosed,
}

impl<E> AsyncError<E> {
    /// Whether the error is about the task before, not about the new one.
    pub open spec fn of_task_before(self) -> bool {
        self is Task || self is NoResult
    }
}

/// What waiting for a result amounts to: the result of the task, or the
/// news that no worker is left to send one.
pub fn task_outcome<E>(
    received: Result<Result<(), E>, RecvError>,
) -> (r: Result<(), AsyncError<E>>)
    ensures
        r == match received {
            Ok(Ok(())) => Ok::<(), AsyncError<E>>(()),
            Ok(Err(e)) => Err(AsyncError::Task(e)),
            Err(_) => Err(AsyncError::NoResult),
        },
{
    match received {
        Ok(Ok(())) => Ok(()),
        Ok(Err(e)) => Err(AsyncError::Task(e)),
        Err(_) => Err(AsyncError::NoResult),
    }
}

/// What an attempt to hand over a task amounts to.
pub fn send_outcome<T, E>(sent: Result<(), TrySendError<T>>) -> (r: Result<(), AsyncError<E>>)
    ensures
        r == match sent {
            Ok(()) => Ok::<(), AsyncError<E>>(()),
            Err(TrySendError::Full(_)) => Err(AsyncError::MailboxFull),
            Err(TrySendError::Disconnected(_)) => Err(AsyncError::MailboxClosed),
        },
{
    match sent {
        Ok(()) => Ok(()),
        Err(TrySendError::Full(_)) => Err(AsyncError::MailboxFull),
        Err(TrySendError::Disconnected(_)) => Err(AsyncError::MailboxClosed),
    }
}

/// The handle on a background worker that runs one task at a time.
///
/// Tasks go to the worker through a mailbox that holds one task, and each
/// result comes back on a channel of its own. A task is handed over only
/// after the result of the task before has been collected, so that at most
/// one task is waiting or running, and an error of a task reaches whoever
/// calls next.
#[verifier::reject_recursive_types(T)]
#[verifier::reject_recursive_types(E)]
pub struct AsyncAtMostOne<T, E> {
    task_sender: SyncSender<T>,
    result_receiver: Receiver<Result<(), E>>,
    has_pending: bool,
}

impl<T, E> AsyncAtMostOne<T, E> {
    /// Whether a task has been handed over whose result is not collected.
    pub closed spec fn has_pending(&self) -> bool {
        self.has_pending
    }

    /// What `sync` does, from the handle before to the handle after and the
    /// result: nothing is pending afterwards; where nothing was pending, the
    /// handle is as it was and the result is `Ok`; and an error is one of the
    /// task that was pending.
    pub open spec fn synced(before: Self, after: Self, r: Result<(), AsyncError<E>>) -> bool {
        &&& !after.has_pending()
        &&& !before.has_pending() ==> r is Ok && after == before
        &&& r matches Err(e) ==> before.has_pending() && e.of_task_before()
    }

    /// After one `sync` a second one changes nothing and returns `Ok`: two
    /// in a row do what one does.
    pub proof fn lemma_sync_twice(
        before: Self,
        between: Self,
        after: Self,
        first: Result<(), AsyncError<E>>,
        second: Result<(), AsyncError<E>>,
    )
        requires
            Self::synced(before, between, first),
            Self::synced(between, after, second),
        ensures
            after == between,
            second is Ok,
            Self::synced(before, after, first),
    {
    }

    /// The handle on the worker that takes its tasks from the other end of
    /// `task_sender` and sends each result into `result_receiver`.
    pub fn new(
        task_sender: SyncSender<T>,
        result_receiver: Receiver<Result<(), E>>,
    ) -> (handle: Self)
        ensures
            !handle.has_pending(),
    {
        Self { task_sender, result_receiver, has_pending: false }
    }

    /// Hands `op` to the worker, after waiting for the task before, if its
    /// result is not collected yet.
    ///
    /// Where the task before failed or left no result, that is the error,
    /// `op` is not handed over, and nothing is pending. Otherwise `op` counts
    /// as pending from here on, whether the mailbox took it or not.
    pub fn async_run(&mut self, op: T) -> (r: Result<(), AsyncError<E>>)
        ensures
            final(self).has_pending() <==> !(r matches Err(e) && e.of_task_before()),
            (r matches Err(e) && e.of_task_before()) ==> old(self).has_pending(),
    {
        match self.sync() {
            Ok(()) => {},
            Err(e) => {
                return Err(e);
            },
        }
        self.has_pending = true;
        send_outcome(self.task_sender.try_send(op))
    }

    /// Waits for the pending task, if there is one, and returns its result.
    ///
    /// Nothing is pending afterwards. Where nothing was pending, nothing
    /// happens and the result is `Ok`.
    pub fn sync(&mut self) -> (r: Result<(), AsyncError<E>>)
        ensures
            Self::synced(*old(self), *final(self), r),
    {
        if self.has_pending {
            self.has_pending = false;
            task_outcome(self.result_receiver.recv())
        } else {
            Ok(())
        }
    }

    /// Collects the result of the pending task, if there is one, and closes
    /// the mailbox, on which the worker ends.
    pub fn shutdown(self) -> (r: Result<(), AsyncError<E>>)
        ensures
            !self.has_pending() ==> r is Ok,
            r matches Err(e) ==> self.has_pending() && e.of_task_before(),
    {
        let mut handle = self;
        handle.sync()
    }
}

} // verus!
