use tokio::sync::mpsc::error::{TryRecvError, TrySendError};
use tokio::sync::mpsc::{Receiver, Sender};
use vstd::prelude::*;

verus! {

/// The sending half of tokio's bounded channel.
#[verifier::external_type_specification]
#[verifier::external_body]
#[verifier::reject_recursive_types(T)]
pub struct ExSender<T>(Sender<T>);

/// The receiving half of tokio's bounded channel.
#[verifier::external_type_specification]
#[verifier::external_body]
#[verifier::reject_recursive_types(T)]
pub struct ExReceiver<T>(Receiver<T>);

/// Why `Sender::try_send` did not send: the channel is full, or its receiving
/// half is closed. Either way the error carries the message.
#[verifier::external_type_specification]
#[verifier::reject_recursive_types(T)]
pub struct ExTrySendError<T>(TrySendError<T>);

/// Why `Receiver::try_recv` gave no message: none is buffered yet, or none is
/// buffered and no sender is left.
#[verifier::external_type_specification]
pub struct ExTryRecvError(TryRecvError);

/// `tokio::sync::mpsc::channel` panics on a buffer of 0 and on one above the
/// semaphore's limit, which is `usize::MAX >> 3`. Nothing is claimed of the
/// two halves it returns.
pub assume_specification<T>[ tokio::sync::mpsc::channel::<T> ](buffer: usize) -> (ends: (
    Sender<T>,
    Receiver<T>,
))
    requires
        0 < buffer <= usize::MAX / 8,
;

/// `Sender::try_send` never waits. Whether it sends depends on what other
/// holders of the channel did, so only this is claimed: where it fails, the
/// error holds the very message that was passed in.
pub assume_specification<T>[ Sender::<T>::try_send ](tx: &Sender<T>, message: T) -> (sent: Result<
    (),
    TrySendError<T>,
>)
    ensures
        sent matches Err(TrySendError::Full(back)) ==> back == message,
        sent matches Err(TrySendError::Closed(back)) ==> back == message,
;

/// `Receiver::try_recv` takes the next buffered message, if any. What it
/// returns depends on what the senders did: nothing is claimed of it.
pub assume_specification<T>[ Receiver::<T>::try_recv ](rx: &mut Receiver<T>) -> (got: Result<
    T,
    TryRecvError,
>)
;

/// `Sender::clone` gives another handle on the same channel. Nothing is
/// claimed of it.
pub assume_specification<T>[ <Sender<T> as Clone>::clone ](tx: &Sender<T>) -> (other: Sender<T>)
;

/// The largest capacity a mailbox can be made with.
pub open spec fn max_capacity() -> nat {
    (usize::MAX / 8) as nat
}

/// Whether a mailbox can be made with capacity `size`.
pub fn valid_capacity(size: usize) -> (ok: bool)
    ensures
        ok == (0 < size <= max_capacity()),
{
    0 < size && size <= usize::MAX / 8
}

/// Why a publish did not enqueue its event. Either way the event comes back
/// to the publisher.
#[derive(Debug, PartialEq, Eq)]
pub enum PublishError<E> {
    /// The mailbox holds as many events as its capacity allows. The publisher
    /// may retry, drop the event or escalate.
    MailboxFull(E),
    /// The socket is gone. Every further publish on this port fails the same
    /// way.
    MailboxClosed(E),
}

impl<E> PublishError<E> {
    /// The event that was not enqueued.
    pub open spec fn event(self) -> E {
        match self {
            PublishError::MailboxFull(event) => event,
            PublishError::MailboxClosed(event) => event,
        }
    }

    /// Hands the event back.
    pub fn into_event(self) -> (event: E)
        ensures
            event == self.event(),
    {
        match self {
            PublishError::MailboxFull(event) => event,
            PublishError::MailboxClosed(event) => event,
        }
    }
}

/// What a non-blocking send came to, in the mailbox's own terms.
pub open spec fn outcome_of<E>(sent: Result<(), TrySendError<E>>) -> Result<(), PublishError<E>> {
    match sent {
        Ok(()) => Ok(()),
        Err(TrySendError::Full(event)) => Err(PublishError::MailboxFull(event)),
        Err(TrySendError::Closed(event)) => Err(PublishError::MailboxClosed(event)),
    }
}

/// Turns the channel's answer to a non-blocking send into the publisher's
/// result.
pub fn publish_outcome<E>(sent: Result<(), TrySendError<E>>) -> (outcome: Result<
    (),
    PublishError<E>,
>)
    ensures
        outcome == outcome_of(sent),
{
    match sent {
        Ok(()) => Ok(()),
        Err(TrySendError::Full(event)) => Err(PublishError::MailboxFull(event)),
        Err(TrySendError::Closed(event)) => Err(PublishError::MailboxClosed(event)),
    }
}

/// `outcome` is what publishing `event` through `tx` may come to: the
/// channel's answer to a non-blocking send of `event`, in the mailbox's terms.
pub open spec fn published<E>(tx: Sender<E>, event: E, outcome: Result<(), PublishError<E>>) -> bool {
    exists|sent: Result<(), TrySendError<E>>|
        #[trigger] call_ensures(Sender::<E>::try_send, (&tx, event), sent) && outcome
            == outcome_of(sent)
}

/// The publishing side of a mailbox. Ports are cloned freely; all clones feed
/// the one queue.
#[verifier::reject_recursive_types(E)]
pub struct EventBusPort<E> {
    tx: Sender<E>,
    capacity: usize,
}

impl<E> EventBusPort<E> {
    /// The capacity the mailbox was made with.
    pub closed spec fn bound(&self) -> nat {
        self.capacity as nat
    }

    pub fn capacity(&self) -> (capacity: usize)
        ensures
            capacity == self.bound(),
    {
        self.capacity
    }

    /// The channel's sending half behind this port.
    pub closed spec fn sender(&self) -> Sender<E> {
        self.tx
    }

    /// Tries to enqueue `event` without waiting: `event` goes to the channel's
    /// non-blocking send, and the outcome is what `outcome_of` makes of the
    /// channel's answer. Whether there is room is for the queue to say; an
    /// event that is not enqueued always comes back in the error.
    pub fn publish(&self, event: E) -> (outcome: Result<(), PublishError<E>>)
        ensures
            published(self.sender(), event, outcome),
            outcome matches Err(error) ==> error.event() == event,
    {
        let sent = self.tx.try_send(event);
        let outcome = publish_outcome(sent);
        assert(call_ensures(Sender::<E>::try_send, (&self.tx, event), sent));
        outcome
    }
}

impl<E> Clone for EventBusPort<E> {
    /// Another port on the same mailbox: its sending half is a clone of this
    /// port's.
    fn clone(&self) -> (port: Self)
        ensures
            port.bound() == self.bound(),
            call_ensures(<Sender<E> as Clone>::clone, (&self.sender(),), port.sender()),
    {
        EventBusPort { tx: self.tx.clone(), capacity: self.capacity }
    }
}

/// What one receive attempt on a socket gave.
#[derive(Debug, PartialEq, Eq)]
pub enum Polled<E> {
    /// The next event, in publish order.
    Event(E),
    /// No event is queued now, but a port is still alive.
    Empty,
    /// No event is queued and every port is gone. A socket says so once.
    EndOfStream,
    /// The socket has said `EndOfStream` before.
    Drained,
}

/// What the channel's answer to a non-blocking receive means to a socket that
/// is not drained.
pub open spec fn polled_of<E>(got: Result<E, TryRecvError>) -> Polled<E> {
    match got {
        Ok(event) => Polled::Event(event),
        Err(TryRecvError::Empty) => Polled::Empty,
        Err(TryRecvError::Disconnected) => Polled::EndOfStream,
    }
}

/// Turns the channel's answer to a non-blocking receive into what a socket
/// that is not drained reports.
pub fn polled<E>(got: Result<E, TryRecvError>) -> (polled: Polled<E>)
    ensures
        polled == polled_of(got),
{
    match got {
        Ok(event) => Polled::Event(event),
        Err(TryRecvError::Empty) => Polled::Empty,
        Err(TryRecvError::Disconnected) => Polled::EndOfStream,
    }
}

/// What a publisher that does not give a full mailbox's event back does
/// after a publish.
#[derive(Debug, PartialEq, Eq)]
pub enum Retry<E> {
    /// The event is enqueued: nothing is left to do.
    Published,
    /// The mailbox is closed: this event can never be enqueued.
    GiveUp(E),
    /// The mailbox was full: try this event again later.
    Again(E),
}

/// The step that follows a publish with this outcome.
pub open spec fn retry_of<E>(outcome: Result<(), PublishError<E>>) -> Retry<E> {
    match outcome {
        Ok(()) => Retry::Published,
        Err(PublishError::MailboxClosed(event)) => Retry::GiveUp(event),
        Err(PublishError::MailboxFull(event)) => Retry::Again(event),
    }
}

/// Decides what follows a publish: only a full mailbox is worth another try.
pub fn retry<E>(outcome: Result<(), PublishError<E>>) -> (step: Retry<E>)
    ensures
        step == retry_of(outcome),
{
    match outcome {
        Ok(()) => Retry::Published,
        Err(PublishError::MailboxClosed(event)) => Retry::GiveUp(event),
        Err(PublishError::MailboxFull(event)) => Retry::Again(event),
    }
}

/// One receive attempt on a socket that was drained or not (`before`)
/// answered `polled` and left the socket drained or not (`after`). A drained
/// socket stays drained and answers nothing but `Drained`; one that is not
/// never answers `Drained`, and is drained afterwards exactly if it answered
/// `EndOfStream`.
pub open spec fn poll_step<E>(before: bool, polled: Polled<E>, after: bool) -> bool {
    if before {
        polled is Drained && after
    } else {
        !(polled is Drained) && (after <==> polled is EndOfStream)
    }
}

/// `answers` are what successive receive attempts on one socket gave, and
/// `drained` says whether the socket was drained before the first attempt,
/// between each two, and after the last.
pub open spec fn poll_run<E>(drained: Seq<bool>, answers: Seq<Polled<E>>) -> bool {
    &&& drained.len() == answers.len() + 1
    &&& forall|i: int|
        0 <= i < answers.len() ==> poll_step(drained[i], #[trigger] answers[i], drained[i + 1])
}

/// A socket reports the end of the stream at most once: every attempt after
/// the one that answered `EndOfStream` answers `Drained`.
pub proof fn law_end_of_stream_once<E>(
    drained: Seq<bool>,
    answers: Seq<Polled<E>>,
    first: int,
    later: int,
)
    requires
        poll_run(drained, answers),
        0 <= first < later < answers.len(),
        answers[first] is EndOfStream,
    ensures
        answers[later] is Drained,
        !(answers[later] is EndOfStream),
{
    law_drained_stays(drained, answers, first + 1, later);
}

/// Once drained, a socket is drained before every later attempt.
pub proof fn law_drained_stays<E>(
    drained: Seq<bool>,
    answers: Seq<Polled<E>>,
    from: int,
    to: int,
)
    requires
        poll_run(drained, answers),
        0 <= from <= to <= answers.len(),
        drained[from],
    ensures
        drained[to],
    decreases to - from,
{
    if from < to {
        law_drained_stays(drained, answers, from, to - 1);
        assert(poll_step(drained[to - 1], answers[to - 1], drained[to]));
    }
}

/// What an awaited receive means to a socket that is not drained: an event,
/// or the end of the stream.
pub open spec fn delivered_of<E>(received: Option<E>) -> Polled<E> {
    match received {
        Some(event) => Polled::Event(event),
        None => Polled::EndOfStream,
    }
}

/// The receiving side of a mailbox: there is one per mailbox. Once it has
/// reported the end of the stream it is drained for good.
#[verifier::reject_recursive_types(E)]
pub struct EventBusSocket<E> {
    rx: Receiver<E>,
    capacity: usize,
    drained: bool,
}

impl<E> EventBusSocket<E> {
    /// The capacity the mailbox was made with.
    pub closed spec fn bound(&self) -> nat {
        self.capacity as nat
    }

    /// Whether the socket has reported the end of the stream.
    pub closed spec fn drained(&self) -> bool {
        self.drained
    }

    /// The channel's receiving half behind this socket.
    pub closed spec fn channel(&self) -> Receiver<E> {
        self.rx
    }

    pub fn capacity(&self) -> (capacity: usize)
        ensures
            capacity == self.bound(),
    {
        self.capacity
    }

    pub fn is_drained(&self) -> (drained: bool)
        ensures
            drained == self.drained(),
    {
        self.drained
    }

    /// Takes the next queued event without waiting. A drained socket answers
    /// `Drained` and leaves the queue alone; any other polls the channel's
    /// receiving half once, answers what `polled_of` makes of the channel's
    /// answer, and is drained from then on exactly if that was the end of the
    /// stream.
    pub fn try_recv(&mut self) -> (polled: Polled<E>)
        ensures
            final(self).bound() == old(self).bound(),
            poll_step(old(self).drained(), polled, final(self).drained()),
            old(self).drained() ==> final(self).channel() == old(self).channel(),
            !old(self).drained() ==> exists|rx: &mut Receiver<E>, got: Result<E, TryRecvError>|
                *rx == old(self).channel() && *final(rx) == final(self).channel()
                    && #[trigger] call_ensures(Receiver::<E>::try_recv, (rx,), got) && polled
                    == polled_of(got),
    {
        if self.drained {
            return Polled::Drained;
        }
        let got = self.rx.try_recv();
        let polled = polled(got);
        if let Polled::EndOfStream = polled {
            self.drained = true;
        }
        polled
    }

    /// Records what an awaited receive on `receiver` returned. An event is
    /// passed on; `None` is the end of the stream, and drains the socket.
    pub fn deliver(&mut self, received: Option<E>) -> (polled: Polled<E>)
        requires
            !old(self).drained(),
        ensures
            polled == delivered_of(received),
            final(self).bound() == old(self).bound(),
            final(self).channel() == old(self).channel(),
            final(self).drained() <==> received is None,
    {
        match received {
            Some(event) => Polled::Event(event),
            None => {
                self.drained = true;
                Polled::EndOfStream
            },
        }
    }

    /// The channel's receiving half, for the caller that awaits on it. What
    /// it returns goes to `deliver`.
    pub fn receiver(&mut self) -> (rx: &mut Receiver<E>)
        ensures
            *rx == old(self).channel(),
            final(self).channel() == *final(rx),
            final(self).bound() == old(self).bound(),
            final(self).drained() == old(self).drained(),
    {
        &mut self.rx
    }
}

/// Makes a mailbox of capacity `size` and returns its two sides: the port
/// holds the sending half and the socket the receiving half of one channel.
pub fn create<E>(size: usize) -> (ends: (EventBusPort<E>, EventBusSocket<E>))
    requires
        0 < size <= max_capacity(),
    ensures
        ends.0.bound() == size,
        ends.1.bound() == size,
        !ends.1.drained(),
        call_ensures(
            tokio::sync::mpsc::channel::<E>,
            (size,),
            (ends.0.sender(), ends.1.channel()),
        ),
{
    let (tx, rx) = tokio::sync::mpsc::channel(size);
    (EventBusPort { tx, capacity: size }, EventBusSocket { rx, capacity: size, drained: false })
}

} // verus!
