use vstd::prelude::*;

verus! {

/// std's I/O error, carried unopened inside failure events.
#[verifier::external_type_specification]
#[verifier::external_body]
pub struct ExIoError(std::io::Error);

/// What an engine hands its consumer.
#[derive(Debug)]
pub enum Event<T> {
    /// The handle registered under this identifier became ready.
    Ready(T),
    /// Waiting for readiness failed.
    Failure(std::io::Error),
}

/// Misuse of an engine, or the end of its event stream.
#[derive(Clone, Copy, Debug, PartialEq, Eq, Structural)]
pub enum EngineError {
    /// A handle that did not come from a validated trigger was given to an engine.
    Unvalidated,
    /// The engine was started a second time.
    AlreadyStarted,
    /// An event was asked for before the engine was started.
    NotStarted,
    /// Every producer has stopped and every event sent has been received.
    ChannelClosed,
}

/// Engines take only handles made from validated triggers: the first handle
/// (in the given order) without that provenance makes the whole build fail.
pub fn check_provenance(validated: &Vec<bool>) -> (r: Result<(), EngineError>)
    ensures
        r is Ok <==> (forall|i: int| 0 <= i < validated@.len() ==> validated@[i]),
        r is Err ==> r == Err::<(), EngineError>(EngineError::Unvalidated),
{
    let mut i: usize = 0;
    while i < validated.len()
        invariant
            i <= validated@.len(),
            forall|j: int| 0 <= j < i ==> validated@[j],
        decreases validated@.len() - i,
    {
        if !validated[i] {
            return Err(EngineError::Unvalidated);
        }
        i = i + 1;
    }
    Ok(())
}

} // verus!

verus! {

/// Where an engine stands between its creation and the end of its event stream.
#[derive(Clone, Copy, Debug, PartialEq, Eq, Structural)]
pub struct Lifecycle {
    pub started: bool,
    /// The event channel was found closed: no event will ever arrive again.
    pub closed: bool,
}

/// What a receive must do before it touches the channel.
pub open spec fn recv_gate(l: Lifecycle) -> Result<(), EngineError> {
    if !l.started {
        Err(EngineError::NotStarted)
    } else if l.closed {
        Err(EngineError::ChannelClosed)
    } else {
        Ok(())
    }
}

impl Lifecycle {
    pub fn new() -> (r: Lifecycle)
        ensures
            !r.started,
            !r.closed,
    {
        Lifecycle { started: false, closed: false }
    }

    /// Marks the engine started; a second start is refused and changes nothing.
    pub fn start(&mut self) -> (r: Result<(), EngineError>)
        ensures
            old(self).started ==> r == Err::<(), EngineError>(EngineError::AlreadyStarted)
                && *final(self) == *old(self),
            !old(self).started ==> r is Ok && *final(self) == (Lifecycle {
                started: true,
                ..*old(self)
            }),
    {
        if self.started {
            return Err(EngineError::AlreadyStarted);
        }
        self.started = true;
        Ok(())
    }

    /// Whether a receive may wait on the channel: not before the engine is
    /// started, and not once the channel was found closed.
    pub fn check_recv(&self) -> (r: Result<(), EngineError>)
        ensures
            r == recv_gate(*self),
    {
        if !self.started {
            Err(EngineError::NotStarted)
        } else if self.closed {
            Err(EngineError::ChannelClosed)
        } else {
            Ok(())
        }
    }

    /// Takes what waiting on the channel gave: an event, or `None` once every
    /// sender is gone, after which the channel counts as closed for good.
    pub fn finish_recv<E>(&mut self, received: Option<E>) -> (r: Result<E, EngineError>)
        ensures
            received is Some ==> r == Ok::<E, EngineError>(received->Some_0) && *final(self)
                == *old(self),
            received is None ==> r == Err::<E, EngineError>(EngineError::ChannelClosed)
                && *final(self) == (Lifecycle { closed: true, ..*old(self) }),
    {
        match received {
            Some(e) => Ok(e),
            None => {
                self.closed = true;
                Err(EngineError::ChannelClosed)
            },
        }
    }
}

/// Once a started engine's channel is found closed, every later receive fails
/// with `ChannelClosed` without waiting, whatever else is done to the engine.
pub proof fn lemma_closed_stays_closed(l: Lifecycle)
    requires
        l.started,
        l.closed,
    ensures
        recv_gate(l) == Err::<(), EngineError>(EngineError::ChannelClosed),
        recv_gate(Lifecycle { started: true, ..l }) == recv_gate(l),
        recv_gate(Lifecycle { closed: true, ..l }) == recv_gate(l),
{
}

/// Before a start, a receive always fails with `NotStarted`, closed channel or not.
pub proof fn lemma_recv_before_start(l: Lifecycle)
    requires
        !l.started,
    ensures
        recv_gate(l) == Err::<(), EngineError>(EngineError::NotStarted),
{
}

} // verus!

verus! {

/// The event a reactor task sends after one wait for readiness of its own
/// handle: `Ready` with its identifier, or the wait's error.
pub open spec fn readiness_result<T>(id: T, readiness: Result<(), std::io::Error>) -> Event<T> {
    match readiness {
        Ok(()) => Event::Ready(id),
        Err(e) => Event::Failure(e),
    }
}

/// What a reactor task sends after one wait for readiness of its own handle.
/// Either way the task keeps watching: a failure concerns this handle alone.
pub fn readiness_event<T>(id: T, readiness: Result<(), std::io::Error>) -> (r: Event<T>)
    ensures
        r == readiness_result(id, readiness),
{
    match readiness {
        Ok(()) => Event::Ready(id),
        Err(e) => Event::Failure(e),
    }
}

/// Reactor tasks are independent: what one task sends depends on its own
/// identifier and its own wait alone, so a handle that fires is reported as
/// `Ready` under its identifier whatever another task saw, a failure included.
pub proof fn lemma_tasks_independent<T>(
    a: T,
    b: T,
    wait_a: Result<(), std::io::Error>,
    wait_b: Result<(), std::io::Error>,
)
    ensures
        wait_b is Ok ==> readiness_result(b, wait_b) == Event::Ready(b),
        wait_a is Ok ==> readiness_result(a, wait_a) == Event::Ready(a),
        wait_a is Err ==> readiness_result(a, wait_a) is Failure,
{
}

} // verus!
