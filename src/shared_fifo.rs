use std::collections::VecDeque;
use std::sync::{Arc, Mutex};

use tokio::sync::Notify;
use vstd::prelude::*;

use crate::signal::{
    fresh_state, notify_result, stub_state, subscribed_state, try_recv_result, Signal, SignalErr, SignalState, SignalType,
    TryRecvOutcome,
};

verus! {

#[verifier::external_type_specification]
#[verifier::external_body]
#[verifier::reject_recursive_types(T)]
pub struct ExMutex<T: ?Sized>(Mutex<T>);

/// Relies on std's `Mutex::new`.
#[verifier::external_body]
fn new_mutex<T>(v: T) -> Mutex<T> {
    Mutex::new(v)
}

/// Relies on std's `Arc::clone`: another handle on the same queue.
#[verifier::external_body]
fn share_queue<T>(q: &Arc<Mutex<VecDeque<T>>>) -> Arc<Mutex<VecDeque<T>>> {
    Arc::clone(q)
}

/// Relies on std's `Mutex::lock` to insert at the front of the shared queue;
/// a lock poisoned by a panicking holder is taken over as it is.
#[verifier::external_body]
fn queue_push_front<T>(q: &Mutex<VecDeque<T>>, x: T) {
    let mut guard = match q.lock() {
        Ok(g) => g,
        Err(poisoned) => poisoned.into_inner(),
    };
    guard.push_front(x)
}

/// Relies on std's `Mutex::lock` to take the front of the shared queue; a lock
/// poisoned by a panicking holder is taken over as it is.
#[verifier::external_body]
fn queue_pop_front<T>(q: &Mutex<VecDeque<T>>) -> Option<T> {
    let mut guard = match q.lock() {
        Ok(g) => g,
        Err(poisoned) => poisoned.into_inner(),
    };
    guard.pop_front()
}

/// A queue shared between handles, whose readiness is told through a signal.
/// Every handle reaches the same queue; each has its own signal handle.
#[verifier::reject_recursive_types(T)]
#[verifier::reject_recursive_types(V)]
pub struct SharedFifo<T, V> {
    fifo: Arc<Mutex<VecDeque<T>>>,
    signal: Signal<V>,
}

impl<T, V: Clone> View for SharedFifo<T, V> {
    type V = SignalState;

    /// The state of this handle's signal; the queue's contents are shared and
    /// change under other handles.
    closed spec fn view(&self) -> SignalState {
        self.signal@
    }
}

impl<T, V: Clone> SharedFifo<T, V> {
    /// An empty queue with a new signal of the given shape.
    pub fn new(signal_mod: SignalType) -> (r: SharedFifo<T, V>)
        ensures
            r@ == fresh_state(signal_mod),
    {
        let data: VecDeque<T> = VecDeque::new();
        let fifo = Arc::new(new_mutex(data));
        let signal: Signal<V> = Signal::new(signal_mod);
        SharedFifo { fifo, signal }
    }

    /// Inserts at the front of the queue, without telling anyone.
    pub fn push(&mut self, data: T)
        ensures
            final(self)@ == old(self)@,
    {
        queue_push_front(&*self.fifo, data)
    }

    /// Takes the front of the queue, if any.
    pub fn pop(&self) -> Option<T> {
        queue_pop_front(&*self.fifo)
    }

    /// This handle's signal.
    pub fn signal(&self) -> (r: &Signal<V>)
        ensures
            r@ == self@,
    {
        &self.signal
    }

    /// This handle's signal, to send or receive on.
    pub fn signal_mut(&mut self) -> (r: &mut Signal<V>)
        ensures
            r@ == old(self)@,
            final(self)@ == final(r)@,
    {
        &mut self.signal
    }

    pub fn try_recv(&mut self) -> (r: Result<Option<V>, SignalErr>)
        ensures
            final(self)@ == old(self)@,
            old(self)@.kind == SignalType::stub ==> r == Err::<Option<V>, SignalErr>(SignalErr::NoHandler),
            old(self)@.kind == SignalType::notify ==> r == Err::<Option<V>, SignalErr>(SignalErr::WrongSignal),
            (old(self)@.kind == SignalType::mpsc || old(self)@.kind == SignalType::broadcast) && !old(self)@.rx
                ==> r == Err::<Option<V>, SignalErr>(SignalErr::NoReceiver),
            (old(self)@.kind == SignalType::mpsc || old(self)@.kind == SignalType::broadcast) && old(self)@.rx
                ==> exists|o: TryRecvOutcome<V>| r == try_recv_result(o) && (old(self)@.kind == SignalType::mpsc ==> !(o is Lagged)),
    {
        self.signal.try_recv()
    }

    pub fn notify_one(&self) -> (r: Result<(), SignalErr>)
        ensures
            r == notify_result(self@),
    {
        self.signal.notify_one()
    }

    /// The wake-up to wait on, on a wake-up signal.
    pub fn notifier(&self) -> (r: Result<&Arc<Notify>, SignalErr>)
        ensures
            r is Ok == notify_result(self@) is Ok,
            r is Err ==> r == Err::<&Arc<Notify>, SignalErr>(notify_result(self@)->Err_0),
    {
        self.signal.notifier()
    }

    /// Closes this handle's signal; the queue stays readable.
    pub fn close(&mut self)
        ensures
            final(self)@ == stub_state(),
    {
        self.signal.close()
    }
}

impl<T, V: Clone> Clone for SharedFifo<T, V> {
    /// Another handle on the same queue, subscribed to the same signal.
    fn clone(&self) -> (r: Self)
        ensures
            r@ == subscribed_state(self@),
    {
        SharedFifo { fifo: share_queue(&self.fifo), signal: self.signal.subscribe() }
    }
}

} // verus!
