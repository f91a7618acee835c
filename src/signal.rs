use std::sync::Arc;

use tokio::sync::{broadcast, mpsc, Notify};
use vstd::prelude::*;

verus! {

#[verifier::external_type_specification]
#[verifier::external_body]
pub struct ExNotify(Notify);

#[verifier::external_type_specification]
#[verifier::external_body]
#[verifier::reject_recursive_types(T)]
pub struct ExMpscSender<T>(mpsc::Sender<T>);

#[verifier::external_type_specification]
#[verifier::external_body]
#[verifier::reject_recursive_types(T)]
pub struct ExMpscReceiver<T>(mpsc::Receiver<T>);

#[verifier::external_type_specification]
#[verifier::external_body]
#[verifier::reject_recursive_types(T)]
pub struct ExBroadcastSender<T>(broadcast::Sender<T>);

#[verifier::external_type_specification]
#[verifier::external_body]
#[verifier::reject_recursive_types(T)]
pub struct ExBroadcastReceiver<T>(broadcast::Receiver<T>);

/// How many values a queue or broadcast channel holds before senders wait or
/// slow receivers lag.
pub const CHANNEL_CAPACITY: usize = 255;

/// Why a signal operation did not happen.
#[derive(Debug, Clone, Copy, PartialEq, Eq, Structural)]
pub enum SignalErr {
    WrongSignal,
    MPSCErr,
    BroadcastError,
    NoReceiver,
    NoSender,
    NoHandler,
}

/// The shape of a signal.
#[allow(non_camel_case_types)]
#[derive(Debug, Clone, Copy, PartialEq, Eq, Structural)]
pub enum SignalType {
    notify,
    mpsc,
    broadcast,
    stub,
}

/// What a non-blocking receive on a channel found.
#[derive(Debug)]
pub enum TryRecvOutcome<T> {
    Value(T),
    Empty,
    Closed,
    Lagged,
}

/// Which primitive a send or a receive goes through.
#[derive(Debug, Clone, Copy, PartialEq, Eq, Structural)]
pub enum Route {
    Notify,
    Mpsc,
    Broadcast,
}

/// A signal as plain values: its shape, and which handles it holds (`tx` and
/// `rx` are the two halves of its channel, when it has one).
pub struct SignalState {
    pub kind: SignalType,
    pub notify: bool,
    pub tx: bool,
    pub rx: bool,
}

/// One synchronization handle of one of four shapes: a stub that can do
/// nothing, a shared wake-up, a single-consumer queue, or a broadcast.
#[verifier::reject_recursive_types(T)]
pub struct Signal<T> {
    signal: SignalType,
    inner_notify: Option<Arc<Notify>>,
    inner_mpsc: (Option<mpsc::Sender<T>>, Option<mpsc::Receiver<T>>),
    inner_broadcast: (Option<broadcast::Sender<T>>, Option<broadcast::Receiver<T>>),
}

impl<T> Signal<T> {
    /// The shared wake-up this handle holds, if any.
    pub closed spec fn notify_handle(&self) -> Option<Arc<Notify>> {
        self.inner_notify
    }
}

impl<T> View for Signal<T> {
    type V = SignalState;

    closed spec fn view(&self) -> SignalState {
        SignalState {
            kind: self.signal,
            notify: self.inner_notify is Some,
            tx: match self.signal {
                SignalType::mpsc => self.inner_mpsc.0 is Some,
                SignalType::broadcast => self.inner_broadcast.0 is Some,
                _ => false,
            },
            rx: match self.signal {
                SignalType::mpsc => self.inner_mpsc.1 is Some,
                SignalType::broadcast => self.inner_broadcast.1 is Some,
                _ => false,
            },
        }
    }
}

/// A signal that has been closed, or was made a stub.
pub open spec fn stub_state() -> SignalState {
    SignalState { kind: SignalType::stub, notify: false, tx: false, rx: false }
}

/// A new signal of the given shape holds every handle that shape has.
pub open spec fn fresh_state(kind: SignalType) -> SignalState {
    SignalState {
        kind,
        notify: kind == SignalType::notify,
        tx: kind == SignalType::mpsc || kind == SignalType::broadcast,
        rx: kind == SignalType::mpsc || kind == SignalType::broadcast,
    }
}

/// A subscription shares the wake-up, clones the queue's sender (the single
/// receiver stays where it is), or clones the broadcast sender and subscribes
/// a new receiver.
pub open spec fn subscribed_state(s: SignalState) -> SignalState {
    match s.kind {
        SignalType::stub => stub_state(),
        SignalType::notify => SignalState { kind: SignalType::notify, notify: s.notify, tx: false, rx: false },
        SignalType::mpsc => SignalState { kind: SignalType::mpsc, notify: false, tx: s.tx, rx: false },
        SignalType::broadcast => SignalState { kind: SignalType::broadcast, notify: false, tx: s.tx, rx: s.tx },
    }
}

/// The result of waking through a signal, and of asking for its wake-up.
pub open spec fn notify_result(s: SignalState) -> Result<(), SignalErr> {
    match s.kind {
        SignalType::stub => Err(SignalErr::NoHandler),
        SignalType::notify => if s.notify {
            Ok(())
        } else {
            Err(SignalErr::NoHandler)
        },
        _ => Err(SignalErr::WrongSignal),
    }
}

/// The primitive a send goes through, or why there is none.
pub open spec fn send_route_of(s: SignalState) -> Result<Route, SignalErr> {
    match s.kind {
        SignalType::stub => Err(SignalErr::NoHandler),
        SignalType::notify => if s.notify {
            Ok(Route::Notify)
        } else {
            Err(SignalErr::NoHandler)
        },
        SignalType::mpsc => if s.tx {
            Ok(Route::Mpsc)
        } else {
            Err(SignalErr::NoSender)
        },
        SignalType::broadcast => if s.tx {
            Ok(Route::Broadcast)
        } else {
            Err(SignalErr::NoSender)
        },
    }
}

/// The primitive a blocking receive goes through, or why there is none.
pub open spec fn recv_route_of(s: SignalState) -> Result<Route, SignalErr> {
    match s.kind {
        SignalType::stub => Err(SignalErr::NoHandler),
        SignalType::notify => if s.notify {
            Ok(Route::Notify)
        } else {
            Err(SignalErr::NoHandler)
        },
        SignalType::mpsc => if s.rx {
            Ok(Route::Mpsc)
        } else {
            Err(SignalErr::NoReceiver)
        },
        SignalType::broadcast => if s.rx {
            Ok(Route::Broadcast)
        } else {
            Err(SignalErr::NoReceiver)
        },
    }
}

/// What a non-blocking receive reports for what the channel held.
pub open spec fn try_recv_result<T>(o: TryRecvOutcome<T>) -> Result<Option<T>, SignalErr> {
    match o {
        TryRecvOutcome::Value(v) => Ok(Some(v)),
        TryRecvOutcome::Empty => Ok(None),
        TryRecvOutcome::Closed => Err(SignalErr::NoSender),
        TryRecvOutcome::Lagged => Err(SignalErr::BroadcastError),
    }
}

/// Once closed, a signal refuses every operation with `NoHandler`, and stays
/// closed when subscribed to.
pub proof fn lemma_closed_refuses_all()
    ensures
        notify_result(stub_state()) == Err::<(), SignalErr>(SignalErr::NoHandler),
        send_route_of(stub_state()) == Err::<Route, SignalErr>(SignalErr::NoHandler),
        recv_route_of(stub_state()) == Err::<Route, SignalErr>(SignalErr::NoHandler),
        subscribed_state(stub_state()) == stub_state(),
{
}

/// Relies on tokio's `Notify::new`, shared behind std's `Arc::new`.
#[verifier::external_body]
fn new_notify() -> Arc<Notify> {
    Arc::new(Notify::new())
}

/// Relies on std's `Arc::clone`: another handle on the same wake-up.
#[verifier::external_body]
fn share_notify(n: &Arc<Notify>) -> (r: Arc<Notify>)
    ensures
        r == *n,
{
    Arc::clone(n)
}

/// Relies on tokio's `Notify::notify_one`: wakes one waiter or stores one
/// permit.
#[verifier::external_body]
fn wake_one(n: &Arc<Notify>) {
    n.notify_one()
}

/// Relies on tokio's `mpsc::channel`, which panics on a capacity of 0 or
/// above `usize::MAX >> 3`, that is `usize::MAX / 8` (its semaphore's limit
/// on permits).
#[verifier::external_body]
fn new_mpsc<T>(capacity: usize) -> (mpsc::Sender<T>, mpsc::Receiver<T>)
    requires
        0 < capacity <= usize::MAX / 8,
{
    mpsc::channel(capacity)
}

/// Relies on tokio's `broadcast::channel`, which panics on a capacity of 0
/// or above `usize::MAX / 2`.
#[verifier::external_body]
fn new_broadcast<T: Clone>(capacity: usize) -> (broadcast::Sender<T>, broadcast::Receiver<T>)
    requires
        0 < capacity <= usize::MAX / 2,
{
    broadcast::channel(capacity)
}

/// Relies on `Clone` for tokio's `mpsc::Sender`: another sender on the same
/// queue.
#[verifier::external_body]
fn clone_mpsc_sender<T>(tx: &mpsc::Sender<T>) -> mpsc::Sender<T> {
    tx.clone()
}

/// Relies on `Clone` for tokio's `broadcast::Sender`: another sender on the
/// same channel.
#[verifier::external_body]
fn clone_broadcast_sender<T>(tx: &broadcast::Sender<T>) -> broadcast::Sender<T> {
    tx.clone()
}

/// Relies on tokio's `broadcast::Sender::subscribe`: a receiver of every value
/// sent from now on. It panics only past `usize::MAX >> 2` receivers on one
/// channel.
#[verifier::external_body]
fn subscribe_broadcast<T>(tx: &broadcast::Sender<T>) -> broadcast::Receiver<T> {
    tx.subscribe()
}

/// Relies on tokio's `mpsc::Receiver::close`: later sends fail, buffered
/// values stay readable.
#[verifier::external_body]
fn close_mpsc_receiver<T>(rx: &mut mpsc::Receiver<T>) {
    rx.close()
}

/// Relies on tokio's `broadcast::Sender::send`: true when at least one
/// receiver was there to get the value.
#[verifier::external_body]
fn broadcast_send<T>(tx: &broadcast::Sender<T>, value: T) -> bool {
    tx.send(value).is_ok()
}

/// Relies on tokio's `mpsc::Receiver::try_recv`; a queue never lags.
#[verifier::external_body]
fn mpsc_try_recv<T>(rx: &mut mpsc::Receiver<T>) -> (r: TryRecvOutcome<T>)
    ensures
        !(r is Lagged),
{
    match rx.try_recv() {
        Ok(v) => TryRecvOutcome::Value(v),
        Err(mpsc::error::TryRecvError::Empty) => TryRecvOutcome::Empty,
        Err(mpsc::error::TryRecvError::Disconnected) => TryRecvOutcome::Closed,
    }
}

/// Relies on tokio's `broadcast::Receiver::try_recv`.
#[verifier::external_body]
fn broadcast_try_recv<T: Clone>(rx: &mut broadcast::Receiver<T>) -> TryRecvOutcome<T> {
    match rx.try_recv() {
        Ok(v) => TryRecvOutcome::Value(v),
        Err(broadcast::error::TryRecvError::Empty) => TryRecvOutcome::Empty,
        Err(broadcast::error::TryRecvError::Closed) => TryRecvOutcome::Closed,
        Err(broadcast::error::TryRecvError::Lagged(_)) => TryRecvOutcome::Lagged,
    }
}

/// What a non-blocking receive reports for what the channel held.
pub fn try_recv_from<T>(o: TryRecvOutcome<T>) -> (r: Result<Option<T>, SignalErr>)
    ensures
        r == try_recv_result(o),
{
    match o {
        TryRecvOutcome::Value(v) => Ok(Some(v)),
        TryRecvOutcome::Empty => Ok(None),
        TryRecvOutcome::Closed => Err(SignalErr::NoSender),
        TryRecvOutcome::Lagged => Err(SignalErr::BroadcastError),
    }
}

impl<T: Clone> Signal<T> {
    fn stub() -> (r: Signal<T>)
        ensures
            r@ == stub_state(),
    {
        Signal { signal: SignalType::stub, inner_notify: None, inner_mpsc: (None, None), inner_broadcast: (None, None) }
    }

    pub fn new(signal_type: SignalType) -> (r: Signal<T>)
        ensures
            r@ == fresh_state(signal_type),
    {
        match signal_type {
            SignalType::stub => Signal::stub(),
            SignalType::notify => Signal {
                signal: SignalType::notify,
                inner_notify: Some(new_notify()),
                inner_mpsc: (None, None),
                inner_broadcast: (None, None),
            },
            SignalType::mpsc => {
                let (tx, rx) = new_mpsc(CHANNEL_CAPACITY);
                Signal {
                    signal: SignalType::mpsc,
                    inner_notify: None,
                    inner_mpsc: (Some(tx), Some(rx)),
                    inner_broadcast: (None, None),
                }
            },
            SignalType::broadcast => {
                let (tx, rx) = new_broadcast(CHANNEL_CAPACITY);
                Signal {
                    signal: SignalType::broadcast,
                    inner_notify: None,
                    inner_mpsc: (None, None),
                    inner_broadcast: (Some(tx), Some(rx)),
                }
            },
        }
    }

    /// The shape of the signal.
    pub fn kind(&self) -> (r: SignalType)
        ensures
            r == self@.kind,
    {
        self.signal
    }

    /// A new handle on the same primitive.
    pub fn subscribe(&self) -> (r: Signal<T>)
        ensures
            r@ == subscribed_state(self@),
            self@.kind == SignalType::notify ==> r.notify_handle() == self.notify_handle(),
    {
        match self.signal {
            SignalType::stub => Signal::stub(),
            SignalType::notify => {
                let inner_notify = match &self.inner_notify {
                    Some(n) => Some(share_notify(n)),
                    None => None,
                };
                Signal { signal: SignalType::notify, inner_notify, inner_mpsc: (None, None), inner_broadcast: (None, None) }
            },
            SignalType::mpsc => {
                let sender = match &self.inner_mpsc.0 {
                    Some(tx) => Some(clone_mpsc_sender(tx)),
                    None => None,
                };
                Signal { signal: SignalType::mpsc, inner_notify: None, inner_mpsc: (sender, None), inner_broadcast: (None, None) }
            },
            SignalType::broadcast => {
                let halves = match &self.inner_broadcast.0 {
                    Some(tx) => (Some(clone_broadcast_sender(tx)), Some(subscribe_broadcast(tx))),
                    None => (None, None),
                };
                Signal { signal: SignalType::broadcast, inner_notify: None, inner_mpsc: (None, None), inner_broadcast: halves }
            },
        }
    }

    /// Drops every handle; the signal becomes a stub for good.
    pub fn close(&mut self)
        ensures
            final(self)@ == stub_state(),
    {
        if let Some(rx) = self.inner_mpsc.1.as_mut() {
            close_mpsc_receiver(rx);
        }
        self.inner_notify = None;
        self.inner_mpsc = (None, None);
        self.inner_broadcast = (None, None);
        self.signal = SignalType::stub;
    }

    /// Wakes one waiter of a wake-up signal.
    pub fn notify_one(&self) -> (r: Result<(), SignalErr>)
        ensures
            r == notify_result(self@),
    {
        match self.signal {
            SignalType::stub => Err(SignalErr::NoHandler),
            SignalType::notify => match &self.inner_notify {
                Some(n) => {
                    wake_one(n);
                    Ok(())
                },
                None => Err(SignalErr::NoHandler),
            },
            _ => Err(SignalErr::WrongSignal),
        }
    }

    /// The wake-up of a wake-up signal, to wait on.
    pub fn notifier(&self) -> (r: Result<&Arc<Notify>, SignalErr>)
        ensures
            r is Ok == notify_result(self@) is Ok,
            r is Err ==> r == Err::<&Arc<Notify>, SignalErr>(notify_result(self@)->Err_0),
    {
        match self.signal {
            SignalType::stub => Err(SignalErr::NoHandler),
            SignalType::notify => match &self.inner_notify {
                Some(n) => Ok(n),
                None => Err(SignalErr::NoHandler),
            },
            _ => Err(SignalErr::WrongSignal),
        }
    }

    /// Which primitive a send goes through.
    pub fn send_route(&self) -> (r: Result<Route, SignalErr>)
        ensures
            r == send_route_of(self@),
    {
        match self.signal {
            SignalType::stub => Err(SignalErr::NoHandler),
            SignalType::notify => if self.inner_notify.is_some() {
                Ok(Route::Notify)
            } else {
                Err(SignalErr::NoHandler)
            },
            SignalType::mpsc => if self.inner_mpsc.0.is_some() {
                Ok(Route::Mpsc)
            } else {
                Err(SignalErr::NoSender)
            },
            SignalType::broadcast => if self.inner_broadcast.0.is_some() {
                Ok(Route::Broadcast)
            } else {
                Err(SignalErr::NoSender)
            },
        }
    }

    /// Which primitive a blocking receive goes through.
    pub fn recv_route(&self) -> (r: Result<Route, SignalErr>)
        ensures
            r == recv_route_of(self@),
    {
        match self.signal {
            SignalType::stub => Err(SignalErr::NoHandler),
            SignalType::notify => if self.inner_notify.is_some() {
                Ok(Route::Notify)
            } else {
                Err(SignalErr::NoHandler)
            },
            SignalType::mpsc => if self.inner_mpsc.1.is_some() {
                Ok(Route::Mpsc)
            } else {
                Err(SignalErr::NoReceiver)
            },
            SignalType::broadcast => if self.inner_broadcast.1.is_some() {
                Ok(Route::Broadcast)
            } else {
                Err(SignalErr::NoReceiver)
            },
        }
    }

    /// Sends without waiting, on every shape but the queue (whose send may
    /// wait for room): a wake-up ignores the value, a broadcast fails with
    /// `NoReceiver` when nobody listens.
    pub fn send_now(&self, data: T) -> (r: Result<(), SignalErr>)
        requires
            send_route_of(self@) != Ok::<Route, SignalErr>(Route::Mpsc),
        ensures
            send_route_of(self@) is Err ==> r == Err::<(), SignalErr>(send_route_of(self@)->Err_0),
            send_route_of(self@) == Ok::<Route, SignalErr>(Route::Notify) ==> r == Ok::<(), SignalErr>(()),
            send_route_of(self@) == Ok::<Route, SignalErr>(Route::Broadcast) ==> (r is Ok || r == Err::<(), SignalErr>(SignalErr::NoReceiver)),
    {
        match self.signal {
            SignalType::stub => Err(SignalErr::NoHandler),
            SignalType::notify => self.notify_one(),
            SignalType::mpsc => Err(SignalErr::NoSender),
            SignalType::broadcast => match &self.inner_broadcast.0 {
                None => Err(SignalErr::NoSender),
                Some(tx) => if broadcast_send(tx, data) {
                    Ok(())
                } else {
                    Err(SignalErr::NoReceiver)
                },
            },
        }
    }

    /// The queue's sender, on a queue signal that has one.
    pub fn mpsc_sender(&self) -> (r: Option<&mpsc::Sender<T>>)
        ensures
            r is Some == (self@.kind == SignalType::mpsc && self@.tx),
    {
        match self.signal {
            SignalType::mpsc => self.inner_mpsc.0.as_ref(),
            _ => None,
        }
    }

    /// The queue's receiver, on a queue signal that has one.
    pub fn mpsc_receiver(&mut self) -> (r: Option<&mut mpsc::Receiver<T>>)
        ensures
            r is Some == (old(self)@.kind == SignalType::mpsc && old(self)@.rx),
    {
        match self.signal {
            SignalType::mpsc => self.inner_mpsc.1.as_mut(),
            _ => None,
        }
    }

    /// The broadcast receiver, on a broadcast signal that has one.
    pub fn broadcast_receiver(&mut self) -> (r: Option<&mut broadcast::Receiver<T>>)
        ensures
            r is Some == (old(self)@.kind == SignalType::broadcast && old(self)@.rx),
    {
        match self.signal {
            SignalType::broadcast => self.inner_broadcast.1.as_mut(),
            _ => None,
        }
    }

    /// Takes a value without waiting. A stub refuses with `NoHandler`, a
    /// wake-up with `WrongSignal`, a channel end without receiver with
    /// `NoReceiver`; otherwise the channel's answer: a value, nothing yet,
    /// `NoSender` once every sender is gone, or `BroadcastError` when a
    /// broadcast receiver lagged.
    pub fn try_recv(&mut self) -> (r: Result<Option<T>, SignalErr>)
        ensures
            final(self)@ == old(self)@,
            old(self)@.kind == SignalType::stub ==> r == Err::<Option<T>, SignalErr>(SignalErr::NoHandler),
            old(self)@.kind == SignalType::notify ==> r == Err::<Option<T>, SignalErr>(SignalErr::WrongSignal),
            (old(self)@.kind == SignalType::mpsc || old(self)@.kind == SignalType::broadcast) && !old(self)@.rx
                ==> r == Err::<Option<T>, SignalErr>(SignalErr::NoReceiver),
            (old(self)@.kind == SignalType::mpsc || old(self)@.kind == SignalType::broadcast) && old(self)@.rx
                ==> exists|o: TryRecvOutcome<T>| r == try_recv_result(o) && (old(self)@.kind == SignalType::mpsc ==> !(o is Lagged)),
    {
        match self.signal {
            SignalType::stub => Err(SignalErr::NoHandler),
            SignalType::notify => Err(SignalErr::WrongSignal),
            SignalType::mpsc => match self.inner_mpsc.1.as_mut() {
                None => Err(SignalErr::NoReceiver),
                Some(rx) => {
                    let o = mpsc_try_recv(rx);
                    let ghost g = o;
                    let r = try_recv_from(o);
                    assert(r == try_recv_result(g));
                    r
                },
            },
            SignalType::broadcast => match self.inner_broadcast.1.as_mut() {
                None => Err(SignalErr::NoReceiver),
                Some(rx) => {
                    let o = broadcast_try_recv(rx);
                    let ghost g = o;
                    let r = try_recv_from(o);
                    assert(r == try_recv_result(g));
                    r
                },
            },
        }
    }
}

} // verus!
