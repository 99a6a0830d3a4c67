use std::marker::PhantomData;
use vstd::prelude::*;

verus! {

#[verifier::external_type_specification]
#[verifier::external_body]
#[verifier::reject_recursive_types(T)]
pub struct ExKanalSender<T>(kanal::Sender<T>);

#[verifier::external_type_specification]
#[verifier::external_body]
#[verifier::reject_recursive_types(T)]
pub struct ExKanalReceiver<T>(kanal::Receiver<T>);

#[verifier::external_type_specification]
#[verifier::external_body]
#[verifier::reject_recursive_types(T)]
pub struct ExKanalAsyncSender<T>(kanal::AsyncSender<T>);

#[verifier::external_type_specification]
#[verifier::external_body]
#[verifier::reject_recursive_types(T)]
pub struct ExKanalAsyncReceiver<T>(kanal::AsyncReceiver<T>);

#[verifier::external_type_specification]
#[verifier::external_body]
#[verifier::reject_recursive_types(T)]
pub struct ExKanalSendFuture<'a, T>(kanal::SendFuture<'a, T>);

#[verifier::external_type_specification]
#[verifier::external_body]
#[verifier::reject_recursive_types(T)]
pub struct ExKanalReceiveFuture<'a, T>(kanal::ReceiveFuture<'a, T>);

#[verifier::external_type_specification]
#[verifier::external_body]
pub struct ExKanalSendError(kanal::SendError);

#[verifier::external_type_specification]
#[verifier::external_body]
pub struct ExKanalReceiveError(kanal::ReceiveError);

/// Relies on kanal::unbounded: a fresh unbounded channel, as a blocking sender and receiver.
#[verifier::external_body]
fn kanal_unbounded<T>() -> (kanal::Sender<T>, kanal::Receiver<T>) {
    kanal::unbounded::<T>()
}

/// Relies on kanal::unbounded_async: a fresh unbounded channel, as a suspending sender and receiver.
#[verifier::external_body]
fn kanal_unbounded_async<T>() -> (kanal::AsyncSender<T>, kanal::AsyncReceiver<T>) {
    kanal::unbounded_async::<T>()
}

/// Relies on kanal::Sender::send: queues the item, or fails once every receiver is gone.
#[verifier::external_body]
fn kanal_send<T>(tx: &kanal::Sender<T>, item: T) -> Result<(), kanal::SendError> {
    tx.send(item)
}

/// Relies on kanal::Receiver::recv: blocks until an item comes, or fails once the channel is closed.
#[verifier::external_body]
fn kanal_recv<T>(rx: &kanal::Receiver<T>) -> Result<T, kanal::ReceiveError> {
    rx.recv()
}

/// Relies on kanal::AsyncSender::send: a future that queues the item, or fails once every receiver is gone.
#[verifier::external_body]
fn kanal_send_async<'a, T>(tx: &'a kanal::AsyncSender<T>, item: T) -> kanal::SendFuture<'a, T> {
    tx.send(item)
}

/// Relies on kanal::AsyncReceiver::recv: a future of the next item, or of the error once the channel is closed.
#[verifier::external_body]
fn kanal_recv_async<'a, T>(rx: &'a kanal::AsyncReceiver<T>) -> kanal::ReceiveFuture<'a, T> {
    rx.recv()
}

/// The blocking kind of channel, over the backend `K`.
#[derive(Debug)]
pub struct SyncChannel<K>(pub PhantomData<K>);

/// The suspending kind of channel, over the backend `K`.
#[derive(Debug)]
pub struct AsyncChannel<K>(pub PhantomData<K>);

/// A backend that makes blocking unbounded channels of `T`.
pub trait SyncChannelKind<T> {
    type Sender;

    type Receiver;

    fn unbounded() -> (Self::Sender, Self::Receiver);
}

/// A backend that makes suspending unbounded channels of `T`.
pub trait AsyncChannelKind<T> {
    type Sender;

    type Receiver;

    fn unbounded() -> (Self::Sender, Self::Receiver);
}

/// What the rest of the system asks of a channel kind: an unbounded sender and receiver pair.
pub trait ChannelBaseKind<T> {
    type Sender;

    type Receiver;

    fn unbounded() -> (Self::Sender, Self::Receiver);
}

impl<K: SyncChannelKind<T>, T> ChannelBaseKind<T> for SyncChannel<K> {
    type Sender = K::Sender;

    type Receiver = K::Receiver;

    fn unbounded() -> (Self::Sender, Self::Receiver) {
        K::unbounded()
    }
}

impl<K: AsyncChannelKind<T>, T> ChannelBaseKind<T> for AsyncChannel<K> {
    type Sender = K::Sender;

    type Receiver = K::Receiver;

    fn unbounded() -> (Self::Sender, Self::Receiver) {
        K::unbounded()
    }
}

/// A sender that may block the calling thread.
pub trait SendSyncLike<T> {
    type SendError;

    fn send_sync(&self, item: T) -> Result<(), Self::SendError>;
}

/// A receiver that blocks the calling thread until an item comes or the channel closes.
pub trait RecvSyncLike<T> {
    type ReceiveError;

    fn recv_sync(&mut self) -> Result<T, Self::ReceiveError>;
}

/// A sender whose send is a future, borrowing the sender for `'a`.
pub trait SendAsyncLike<'a, T> {
    type SendFuture;

    fn send_async(&'a self, item: T) -> Self::SendFuture;
}

/// A receiver whose receive is a future, borrowing the receiver for `'a`.
pub trait RecvAsyncLike<'a, T> {
    type RecvFuture;

    fn recv_async(&'a mut self) -> Self::RecvFuture;
}

/// The sending half of a blocking channel.
pub trait SyncTx<T> {
    type SendError;

    fn send(&self, item: T) -> Result<(), Self::SendError>;
}

/// The sending half of a suspending channel.
pub trait AsyncTx<'a, T> {
    type SendFuture;

    fn send(&'a self, item: T) -> Self::SendFuture;
}

/// The receiving half of a blocking channel.
pub trait SyncRx<T> {
    type ReceiveError;

    fn recv(&mut self) -> Result<T, Self::ReceiveError>;
}

/// The receiving half of a suspending channel.
pub trait AsyncRx<'a, T> {
    type RecvFuture;

    fn recv(&'a mut self) -> Self::RecvFuture;
}

/// The sending half of an unbounded channel of kind `K`; clone it to share the queue.
pub struct UnboundedTx<K: ChannelBaseKind<T>, T> {
    pub tx: K::Sender,
}

impl<K: ChannelBaseKind<T>, T> Clone for UnboundedTx<K, T> where K::Sender: Clone {
    /// Another handle on the same queue.
    fn clone(&self) -> Self {
        UnboundedTx { tx: self.tx.clone() }
    }
}

/// The receiving half of an unbounded channel of kind `K`; it has one owner.
pub struct UnboundedRx<K: ChannelBaseKind<T>, T> {
    pub rx: K::Receiver,
}

impl<K: SyncChannelKind<T>, T> SyncTx<T> for UnboundedTx<SyncChannel<K>, T> where
    K::Sender: SendSyncLike<T>,
 {
    type SendError = <K::Sender as SendSyncLike<T>>::SendError;

    fn send(&self, item: T) -> Result<(), Self::SendError> {
        self.tx.send_sync(item)
    }
}

impl<K: SyncChannelKind<T>, T> SyncRx<T> for UnboundedRx<SyncChannel<K>, T> where
    K::Receiver: RecvSyncLike<T>,
 {
    type ReceiveError = <K::Receiver as RecvSyncLike<T>>::ReceiveError;

    fn recv(&mut self) -> Result<T, Self::ReceiveError> {
        self.rx.recv_sync()
    }
}

impl<'a, K: AsyncChannelKind<T>, T> AsyncTx<'a, T> for UnboundedTx<AsyncChannel<K>, T> where
    K::Sender: SendAsyncLike<'a, T>,
 {
    type SendFuture = <K::Sender as SendAsyncLike<'a, T>>::SendFuture;

    fn send(&'a self, item: T) -> Self::SendFuture {
        self.tx.send_async(item)
    }
}

impl<'a, K: AsyncChannelKind<T>, T> AsyncRx<'a, T> for UnboundedRx<AsyncChannel<K>, T> where
    K::Receiver: RecvAsyncLike<'a, T>,
 {
    type RecvFuture = <K::Receiver as RecvAsyncLike<'a, T>>::RecvFuture;

    fn recv(&'a mut self) -> Self::RecvFuture {
        self.rx.recv_async()
    }
}

/// Makes one unbounded queue of kind `K` and hands back its two halves: the
/// sender and receiver that the kind's `unbounded` made together.
pub fn mpsc_unbounded<K: ChannelBaseKind<T>, T>() -> (r: (UnboundedTx<K, T>, UnboundedRx<K, T>))
    ensures
        call_ensures(K::unbounded, (), (r.0.tx, r.1.rx)),
{
    let (tx, rx) = K::unbounded();
    (UnboundedTx { tx }, UnboundedRx { rx })
}

/// The kanal backend, blocking.
#[derive(Debug, Clone, Copy)]
pub struct KanalSync;

/// The kanal backend, suspending.
#[derive(Debug, Clone, Copy)]
pub struct KanalAsync;

pub type KanalSyncChannel = SyncChannel<KanalSync>;

pub type KanalAsyncChannel = AsyncChannel<KanalAsync>;

impl<T> SyncChannelKind<T> for KanalSync {
    type Sender = kanal::Sender<T>;

    type Receiver = kanal::Receiver<T>;

    fn unbounded() -> (Self::Sender, Self::Receiver) {
        kanal_unbounded::<T>()
    }
}

impl<T> AsyncChannelKind<T> for KanalAsync {
    type Sender = kanal::AsyncSender<T>;

    type Receiver = kanal::AsyncReceiver<T>;

    fn unbounded() -> (Self::Sender, Self::Receiver) {
        kanal_unbounded_async::<T>()
    }
}

impl<T> SendSyncLike<T> for kanal::Sender<T> {
    type SendError = kanal::SendError;

    fn send_sync(&self, item: T) -> Result<(), Self::SendError> {
        kanal_send(self, item)
    }
}

impl<T> RecvSyncLike<T> for kanal::Receiver<T> {
    type ReceiveError = kanal::ReceiveError;

    fn recv_sync(&mut self) -> Result<T, Self::ReceiveError> {
        kanal_recv(self)
    }
}

impl<'a, T: 'a> SendAsyncLike<'a, T> for kanal::AsyncSender<T> {
    type SendFuture = kanal::SendFuture<'a, T>;

    fn send_async(&'a self, item: T) -> Self::SendFuture {
        kanal_send_async(self, item)
    }
}

impl<'a, T: 'a> RecvAsyncLike<'a, T> for kanal::AsyncReceiver<T> {
    type RecvFuture = kanal::ReceiveFuture<'a, T>;

    fn recv_async(&'a mut self) -> Self::RecvFuture {
        kanal_recv_async(self)
    }
}

} // verus!
