use quantx_core::channel::{
    mpsc_unbounded, AsyncRx, AsyncTx, KanalAsyncChannel, KanalSyncChannel, SyncRx, SyncTx,
};

#[test]
fn channel_round_trip_single_sender_in_order() {
    let (tx, mut rx) = mpsc_unbounded::<KanalSyncChannel, u32>();
    for i in 0..100 {
        tx.send(i).unwrap();
    }
    drop(tx);
    let mut received = Vec::new();
    while let Ok(item) = rx.recv() {
        received.push(item);
    }
    assert_eq!(received, (0..100).collect::<Vec<u32>>());
}

#[test]
fn channel_round_trip_many_senders_exactly_once() {
    let (tx, mut rx) = mpsc_unbounded::<KanalSyncChannel, (u8, u32)>();
    let senders: Vec<_> = (0..4u8).map(|_| tx.clone()).collect();
    for i in 0..50u32 {
        for (id, sender) in senders.iter().enumerate() {
            sender.send((id as u8, i)).unwrap();
        }
    }
    drop(senders);
    drop(tx);
    let mut received = Vec::new();
    while let Ok(item) = rx.recv() {
        received.push(item);
    }
    assert_eq!(received.len(), 200);
    for id in 0..4u8 {
        let from_one: Vec<u32> = received.iter().filter(|(s, _)| *s == id).map(|(_, i)| *i).collect();
        assert_eq!(from_one, (0..50).collect::<Vec<u32>>());
    }
}

#[test]
fn channel_send_fails_once_receiver_dropped() {
    let (tx, rx) = mpsc_unbounded::<KanalSyncChannel, u8>();
    drop(rx);
    assert!(tx.send(1).is_err());
}

#[test]
fn channel_recv_fails_once_senders_dropped_and_drained() {
    let (tx, mut rx) = mpsc_unbounded::<KanalSyncChannel, u8>();
    tx.send(9).unwrap();
    drop(tx);
    assert_eq!(rx.recv().unwrap(), 9);
    assert!(rx.recv().is_err());
}

#[test]
fn async_channel_round_trip() {
    let (tx, mut rx) = mpsc_unbounded::<KanalAsyncChannel, String>();
    futures::executor::block_on(async {
        AsyncTx::send(&tx, "first".to_string()).await.unwrap();
        AsyncTx::send(&tx, "second".to_string()).await.unwrap();
        assert_eq!(AsyncRx::recv(&mut rx).await.unwrap(), "first");
        assert_eq!(AsyncRx::recv(&mut rx).await.unwrap(), "second");
    });
    drop(tx);
    assert!(futures::executor::block_on(AsyncRx::recv(&mut rx)).is_err());
}
