use chat_relay::glue::with_channel;
use tokio::sync::mpsc::{unbounded_channel, UnboundedSender};

fn forward(event: &u32, row: &String, tx: &UnboundedSender<String>) {
    tx.send(format!("{}:{}", event, row)).unwrap();
}

#[test]
fn bound_callback_sends_on_its_channel() {
    let (tx, mut rx) = unbounded_channel::<String>();
    let mut bound = with_channel(tx, forward);
    bound(&1, &"first".to_string());
    bound(&2, &"second".to_string());
    assert_eq!(rx.try_recv().ok(), Some("1:first".to_string()));
    assert_eq!(rx.try_recv().ok(), Some("2:second".to_string()));
    assert!(rx.try_recv().is_err());
    drop(bound);
    assert!(rx.try_recv().is_err());
}

#[test]
fn bound_closure_is_accepted_as_callback() {
    let (tx, mut rx) = unbounded_channel::<u64>();
    let mut bound = with_channel(tx, |event: &u64, row: &u64, tx: &UnboundedSender<u64>| {
        tx.send(event + row).unwrap();
    });
    bound(&40, &2);
    assert_eq!(rx.try_recv().ok(), Some(42));
}
