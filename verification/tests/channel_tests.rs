use osx_system_tray::channel::channel;
use osx_system_tray::channel::EventChannel;
use osx_system_tray::error::Error;
use osx_system_tray::event::OsxSystemTrayEvent;

fn image(bytes: &[u8]) -> OsxSystemTrayEvent {
    OsxSystemTrayEvent::ChangeImage(bytes.to_vec())
}

#[test]
fn a_new_channel_is_open_and_empty() {
    let mut queue = EventChannel::new();
    assert!(!queue.is_closed());
    assert_eq!(queue.len(), 0);
    assert_eq!(queue.recv(), None);
}

#[test]
fn events_are_received_in_the_order_sent() {
    let mut queue = EventChannel::new();
    assert_eq!(queue.send(image(&[1])), Ok(()));
    assert_eq!(queue.send(OsxSystemTrayEvent::Shutdown), Ok(()));
    assert_eq!(queue.send(image(&[2, 3])), Ok(()));
    assert_eq!(queue.len(), 3);
    assert_eq!(queue.recv(), Some(image(&[1])));
    assert_eq!(queue.recv(), Some(OsxSystemTrayEvent::Shutdown));
    assert_eq!(queue.len(), 1);
    assert_eq!(queue.recv(), Some(image(&[2, 3])));
    assert_eq!(queue.recv(), None);
    assert_eq!(queue.len(), 0);
}

#[test]
fn a_closed_channel_refuses_and_keeps_what_it_held() {
    let mut queue = EventChannel::new();
    assert_eq!(queue.send(image(&[9])), Ok(()));
    queue.close();
    assert!(queue.is_closed());
    assert_eq!(queue.send(image(&[8])), Err(Error::ChannelClosed));
    assert_eq!(queue.send(OsxSystemTrayEvent::Shutdown), Err(Error::ChannelClosed));
    assert_eq!(queue.len(), 1);
    assert_eq!(queue.recv(), Some(image(&[9])));
    assert_eq!(queue.recv(), None);
}

#[test]
fn an_empty_image_is_an_event_like_any_other() {
    let mut queue = EventChannel::new();
    assert_eq!(queue.send(image(&[])), Ok(()));
    assert_eq!(queue.recv(), Some(image(&[])));
}

#[test]
fn both_ends_see_one_queue() {
    let (emitter, receiver) = channel();
    assert_eq!(receiver.try_recv(), None);
    assert_eq!(emitter.send(image(&[1])), Ok(()));
    let second = emitter.clone();
    assert_eq!(second.send(image(&[2])), Ok(()));
    assert_eq!(emitter.send(image(&[3])), Ok(()));
    assert_eq!(receiver.try_recv(), Some(image(&[1])));
    assert_eq!(receiver.try_recv(), Some(image(&[2])));
    assert_eq!(receiver.try_recv(), Some(image(&[3])));
    assert_eq!(receiver.try_recv(), None);
}

#[test]
fn sending_after_the_consumer_closed_fails_on_every_emitter() {
    let (emitter, receiver) = channel();
    let second = emitter.clone();
    assert_eq!(emitter.send(image(&[1])), Ok(()));
    receiver.close();
    assert_eq!(emitter.send(image(&[2])), Err(Error::ChannelClosed));
    assert_eq!(second.send(OsxSystemTrayEvent::Shutdown), Err(Error::ChannelClosed));
    assert_eq!(emitter.clone().send(image(&[3])), Err(Error::ChannelClosed));
    assert_eq!(receiver.try_recv(), Some(image(&[1])));
    assert_eq!(receiver.try_recv(), None);
}

#[test]
fn interleaved_producers_lose_and_duplicate_nothing() {
    let (emitter, receiver) = channel();
    let producers = [emitter.clone(), emitter.clone(), emitter.clone(), emitter];
    for n in 0u8..25 {
        for (producer, mine) in producers.iter().enumerate() {
            let event = OsxSystemTrayEvent::ChangeImage(vec![producer as u8, n]);
            assert_eq!(mine.send(event), Ok(()));
        }
    }
    let mut next_of = [0u8; 4];
    let mut total = 0;
    while let Some(event) = receiver.try_recv() {
        match event {
            OsxSystemTrayEvent::ChangeImage(bytes) => {
                assert_eq!(bytes.len(), 2);
                let producer = bytes[0] as usize;
                // Each producer's events arrive in the order in which it sent them.
                assert_eq!(bytes[1], next_of[producer]);
                // Arrival order is sending order: the producers took turns.
                assert_eq!(producer, total % 4);
                next_of[producer] += 1;
                total += 1;
            }
            OsxSystemTrayEvent::Shutdown => panic!("nobody sent a shutdown"),
        }
    }
    assert_eq!(total, 100);
    assert_eq!(next_of, [25u8; 4]);
}
