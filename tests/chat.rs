use brb::chat::{cut_lines, MessageBuffer, TwitchChat, TwitchMessage, BUFFER_CAP, QUEUE_CAPACITY};
use brb::config::Color;

fn msg(i: usize) -> TwitchMessage {
    TwitchMessage::new(Color::Red, format!("user{}", i), format!("message {}", i))
}

fn texts(v: &[TwitchMessage]) -> Vec<String> {
    v.iter().map(|m| m.message.clone()).collect()
}

#[test]
fn buffer_keeps_the_latest_in_arrival_order() {
    let mut b = MessageBuffer::new(3);
    for i in 0..10 {
        b.push(msg(i));
        assert!(b.len() <= 3);
    }
    assert_eq!(texts(b.as_vec()), vec!["message 7", "message 8", "message 9"]);
}

#[test]
fn push_all_equals_pushing_one_by_one() {
    let mut one = MessageBuffer::new(4);
    let mut all = MessageBuffer::new(4);
    one.push(msg(100));
    all.push(msg(100));
    for i in 0..7 {
        one.push(msg(i));
    }
    all.push_all((0..7).map(msg).collect());
    assert_eq!(texts(one.as_vec()), texts(all.as_vec()));
    assert_eq!(texts(all.as_vec()), vec!["message 3", "message 4", "message 5", "message 6"]);
    all.push_all(Vec::new());
    assert_eq!(all.len(), 4);
}

#[test]
fn buffer_below_its_cap_keeps_everything() {
    let mut b = MessageBuffer::new(5);
    for i in 0..4 {
        b.push(msg(i));
    }
    assert_eq!(texts(b.as_vec()), vec!["message 0", "message 1", "message 2", "message 3"]);
}

#[test]
fn buffer_with_zero_cap_keeps_nothing_until_a_height_is_seen() {
    let mut b = MessageBuffer::new(0);
    b.push(msg(0));
    assert_eq!(b.len(), 0);
    b.observe_height(2);
    for i in 1..5 {
        b.push(msg(i));
    }
    assert_eq!(texts(b.as_vec()), vec!["message 3", "message 4"]);
}

#[test]
fn tallest_height_seen_is_kept() {
    let mut b = MessageBuffer::new(2);
    b.observe_height(4);
    for i in 0..6 {
        b.push(msg(i));
    }
    assert_eq!(b.len(), 4);
    // A smaller display area later does not discard what fits the tallest one.
    b.observe_height(1);
    assert_eq!(texts(b.as_vec()), vec!["message 2", "message 3", "message 4", "message 5"]);
}

#[test]
fn polling_an_empty_queue_changes_nothing() {
    let mut chat = TwitchChat::new(Color::Cyan, "somechannel".to_string());
    assert_eq!(chat.poll_messages(), 0);
    assert!(chat.messages().is_empty());
    assert_eq!(chat.get_channel_name(), "somechannel");
    assert_eq!(chat.get_accent_color(), Color::Cyan);
}

#[test]
fn polling_a_closed_queue_changes_nothing() {
    let mut chat = TwitchChat::new(Color::Cyan, "c".to_string());
    let tx = chat.sender();
    tx.try_send(msg(1)).unwrap();
    drop(tx);
    assert_eq!(chat.poll_messages(), 1);
    assert_eq!(chat.poll_messages(), 0);
    assert_eq!(texts(chat.messages()), vec!["message 1"]);
}

#[test]
fn full_queue_with_slow_consumer_keeps_latest_in_order() {
    assert_eq!(QUEUE_CAPACITY, 100);
    let mut chat = TwitchChat::new(Color::White, "c".to_string());
    let tx = chat.sender();
    let mut sent = 0usize;
    let mut drained = 0usize;
    while sent < 150 {
        match tx.try_send(msg(sent)) {
            Ok(()) => sent += 1,
            Err(_) => {
                // The queue is full: the producer has to wait for the consumer.
                drained += chat.poll_messages();
            }
        }
    }
    drained += chat.poll_messages();
    assert_eq!(drained, 150);
    assert!(chat.messages().len() <= BUFFER_CAP);
    let expected: Vec<String> = (50..150).map(|i| format!("message {}", i)).collect();
    assert_eq!(texts(chat.messages()), expected);
}

#[test]
fn queue_refuses_beyond_capacity() {
    let chat = TwitchChat::new(Color::White, "c".to_string());
    let tx = chat.sender();
    for i in 0..QUEUE_CAPACITY {
        assert!(tx.try_send(msg(i)).is_ok());
    }
    assert!(tx.try_send(msg(QUEUE_CAPACITY)).is_err());
}

#[test]
fn feed_message_without_color_is_white() {
    let m = TwitchMessage::from_feed(None, "bob".to_string(), "hi".to_string());
    assert_eq!(m.sender_color, Color::Rgb(255, 255, 255));
    assert_eq!(m.sender, "bob");
    assert_eq!(m.message, "hi");
    let m = TwitchMessage::from_feed(Some((1, 2, 3)), "bob".to_string(), "hi".to_string());
    assert_eq!(m.sender_color, Color::Rgb(1, 2, 3));
}

#[test]
fn wrapped_message_on_one_line() {
    let m = TwitchMessage::new(Color::Red, "alice".to_string(), "hello world".to_string());
    let lines = m.to_wrapped(80);
    assert_eq!(lines.len(), 1);
    assert_eq!(lines[0].sender_part, "alice");
    assert!(lines[0].separator);
    assert_eq!(lines[0].rest, "hello world");
}

#[test]
fn wrapped_message_on_narrow_pane() {
    let m = TwitchMessage::new(Color::Red, "alice".to_string(), "hello world".to_string());
    let lines = m.to_wrapped(8);
    assert_eq!(lines.len(), 3);
    assert_eq!(lines[0].sender_part, "alice");
    assert!(lines[0].separator);
    assert_eq!(lines[0].rest, "");
    assert_eq!(lines[1].sender_part, "");
    assert!(!lines[1].separator);
    assert_eq!(lines[1].rest, "hello");
    assert_eq!(lines[2].rest, "world");
}

#[test]
fn long_name_spans_lines() {
    let lines = vec!["abcd".to_string(), "efg: hi".to_string(), "there".to_string()];
    let cut = cut_lines(&lines, 7);
    assert_eq!(cut.len(), 3);
    assert_eq!(cut[0].sender_part, "abcd");
    assert!(!cut[0].separator);
    assert_eq!(cut[0].rest, "");
    assert_eq!(cut[1].sender_part, "efg");
    assert!(cut[1].separator);
    assert_eq!(cut[1].rest, "hi");
    assert_eq!(cut[2].sender_part, "");
    assert_eq!(cut[2].rest, "there");
}

#[test]
fn name_filling_a_line_exactly_has_no_separator_there() {
    let lines = vec!["bob".to_string(), ": yo".to_string()];
    let cut = cut_lines(&lines, 3);
    assert_eq!(cut[0].sender_part, "bob");
    assert!(!cut[0].separator);
    assert_eq!(cut[1].sender_part, "");
    assert_eq!(cut[1].rest, ": yo");
}
