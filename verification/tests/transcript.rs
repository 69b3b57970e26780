use antragsbot::failure::SyncError;
use antragsbot::motion::MotionFields;
use antragsbot::transcript::{
    prefill, sort_by_creation, Channel, ChannelKind, Message, MessageKind, BODY_SLOT,
    JUSTIFICATION_SLOT, SLOT_COUNT, STARTER_SLOT,
};

fn message(id: u64, created_at: i64, content: &str) -> Message {
    Message { id, created_at, kind: MessageKind::Regular, content: content.to_string() }
}

fn thread(name: &str) -> Channel {
    Channel { id: 50, parent: Some(10), kind: ChannelKind::PublicThread, name: name.to_string() }
}

fn ids(messages: &[Message]) -> Vec<u64> {
    messages.iter().map(|message| message.id).collect()
}

#[test]
fn slots_are_starter_body_justification() {
    assert_eq!(STARTER_SLOT, 0);
    assert_eq!(BODY_SLOT, 1);
    assert_eq!(JUSTIFICATION_SLOT, 2);
    assert_eq!(SLOT_COUNT, 3);
}

#[test]
fn newest_first_is_turned_round() {
    let fetched = vec![message(3, 30, "c"), message(2, 20, "b"), message(1, 10, "a")];
    let sorted = sort_by_creation(fetched);
    assert_eq!(ids(&sorted), vec![1, 2, 3]);
    assert_eq!(sorted[0].content, "a");
    assert_eq!(sorted[2].content, "c");
}

#[test]
fn any_order_is_put_right() {
    let fetched = vec![
        message(4, 40, "d"),
        message(1, 10, "a"),
        message(5, 50, "e"),
        message(3, 30, "c"),
        message(2, 20, "b"),
    ];
    let sorted = sort_by_creation(fetched);
    assert_eq!(ids(&sorted), vec![1, 2, 3, 4, 5]);
    assert!(sorted[STARTER_SLOT].created_at <= sorted[BODY_SLOT].created_at);
    assert!(sorted[BODY_SLOT].created_at <= sorted[JUSTIFICATION_SLOT].created_at);
}

#[test]
fn sorted_messages_stay_as_they_are() {
    let fetched = vec![message(1, 10, "a"), message(2, 20, "b"), message(3, 30, "c")];
    assert_eq!(sort_by_creation(fetched.clone()), fetched);
}

#[test]
fn messages_of_one_time_keep_their_order() {
    let fetched = vec![
        message(7, 20, "late"),
        message(1, 10, "first"),
        message(2, 10, "second"),
        message(8, 20, "later"),
        message(3, 10, "third"),
    ];
    assert_eq!(ids(&sort_by_creation(fetched)), vec![1, 2, 3, 7, 8]);
}

#[test]
fn times_before_the_epoch_are_ordered_too() {
    let fetched = vec![message(1, 5, "a"), message(2, -5, "b"), message(3, i64::MIN, "c"), message(4, i64::MAX, "d")];
    assert_eq!(ids(&sort_by_creation(fetched)), vec![3, 2, 1, 4]);
}

#[test]
fn nothing_and_one_message_are_sorted() {
    assert_eq!(sort_by_creation(Vec::new()), Vec::<Message>::new());
    let one = vec![message(1, 10, "a")];
    assert_eq!(sort_by_creation(one.clone()), one);
}

#[test]
fn threads_are_told_from_other_channels() {
    assert!(ChannelKind::PublicThread.thread());
    assert!(ChannelKind::PrivateThread.thread());
    assert!(ChannelKind::NewsThread.thread());
    assert!(!ChannelKind::Other.thread());
}

#[test]
fn form_is_filled_from_the_thread() {
    let fetched = vec![
        message(3, 30, "Begründung: \rweil es teurer wird"),
        message(2, 20, "Der Fachschaftsrat Informatik möge beschließen, dass:\n to $5"),
        message(1, 10, ""),
    ];
    assert_eq!(
        prefill(&thread("Raise dues"), fetched),
        Ok(MotionFields {
            title: "Raise dues".to_string(),
            body: "to $5".to_string(),
            justification: Some("weil es teurer wird".to_string()),
        })
    );
}

#[test]
fn form_is_filled_from_the_three_oldest_messages() {
    let fetched = vec![
        message(5, 50, "Begründung: \rspäter Kommentar"),
        message(4, 40, "Diskussion"),
        message(3, 30, "Begründung: \rdarum"),
        message(2, 20, "Der Fachschaftsrat Informatik möge beschließen, dass:\n etwas"),
        message(1, 10, "Anfang"),
    ];
    let defaults = prefill(&thread("Titel"), fetched).unwrap();
    assert_eq!(defaults.body, "etwas");
    assert_eq!(defaults.justification, Some("darum".to_string()));
}

#[test]
fn slots_without_their_openings_are_taken_whole() {
    let fetched = vec![message(1, 10, "a"), message(2, 20, "b"), message(3, 30, "c")];
    let defaults = prefill(&thread("Titel"), fetched).unwrap();
    assert_eq!(defaults.title, "Titel");
    assert_eq!(defaults.body, "b");
    assert_eq!(defaults.justification, Some("c".to_string()));
}

#[test]
fn thread_with_one_message_is_malformed() {
    let fetched = vec![message(1, 10, "a")];
    assert_eq!(prefill(&thread("Titel"), fetched), Err(SyncError::MalformedThread));
}

#[test]
fn thread_with_two_messages_is_malformed() {
    let fetched = vec![message(2, 20, "b"), message(1, 10, "a")];
    assert_eq!(prefill(&thread("Titel"), fetched), Err(SyncError::MalformedThread));
    assert_eq!(prefill(&thread("Titel"), Vec::new()), Err(SyncError::MalformedThread));
}

#[test]
fn channel_that_is_no_thread_is_refused() {
    let fetched = vec![message(1, 10, "a"), message(2, 20, "b"), message(3, 30, "c")];
    let mut channel = thread("Titel");
    channel.kind = ChannelKind::Other;
    assert_eq!(prefill(&channel, fetched.clone()), Err(SyncError::NotAThread));
    let mut orphan = thread("Titel");
    orphan.parent = None;
    assert_eq!(prefill(&orphan, fetched), Err(SyncError::NotAThread));
}
