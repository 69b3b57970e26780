use std::collections::HashMap;

use antragsbot::create::{antrag, create_antrag, CreateRun};
use antragsbot::edit::{edit, EditRun};
use antragsbot::exchange::{Request, Response, Step};
use antragsbot::failure::SyncError;
use antragsbot::kind::TopType;
use antragsbot::motion::{MotionFields, NewMotion, RevisedMotion};
use antragsbot::people::Person;
use antragsbot::signoff::{abmelden, SignOffRun};
use antragsbot::transcript::{Channel, ChannelKind, Message, MessageKind};

const PARENT: u64 = 10;
const ALICE_USER: u64 = 7;
const STRANGER_USER: u64 = 8;

/// A chat platform, a record service and a correlation store that live in
/// memory and do what they are asked.
struct World {
    next_id: u64,
    clock: i64,
    messages: HashMap<u64, Vec<Message>>,
    thread_names: HashMap<u64, String>,
    users: HashMap<u64, Person>,
    roster: Vec<Person>,
    filed: HashMap<u64, NewMotion>,
    replaced: Vec<RevisedMotion>,
    mapping: HashMap<u64, u64>,
    private_replies: Vec<String>,
    replies: Vec<String>,
    signed_off: Vec<String>,
    asked: Vec<(MotionFields, bool)>,
    answer: Option<MotionFields>,
    calls: Vec<Request>,
    fail_at: Option<usize>,
}

impl World {
    fn new() -> World {
        let alice = Person { id: 3, name: "Alice".to_string() };
        let mut users = HashMap::new();
        users.insert(ALICE_USER, alice.clone());
        let mut messages = HashMap::new();
        messages.insert(PARENT, Vec::new());
        World {
            next_id: 100,
            clock: 1000,
            messages,
            thread_names: HashMap::new(),
            users,
            roster: vec![Person { id: 1, name: "Bob".to_string() }, alice],
            filed: HashMap::new(),
            replaced: Vec::new(),
            mapping: HashMap::new(),
            private_replies: Vec::new(),
            replies: Vec::new(),
            signed_off: Vec::new(),
            asked: Vec::new(),
            answer: None,
            calls: Vec::new(),
            fail_at: None,
        }
    }

    fn fresh_id(&mut self) -> u64 {
        self.next_id += 1;
        self.next_id
    }

    fn tick(&mut self) -> i64 {
        self.clock += 1;
        self.clock
    }

    fn post(&mut self, channel: u64, kind: MessageKind, content: String) -> u64 {
        let id = self.fresh_id();
        let created_at = self.tick();
        self.messages.entry(channel).or_default().push(Message { id, created_at, kind, content });
        id
    }

    fn find_mut(&mut self, channel: u64, message: u64) -> Option<&mut Message> {
        self.messages.get_mut(&channel)?.iter_mut().find(|held| held.id == message)
    }

    fn perform(&mut self, request: Request) -> Response {
        let index = self.calls.len();
        self.calls.push(request.clone());
        if self.fail_at == Some(index) {
            return Response::Failed;
        }
        match request {
            Request::AskFields { defaults, revising } => {
                self.asked.push((defaults, revising));
                match self.answer.clone() {
                    Some(fields) => Response::Fields(fields),
                    None => Response::Failed,
                }
            }
            Request::FindPerson { user } => Response::Person(self.users.get(&user).cloned()),
            Request::ReplyPrivately { content } => {
                self.private_replies.push(content);
                Response::Done
            }
            Request::Reply { content } => {
                self.replies.push(content);
                Response::Done
            }
            Request::SendMessage { channel, content, .. } => {
                if !self.messages.contains_key(&channel) {
                    return Response::Failed;
                }
                Response::Created(self.post(channel, MessageKind::Regular, content))
            }
            Request::CreateThread { channel, message, name } => {
                if self.find_mut(channel, message).is_none() {
                    return Response::Failed;
                }
                self.messages.insert(message, Vec::new());
                self.thread_names.insert(message, name);
                self.post(message, MessageKind::ThreadStarter, String::new());
                Response::Created(message)
            }
            Request::FetchMessages { channel } => match self.messages.get(&channel) {
                Some(held) => Response::Messages(held.iter().rev().cloned().collect()),
                None => Response::Failed,
            },
            Request::FetchMessage { channel, message } => match self.find_mut(channel, message) {
                Some(held) => Response::Message(held.clone()),
                None => Response::Failed,
            },
            Request::EditMessage { channel, message, content } => {
                match self.find_mut(channel, message) {
                    Some(held) => {
                        held.content = content;
                        Response::Done
                    }
                    None => Response::Failed,
                }
            }
            Request::RenameThread { thread, name } => {
                if !self.thread_names.contains_key(&thread) {
                    return Response::Failed;
                }
                self.thread_names.insert(thread, name);
                Response::Done
            }
            Request::CreateRecord { motion } => {
                let id = self.fresh_id();
                self.filed.insert(id, motion);
                Response::Created(id)
            }
            Request::EditRecord { revised } => {
                if !self.filed.contains_key(&revised.id) {
                    return Response::Failed;
                }
                self.replaced.push(revised);
                Response::Done
            }
            Request::ListPersons => Response::Roster(self.roster.clone()),
            Request::MapThread { thread, record } => {
                self.mapping.insert(thread, record);
                Response::Done
            }
            Request::FindRecord { thread } => Response::Record(self.mapping.get(&thread).copied()),
            Request::SignOff { name } => {
                self.signed_off.push(name);
                Response::Done
            }
        }
    }

    fn file(&mut self, user: u64, kind: TopType, fields: MotionFields) -> Result<(), SyncError> {
        self.answer = Some(fields);
        let (mut run, mut step) = create_antrag(user, PARENT, kind);
        loop {
            match step {
                Step::Call(request) => {
                    let response = self.perform(request);
                    (run, step) = run.step(response);
                }
                Step::Finish => {
                    assert_eq!(run, CreateRun::Closed);
                    return Ok(());
                }
                Step::Abort(error) => {
                    assert_eq!(run, CreateRun::Closed);
                    return Err(error);
                }
            }
        }
    }

    fn revise(&mut self, channel: Channel, fields: MotionFields) -> Result<(), SyncError> {
        self.answer = Some(fields);
        let (mut run, mut step) = edit(channel);
        loop {
            match step {
                Step::Call(request) => {
                    let response = self.perform(request);
                    (run, step) = run.step(response);
                }
                Step::Finish => {
                    assert_eq!(run, EditRun::Closed);
                    return Ok(());
                }
                Step::Abort(error) => {
                    assert_eq!(run, EditRun::Closed);
                    return Err(error);
                }
            }
        }
    }

    fn sign_off(&mut self, user: u64) -> Result<(), SyncError> {
        let (mut run, mut step) = abmelden(user);
        loop {
            match step {
                Step::Call(request) => {
                    let response = self.perform(request);
                    (run, step) = run.step(response);
                }
                Step::Finish => {
                    assert_eq!(run, SignOffRun::Closed);
                    return Ok(());
                }
                Step::Abort(error) => return Err(error),
            }
        }
    }

    fn only_thread(&self) -> u64 {
        assert_eq!(self.thread_names.len(), 1);
        *self.thread_names.keys().next().unwrap()
    }

    fn channel_of(&self, thread: u64) -> Channel {
        Channel {
            id: thread,
            parent: Some(PARENT),
            kind: ChannelKind::PublicThread,
            name: self.thread_names[&thread].clone(),
        }
    }

    fn contents(&self, channel: u64) -> Vec<String> {
        self.messages[&channel].iter().map(|held| held.content.clone()).collect()
    }

    fn writes(&self) -> usize {
        self.calls
            .iter()
            .filter(|call| {
                matches!(
                    call,
                    Request::SendMessage { .. }
                        | Request::CreateThread { .. }
                        | Request::EditMessage { .. }
                        | Request::RenameThread { .. }
                        | Request::CreateRecord { .. }
                        | Request::EditRecord { .. }
                        | Request::MapThread { .. }
                        | Request::SignOff { .. }
                )
            })
            .count()
    }
}

fn fields(title: &str, body: &str, justification: Option<&str>) -> MotionFields {
    MotionFields {
        title: title.to_string(),
        body: body.to_string(),
        justification: justification.map(|text| text.to_string()),
    }
}

fn raise_dues() -> World {
    let mut world = World::new();
    assert_eq!(world.file(ALICE_USER, TopType::Normal, fields("Raise dues", "to $5", None)), Ok(()));
    world
}

#[test]
fn filing_raise_dues_builds_thread_record_and_mapping() {
    let world = raise_dues();
    let thread = world.only_thread();
    assert_eq!(world.thread_names[&thread], "Raise dues");
    let held = &world.messages[&thread];
    assert_eq!(held.len(), 3);
    assert_eq!(held[0].kind, MessageKind::ThreadStarter);
    assert_eq!(
        held[1].content,
        "Der Fachschaftsrat Informatik möge beschließen, dass:\n to $5"
    );
    assert_eq!(held[2].content, "Begründung: \rKeine Begründung");
    assert_eq!(world.contents(PARENT), vec!["Raise dues - Alice".to_string()]);
    assert_eq!(world.filed.len(), 1);
    let (record, motion) = world.filed.iter().next().unwrap();
    assert_eq!(world.mapping.get(&thread), Some(record));
    assert_eq!(world.mapping.len(), 1);
    assert_eq!(
        *motion,
        NewMotion {
            kind: TopType::Normal,
            title: "Raise dues".to_string(),
            text: "Der Fachschaftsrat Informatik möge beschließen, dass:\n to $5".to_string(),
            justification: "Keine Begründung".to_string(),
            proposers: vec![3],
        }
    );
}

#[test]
fn filing_asks_in_one_order() {
    let world = raise_dues();
    let thread = world.only_thread();
    let record = world.mapping[&thread];
    assert_eq!(world.calls.len(), 8);
    assert!(matches!(&world.calls[0], Request::AskFields { revising: false, .. }));
    assert_eq!(world.calls[1], Request::FindPerson { user: ALICE_USER });
    assert!(matches!(&world.calls[2], Request::SendMessage { channel: PARENT, tts: false, .. }));
    assert_eq!(
        world.calls[3],
        Request::CreateThread { channel: PARENT, message: thread, name: "Raise dues".to_string() }
    );
    assert!(matches!(&world.calls[4], Request::SendMessage { tts: true, .. }));
    assert!(matches!(&world.calls[5], Request::SendMessage { tts: true, .. }));
    assert!(matches!(&world.calls[6], Request::CreateRecord { .. }));
    assert_eq!(world.calls[7], Request::MapThread { thread, record });
}

#[test]
fn retitling_keeps_the_proposer_of_the_summary_line() {
    let mut world = raise_dues();
    let thread = world.only_thread();
    let record = world.mapping[&thread];
    let channel = world.channel_of(thread);
    assert_eq!(world.contents(PARENT), vec!["Raise dues - Alice".to_string()]);
    assert_eq!(world.revise(channel, fields("Raise dues v2", "to $5", None)), Ok(()));
    assert_eq!(world.contents(PARENT), vec!["Raise dues v2 - Alice".to_string()]);
    assert_eq!(world.thread_names[&thread], "Raise dues v2");
    assert_eq!(
        world.replaced,
        vec![RevisedMotion {
            id: record,
            title: "Raise dues v2".to_string(),
            text: "Der Fachschaftsrat Informatik möge beschließen, dass:\n to $5".to_string(),
            justification: "Keine Begründung".to_string(),
            proposers: vec![3],
        }]
    );
}

#[test]
fn revising_a_thread_of_one_message_is_malformed_and_writes_nothing() {
    let mut world = World::new();
    let anchor = world.post(PARENT, MessageKind::Regular, "Raise dues - Alice".to_string());
    world.messages.insert(anchor, Vec::new());
    world.thread_names.insert(anchor, "Raise dues".to_string());
    world.post(anchor, MessageKind::ThreadStarter, String::new());
    let channel = world.channel_of(anchor);
    assert_eq!(
        world.revise(channel, fields("Raise dues v2", "to $6", None)),
        Err(SyncError::MalformedThread)
    );
    assert_eq!(world.calls, vec![Request::FetchMessages { channel: anchor }]);
    assert_eq!(world.writes(), 0);
    assert!(world.asked.is_empty());
    assert_eq!(world.thread_names[&anchor], "Raise dues");
    assert_eq!(world.contents(PARENT), vec!["Raise dues - Alice".to_string()]);
}

#[test]
fn revising_outside_a_thread_asks_for_nothing() {
    let mut world = World::new();
    let channel =
        Channel { id: PARENT, parent: None, kind: ChannelKind::Other, name: "general".to_string() };
    assert_eq!(world.revise(channel, fields("T", "B", None)), Err(SyncError::NotAThread));
    assert!(world.calls.is_empty());
}

#[test]
fn form_is_filled_with_what_was_filed() {
    let mut world = World::new();
    let filed = fields("Pizza", "wir Pizza kaufen", Some("Hunger - großer"));
    assert_eq!(world.file(ALICE_USER, TopType::Sonstiges, filed.clone()), Ok(()));
    let channel = world.channel_of(world.only_thread());
    assert_eq!(world.revise(channel, filed.clone()), Ok(()));
    assert_eq!(world.asked[0], (MotionFields::blank(), false));
    assert_eq!(world.asked[1], (filed, true));
}

#[test]
fn form_is_filled_with_the_default_sentence_where_none_was_given() {
    let mut world = raise_dues();
    let channel = world.channel_of(world.only_thread());
    assert_eq!(world.revise(channel, fields("Raise dues", "to $5", None)), Ok(()));
    assert_eq!(
        world.asked[1],
        (fields("Raise dues", "to $5", Some("Keine Begründung")), true)
    );
}

#[test]
fn revising_overwrites_both_slots_and_nothing_else() {
    let mut world = raise_dues();
    let thread = world.only_thread();
    world.post(thread, MessageKind::Regular, "Ich bin dagegen".to_string());
    let channel = world.channel_of(thread);
    assert_eq!(world.revise(channel, fields("Raise dues", "to $6", Some("Inflation"))), Ok(()));
    assert_eq!(
        world.contents(thread),
        vec![
            "".to_string(),
            "Der Fachschaftsrat Informatik möge beschließen, dass:\n to $6".to_string(),
            "Begründung: \rInflation".to_string(),
            "Ich bin dagegen".to_string(),
        ]
    );
}

#[test]
fn revising_twice_shows_the_same_as_revising_once() {
    let mut world = raise_dues();
    let thread = world.only_thread();
    let revised = fields("Raise dues v2", "to $6", None);
    assert_eq!(world.revise(world.channel_of(thread), revised.clone()), Ok(()));
    let once = (world.thread_names.clone(), world.contents(thread), world.contents(PARENT));
    assert_eq!(world.revise(world.channel_of(thread), revised), Ok(()));
    let twice = (world.thread_names.clone(), world.contents(thread), world.contents(PARENT));
    assert_eq!(once, twice);
    assert_eq!(world.replaced.len(), 2);
    assert_eq!(world.replaced[0], world.replaced[1]);
}

#[test]
fn title_ending_in_a_dash_shifts_the_proposer() {
    let mut world = raise_dues();
    let thread = world.only_thread();
    let revised = fields("x -", "to $5", None);
    assert_eq!(world.revise(world.channel_of(thread), revised.clone()), Ok(()));
    assert_eq!(world.contents(PARENT), vec!["x - - Alice".to_string()]);
    assert_eq!(world.replaced[0].proposers, vec![3]);
    assert_eq!(world.revise(world.channel_of(thread), revised), Ok(()));
    assert_eq!(world.contents(PARENT), vec!["x - - - Alice".to_string()]);
    assert_eq!(world.replaced[1].proposers, Vec::<u64>::new());
}

#[test]
fn revising_a_thread_without_record_writes_the_thread_and_stops() {
    let mut world = raise_dues();
    let thread = world.only_thread();
    world.mapping.clear();
    assert_eq!(
        world.revise(world.channel_of(thread), fields("Raise dues v2", "to $6", None)),
        Err(SyncError::MissingRecordMapping)
    );
    assert_eq!(world.thread_names[&thread], "Raise dues v2");
    assert_eq!(world.contents(PARENT), vec!["Raise dues v2 - Alice".to_string()]);
    assert!(world.replaced.is_empty());
    assert!(!world.calls.iter().any(|call| matches!(call, Request::ListPersons)));
    assert!(!world.calls.iter().any(|call| matches!(call, Request::EditRecord { .. })));
}

#[test]
fn proposer_unknown_to_the_roster_leaves_the_record_without_proposer() {
    let mut world = raise_dues();
    let thread = world.only_thread();
    world.roster.retain(|person| person.name != "Alice");
    assert_eq!(world.revise(world.channel_of(thread), fields("Raise dues", "to $5", None)), Ok(()));
    assert_eq!(world.replaced.len(), 1);
    assert_eq!(world.replaced[0].proposers, Vec::<u64>::new());
}

#[test]
fn thread_that_starts_from_an_ordinary_message_keeps_its_summary_line() {
    let mut world = raise_dues();
    let thread = world.only_thread();
    world.messages.get_mut(&thread).unwrap()[0].kind = MessageKind::Regular;
    assert_eq!(
        world.revise(world.channel_of(thread), fields("Raise dues v2", "to $6", None)),
        Ok(())
    );
    assert_eq!(world.contents(PARENT), vec!["Raise dues - Alice".to_string()]);
    assert_eq!(world.thread_names[&thread], "Raise dues v2");
    assert_eq!(world.replaced[0].proposers, vec![3]);
}

#[test]
fn stranger_is_refused_before_anything_is_written() {
    let mut world = World::new();
    assert_eq!(world.file(STRANGER_USER, TopType::Normal, fields("Raise dues", "to $5", None)), Ok(()));
    assert_eq!(world.private_replies, vec!["Du bist nicht in der Datenbank".to_string()]);
    assert_eq!(world.writes(), 0);
    assert!(world.thread_names.is_empty());
    assert!(world.filed.is_empty());
    assert!(world.mapping.is_empty());
    assert_eq!(world.contents(PARENT), Vec::<String>::new());
}

#[test]
fn failed_summary_line_leaves_nothing_behind() {
    let mut world = World::new();
    world.fail_at = Some(2);
    assert_eq!(
        world.file(ALICE_USER, TopType::Normal, fields("Raise dues", "to $5", None)),
        Err(SyncError::ExternalCallFailure)
    );
    assert_eq!(world.calls.len(), 3);
    assert!(world.thread_names.is_empty());
    assert!(world.filed.is_empty());
}

#[test]
fn failed_thread_leaves_the_summary_line_without_record() {
    let mut world = World::new();
    world.fail_at = Some(3);
    assert_eq!(
        world.file(ALICE_USER, TopType::Normal, fields("Raise dues", "to $5", None)),
        Err(SyncError::ExternalCallFailure)
    );
    assert_eq!(world.calls.len(), 4);
    assert_eq!(world.contents(PARENT), vec!["Raise dues - Alice".to_string()]);
    assert!(world.thread_names.is_empty());
    assert!(world.filed.is_empty());
    assert!(world.mapping.is_empty());
}

#[test]
fn failure_at_any_call_ends_the_filing_there() {
    for failing in 0..7 {
        if failing == 1 {
            continue;
        }
        let mut world = World::new();
        world.fail_at = Some(failing);
        assert_eq!(
            world.file(ALICE_USER, TopType::Normal, fields("Raise dues", "to $5", None)),
            Err(SyncError::ExternalCallFailure)
        );
        assert_eq!(world.calls.len(), failing + 1);
        assert!(world.mapping.is_empty());
    }
}

#[test]
fn failure_at_any_call_ends_the_revising_there() {
    for failing in 0..11 {
        let mut world = raise_dues();
        let thread = world.only_thread();
        let before = world.calls.len();
        world.fail_at = Some(before + failing);
        assert_eq!(
            world.revise(world.channel_of(thread), fields("Raise dues v2", "to $6", None)),
            Err(SyncError::ExternalCallFailure)
        );
        assert_eq!(world.calls.len(), before + failing + 1);
        assert!(world.replaced.is_empty());
    }
}

#[test]
fn revising_asks_in_one_order() {
    let mut world = raise_dues();
    let thread = world.only_thread();
    let record = world.mapping[&thread];
    let before = world.calls.len();
    assert_eq!(
        world.revise(world.channel_of(thread), fields("Raise dues v2", "to $6", None)),
        Ok(())
    );
    let calls = &world.calls[before..];
    assert_eq!(calls.len(), 11);
    assert_eq!(calls[0], Request::FetchMessages { channel: thread });
    assert!(matches!(&calls[1], Request::AskFields { revising: true, .. }));
    assert_eq!(calls[2], Request::FetchMessages { channel: thread });
    assert_eq!(calls[3], Request::FetchMessage { channel: PARENT, message: thread });
    assert_eq!(calls[4], Request::RenameThread { thread, name: "Raise dues v2".to_string() });
    assert!(matches!(&calls[5], Request::EditMessage { channel, .. } if *channel == thread));
    assert!(matches!(&calls[6], Request::EditMessage { channel, .. } if *channel == thread));
    assert_eq!(
        calls[7],
        Request::EditMessage {
            channel: PARENT,
            message: thread,
            content: "Raise dues v2 - Alice".to_string(),
        }
    );
    assert_eq!(calls[8], Request::FindRecord { thread });
    assert_eq!(calls[9], Request::ListPersons);
    assert!(matches!(&calls[10], Request::EditRecord { revised } if revised.id == record));
}

#[test]
fn each_kind_is_filed_under_its_name() {
    for kind in [TopType::Normal, TopType::Information, TopType::Sonstiges] {
        let mut world = World::new();
        assert_eq!(world.file(ALICE_USER, kind, fields("T", "B", None)), Ok(()));
        assert_eq!(world.filed.values().next().unwrap().kind, kind);
    }
    let (run, _) = antrag(ALICE_USER, PARENT);
    assert_eq!(run, CreateRun::Asking { kind: TopType::Normal, user: ALICE_USER, channel: PARENT });
}

#[test]
fn signing_off_tells_service_and_channel() {
    let mut world = World::new();
    assert_eq!(world.sign_off(ALICE_USER), Ok(()));
    assert_eq!(world.signed_off, vec!["Alice".to_string()]);
    assert_eq!(world.replies, vec!["Alice hat sich abgemeldet!".to_string()]);
    assert!(world.private_replies.is_empty());
}

#[test]
fn stranger_cannot_sign_off() {
    let mut world = World::new();
    assert_eq!(world.sign_off(STRANGER_USER), Ok(()));
    assert!(world.signed_off.is_empty());
    assert!(world.replies.is_empty());
    assert_eq!(world.private_replies, vec!["Du bist nicht in der Datenbank".to_string()]);
}
