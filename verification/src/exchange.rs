//! What a command asks of the outside world, and what comes back.
//!
//! A command never calls out itself. It hands its caller one request at a
//! time, the caller carries the request out and comes back with the response,
//! and the command decides from that what to ask next.

use crate::failure::SyncError;
use crate::motion::{
    MotionFields, MotionFieldsView, NewMotion, NewMotionView, RevisedMotion, RevisedMotionView,
};
use crate::people::{people, person_of, Person, PersonView};
use crate::transcript::{transcript, Message, MessageView};
use vstd::prelude::*;

verus! {

/// One call to the form, the chat platform, the record service or the
/// correlation store.
#[derive(Debug, PartialEq, Eq)]
pub enum Request {
    /// Show the form, filled with `defaults`, and wait for it to be sent
    /// off. `revising` tells the form for an existing motion from the form
    /// for a new one.
    AskFields { defaults: MotionFields, revising: bool },
    /// Look up in the correlation store the person who stands for a user of
    /// the chat platform.
    FindPerson { user: u64 },
    /// Answer the user who invoked the command so that nobody else sees it.
    ReplyPrivately { content: String },
    /// Answer the user who invoked the command for all to see.
    Reply { content: String },
    /// Send a message into a channel.
    SendMessage { channel: u64, content: String, tts: bool },
    /// Open a thread named `name` from a message of a channel.
    CreateThread { channel: u64, message: u64, name: String },
    /// Fetch the messages of a channel, in whatever order the platform has
    /// them.
    FetchMessages { channel: u64 },
    /// Fetch one message of a channel.
    FetchMessage { channel: u64, message: u64 },
    /// Overwrite the content of a message.
    EditMessage { channel: u64, message: u64, content: String },
    /// Give a thread a new name.
    RenameThread { thread: u64, name: String },
    /// File a new motion with the record service.
    CreateRecord { motion: NewMotion },
    /// Replace a motion that the record service has on file.
    EditRecord { revised: RevisedMotion },
    /// Fetch the roster of persons from the record service.
    ListPersons,
    /// Note in the correlation store which record belongs to a thread.
    MapThread { thread: u64, record: u64 },
    /// Look up in the correlation store the record that belongs to a thread.
    FindRecord { thread: u64 },
    /// Tell the record service that a person has signed off.
    SignOff { name: String },
}

/// A request, with its texts as the characters they hold.
pub enum RequestView {
    AskFields { defaults: MotionFieldsView, revising: bool },
    FindPerson { user: u64 },
    ReplyPrivately { content: Seq<char> },
    Reply { content: Seq<char> },
    SendMessage { channel: u64, content: Seq<char>, tts: bool },
    CreateThread { channel: u64, message: u64, name: Seq<char> },
    FetchMessages { channel: u64 },
    FetchMessage { channel: u64, message: u64 },
    EditMessage { channel: u64, message: u64, content: Seq<char> },
    RenameThread { thread: u64, name: Seq<char> },
    CreateRecord { motion: NewMotionView },
    EditRecord { revised: RevisedMotionView },
    ListPersons,
    MapThread { thread: u64, record: u64 },
    FindRecord { thread: u64 },
    SignOff { name: Seq<char> },
}

impl View for Request {
    type V = RequestView;

    open spec fn view(&self) -> RequestView {
        match *self {
            Request::AskFields { defaults, revising } => RequestView::AskFields {
                defaults: defaults@,
                revising,
            },
            Request::FindPerson { user } => RequestView::FindPerson { user },
            Request::ReplyPrivately { content } => RequestView::ReplyPrivately {
                content: content@,
            },
            Request::Reply { content } => RequestView::Reply { content: content@ },
            Request::SendMessage { channel, content, tts } => RequestView::SendMessage {
                channel,
                content: content@,
                tts,
            },
            Request::CreateThread { channel, message, name } => RequestView::CreateThread {
                channel,
                message,
                name: name@,
            },
            Request::FetchMessages { channel } => RequestView::FetchMessages { channel },
            Request::FetchMessage { channel, message } => RequestView::FetchMessage {
                channel,
                message,
            },
            Request::EditMessage { channel, message, content } => RequestView::EditMessage {
                channel,
                message,
                content: content@,
            },
            Request::RenameThread { thread, name } => RequestView::RenameThread {
                thread,
                name: name@,
            },
            Request::CreateRecord { motion } => RequestView::CreateRecord { motion: motion@ },
            Request::EditRecord { revised } => RequestView::EditRecord { revised: revised@ },
            Request::ListPersons => RequestView::ListPersons,
            Request::MapThread { thread, record } => RequestView::MapThread { thread, record },
            Request::FindRecord { thread } => RequestView::FindRecord { thread },
            Request::SignOff { name } => RequestView::SignOff { name: name@ },
        }
    }
}

impl Clone for Request {
    fn clone(&self) -> (out: Request)
        ensures
            out@ == self@,
    {
        match self {
            Request::AskFields { defaults, revising } => Request::AskFields {
                defaults: defaults.clone(),
                revising: *revising,
            },
            Request::FindPerson { user } => Request::FindPerson { user: *user },
            Request::ReplyPrivately { content } => Request::ReplyPrivately {
                content: content.clone(),
            },
            Request::Reply { content } => Request::Reply { content: content.clone() },
            Request::SendMessage { channel, content, tts } => Request::SendMessage {
                channel: *channel,
                content: content.clone(),
                tts: *tts,
            },
            Request::CreateThread { channel, message, name } => Request::CreateThread {
                channel: *channel,
                message: *message,
                name: name.clone(),
            },
            Request::FetchMessages { channel } => Request::FetchMessages { channel: *channel },
            Request::FetchMessage { channel, message } => Request::FetchMessage {
                channel: *channel,
                message: *message,
            },
            Request::EditMessage { channel, message, content } => Request::EditMessage {
                channel: *channel,
                message: *message,
                content: content.clone(),
            },
            Request::RenameThread { thread, name } => Request::RenameThread {
                thread: *thread,
                name: name.clone(),
            },
            Request::CreateRecord { motion } => Request::CreateRecord { motion: motion.clone() },
            Request::EditRecord { revised } => Request::EditRecord { revised: revised.clone() },
            Request::ListPersons => Request::ListPersons,
            Request::MapThread { thread, record } => Request::MapThread {
                thread: *thread,
                record: *record,
            },
            Request::FindRecord { thread } => Request::FindRecord { thread: *thread },
            Request::SignOff { name } => Request::SignOff { name: name.clone() },
        }
    }
}

impl RequestView {
    /// Whether the request changes anything on the chat platform, in the
    /// record service or in the correlation store.
    pub open spec fn writes(self) -> bool {
        match self {
            RequestView::SendMessage { .. } => true,
            RequestView::CreateThread { .. } => true,
            RequestView::EditMessage { .. } => true,
            RequestView::RenameThread { .. } => true,
            RequestView::CreateRecord { .. } => true,
            RequestView::EditRecord { .. } => true,
            RequestView::MapThread { .. } => true,
            RequestView::SignOff { .. } => true,
            _ => false,
        }
    }
}

/// What came back from the request that a command asked for last.
#[derive(Debug, PartialEq, Eq)]
pub enum Response {
    /// The call failed.
    Failed,
    /// The call went through and has nothing to hand back.
    Done,
    /// The form was sent off with these fields.
    Fields(MotionFields),
    /// The person that was looked up, if the correlation store knows one.
    Person(Option<Person>),
    /// The identifier of what was made: the message sent, the thread opened
    /// or the record filed.
    Created(u64),
    /// The messages that were fetched.
    Messages(Vec<Message>),
    /// The message that was fetched.
    Message(Message),
    /// The record that was looked up, if the correlation store knows one.
    Record(Option<u64>),
    /// The roster that was fetched.
    Roster(Vec<Person>),
}

/// A response, with its texts as the characters they hold.
pub enum ResponseView {
    Failed,
    Done,
    Fields(MotionFieldsView),
    Person(Option<PersonView>),
    Created(u64),
    Messages(Seq<MessageView>),
    Message(MessageView),
    Record(Option<u64>),
    Roster(Seq<PersonView>),
}

impl View for Response {
    type V = ResponseView;

    open spec fn view(&self) -> ResponseView {
        match *self {
            Response::Failed => ResponseView::Failed,
            Response::Done => ResponseView::Done,
            Response::Fields(fields) => ResponseView::Fields(fields@),
            Response::Person(found) => ResponseView::Person(person_of(found)),
            Response::Created(id) => ResponseView::Created(id),
            Response::Messages(messages) => ResponseView::Messages(transcript(messages@)),
            Response::Message(message) => ResponseView::Message(message@),
            Response::Record(found) => ResponseView::Record(found),
            Response::Roster(roster) => ResponseView::Roster(people(roster@)),
        }
    }
}

/// What a command wants done next.
#[derive(Debug, PartialEq, Eq)]
pub enum Step {
    /// Carry out this request and come back with what it gave.
    Call(Request),
    /// The command is through. Nothing more is to be done.
    Finish,
    /// The command is given up. Nothing more is to be done, and nothing that
    /// was done is taken back.
    Abort(SyncError),
}

/// A step, with its texts as the characters they hold.
pub enum StepView {
    Call(RequestView),
    Finish,
    Abort(SyncError),
}

impl View for Step {
    type V = StepView;

    open spec fn view(&self) -> StepView {
        match *self {
            Step::Call(request) => StepView::Call(request@),
            Step::Finish => StepView::Finish,
            Step::Abort(error) => StepView::Abort(error),
        }
    }
}

impl StepView {
    /// Whether the step ends the command.
    pub open spec fn is_last(self) -> bool {
        !(self is Call)
    }

    /// Whether the step changes anything outside.
    pub open spec fn writes(self) -> bool {
        match self {
            StepView::Call(request) => request.writes(),
            _ => false,
        }
    }
}

} // verus!
