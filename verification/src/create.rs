//! Filing a motion: from the form to the thread, the record and the note of
//! which record belongs to the thread.

use crate::exchange::{Request, RequestView, Response, ResponseView, Step, StepView};
use crate::failure::SyncError;
use crate::kind::TopType;
use crate::motion::{filed, MotionFields, MotionFieldsView, NewMotion};
use crate::people::{Person, PersonView};
use crate::wording::{
    body_message, body_text, justification_message, justification_text, summary_line,
    summary_text, NOT_REGISTERED,
};
use vstd::prelude::*;

verus! {

/// How far the filing of a motion has come. Each state but the last waits
/// for the response to one request.
#[derive(Debug, PartialEq, Eq)]
pub enum CreateRun {
    /// The form is out.
    Asking { kind: TopType, user: u64, channel: u64 },
    /// The person who stands for the user is being looked up.
    Resolving { kind: TopType, channel: u64, fields: MotionFields },
    /// The user is being told that the correlation store does not know them.
    Refusing,
    /// The summary line is being sent into the parent channel.
    Announcing { kind: TopType, channel: u64, fields: MotionFields, proposer: Person },
    /// The thread is being opened from the summary line.
    Opening { kind: TopType, fields: MotionFields, proposer: Person },
    /// The body message is being sent into the thread.
    PostingBody { kind: TopType, thread: u64, fields: MotionFields, proposer: Person },
    /// The justification message is being sent into the thread.
    PostingJustification { kind: TopType, thread: u64, fields: MotionFields, proposer: Person },
    /// The record is being filed.
    Filing { thread: u64 },
    /// The record is being noted for the thread.
    Mapping,
    /// Nothing is waited for any more.
    Closed,
}

/// The state of a filing, with its texts as the characters they hold.
pub enum CreateRunView {
    Asking { kind: TopType, user: u64, channel: u64 },
    Resolving { kind: TopType, channel: u64, fields: MotionFieldsView },
    Refusing,
    Announcing { kind: TopType, channel: u64, fields: MotionFieldsView, proposer: PersonView },
    Opening { kind: TopType, fields: MotionFieldsView, proposer: PersonView },
    PostingBody { kind: TopType, thread: u64, fields: MotionFieldsView, proposer: PersonView },
    PostingJustification {
        kind: TopType,
        thread: u64,
        fields: MotionFieldsView,
        proposer: PersonView,
    },
    Filing { thread: u64 },
    Mapping,
    Closed,
}

impl View for CreateRun {
    type V = CreateRunView;

    open spec fn view(&self) -> CreateRunView {
        match *self {
            CreateRun::Asking { kind, user, channel } => CreateRunView::Asking {
                kind,
                user,
                channel,
            },
            CreateRun::Resolving { kind, channel, fields } => CreateRunView::Resolving {
                kind,
                channel,
                fields: fields@,
            },
            CreateRun::Refusing => CreateRunView::Refusing,
            CreateRun::Announcing { kind, channel, fields, proposer } => CreateRunView::Announcing {
                kind,
                channel,
                fields: fields@,
                proposer: proposer@,
            },
            CreateRun::Opening { kind, fields, proposer } => CreateRunView::Opening {
                kind,
                fields: fields@,
                proposer: proposer@,
            },
            CreateRun::PostingBody { kind, thread, fields, proposer } => CreateRunView::PostingBody {
                kind,
                thread,
                fields: fields@,
                proposer: proposer@,
            },
            CreateRun::PostingJustification {
                kind,
                thread,
                fields,
                proposer,
            } => CreateRunView::PostingJustification {
                kind,
                thread,
                fields: fields@,
                proposer: proposer@,
            },
            CreateRun::Filing { thread } => CreateRunView::Filing { thread },
            CreateRun::Mapping => CreateRunView::Mapping,
            CreateRun::Closed => CreateRunView::Closed,
        }
    }
}

/// The step that gives a command up because a call failed or answered with
/// something it was not asked for.
pub open spec fn given_up() -> (CreateRunView, StepView) {
    (CreateRunView::Closed, StepView::Abort(SyncError::ExternalCallFailure))
}

/// How a filing begins: with the empty form.
pub open spec fn create_begin(user: u64, channel: u64, kind: TopType) -> (CreateRunView, StepView) {
    (
        CreateRunView::Asking { kind, user, channel },
        StepView::Call(
            RequestView::AskFields { defaults: MotionFieldsView::blank(), revising: false },
        ),
    )
}

/// How a filing goes on: the state it is in and the response to the request
/// it waited for give the next state and the next step.
///
/// The requests come in one order, each only once the one before it went
/// through: the form, the proposer, the summary line in the parent channel,
/// the thread that is opened from the summary line and named by the title,
/// the body message, the justification message, the record, the note of the
/// record for the thread. A user whom the correlation store does not know,
/// or cannot be asked about, is told so and nothing else is done. Any other
/// failure ends the filing where it stands.
pub open spec fn create_next(run: CreateRunView, response: ResponseView) -> (
    CreateRunView,
    StepView,
) {
    match run {
        CreateRunView::Asking { kind, user, channel } => match response {
            ResponseView::Fields(fields) => (
                CreateRunView::Resolving { kind, channel, fields },
                StepView::Call(RequestView::FindPerson { user }),
            ),
            _ => given_up(),
        },
        CreateRunView::Resolving { kind, channel, fields } => match response {
            ResponseView::Person(Some(proposer)) => (
                CreateRunView::Announcing { kind, channel, fields, proposer },
                StepView::Call(
                    RequestView::SendMessage {
                        channel,
                        content: summary_text(fields.title, proposer.name),
                        tts: false,
                    },
                ),
            ),
            ResponseView::Person(None) | ResponseView::Failed => (
                CreateRunView::Refusing,
                StepView::Call(RequestView::ReplyPrivately { content: NOT_REGISTERED@ }),
            ),
            _ => given_up(),
        },
        CreateRunView::Refusing => match response {
            ResponseView::Done => (CreateRunView::Closed, StepView::Finish),
            _ => given_up(),
        },
        CreateRunView::Announcing { kind, channel, fields, proposer } => match response {
            ResponseView::Created(message) => (
                CreateRunView::Opening { kind, fields, proposer },
                StepView::Call(RequestView::CreateThread { channel, message, name: fields.title }),
            ),
            _ => given_up(),
        },
        CreateRunView::Opening { kind, fields, proposer } => match response {
            ResponseView::Created(thread) => (
                CreateRunView::PostingBody { kind, thread, fields, proposer },
                StepView::Call(
                    RequestView::SendMessage {
                        channel: thread,
                        content: body_text(fields.body),
                        tts: true,
                    },
                ),
            ),
            _ => given_up(),
        },
        CreateRunView::PostingBody { kind, thread, fields, proposer } => match response {
            ResponseView::Created(_) => (
                CreateRunView::PostingJustification { kind, thread, fields, proposer },
                StepView::Call(
                    RequestView::SendMessage {
                        channel: thread,
                        content: justification_text(fields.justification),
                        tts: true,
                    },
                ),
            ),
            _ => given_up(),
        },
        CreateRunView::PostingJustification { kind, thread, fields, proposer } => match response {
            ResponseView::Created(_) => (
                CreateRunView::Filing { thread },
                StepView::Call(RequestView::CreateRecord { motion: filed(kind, fields, proposer) }),
            ),
            _ => given_up(),
        },
        CreateRunView::Filing { thread } => match response {
            ResponseView::Created(record) => (
                CreateRunView::Mapping,
                StepView::Call(RequestView::MapThread { thread, record }),
            ),
            _ => given_up(),
        },
        CreateRunView::Mapping => match response {
            ResponseView::Done | ResponseView::Failed => (CreateRunView::Closed, StepView::Finish),
            _ => given_up(),
        },
        CreateRunView::Closed => given_up(),
    }
}

/// Closes the filing on a failure.
fn give_up() -> (out: (CreateRun, Step))
    ensures
        (out.0@, out.1@) == given_up(),
{
    (CreateRun::Closed, Step::Abort(SyncError::ExternalCallFailure))
}

/// Begins the filing of a motion of kind `top_type`, invoked by `user` in
/// `channel`: the first step asks for the empty form.
pub fn create_antrag(user: u64, channel: u64, top_type: TopType) -> (out: (CreateRun, Step))
    ensures
        (out.0@, out.1@) == create_begin(user, channel, top_type),
{
    (
        CreateRun::Asking { kind: top_type, user, channel },
        Step::Call(Request::AskFields { defaults: MotionFields::blank(), revising: false }),
    )
}

/// Begins the filing of an ordinary motion.
pub fn antrag(user: u64, channel: u64) -> (out: (CreateRun, Step))
    ensures
        (out.0@, out.1@) == create_begin(user, channel, TopType::Normal),
{
    create_antrag(user, channel, TopType::Normal)
}

/// Begins the filing of an item of information.
pub fn information(user: u64, channel: u64) -> (out: (CreateRun, Step))
    ensures
        (out.0@, out.1@) == create_begin(user, channel, TopType::Information),
{
    create_antrag(user, channel, TopType::Information)
}

/// Begins the filing of an item of any other kind.
pub fn sonstiges(user: u64, channel: u64) -> (out: (CreateRun, Step))
    ensures
        (out.0@, out.1@) == create_begin(user, channel, TopType::Sonstiges),
{
    create_antrag(user, channel, TopType::Sonstiges)
}

impl CreateRun {
    /// Takes the response to the request that the filing waited for and
    /// decides what is done next.
    pub fn step(self, response: Response) -> (out: (CreateRun, Step))
        ensures
            (out.0@, out.1@) == create_next(self@, response@),
    {
        match self {
            CreateRun::Asking { kind, user, channel } => match response {
                Response::Fields(fields) => (
                    CreateRun::Resolving { kind, channel, fields },
                    Step::Call(Request::FindPerson { user }),
                ),
                _ => give_up(),
            },
            CreateRun::Resolving { kind, channel, fields } => match response {
                Response::Person(Some(proposer)) => {
                    let content = summary_line(fields.title.as_str(), proposer.name.as_str());
                    (
                        CreateRun::Announcing { kind, channel, fields, proposer },
                        Step::Call(Request::SendMessage { channel, content, tts: false }),
                    )
                },
                Response::Person(None) | Response::Failed => (
                    CreateRun::Refusing,
                    Step::Call(Request::ReplyPrivately { content: NOT_REGISTERED.to_owned() }),
                ),
                _ => give_up(),
            },
            CreateRun::Refusing => match response {
                Response::Done => (CreateRun::Closed, Step::Finish),
                _ => give_up(),
            },
            CreateRun::Announcing { kind, channel, fields, proposer } => match response {
                Response::Created(message) => {
                    let name = fields.title.clone();
                    (
                        CreateRun::Opening { kind, fields, proposer },
                        Step::Call(Request::CreateThread { channel, message, name }),
                    )
                },
                _ => give_up(),
            },
            CreateRun::Opening { kind, fields, proposer } => match response {
                Response::Created(thread) => {
                    let content = body_message(fields.body.as_str());
                    (
                        CreateRun::PostingBody { kind, thread, fields, proposer },
                        Step::Call(Request::SendMessage { channel: thread, content, tts: true }),
                    )
                },
                _ => give_up(),
            },
            CreateRun::PostingBody { kind, thread, fields, proposer } => match response {
                Response::Created(_) => {
                    let content = justification_message(&fields.justification);
                    (
                        CreateRun::PostingJustification { kind, thread, fields, proposer },
                        Step::Call(Request::SendMessage { channel: thread, content, tts: true }),
                    )
                },
                _ => give_up(),
            },
            CreateRun::PostingJustification { kind, thread, fields, proposer } => match response {
                Response::Created(_) => {
                    let motion = NewMotion::file(kind, &fields, &proposer);
                    (CreateRun::Filing { thread }, Step::Call(Request::CreateRecord { motion }))
                },
                _ => give_up(),
            },
            CreateRun::Filing { thread } => match response {
                Response::Created(record) => (
                    CreateRun::Mapping,
                    Step::Call(Request::MapThread { thread, record }),
                ),
                _ => give_up(),
            },
            CreateRun::Mapping => match response {
                Response::Done | Response::Failed => (CreateRun::Closed, Step::Finish),
                _ => give_up(),
            },
            CreateRun::Closed => give_up(),
        }
    }
}

} // verus!
