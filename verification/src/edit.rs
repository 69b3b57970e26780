//! Revising a motion: from the thread as it stands to the form, and from
//! the revised form back to the thread, the summary line and the record.

use crate::exchange::{Request, RequestView, Response, ResponseView, Step, StepView};
use crate::failure::SyncError;
use crate::motion::{revised, MotionFields, MotionFieldsView, RevisedMotion};
use crate::people::{ids_named, proposers_named};
use crate::transcript::{
    by_creation, defaults_from, prefill, sort_by_creation, Channel, ChannelView, MessageKind,
    MessageView, BODY_SLOT, JUSTIFICATION_SLOT, SLOT_COUNT, STARTER_SLOT,
};
use crate::wording::{
    body_message, body_text, justification_message, justification_text, proposer_in, proposer_of,
    summary_line, summary_text,
};
use vstd::prelude::*;

verus! {

/// What a revision needs to know of the slots of the thread: whether the
/// thread starts from the platform's reference to the summary line, and
/// which messages hold the proposal text and the justification.
#[derive(Copy, Clone, Debug, PartialEq, Eq, Structural)]
pub struct Slots {
    pub starter: MessageKind,
    pub body: u64,
    pub justification: u64,
}

/// The slots of a thread whose messages are in the order they were written
/// in.
pub open spec fn slots_of(sorted: Seq<MessageView>) -> Slots {
    Slots {
        starter: sorted[STARTER_SLOT as int].kind,
        body: sorted[BODY_SLOT as int].id,
        justification: sorted[JUSTIFICATION_SLOT as int].id,
    }
}

/// A revision that is ready to be written out: the thread and its parent
/// channel, the revised form, the slots to write to, and the proposer as
/// the summary line named them before anything was written.
#[derive(Debug, PartialEq, Eq)]
pub struct Revision {
    pub thread: u64,
    pub parent: u64,
    pub fields: MotionFields,
    pub slots: Slots,
    pub proposer: String,
}

/// A revision, with its texts as the characters they hold.
pub struct RevisionView {
    pub thread: u64,
    pub parent: u64,
    pub fields: MotionFieldsView,
    pub slots: Slots,
    pub proposer: Seq<char>,
}

impl View for Revision {
    type V = RevisionView;

    open spec fn view(&self) -> RevisionView {
        RevisionView {
            thread: self.thread,
            parent: self.parent,
            fields: self.fields@,
            slots: self.slots,
            proposer: self.proposer@,
        }
    }
}

impl Clone for Revision {
    fn clone(&self) -> (out: Revision)
        ensures
            out@ == self@,
    {
        Revision {
            thread: self.thread,
            parent: self.parent,
            fields: self.fields.clone(),
            slots: self.slots,
            proposer: self.proposer.clone(),
        }
    }
}

impl RevisionView {
    /// The summary line as the revision writes it: the new title, and the
    /// proposer that the line named before.
    pub open spec fn summary(self) -> Seq<char> {
        summary_text(self.fields.title, self.proposer)
    }
}

/// How far the revising of a motion has come. Each state but the last waits
/// for the response to one request.
#[derive(Debug, PartialEq, Eq)]
pub enum EditRun {
    /// The messages of the thread are being fetched to fill the form.
    Reading { channel: Channel },
    /// The form is out.
    Asking { thread: u64, parent: u64 },
    /// The messages of the thread are being fetched afresh.
    Rereading { thread: u64, parent: u64, fields: MotionFields },
    /// The summary line is being fetched from the parent channel.
    ReadingSummary { thread: u64, parent: u64, fields: MotionFields, slots: Slots },
    /// The thread is being given its new name.
    Renaming { revision: Revision },
    /// The body message is being overwritten.
    EditingBody { revision: Revision },
    /// The justification message is being overwritten.
    EditingJustification { revision: Revision },
    /// The summary line is being overwritten.
    EditingSummary { revision: Revision },
    /// The record of the thread is being looked up.
    FindingRecord { revision: Revision },
    /// The roster is being fetched.
    ListingPersons { record: u64, revision: Revision },
    /// The record is being replaced.
    Submitting,
    /// Nothing is waited for any more.
    Closed,
}

/// The state of a revising, with its texts as the characters they hold.
pub enum EditRunView {
    Reading { channel: ChannelView },
    Asking { thread: u64, parent: u64 },
    Rereading { thread: u64, parent: u64, fields: MotionFieldsView },
    ReadingSummary { thread: u64, parent: u64, fields: MotionFieldsView, slots: Slots },
    Renaming { revision: RevisionView },
    EditingBody { revision: RevisionView },
    EditingJustification { revision: RevisionView },
    EditingSummary { revision: RevisionView },
    FindingRecord { revision: RevisionView },
    ListingPersons { record: u64, revision: RevisionView },
    Submitting,
    Closed,
}

impl View for EditRun {
    type V = EditRunView;

    open spec fn view(&self) -> EditRunView {
        match *self {
            EditRun::Reading { channel } => EditRunView::Reading { channel: channel@ },
            EditRun::Asking { thread, parent } => EditRunView::Asking { thread, parent },
            EditRun::Rereading { thread, parent, fields } => EditRunView::Rereading {
                thread,
                parent,
                fields: fields@,
            },
            EditRun::ReadingSummary { thread, parent, fields, slots } => EditRunView::ReadingSummary {
                thread,
                parent,
                fields: fields@,
                slots,
            },
            EditRun::Renaming { revision } => EditRunView::Renaming { revision: revision@ },
            EditRun::EditingBody { revision } => EditRunView::EditingBody { revision: revision@ },
            EditRun::EditingJustification { revision } => EditRunView::EditingJustification {
                revision: revision@,
            },
            EditRun::EditingSummary { revision } => EditRunView::EditingSummary {
                revision: revision@,
            },
            EditRun::FindingRecord { revision } => EditRunView::FindingRecord {
                revision: revision@,
            },
            EditRun::ListingPersons { record, revision } => EditRunView::ListingPersons {
                record,
                revision: revision@,
            },
            EditRun::Submitting => EditRunView::Submitting,
            EditRun::Closed => EditRunView::Closed,
        }
    }
}

/// The step that gives a revising up because a call failed or answered with
/// something it was not asked for.
pub open spec fn abandoned() -> (EditRunView, StepView) {
    (EditRunView::Closed, StepView::Abort(SyncError::ExternalCallFailure))
}

/// The step that gives a revising up for the reason `error`.
pub open spec fn refused(error: SyncError) -> (EditRunView, StepView) {
    (EditRunView::Closed, StepView::Abort(error))
}

/// How a revising begins: in a thread under a parent channel the messages of
/// the thread are fetched; anywhere else the command is refused before it
/// asks for anything.
pub open spec fn edit_begin(channel: ChannelView) -> (EditRunView, StepView) {
    if channel.is_motion_thread() {
        (
            EditRunView::Reading { channel },
            StepView::Call(RequestView::FetchMessages { channel: channel.id }),
        )
    } else {
        refused(SyncError::NotAThread)
    }
}

/// The request that follows the overwriting of the two slots: where the
/// thread starts from the platform's reference, the summary line in the
/// parent channel, which bears the thread's own identifier, is overwritten;
/// else the record is looked up at once.
pub open spec fn after_slots(revision: RevisionView) -> (EditRunView, StepView) {
    if revision.slots.starter == MessageKind::ThreadStarter {
        (
            EditRunView::EditingSummary { revision },
            StepView::Call(
                RequestView::EditMessage {
                    channel: revision.parent,
                    message: revision.thread,
                    content: revision.summary(),
                },
            ),
        )
    } else {
        (
            EditRunView::FindingRecord { revision },
            StepView::Call(RequestView::FindRecord { thread: revision.thread }),
        )
    }
}

/// How a revising goes on: the state it is in and the response to the
/// request it waited for give the next state and the next step.
///
/// The form is filled from the thread as it stands. Once the form is sent
/// off the thread is fetched afresh and put in order, and the summary line
/// is fetched from the parent channel, where it bears the thread's own
/// identifier; the proposer is the last piece of that line. Then the thread
/// is renamed, the body message and the justification message are
/// overwritten, the summary line is overwritten if the thread starts from
/// the platform's reference, the record of the thread is looked up, the
/// roster is searched for the proposer's name, and the record is replaced.
/// A thread with too few messages ends the revising before anything is
/// written, a thread without a record before the record service is called.
/// Any failure ends the revising where it stands.
pub open spec fn edit_next(run: EditRunView, response: ResponseView) -> (EditRunView, StepView) {
    match run {
        EditRunView::Reading { channel } => match response {
            ResponseView::Messages(messages) => match defaults_from(channel, messages) {
                Ok(defaults) => (
                    EditRunView::Asking { thread: channel.id, parent: channel.parent.unwrap() },
                    StepView::Call(RequestView::AskFields { defaults, revising: true }),
                ),
                Err(error) => refused(error),
            },
            _ => abandoned(),
        },
        EditRunView::Asking { thread, parent } => match response {
            ResponseView::Fields(fields) => (
                EditRunView::Rereading { thread, parent, fields },
                StepView::Call(RequestView::FetchMessages { channel: thread }),
            ),
            _ => abandoned(),
        },
        EditRunView::Rereading { thread, parent, fields } => match response {
            ResponseView::Messages(messages) => if messages.len() < SLOT_COUNT {
                refused(SyncError::MalformedThread)
            } else {
                (
                    EditRunView::ReadingSummary {
                        thread,
                        parent,
                        fields,
                        slots: slots_of(by_creation(messages)),
                    },
                    StepView::Call(RequestView::FetchMessage { channel: parent, message: thread }),
                )
            },
            _ => abandoned(),
        },
        EditRunView::ReadingSummary { thread, parent, fields, slots } => match response {
            ResponseView::Message(summary) => (
                EditRunView::Renaming {
                    revision: RevisionView {
                        thread,
                        parent,
                        fields,
                        slots,
                        proposer: proposer_in(summary.content),
                    },
                },
                StepView::Call(RequestView::RenameThread { thread, name: fields.title }),
            ),
            _ => abandoned(),
        },
        EditRunView::Renaming { revision } => match response {
            ResponseView::Done => (
                EditRunView::EditingBody { revision },
                StepView::Call(
                    RequestView::EditMessage {
                        channel: revision.thread,
                        message: revision.slots.body,
                        content: body_text(revision.fields.body),
                    },
                ),
            ),
            _ => abandoned(),
        },
        EditRunView::EditingBody { revision } => match response {
            ResponseView::Done => (
                EditRunView::EditingJustification { revision },
                StepView::Call(
                    RequestView::EditMessage {
                        channel: revision.thread,
                        message: revision.slots.justification,
                        content: justification_text(revision.fields.justification),
                    },
                ),
            ),
            _ => abandoned(),
        },
        EditRunView::EditingJustification { revision } => match response {
            ResponseView::Done => after_slots(revision),
            _ => abandoned(),
        },
        EditRunView::EditingSummary { revision } => match response {
            ResponseView::Done => (
                EditRunView::FindingRecord { revision },
                StepView::Call(RequestView::FindRecord { thread: revision.thread }),
            ),
            _ => abandoned(),
        },
        EditRunView::FindingRecord { revision } => match response {
            ResponseView::Record(Some(record)) => (
                EditRunView::ListingPersons { record, revision },
                StepView::Call(RequestView::ListPersons),
            ),
            ResponseView::Record(None) => refused(SyncError::MissingRecordMapping),
            _ => abandoned(),
        },
        EditRunView::ListingPersons { record, revision } => match response {
            ResponseView::Roster(roster) => (
                EditRunView::Submitting,
                StepView::Call(
                    RequestView::EditRecord {
                        revised: revised(
                            record,
                            revision.fields,
                            ids_named(roster, revision.proposer),
                        ),
                    },
                ),
            ),
            _ => abandoned(),
        },
        EditRunView::Submitting => match response {
            ResponseView::Done => (EditRunView::Closed, StepView::Finish),
            _ => abandoned(),
        },
        EditRunView::Closed => abandoned(),
    }
}

/// Closes the revising on a failure.
fn abandon() -> (out: (EditRun, Step))
    ensures
        (out.0@, out.1@) == abandoned(),
{
    (EditRun::Closed, Step::Abort(SyncError::ExternalCallFailure))
}

/// Closes the revising for the reason `error`.
fn refuse(error: SyncError) -> (out: (EditRun, Step))
    ensures
        (out.0@, out.1@) == refused(error),
{
    (EditRun::Closed, Step::Abort(error))
}

/// Goes on to the lookup of the record of the thread.
fn look_up_record(revision: Revision) -> (out: (EditRun, Step))
    ensures
        out.0@ == (EditRunView::FindingRecord { revision: revision@ }),
        out.1@ == StepView::Call(RequestView::FindRecord { thread: revision.thread }),
{
    let thread = revision.thread;
    (EditRun::FindingRecord { revision }, Step::Call(Request::FindRecord { thread }))
}

/// Goes on from the two slots to the summary line or, where that is left
/// alone, to the record.
fn go_on_after_slots(revision: Revision) -> (out: (EditRun, Step))
    ensures
        (out.0@, out.1@) == after_slots(revision@),
{
    match revision.slots.starter {
        MessageKind::ThreadStarter => {
            let content = summary_line(revision.fields.title.as_str(), revision.proposer.as_str());
            let request = Request::EditMessage {
                channel: revision.parent,
                message: revision.thread,
                content,
            };
            (EditRun::EditingSummary { revision }, Step::Call(request))
        },
        MessageKind::Regular => look_up_record(revision),
    }
}

/// Begins the revising of the motion whose thread the command was invoked
/// in.
pub fn edit(channel: Channel) -> (out: (EditRun, Step))
    ensures
        (out.0@, out.1@) == edit_begin(channel@),
{
    if channel.kind.thread() && channel.parent.is_some() {
        let thread = channel.id;
        (EditRun::Reading { channel }, Step::Call(Request::FetchMessages { channel: thread }))
    } else {
        refuse(SyncError::NotAThread)
    }
}

impl EditRun {
    /// Takes the response to the request that the revising waited for and
    /// decides what is done next.
    pub fn step(self, response: Response) -> (out: (EditRun, Step))
        ensures
            (out.0@, out.1@) == edit_next(self@, response@),
    {
        match self {
            EditRun::Reading { channel } => match response {
                Response::Messages(messages) => match prefill(&channel, messages) {
                    Ok(defaults) => (
                        EditRun::Asking { thread: channel.id, parent: channel.parent.unwrap() },
                        Step::Call(Request::AskFields { defaults, revising: true }),
                    ),
                    Err(error) => refuse(error),
                },
                _ => abandon(),
            },
            EditRun::Asking { thread, parent } => match response {
                Response::Fields(fields) => (
                    EditRun::Rereading { thread, parent, fields },
                    Step::Call(Request::FetchMessages { channel: thread }),
                ),
                _ => abandon(),
            },
            EditRun::Rereading { thread, parent, fields } => match response {
                Response::Messages(messages) => {
                    let sorted = sort_by_creation(messages);
                    if sorted.len() < SLOT_COUNT {
                        refuse(SyncError::MalformedThread)
                    } else {
                        let slots = Slots {
                            starter: sorted[STARTER_SLOT].kind,
                            body: sorted[BODY_SLOT].id,
                            justification: sorted[JUSTIFICATION_SLOT].id,
                        };
                        (
                            EditRun::ReadingSummary { thread, parent, fields, slots },
                            Step::Call(Request::FetchMessage { channel: parent, message: thread }),
                        )
                    }
                },
                _ => abandon(),
            },
            EditRun::ReadingSummary { thread, parent, fields, slots } => match response {
                Response::Message(summary) => {
                    let proposer = proposer_of(summary.content.as_str());
                    let name = fields.title.clone();
                    (
                        EditRun::Renaming {
                            revision: Revision { thread, parent, fields, slots, proposer },
                        },
                        Step::Call(Request::RenameThread { thread, name }),
                    )
                },
                _ => abandon(),
            },
            EditRun::Renaming { revision } => match response {
                Response::Done => {
                    let request = Request::EditMessage {
                        channel: revision.thread,
                        message: revision.slots.body,
                        content: body_message(revision.fields.body.as_str()),
                    };
                    (EditRun::EditingBody { revision }, Step::Call(request))
                },
                _ => abandon(),
            },
            EditRun::EditingBody { revision } => match response {
                Response::Done => {
                    let request = Request::EditMessage {
                        channel: revision.thread,
                        message: revision.slots.justification,
                        content: justification_message(&revision.fields.justification),
                    };
                    (EditRun::EditingJustification { revision }, Step::Call(request))
                },
                _ => abandon(),
            },
            EditRun::EditingJustification { revision } => match response {
                Response::Done => go_on_after_slots(revision),
                _ => abandon(),
            },
            EditRun::EditingSummary { revision } => match response {
                Response::Done => look_up_record(revision),
                _ => abandon(),
            },
            EditRun::FindingRecord { revision } => match response {
                Response::Record(Some(record)) => (
                    EditRun::ListingPersons { record, revision },
                    Step::Call(Request::ListPersons),
                ),
                Response::Record(None) => refuse(SyncError::MissingRecordMapping),
                _ => abandon(),
            },
            EditRun::ListingPersons { record, revision } => match response {
                Response::Roster(roster) => {
                    let proposers = proposers_named(&roster, revision.proposer.as_str());
                    let revised = RevisedMotion::revise(record, &revision.fields, proposers);
                    (EditRun::Submitting, Step::Call(Request::EditRecord { revised }))
                },
                _ => abandon(),
            },
            EditRun::Submitting => match response {
                Response::Done => (EditRun::Closed, Step::Finish),
                _ => abandon(),
            },
            EditRun::Closed => abandon(),
        }
    }
}

} // verus!
