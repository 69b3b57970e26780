//! What holds of the commands taken together.

use crate::create::{create_begin, create_next, CreateRunView};
use crate::edit::{edit_begin, edit_next, refused, slots_of, EditRunView, RevisionView, Slots};
use crate::exchange::{RequestView, ResponseView, StepView};
use crate::failure::SyncError;
use crate::kind::TopType;
use crate::motion::{filed, revised, MotionFieldsView};
use crate::people::{ids_named, PersonView};
use crate::transcript::{
    by_creation, defaults_from, ChannelView, MessageKind, MessageView, BODY_SLOT,
    JUSTIFICATION_SLOT, SLOT_COUNT,
};
use crate::wording::{
    body_text, cuts_cleanly, justification_or_default, justification_text,
    lemma_body_round_trip, lemma_justification_round_trip, lemma_retitling_keeps_proposer,
    proposer_in, summary_text, JUSTIFICATION_LABEL, NO_JUSTIFICATION, SEPARATOR,
};
use vstd::prelude::*;

verus! {

/// The place of a state in the order of a filing.
pub open spec fn create_stage(run: CreateRunView) -> nat {
    match run {
        CreateRunView::Asking { .. } => 1,
        CreateRunView::Resolving { .. } => 2,
        CreateRunView::Refusing => 3,
        CreateRunView::Announcing { .. } => 3,
        CreateRunView::Opening { .. } => 4,
        CreateRunView::PostingBody { .. } => 5,
        CreateRunView::PostingJustification { .. } => 6,
        CreateRunView::Filing { .. } => 7,
        CreateRunView::Mapping => 8,
        CreateRunView::Closed => 9,
    }
}

/// A filing keeps its order. Every request moves it on by one state; every
/// other step closes it, and a closed filing stays closed. Nothing is
/// changed anywhere before the correlation store has named the proposer, and
/// nothing after a user was told that it does not know them. The thread is
/// opened only once the summary line is sent, the record is filed only once
/// both messages of the thread are sent, and it is noted for the thread
/// only once it is filed.
pub proof fn lemma_create_keeps_order(run: CreateRunView, response: ResponseView)
    ensures
        ({
            let (next, step) = create_next(run, response);
            &&& step.is_last() <==> next is Closed
            &&& !step.is_last() ==> create_stage(next) == create_stage(run) + 1
            &&& step.writes() ==> create_stage(run) >= 2 && !(run is Refusing) && !(next is Refusing)
            &&& step.writes() && run is Resolving ==> (response matches ResponseView::Person(
                Some(_),
            ))
            &&& (step matches StepView::Call(RequestView::CreateThread { .. }) ==> run is Announcing
                && response is Created)
            &&& (step matches StepView::Call(RequestView::CreateRecord { .. })
                ==> run is PostingJustification && response is Created)
            &&& (step matches StepView::Call(RequestView::MapThread { thread, record })
                ==> run == (CreateRunView::Filing { thread }) && response
                == ResponseView::Created(record))
        }),
{
}

/// A filing that meets no failure, from the first step to the last. The
/// form is asked for empty; the user is looked up; the summary line, title
/// and proposer, is sent into the channel of the command without being read
/// out; the thread is opened from it under the title; the body message and
/// the justification message are sent into the thread and read out; the
/// record is filed; the record is noted for the thread. The responses carry
/// the identifiers of the summary line, the thread, the two messages and
/// the record.
pub proof fn lemma_filing_without_failure(
    user: u64,
    channel: u64,
    kind: TopType,
    fields: MotionFieldsView,
    proposer: PersonView,
    summary: u64,
    thread: u64,
    body: u64,
    justification: u64,
    record: u64,
)
    ensures
        ({
            let (asking, first) = create_begin(user, channel, kind);
            let (resolving, second) = create_next(asking, ResponseView::Fields(fields));
            let (announcing, third) = create_next(
                resolving,
                ResponseView::Person(Some(proposer)),
            );
            let (opening, fourth) = create_next(announcing, ResponseView::Created(summary));
            let (posting_body, fifth) = create_next(opening, ResponseView::Created(thread));
            let (posting_justification, sixth) = create_next(
                posting_body,
                ResponseView::Created(body),
            );
            let (filing, seventh) = create_next(
                posting_justification,
                ResponseView::Created(justification),
            );
            let (mapping, eighth) = create_next(filing, ResponseView::Created(record));
            let (closed, last) = create_next(mapping, ResponseView::Done);
            &&& first == StepView::Call(
                RequestView::AskFields { defaults: MotionFieldsView::blank(), revising: false },
            )
            &&& second == StepView::Call(RequestView::FindPerson { user })
            &&& third == StepView::Call(
                RequestView::SendMessage {
                    channel,
                    content: summary_text(fields.title, proposer.name),
                    tts: false,
                },
            )
            &&& fourth == StepView::Call(
                RequestView::CreateThread { channel, message: summary, name: fields.title },
            )
            &&& fifth == StepView::Call(
                RequestView::SendMessage {
                    channel: thread,
                    content: body_text(fields.body),
                    tts: true,
                },
            )
            &&& sixth == StepView::Call(
                RequestView::SendMessage {
                    channel: thread,
                    content: justification_text(fields.justification),
                    tts: true,
                },
            )
            &&& seventh == StepView::Call(
                RequestView::CreateRecord { motion: filed(kind, fields, proposer) },
            )
            &&& eighth == StepView::Call(RequestView::MapThread { thread, record })
            &&& last == StepView::Finish
            &&& closed is Closed
        }),
{
}

/// The place of a state in the order of a revising.
pub open spec fn edit_stage(run: EditRunView) -> nat {
    match run {
        EditRunView::Reading { .. } => 1,
        EditRunView::Asking { .. } => 2,
        EditRunView::Rereading { .. } => 3,
        EditRunView::ReadingSummary { .. } => 4,
        EditRunView::Renaming { .. } => 5,
        EditRunView::EditingBody { .. } => 6,
        EditRunView::EditingJustification { .. } => 7,
        EditRunView::EditingSummary { .. } => 8,
        EditRunView::FindingRecord { .. } => 9,
        EditRunView::ListingPersons { .. } => 10,
        EditRunView::Submitting => 11,
        EditRunView::Closed => 12,
    }
}

/// A revising keeps its order. Every request moves it on, by one state or,
/// where the summary line is left alone, by two; every other step closes it,
/// and a closed revising stays closed. Nothing is changed anywhere before
/// the thread, fetched afresh, was found to hold its slots and the summary
/// line was read. The record service is called only once a record was found
/// for the thread.
pub proof fn lemma_edit_keeps_order(run: EditRunView, response: ResponseView)
    ensures
        ({
            let (next, step) = edit_next(run, response);
            &&& step.is_last() <==> next is Closed
            &&& !step.is_last() ==> edit_stage(run) < edit_stage(next) <= edit_stage(run) + 2
            &&& !step.is_last() && !(run is EditingJustification) ==> edit_stage(next)
                == edit_stage(run) + 1
            &&& step.writes() ==> edit_stage(run) >= 4
            &&& (step matches StepView::Call(RequestView::ListPersons) ==> run is FindingRecord
                && (response matches ResponseView::Record(Some(_))))
            &&& (step matches StepView::Call(RequestView::EditRecord { revised })
                ==> (run matches EditRunView::ListingPersons { record, .. } && revised.id
                == record))
        }),
{
}

/// A revising that meets no failure, from the first step to the last, in a
/// thread that starts from the platform's reference. The thread is fetched
/// and the form is filled from it; once the form is sent off the thread is
/// fetched afresh, and the summary line is fetched from the parent channel
/// under the thread's own identifier; the thread is renamed to the new
/// title; the body slot and the justification slot of the thread as fetched
/// afresh are overwritten; the summary line is overwritten with the new
/// title and the proposer that it named; the record of the thread is looked
/// up, the roster is fetched, and the record is replaced, moved by those
/// of the roster who bear the proposer's name.
pub proof fn lemma_revising_without_failure(
    channel: ChannelView,
    seen: Seq<MessageView>,
    fields: MotionFieldsView,
    fetched: Seq<MessageView>,
    line: MessageView,
    record: u64,
    roster: Seq<PersonView>,
)
    requires
        channel.is_motion_thread(),
        seen.len() >= SLOT_COUNT,
        fetched.len() >= SLOT_COUNT,
        slots_of(by_creation(fetched)).starter == MessageKind::ThreadStarter,
    ensures
        ({
            let thread = channel.id;
            let parent = channel.parent.unwrap();
            let slots = slots_of(by_creation(fetched));
            let proposer = proposer_in(line.content);
            let (reading, first) = edit_begin(channel);
            let (asking, second) = edit_next(reading, ResponseView::Messages(seen));
            let (rereading, third) = edit_next(asking, ResponseView::Fields(fields));
            let (reading_summary, fourth) = edit_next(rereading, ResponseView::Messages(fetched));
            let (renaming, fifth) = edit_next(reading_summary, ResponseView::Message(line));
            let (editing_body, sixth) = edit_next(renaming, ResponseView::Done);
            let (editing_justification, seventh) = edit_next(editing_body, ResponseView::Done);
            let (editing_summary, eighth) = edit_next(editing_justification, ResponseView::Done);
            let (finding_record, ninth) = edit_next(editing_summary, ResponseView::Done);
            let (listing_persons, tenth) = edit_next(
                finding_record,
                ResponseView::Record(Some(record)),
            );
            let (submitting, eleventh) = edit_next(listing_persons, ResponseView::Roster(roster));
            let (closed, last) = edit_next(submitting, ResponseView::Done);
            &&& first == StepView::Call(RequestView::FetchMessages { channel: thread })
            &&& defaults_from(channel, seen) matches Ok(defaults) && second == StepView::Call(
                RequestView::AskFields { defaults, revising: true },
            )
            &&& third == StepView::Call(RequestView::FetchMessages { channel: thread })
            &&& fourth == StepView::Call(
                RequestView::FetchMessage { channel: parent, message: thread },
            )
            &&& fifth == StepView::Call(RequestView::RenameThread { thread, name: fields.title })
            &&& sixth == StepView::Call(
                RequestView::EditMessage {
                    channel: thread,
                    message: slots.body,
                    content: body_text(fields.body),
                },
            )
            &&& seventh == StepView::Call(
                RequestView::EditMessage {
                    channel: thread,
                    message: slots.justification,
                    content: justification_text(fields.justification),
                },
            )
            &&& eighth == StepView::Call(
                RequestView::EditMessage {
                    channel: parent,
                    message: thread,
                    content: summary_text(fields.title, proposer),
                },
            )
            &&& ninth == StepView::Call(RequestView::FindRecord { thread })
            &&& tenth == StepView::Call(RequestView::ListPersons)
            &&& eleventh == StepView::Call(
                RequestView::EditRecord {
                    revised: revised(record, fields, ids_named(roster, proposer)),
                },
            )
            &&& last == StepView::Finish
            &&& closed is Closed
        }),
{
}

/// A thread that holds fewer messages than it has slots is refused as
/// malformed, when the form is to be filled as when the revised form is to
/// be written out, and the request that was made until then only read.
pub proof fn lemma_short_thread_is_refused(
    channel: ChannelView,
    messages: Seq<MessageView>,
    fields: MotionFieldsView,
)
    requires
        channel.is_motion_thread(),
        messages.len() < SLOT_COUNT,
    ensures
        edit_begin(channel).1 == StepView::Call(RequestView::FetchMessages { channel: channel.id }),
        !edit_begin(channel).1.writes(),
        edit_next(edit_begin(channel).0, ResponseView::Messages(messages)) == refused(
            SyncError::MalformedThread,
        ),
        edit_next(
            EditRunView::Rereading {
                thread: channel.id,
                parent: channel.parent.unwrap(),
                fields,
            },
            ResponseView::Messages(messages),
        ) == refused(SyncError::MalformedThread),
{
}

/// Where no justification is given, the sentence that stands for none is
/// what the thread shows behind the label and what the record holds, when a
/// motion is filed as when it is revised.
pub proof fn lemma_absent_justification_shows_default(
    kind: TopType,
    thread: u64,
    sent: u64,
    fields: MotionFieldsView,
    proposer: PersonView,
    revision: RevisionView,
    record: u64,
    roster: Seq<PersonView>,
)
    requires
        fields.justification is None,
        revision.fields.justification is None,
    ensures
        create_next(
            CreateRunView::PostingBody { kind, thread, fields, proposer },
            ResponseView::Created(sent),
        ).1 == StepView::Call(
            RequestView::SendMessage {
                channel: thread,
                content: JUSTIFICATION_LABEL@ + NO_JUSTIFICATION@,
                tts: true,
            },
        ),
        create_next(
            CreateRunView::PostingJustification { kind, thread, fields, proposer },
            ResponseView::Created(sent),
        ).1 matches StepView::Call(RequestView::CreateRecord { motion }) && motion.justification
            == NO_JUSTIFICATION@,
        edit_next(EditRunView::EditingBody { revision }, ResponseView::Done).1 == StepView::Call(
            RequestView::EditMessage {
                channel: revision.thread,
                message: revision.slots.justification,
                content: JUSTIFICATION_LABEL@ + NO_JUSTIFICATION@,
            },
        ),
        edit_next(
            EditRunView::ListingPersons { record, revision },
            ResponseView::Roster(roster),
        ).1 matches StepView::Call(RequestView::EditRecord { revised }) && revised.justification
            == NO_JUSTIFICATION@,
{
}

/// A motion is read back as it was filed. Where a thread bears the name
/// that the filing of `fields` gave it, and its body slot and its
/// justification slot hold what that filing sent into it, the form is
/// filled with the title and the proposal text of `fields` and with its
/// justification, or with the sentence for none where it has none.
pub proof fn lemma_filed_motion_is_read_back(
    kind: TopType,
    fields: MotionFieldsView,
    proposer: PersonView,
    origin: u64,
    summary: u64,
    thread: u64,
    sent: u64,
    channel: ChannelView,
    messages: Seq<MessageView>,
)
    requires
        channel.is_motion_thread(),
        messages.len() >= SLOT_COUNT,
        create_next(
            CreateRunView::Announcing { kind, channel: origin, fields, proposer },
            ResponseView::Created(summary),
        ).1 == StepView::Call(
            RequestView::CreateThread { channel: origin, message: summary, name: channel.name },
        ),
        create_next(
            CreateRunView::Opening { kind, fields, proposer },
            ResponseView::Created(thread),
        ).1 == StepView::Call(
            RequestView::SendMessage {
                channel: thread,
                content: by_creation(messages)[BODY_SLOT as int].content,
                tts: true,
            },
        ),
        create_next(
            CreateRunView::PostingBody { kind, thread, fields, proposer },
            ResponseView::Created(sent),
        ).1 == StepView::Call(
            RequestView::SendMessage {
                channel: thread,
                content: by_creation(messages)[JUSTIFICATION_SLOT as int].content,
                tts: true,
            },
        ),
    ensures
        defaults_from(channel, messages) == Ok::<MotionFieldsView, SyncError>(
            MotionFieldsView {
                title: fields.title,
                body: fields.body,
                justification: Some(justification_or_default(fields.justification)),
            },
        ),
{
    lemma_body_round_trip(fields.body);
    lemma_justification_round_trip(fields.justification);
}

/// What a thread and its summary line show: the name of the thread, the
/// content of its body slot and of its justification slot, and the summary
/// line in the parent channel.
pub struct Surfaces {
    pub name: Seq<char>,
    pub body: Seq<char>,
    pub justification: Seq<char>,
    pub summary: Seq<char>,
}

/// What is shown once `step` is carried out, for the thread `thread` under
/// `parent` with the slots `slots`.
pub open spec fn shown_after(
    shown: Surfaces,
    thread: u64,
    parent: u64,
    slots: Slots,
    step: StepView,
) -> Surfaces {
    match step {
        StepView::Call(RequestView::RenameThread { thread: renamed, name }) => if renamed
            == thread {
            Surfaces { name, ..shown }
        } else {
            shown
        },
        StepView::Call(RequestView::EditMessage { channel, message, content }) => if channel
            == thread && message == slots.body {
            Surfaces { body: content, ..shown }
        } else if channel == thread && message == slots.justification {
            Surfaces { justification: content, ..shown }
        } else if channel == parent && message == thread {
            Surfaces { summary: content, ..shown }
        } else {
            shown
        },
        _ => shown,
    }
}

/// What is shown once a revising to `fields` that meets no failure has
/// written all it writes. It sets out from the thread fetched afresh, and
/// `line` is the summary line as it is fetched from the parent channel.
pub open spec fn shown_after_revising(
    shown: Surfaces,
    thread: u64,
    parent: u64,
    slots: Slots,
    fields: MotionFieldsView,
    line: MessageView,
) -> Surfaces {
    let start = EditRunView::ReadingSummary { thread, parent, fields, slots };
    let (renaming, first) = edit_next(start, ResponseView::Message(line));
    let (editing_body, second) = edit_next(renaming, ResponseView::Done);
    let (editing_justification, third) = edit_next(editing_body, ResponseView::Done);
    let (_, fourth) = edit_next(editing_justification, ResponseView::Done);
    shown_after(
        shown_after(
            shown_after(shown_after(shown, thread, parent, slots, first), thread, parent, slots, second),
            thread,
            parent,
            slots,
            third,
        ),
        thread,
        parent,
        slots,
        fourth,
    )
}

/// What a revising leaves to be seen. The thread bears the new title, the
/// two slots hold the new proposal text and the new justification behind
/// their fixed openings, and the summary line, where the thread starts from
/// the platform's reference, holds the new title and the proposer that it
/// named before; elsewhere it is left as it was.
pub proof fn lemma_revising_shows_fields(
    shown: Surfaces,
    thread: u64,
    parent: u64,
    slots: Slots,
    fields: MotionFieldsView,
    line: MessageView,
)
    requires
        line.content == shown.summary,
        thread != parent,
        slots.body != slots.justification,
    ensures
        shown_after_revising(shown, thread, parent, slots, fields, line) == (Surfaces {
            name: fields.title,
            body: body_text(fields.body),
            justification: justification_text(fields.justification),
            summary: if slots.starter == MessageKind::ThreadStarter {
                summary_text(fields.title, proposer_in(shown.summary))
            } else {
                shown.summary
            },
        }),
{
}

/// Revising a motion twice to the same fields shows what revising it once
/// shows: the name of the thread and its two slots in any case, and the
/// summary line as well where the title cuts cleanly. Where the thread, its
/// parent and its slots are told apart by their identifiers and the thread
/// starts from the platform's reference, the summary line is the same after
/// the second time only for such a title. `line` and `again` are the
/// summary line as it is fetched the first and the second time, with
/// nothing else written in between.
pub proof fn lemma_revising_twice_changes_nothing(
    shown: Surfaces,
    thread: u64,
    parent: u64,
    slots: Slots,
    fields: MotionFieldsView,
    line: MessageView,
    again: MessageView,
)
    requires
        line.content == shown.summary,
        again.content == shown_after_revising(shown, thread, parent, slots, fields, line).summary,
    ensures
        ({
            let once = shown_after_revising(shown, thread, parent, slots, fields, line);
            let twice = shown_after_revising(once, thread, parent, slots, fields, again);
            &&& twice.name == once.name
            &&& twice.body == once.body
            &&& twice.justification == once.justification
            &&& cuts_cleanly(fields.title) ==> twice == once
            &&& thread != parent && slots.body != slots.justification && slots.starter
                == MessageKind::ThreadStarter && twice == once ==> cuts_cleanly(fields.title)
        }),
{
    lemma_retitling_keeps_proposer(fields.title, shown.summary);
    if thread != parent && slots.body != slots.justification {
        lemma_revising_shows_fields(shown, thread, parent, slots, fields, line);
        let once = shown_after_revising(shown, thread, parent, slots, fields, line);
        lemma_revising_shows_fields(once, thread, parent, slots, fields, again);
        let twice = shown_after_revising(once, thread, parent, slots, fields, again);
        if slots.starter == MessageKind::ThreadStarter && twice == once {
            let front = fields.title + SEPARATOR@;
            let named = proposer_in(shown.summary);
            let renamed = proposer_in(once.summary);
            assert((front + named).skip(front.len() as int) =~= named);
            assert((front + renamed).skip(front.len() as int) =~= renamed);
        }
    }
}

} // verus!
