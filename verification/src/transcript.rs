//! The messages of a thread, put in the order in which they were written,
//! and the slots in which a motion keeps its fields.

use crate::failure::SyncError;
use crate::motion::{MotionFields, MotionFieldsView};
use crate::wording::{body_in, body_of, justification_in, justification_of};
use vstd::prelude::*;
use vstd::multiset::Multiset;
use vstd::seq_lib::to_multiset_insert;

verus! {

/// What the platform says a message is.
#[derive(Copy, Clone, Debug, PartialEq, Eq, Structural)]
pub enum MessageKind {
    /// A message that somebody wrote.
    Regular,
    /// The reference that the platform puts at the head of a thread, to the
    /// message the thread was made from.
    ThreadStarter,
}

/// A message as the platform hands it out.
#[derive(Debug, PartialEq, Eq)]
pub struct Message {
    pub id: u64,
    /// When the message was written. Only the order of these counts.
    pub created_at: i64,
    pub kind: MessageKind,
    pub content: String,
}

/// A message, with the content as the text it holds.
pub struct MessageView {
    pub id: u64,
    pub created_at: i64,
    pub kind: MessageKind,
    pub content: Seq<char>,
}

impl View for Message {
    type V = MessageView;

    open spec fn view(&self) -> MessageView {
        MessageView {
            id: self.id,
            created_at: self.created_at,
            kind: self.kind,
            content: self.content@,
        }
    }
}

impl Clone for Message {
    fn clone(&self) -> (out: Message)
        ensures
            out@ == self@,
    {
        Message {
            id: self.id,
            created_at: self.created_at,
            kind: self.kind,
            content: self.content.clone(),
        }
    }
}

/// What the platform says a channel is.
#[derive(Copy, Clone, Debug, PartialEq, Eq, Structural)]
pub enum ChannelKind {
    PublicThread,
    PrivateThread,
    NewsThread,
    /// Any channel that is no thread.
    Other,
}

impl ChannelKind {
    /// Whether a channel of this kind is a thread.
    pub open spec fn is_thread(self) -> bool {
        self != ChannelKind::Other
    }

    /// Tells whether a channel of this kind is a thread.
    pub fn thread(&self) -> (yes: bool)
        ensures
            yes == self.is_thread(),
    {
        match self {
            ChannelKind::Other => false,
            _ => true,
        }
    }
}

/// The channel that a command was invoked in.
#[derive(Debug, PartialEq, Eq)]
pub struct Channel {
    pub id: u64,
    /// The channel that a thread hangs under.
    pub parent: Option<u64>,
    pub kind: ChannelKind,
    pub name: String,
}

/// A channel, with the name as the text it holds.
pub struct ChannelView {
    pub id: u64,
    pub parent: Option<u64>,
    pub kind: ChannelKind,
    pub name: Seq<char>,
}

impl View for Channel {
    type V = ChannelView;

    open spec fn view(&self) -> ChannelView {
        ChannelView { id: self.id, parent: self.parent, kind: self.kind, name: self.name@ }
    }
}

impl Clone for Channel {
    fn clone(&self) -> (out: Channel)
        ensures
            out@ == self@,
    {
        Channel { id: self.id, parent: self.parent, kind: self.kind, name: self.name.clone() }
    }
}

impl ChannelView {
    /// Whether the channel is a thread under a parent channel.
    pub open spec fn is_motion_thread(self) -> bool {
        self.kind.is_thread() && self.parent is Some
    }
}

/// A list of messages, each as its view.
pub open spec fn transcript(messages: Seq<Message>) -> Seq<MessageView> {
    messages.map_values(|message: Message| message@)
}

/// The slot of the message that the thread starts from.
pub const STARTER_SLOT: usize = 0;

/// The slot of the body message.
pub const BODY_SLOT: usize = 1;

/// The slot of the justification message.
pub const JUSTIFICATION_SLOT: usize = 2;

/// The number of messages that a thread must hold for its slots to be read.
pub const SLOT_COUNT: usize = 3;

/// Whether no message stands before an older one.
pub open spec fn ascending(messages: Seq<MessageView>) -> bool {
    forall|i: int, j: int|
        0 <= i <= j < messages.len() ==> messages[i].created_at <= messages[j].created_at
}

/// How many messages at the front of `sorted` are older than `message`.
pub open spec fn older_in_front(message: MessageView, sorted: Seq<MessageView>) -> nat
    decreases sorted.len(),
{
    if sorted.len() == 0 || message.created_at <= sorted.first().created_at {
        0
    } else {
        1 + older_in_front(message, sorted.drop_first())
    }
}

/// `sorted` with `message` put in behind the messages that are older than it
/// and before all others.
pub open spec fn placed(message: MessageView, sorted: Seq<MessageView>) -> Seq<MessageView> {
    sorted.insert(older_in_front(message, sorted) as int, message)
}

/// The messages from the oldest to the newest. Messages written at the same
/// time keep the order they came in.
pub open spec fn by_creation(messages: Seq<MessageView>) -> Seq<MessageView>
    decreases messages.len(),
{
    if messages.len() == 0 {
        messages
    } else {
        placed(messages.first(), by_creation(messages.drop_first()))
    }
}

/// The place that `older_in_front` names is the first whose message is not
/// older than `message`.
proof fn lemma_older_in_front(message: MessageView, sorted: Seq<MessageView>)
    ensures
        older_in_front(message, sorted) <= sorted.len(),
        forall|j: int|
            0 <= j < older_in_front(message, sorted) ==> sorted[j].created_at
                < message.created_at,
        older_in_front(message, sorted) < sorted.len() ==> message.created_at
            <= sorted[older_in_front(message, sorted) as int].created_at,
    decreases sorted.len(),
{
    if sorted.len() == 0 || message.created_at <= sorted.first().created_at {
    } else {
        let rest = sorted.drop_first();
        lemma_older_in_front(message, rest);
        assert forall|j: int| 0 <= j < older_in_front(message, sorted) implies sorted[j].created_at
            < message.created_at by {
            if j > 0 {
                assert(sorted[j] == rest[j - 1]);
            }
        }
        if older_in_front(message, sorted) < sorted.len() {
            assert(sorted[older_in_front(message, sorted) as int] == rest[older_in_front(
                message,
                rest,
            ) as int]);
        }
    }
}

/// A place behind messages that are all older than `message`, and at the
/// end or before one that is not, is the place that `older_in_front` names.
proof fn lemma_place_found(message: MessageView, sorted: Seq<MessageView>, place: int)
    requires
        0 <= place <= sorted.len(),
        forall|j: int| 0 <= j < place ==> sorted[j].created_at < message.created_at,
        place < sorted.len() ==> message.created_at <= sorted[place].created_at,
    ensures
        older_in_front(message, sorted) == place,
    decreases sorted.len(),
{
    if sorted.len() == 0 || message.created_at <= sorted.first().created_at {
        if place > 0 {
            assert(sorted[0].created_at < message.created_at);
        }
    } else {
        let rest = sorted.drop_first();
        assert(place > 0);
        assert forall|j: int| 0 <= j < place - 1 implies rest[j].created_at
            < message.created_at by {
            assert(rest[j] == sorted[j + 1]);
        }
        if place - 1 < rest.len() {
            assert(rest[place - 1] == sorted[place]);
        }
        lemma_place_found(message, rest, place - 1);
    }
}

/// Putting a message into an ordered list leaves the list ordered.
proof fn lemma_placed_ascending(message: MessageView, sorted: Seq<MessageView>)
    requires
        ascending(sorted),
    ensures
        ascending(placed(message, sorted)),
        placed(message, sorted).len() == sorted.len() + 1,
        placed(message, sorted).to_multiset() == sorted.to_multiset().insert(message),
{
    lemma_older_in_front(message, sorted);
    let place = older_in_front(message, sorted) as int;
    let out = placed(message, sorted);
    to_multiset_insert(sorted, place, message);
    assert forall|i: int, j: int| 0 <= i <= j < out.len() implies out[i].created_at
        <= out[j].created_at by {
        if i < place {
            assert(out[i] == sorted[i]);
        } else if i > place {
            assert(out[i] == sorted[i - 1]);
        }
        if j < place {
            assert(out[j] == sorted[j]);
        } else if j > place {
            assert(out[j] == sorted[j - 1]);
            assert(sorted[place].created_at <= sorted[j - 1].created_at);
        }
    }
}

/// The messages put in order are the messages that came, each as often as
/// it came, and none stands before an older one.
pub proof fn lemma_by_creation(messages: Seq<MessageView>)
    ensures
        ascending(by_creation(messages)),
        by_creation(messages).len() == messages.len(),
        by_creation(messages).to_multiset() == messages.to_multiset(),
    decreases messages.len(),
{
    if messages.len() == 0 {
    } else {
        let rest = messages.drop_first();
        lemma_by_creation(rest);
        lemma_placed_ascending(messages.first(), by_creation(rest));
        assert(messages =~= seq![messages.first()] + rest);
        vstd::seq_lib::lemma_multiset_commutative(seq![messages.first()], rest);
        assert(seq![messages.first()].to_multiset() =~= Multiset::empty().insert(
            messages.first(),
        )) by {
            vstd::seq_lib::to_multiset_build(Seq::<MessageView>::empty(), messages.first());
            assert(Seq::<MessageView>::empty().push(messages.first()) =~= seq![messages.first()]);
            Seq::<MessageView>::empty().to_multiset_ensures();
        }
        assert(messages.to_multiset() =~= rest.to_multiset().insert(messages.first()));
    }
}

/// The test that picks the messages written at `time`.
pub open spec fn written_at(time: i64) -> spec_fn(MessageView) -> bool {
    |message: MessageView| message.created_at == time
}

/// Putting the messages in order does not change the order of those that
/// were written at the same time.
pub proof fn lemma_by_creation_is_stable(messages: Seq<MessageView>, time: i64)
    ensures
        by_creation(messages).filter(written_at(time)) == messages.filter(written_at(time)),
    decreases messages.len(),
{
    let picks = written_at(time);
    if messages.len() == 0 {
    } else {
        let first = messages.first();
        let rest = messages.drop_first();
        let sorted = by_creation(rest);
        lemma_by_creation_is_stable(rest, time);
        lemma_older_in_front(first, sorted);
        let place = older_in_front(first, sorted) as int;
        let front = sorted.take(place);
        let back = sorted.skip(place);
        assert(sorted =~= front + back);
        assert(placed(first, sorted) =~= front + seq![first] + back);
        assert(messages =~= seq![first] + rest);
        Seq::filter_distributes_over_add(front, back, picks);
        Seq::filter_distributes_over_add(front + seq![first], back, picks);
        Seq::filter_distributes_over_add(front, seq![first], picks);
        Seq::filter_distributes_over_add(seq![first], rest, picks);
        if picks(first) {
            assert forall|i: int| 0 <= i < front.len() implies !picks(front[i]) by {
                assert(front[i] == sorted[i]);
            }
            front.lemma_all_neg_filter_empty(picks);
            assert(front.filter(picks) =~= Seq::<MessageView>::empty());
        } else {
            assert forall|i: int| 0 <= i < seq![first].len() implies !picks(seq![first][i]) by {}
            seq![first].lemma_all_neg_filter_empty(picks);
            assert(seq![first].filter(picks) =~= Seq::<MessageView>::empty());
        }
    }
}

/// In a thread put in order the starter is no newer than the body message,
/// and the body message no newer than the justification message.
pub proof fn lemma_slots_in_order(messages: Seq<MessageView>)
    requires
        messages.len() >= SLOT_COUNT,
    ensures
        by_creation(messages)[STARTER_SLOT as int].created_at <= by_creation(
            messages,
        )[BODY_SLOT as int].created_at,
        by_creation(messages)[BODY_SLOT as int].created_at <= by_creation(
            messages,
        )[JUSTIFICATION_SLOT as int].created_at,
{
    lemma_by_creation(messages);
}

/// What the form is filled with before a motion is revised, read off the
/// thread as it stands: the title is the thread's name, the proposal text
/// and the justification are what the body message and the justification
/// message hold behind their fixed openings. A channel that is no thread
/// under a parent, and a thread with too few messages, give an error.
pub open spec fn defaults_from(channel: ChannelView, messages: Seq<MessageView>) -> Result<
    MotionFieldsView,
    SyncError,
> {
    let sorted = by_creation(messages);
    if !channel.is_motion_thread() {
        Err(SyncError::NotAThread)
    } else if messages.len() < SLOT_COUNT {
        Err(SyncError::MalformedThread)
    } else {
        Ok(
            MotionFieldsView {
                title: channel.name,
                body: body_in(sorted[BODY_SLOT as int].content),
                justification: Some(justification_in(sorted[JUSTIFICATION_SLOT as int].content)),
            },
        )
    }
}

/// A result of reading the defaults, with the fields as the texts they hold.
pub open spec fn fields_of(outcome: Result<MotionFields, SyncError>) -> Result<
    MotionFieldsView,
    SyncError,
> {
    match outcome {
        Ok(fields) => Ok(fields@),
        Err(error) => Err(error),
    }
}

/// Puts the messages of a thread in the order in which they were written,
/// whatever order the platform handed them out in. No message is lost or
/// made up, and messages written at the same time keep the order they came
/// in.
pub fn sort_by_creation(messages: Vec<Message>) -> (sorted: Vec<Message>)
    ensures
        transcript(sorted@) == by_creation(transcript(messages@)),
        ascending(transcript(sorted@)),
        sorted@.len() == messages@.len(),
        sorted@.to_multiset() == messages@.to_multiset(),
        forall|time: i64|
            #[trigger] transcript(sorted@).filter(written_at(time)) == transcript(
                messages@,
            ).filter(written_at(time)),
{
    let ghost given = messages@;
    let mut rest = messages;
    let mut sorted: Vec<Message> = Vec::new();
    proof {
        assert(transcript(given.skip(given.len() as int)) =~= Seq::<MessageView>::empty());
        assert(rest@.take(rest@.len() as int) =~= rest@);
        sorted@.to_multiset_ensures();
        assert(sorted@.to_multiset().add(rest@.to_multiset()) =~= given.to_multiset());
    }
    while rest.len() > 0
        invariant
            rest@ == given.take(rest@.len() as int),
            rest@.len() <= given.len(),
            sorted@.len() + rest@.len() == given.len(),
            transcript(sorted@) == by_creation(transcript(given.skip(rest@.len() as int))),
            ascending(transcript(sorted@)),
            sorted@.to_multiset().add(rest@.to_multiset()) == given.to_multiset(),
        decreases rest.len(),
    {
        let ghost before = rest@;
        let message = rest.pop().unwrap();
        let mut place: usize = 0;
        while place < sorted.len() && sorted[place].created_at < message.created_at
            invariant
                place <= sorted.len(),
                forall|j: int|
                    0 <= j < place ==> transcript(sorted@)[j].created_at < message@.created_at,
            decreases sorted.len() - place,
        {
            place += 1;
        }
        proof {
            let tail = transcript(given.skip(before.len() as int));
            let longer = transcript(given.skip(rest@.len() as int));
            assert(longer.first() == message@);
            assert(longer.drop_first() =~= tail);
            lemma_place_found(message@, transcript(sorted@), place as int);
            lemma_placed_ascending(message@, transcript(sorted@));
            assert(transcript(sorted@.insert(place as int, message)) =~= transcript(
                sorted@,
            ).insert(place as int, message@));
            to_multiset_insert(sorted@, place as int, message);
            assert(before =~= rest@.push(message));
            vstd::seq_lib::to_multiset_build(rest@, message);
            assert(sorted@.to_multiset().insert(message).add(rest@.to_multiset())
                =~= sorted@.to_multiset().add(rest@.to_multiset().insert(message)));
        }
        sorted.insert(place, message);
    }
    proof {
        assert(given.skip(0) =~= given);
        rest@.to_multiset_ensures();
        assert(sorted@.to_multiset().add(rest@.to_multiset()) =~= sorted@.to_multiset());
        assert forall|time: i64|
            #[trigger] transcript(sorted@).filter(written_at(time)) == transcript(given).filter(
                written_at(time),
            ) by {
            lemma_by_creation_is_stable(transcript(given), time);
        }
    }
    sorted
}

/// Reads off a thread what the form is filled with before the motion is
/// revised. The messages may come in any order.
pub fn prefill(channel: &Channel, messages: Vec<Message>) -> (defaults: Result<
    MotionFields,
    SyncError,
>)
    ensures
        fields_of(defaults) == defaults_from(channel@, transcript(messages@)),
        defaults is Ok <==> channel@.is_motion_thread() && messages@.len() >= SLOT_COUNT,
{
    if !channel.kind.thread() || channel.parent.is_none() {
        return Err(SyncError::NotAThread);
    }
    let sorted = sort_by_creation(messages);
    if sorted.len() < SLOT_COUNT {
        return Err(SyncError::MalformedThread);
    }
    let body = body_of(sorted[BODY_SLOT].content.as_str());
    let justification = justification_of(sorted[JUSTIFICATION_SLOT].content.as_str());
    Ok(MotionFields { title: channel.name.clone(), body, justification: Some(justification) })
}

} // verus!
