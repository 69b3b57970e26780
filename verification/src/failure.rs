//! The ways in which a command can fail.

use vstd::prelude::*;

verus! {

/// Why a command was given up. A user who is not registered is no failure:
/// the command tells them so and ends.
#[derive(Copy, Clone, Debug, PartialEq, Eq, Structural)]
pub enum SyncError {
    /// The thread is malformed: the command was not invoked in a thread, or
    /// the thread has no parent channel.
    NotAThread,
    /// The thread is malformed: it holds fewer messages than the slot layout
    /// asks for.
    MalformedThread,
    /// The correlation store knows no record for the thread.
    MissingRecordMapping,
    /// A call to the chat platform, the record service or the correlation
    /// store failed, or answered with something it was not asked for.
    ExternalCallFailure,
}

impl SyncError {
    /// The sentence that tells a user of the failure.
    pub open spec fn message_text(self) -> Seq<char> {
        match self {
            SyncError::NotAThread => "This command can only be used in a thread"@,
            SyncError::MalformedThread => "This thread does not hold the messages of a motion"@,
            SyncError::MissingRecordMapping => "No record is known for this thread"@,
            SyncError::ExternalCallFailure => "A call to an outside service failed"@,
        }
    }

    /// Words the failure for the user.
    pub fn message(&self) -> (text: String)
        ensures
            text@ == self.message_text(),
    {
        match self {
            SyncError::NotAThread => "This command can only be used in a thread".to_owned(),
            SyncError::MalformedThread => {
                "This thread does not hold the messages of a motion".to_owned()
            },
            SyncError::MissingRecordMapping => "No record is known for this thread".to_owned(),
            SyncError::ExternalCallFailure => "A call to an outside service failed".to_owned(),
        }
    }

    /// Whether the failure lies in the shape of the thread.
    pub fn is_malformed_thread(&self) -> (malformed: bool)
        ensures
            malformed == (*self == SyncError::NotAThread || *self == SyncError::MalformedThread),
    {
        match self {
            SyncError::NotAThread => true,
            SyncError::MalformedThread => true,
            _ => false,
        }
    }
}

} // verus!
