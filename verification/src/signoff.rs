//! Signing a person off: a side command that shares the registration guard
//! with the commands on motions.

use crate::exchange::{Request, RequestView, Response, ResponseView, Step, StepView};
use crate::failure::SyncError;
use crate::wording::{NOT_REGISTERED, SIGNED_OFF};
use vstd::prelude::*;

verus! {

/// How far a signing off has come. Each state but the last waits for the
/// response to one request.
#[derive(Debug, PartialEq, Eq)]
pub enum SignOffRun {
    /// The person who stands for the user is being looked up.
    Resolving,
    /// The user is being told that the correlation store does not know them.
    Refusing,
    /// The record service is being told.
    SigningOff { name: String },
    /// The channel is being told.
    Announcing,
    /// Nothing is waited for any more.
    Closed,
}

/// The state of a signing off, with its texts as the characters they hold.
pub enum SignOffRunView {
    Resolving,
    Refusing,
    SigningOff { name: Seq<char> },
    Announcing,
    Closed,
}

impl View for SignOffRun {
    type V = SignOffRunView;

    open spec fn view(&self) -> SignOffRunView {
        match *self {
            SignOffRun::Resolving => SignOffRunView::Resolving,
            SignOffRun::Refusing => SignOffRunView::Refusing,
            SignOffRun::SigningOff { name } => SignOffRunView::SigningOff { name: name@ },
            SignOffRun::Announcing => SignOffRunView::Announcing,
            SignOffRun::Closed => SignOffRunView::Closed,
        }
    }
}

/// What the channel is told once `name` has signed off.
pub open spec fn signed_off_text(name: Seq<char>) -> Seq<char> {
    name + SIGNED_OFF@
}

/// How a signing off begins: with the lookup of the user.
pub open spec fn sign_off_begin(user: u64) -> (SignOffRunView, StepView) {
    (SignOffRunView::Resolving, StepView::Call(RequestView::FindPerson { user }))
}

/// The step that gives a signing off up because a call failed or answered
/// with something it was not asked for.
pub open spec fn dropped() -> (SignOffRunView, StepView) {
    (SignOffRunView::Closed, StepView::Abort(SyncError::ExternalCallFailure))
}

/// How a signing off goes on. A user whom the correlation store does not
/// know, or cannot be asked about, is told so and nothing else is done. For
/// one it knows the record service is told the person's name, and then the
/// channel that they have signed off; what the record service answers is
/// not looked at.
pub open spec fn sign_off_next(run: SignOffRunView, response: ResponseView) -> (
    SignOffRunView,
    StepView,
) {
    match run {
        SignOffRunView::Resolving => match response {
            ResponseView::Person(Some(person)) => (
                SignOffRunView::SigningOff { name: person.name },
                StepView::Call(RequestView::SignOff { name: person.name }),
            ),
            ResponseView::Person(None) | ResponseView::Failed => (
                SignOffRunView::Refusing,
                StepView::Call(RequestView::ReplyPrivately { content: NOT_REGISTERED@ }),
            ),
            _ => dropped(),
        },
        SignOffRunView::Refusing => match response {
            ResponseView::Done => (SignOffRunView::Closed, StepView::Finish),
            _ => dropped(),
        },
        SignOffRunView::SigningOff { name } => match response {
            ResponseView::Done | ResponseView::Failed => (
                SignOffRunView::Announcing,
                StepView::Call(RequestView::Reply { content: signed_off_text(name) }),
            ),
            _ => dropped(),
        },
        SignOffRunView::Announcing => match response {
            ResponseView::Done => (SignOffRunView::Closed, StepView::Finish),
            _ => dropped(),
        },
        SignOffRunView::Closed => dropped(),
    }
}

/// Closes the signing off on a failure.
fn drop_out() -> (out: (SignOffRun, Step))
    ensures
        (out.0@, out.1@) == dropped(),
{
    (SignOffRun::Closed, Step::Abort(SyncError::ExternalCallFailure))
}

/// Begins the signing off of the person who stands for `user`.
pub fn abmelden(user: u64) -> (out: (SignOffRun, Step))
    ensures
        (out.0@, out.1@) == sign_off_begin(user),
{
    (SignOffRun::Resolving, Step::Call(Request::FindPerson { user }))
}

impl SignOffRun {
    /// Takes the response to the request that the signing off waited for
    /// and decides what is done next.
    pub fn step(self, response: Response) -> (out: (SignOffRun, Step))
        ensures
            (out.0@, out.1@) == sign_off_next(self@, response@),
    {
        match self {
            SignOffRun::Resolving => match response {
                Response::Person(Some(person)) => {
                    let name = person.name.clone();
                    (
                        SignOffRun::SigningOff { name: person.name },
                        Step::Call(Request::SignOff { name }),
                    )
                },
                Response::Person(None) | Response::Failed => (
                    SignOffRun::Refusing,
                    Step::Call(Request::ReplyPrivately { content: NOT_REGISTERED.to_owned() }),
                ),
                _ => drop_out(),
            },
            SignOffRun::Refusing => match response {
                Response::Done => (SignOffRun::Closed, Step::Finish),
                _ => drop_out(),
            },
            SignOffRun::SigningOff { name } => match response {
                Response::Done | Response::Failed => {
                    let mut content = name;
                    content.append(SIGNED_OFF);
                    (SignOffRun::Announcing, Step::Call(Request::Reply { content }))
                },
                _ => drop_out(),
            },
            SignOffRun::Announcing => match response {
                Response::Done => (SignOffRun::Closed, Step::Finish),
                _ => drop_out(),
            },
            SignOffRun::Closed => drop_out(),
        }
    }
}

} // verus!
