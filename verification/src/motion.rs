//! A motion as its author fills it in, and as the record service stores it.

use crate::kind::TopType;
use crate::people::{Person, PersonView};
use crate::wording::{
    body_message, body_text, justification_or_default, justification_shown, text_of,
};
use vstd::prelude::*;

verus! {

/// The fields of the form that a motion is written and revised in.
#[derive(Debug, PartialEq, Eq)]
pub struct MotionFields {
    pub title: String,
    pub body: String,
    pub justification: Option<String>,
}

/// The fields of the form, as the texts they hold.
pub struct MotionFieldsView {
    pub title: Seq<char>,
    pub body: Seq<char>,
    pub justification: Option<Seq<char>>,
}

impl View for MotionFields {
    type V = MotionFieldsView;

    open spec fn view(&self) -> MotionFieldsView {
        MotionFieldsView {
            title: self.title@,
            body: self.body@,
            justification: text_of(self.justification),
        }
    }
}

impl Clone for MotionFields {
    fn clone(&self) -> (out: MotionFields)
        ensures
            out@ == self@,
    {
        let justification = match &self.justification {
            Some(text) => Some(text.clone()),
            None => None,
        };
        MotionFields { title: self.title.clone(), body: self.body.clone(), justification }
    }
}

impl MotionFieldsView {
    /// The form before anything is filled in.
    pub open spec fn blank() -> MotionFieldsView {
        MotionFieldsView { title: Seq::empty(), body: Seq::empty(), justification: None }
    }
}

impl MotionFields {
    /// The form before anything is filled in.
    pub fn blank() -> (fields: MotionFields)
        ensures
            fields@ == MotionFieldsView::blank(),
    {
        MotionFields { title: String::new(), body: String::new(), justification: None }
    }
}

/// A motion as it is handed to the record service to be filed.
#[derive(Debug, PartialEq, Eq)]
pub struct NewMotion {
    pub kind: TopType,
    pub title: String,
    pub text: String,
    pub justification: String,
    pub proposers: Vec<u64>,
}

/// A motion to be filed, as the texts it holds.
pub struct NewMotionView {
    pub kind: TopType,
    pub title: Seq<char>,
    pub text: Seq<char>,
    pub justification: Seq<char>,
    pub proposers: Seq<u64>,
}

impl View for NewMotion {
    type V = NewMotionView;

    open spec fn view(&self) -> NewMotionView {
        NewMotionView {
            kind: self.kind,
            title: self.title@,
            text: self.text@,
            justification: self.justification@,
            proposers: self.proposers@,
        }
    }
}

impl Clone for NewMotion {
    fn clone(&self) -> (out: NewMotion)
        ensures
            out@ == self@,
    {
        NewMotion {
            kind: self.kind,
            title: self.title.clone(),
            text: self.text.clone(),
            justification: self.justification.clone(),
            proposers: self.proposers.clone(),
        }
    }
}

/// The record that is filed for the form `fields`, filled in by `proposer`:
/// the text with the preamble in front, the justification or the sentence
/// that stands for none, and the proposer alone as the one who moves it.
pub open spec fn filed(kind: TopType, fields: MotionFieldsView, proposer: PersonView) -> NewMotionView {
    NewMotionView {
        kind,
        title: fields.title,
        text: body_text(fields.body),
        justification: justification_or_default(fields.justification),
        proposers: seq![proposer.id],
    }
}

impl NewMotion {
    /// Draws up the record for a form and the one who filled it in.
    pub fn file(kind: TopType, fields: &MotionFields, proposer: &Person) -> (motion: NewMotion)
        ensures
            motion@ == filed(kind, fields@, proposer@),
    {
        let mut proposers: Vec<u64> = Vec::new();
        proposers.push(proposer.id);
        NewMotion {
            kind,
            title: fields.title.clone(),
            text: body_message(fields.body.as_str()),
            justification: justification_shown(&fields.justification),
            proposers,
        }
    }
}

/// A motion as it is handed to the record service to replace the one on file.
#[derive(Debug, PartialEq, Eq)]
pub struct RevisedMotion {
    pub id: u64,
    pub title: String,
    pub text: String,
    pub justification: String,
    pub proposers: Vec<u64>,
}

/// A motion that replaces the one on file, as the texts it holds.
pub struct RevisedMotionView {
    pub id: u64,
    pub title: Seq<char>,
    pub text: Seq<char>,
    pub justification: Seq<char>,
    pub proposers: Seq<u64>,
}

impl View for RevisedMotion {
    type V = RevisedMotionView;

    open spec fn view(&self) -> RevisedMotionView {
        RevisedMotionView {
            id: self.id,
            title: self.title@,
            text: self.text@,
            justification: self.justification@,
            proposers: self.proposers@,
        }
    }
}

impl Clone for RevisedMotion {
    fn clone(&self) -> (out: RevisedMotion)
        ensures
            out@ == self@,
    {
        RevisedMotion {
            id: self.id,
            title: self.title.clone(),
            text: self.text.clone(),
            justification: self.justification.clone(),
            proposers: self.proposers.clone(),
        }
    }
}

/// The record that replaces record `id` after the form was revised to
/// `fields`, with `proposers` as those who move it.
pub open spec fn revised(id: u64, fields: MotionFieldsView, proposers: Seq<u64>) -> RevisedMotionView {
    RevisedMotionView {
        id,
        title: fields.title,
        text: body_text(fields.body),
        justification: justification_or_default(fields.justification),
        proposers,
    }
}

impl RevisedMotion {
    /// Draws up the record that replaces record `id`.
    pub fn revise(id: u64, fields: &MotionFields, proposers: Vec<u64>) -> (motion: RevisedMotion)
        ensures
            motion@ == revised(id, fields@, proposers@),
    {
        RevisedMotion {
            id,
            title: fields.title.clone(),
            text: body_message(fields.body.as_str()),
            justification: justification_shown(&fields.justification),
            proposers,
        }
    }
}

} // verus!
