//! The kinds of agenda item a motion can be filed as.

use vstd::prelude::*;

verus! {

/// The kind of agenda item. It is carried along with a motion for information
/// only and changes nothing about how the thread is laid out.
#[derive(Copy, Clone, Debug, PartialEq, Eq, Structural)]
pub enum TopType {
    Normal,
    Information,
    Sonstiges,
}

impl TopType {
    /// The lower-case name under which the kind is shown.
    pub open spec fn label_text(self) -> Seq<char> {
        match self {
            TopType::Normal => "normal"@,
            TopType::Information => "information"@,
            TopType::Sonstiges => "sonstiges"@,
        }
    }

    /// Renders the kind as its lower-case name.
    pub fn label(&self) -> (s: String)
        ensures
            s@ == self.label_text(),
    {
        match self {
            TopType::Normal => "normal".to_owned(),
            TopType::Information => "information".to_owned(),
            TopType::Sonstiges => "sonstiges".to_owned(),
        }
    }
}

impl Default for TopType {
    /// An item is an ordinary motion unless said otherwise.
    fn default() -> (kind: TopType)
        ensures
            kind == TopType::Normal,
    {
        TopType::Normal
    }
}

} // verus!
