//! The architectural styles a project can be laid out in.

use vstd::prelude::*;

verus! {

/// Organisational convention that decides which directories a project gets.
#[derive(Clone, Copy, Debug, PartialEq, Eq, Structural)]
pub enum Architecture {
    Clean,
    Mvvm,
}

impl Architecture {
    /// Text under which the style is shown to a user.
    pub open spec fn label_text(self) -> Seq<char> {
        match self {
            Architecture::Clean => "Clean Architecture"@,
            Architecture::Mvvm => "MVVM"@,
        }
    }

    /// Human-readable label of the style.
    pub fn label(&self) -> (text: &'static str)
        ensures
            text@ == self.label_text(),
    {
        match self {
            Architecture::Clean => "Clean Architecture",
            Architecture::Mvvm => "MVVM",
        }
    }

    /// The styles in the order in which they are offered for selection.
    pub open spec fn choices() -> Seq<Architecture> {
        seq![Architecture::Clean, Architecture::Mvvm]
    }

    /// Every style, in the order in which they are offered for selection.
    pub fn all() -> (styles: Vec<Architecture>)
        ensures
            styles@ == Self::choices(),
    {
        vec![Architecture::Clean, Architecture::Mvvm]
    }
}

/// Every style is on offer, exactly once.
pub proof fn law_choices_complete(style: Architecture)
    ensures
        Architecture::choices().contains(style),
        Architecture::choices().no_duplicates(),
{
    assert(Architecture::choices()[0] == Architecture::Clean);
    assert(Architecture::choices()[1] == Architecture::Mvvm);
}

} // verus!
