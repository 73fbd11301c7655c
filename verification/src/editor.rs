//! The editor to open a finished project in: what is offered, what was
//! chosen, and the command that the choice stands for.

use crate::text::{blank, text_view, trim, trimmed};
use vstd::prelude::*;
use vstd::string::StringExecFns;

verus! {

/// Entry of the editor menu.
#[derive(Clone, Copy, Debug, PartialEq, Eq, Structural)]
pub enum IdeOption {
    VsCode,
    Cursor,
    /// Another editor, whose command the user types in.
    Custom,
    /// Open no editor.
    NoEditor,
}

impl IdeOption {
    /// Text under which the entry is shown to a user.
    pub open spec fn label_text(self) -> Seq<char> {
        match self {
            IdeOption::VsCode => "VS Code"@,
            IdeOption::Cursor => "Cursor"@,
            IdeOption::Custom => "Other (enter command)"@,
            IdeOption::NoEditor => "None"@,
        }
    }

    /// Human-readable label of the entry.
    pub fn label(&self) -> (text: &'static str)
        ensures
            text@ == self.label_text(),
    {
        match self {
            IdeOption::VsCode => "VS Code",
            IdeOption::Cursor => "Cursor",
            IdeOption::Custom => "Other (enter command)",
            IdeOption::NoEditor => "None",
        }
    }

    /// The entries in the order of the menu.
    pub open spec fn choices() -> Seq<IdeOption> {
        seq![IdeOption::VsCode, IdeOption::Cursor, IdeOption::Custom, IdeOption::NoEditor]
    }

    /// Every entry, in the order of the menu.
    pub fn all() -> (entries: Vec<IdeOption>)
        ensures
            entries@ == Self::choices(),
    {
        vec![IdeOption::VsCode, IdeOption::Cursor, IdeOption::Custom, IdeOption::NoEditor]
    }
}

/// A user's choice of editor. `Custom` carries the command that was typed
/// in.
#[derive(Debug)]
pub enum EditorChoice {
    VsCode,
    Cursor,
    Custom(String),
    NoEditor,
}

/// What an [`EditorChoice`] holds, as a mathematical value.
pub enum EditorChoiceView {
    VsCode,
    Cursor,
    Custom(Seq<char>),
    NoEditor,
}

impl View for EditorChoice {
    type V = EditorChoiceView;

    open spec fn view(&self) -> EditorChoiceView {
        match self {
            EditorChoice::VsCode => EditorChoiceView::VsCode,
            EditorChoice::Cursor => EditorChoiceView::Cursor,
            EditorChoice::Custom(command) => EditorChoiceView::Custom(command@),
            EditorChoice::NoEditor => EditorChoiceView::NoEditor,
        }
    }
}

impl EditorChoiceView {
    /// The choice that a menu entry and the text typed for it make. The text
    /// counts for `Custom` alone, and is kept without the white space around
    /// it.
    pub open spec fn of(option: IdeOption, typed: Seq<char>) -> EditorChoiceView {
        match option {
            IdeOption::VsCode => EditorChoiceView::VsCode,
            IdeOption::Cursor => EditorChoiceView::Cursor,
            IdeOption::Custom => EditorChoiceView::Custom(trimmed(typed)),
            IdeOption::NoEditor => EditorChoiceView::NoEditor,
        }
    }

    /// The command that opens the chosen editor, if there is one to open. A
    /// custom command that is blank opens none.
    pub open spec fn command(self) -> Option<Seq<char>> {
        match self {
            EditorChoiceView::VsCode => Some("code"@),
            EditorChoiceView::Cursor => Some("cursor"@),
            EditorChoiceView::Custom(typed) => if blank(typed) {
                None
            } else {
                Some(trimmed(typed))
            },
            EditorChoiceView::NoEditor => None,
        }
    }
}

impl EditorChoice {
    /// Makes the choice out of the menu entry that was picked and the text
    /// that was typed for it.
    pub fn new(option: IdeOption, typed: &str) -> (choice: EditorChoice)
        ensures
            choice@ == EditorChoiceView::of(option, typed@),
    {
        match option {
            IdeOption::VsCode => EditorChoice::VsCode,
            IdeOption::Cursor => EditorChoice::Cursor,
            IdeOption::Custom => EditorChoice::Custom(String::from_str(trim(typed))),
            IdeOption::NoEditor => EditorChoice::NoEditor,
        }
    }

    /// Resolves the choice to the command to launch, or to `None` where no
    /// editor is to be launched.
    pub fn command(&self) -> (command: Option<String>)
        ensures
            text_view(command) == self@.command(),
    {
        match self {
            EditorChoice::VsCode => Some(String::from_str("code")),
            EditorChoice::Cursor => Some(String::from_str("cursor")),
            EditorChoice::Custom(typed) => {
                let core = trim(typed.as_str());
                proof {
                    crate::text::law_blank_trims_to_nothing(typed@);
                }
                if core.is_empty() {
                    None
                } else {
                    Some(String::from_str(core))
                }
            },
            EditorChoice::NoEditor => None,
        }
    }
}

/// A custom command that is blank stands for no editor: it resolves to no
/// command, as the choice of no editor does, whether the text is kept as
/// typed or without the white space around it.
pub proof fn law_blank_custom_is_no_editor(typed: Seq<char>)
    requires
        blank(typed),
    ensures
        EditorChoiceView::Custom(typed).command() is None,
        EditorChoiceView::Custom(typed).command() == EditorChoiceView::NoEditor.command(),
        EditorChoiceView::of(IdeOption::Custom, typed).command() is None,
{
    crate::text::law_blank_trims_to_nothing(typed);
    assert(trimmed(typed) =~= Seq::<char>::empty());
}

/// The two editors of the menu resolve to their fixed commands, `code` and
/// `cursor`, whatever was typed; the choice of no editor resolves to none.
pub proof fn law_fixed_commands(typed: Seq<char>)
    ensures
        EditorChoiceView::of(IdeOption::VsCode, typed).command() == Some(
            seq!['c', 'o', 'd', 'e'],
        ),
        EditorChoiceView::of(IdeOption::Cursor, typed).command() == Some(
            seq!['c', 'u', 'r', 's', 'o', 'r'],
        ),
        EditorChoiceView::of(IdeOption::NoEditor, typed).command() is None,
{
    reveal_strlit("code");
    reveal_strlit("cursor");
    assert("code"@ =~= seq!['c', 'o', 'd', 'e']);
    assert("cursor"@ =~= seq!['c', 'u', 'r', 's', 'o', 'r']);
}

/// A custom command resolves to what was typed without the white space
/// around it, and to no command exactly when what was typed is blank.
pub proof fn law_custom_command(typed: Seq<char>)
    ensures
        EditorChoiceView::of(IdeOption::Custom, typed).command() == if blank(typed) {
            None
        } else {
            Some(trimmed(typed))
        },
        EditorChoiceView::of(IdeOption::Custom, typed).command() == EditorChoiceView::Custom(
            typed,
        ).command(),
{
    crate::text::law_blank_trims_to_nothing(typed);
    crate::text::law_blank_trims_to_nothing(trimmed(typed));
    crate::text::law_trimmed_is_clean(typed);
}

} // verus!
