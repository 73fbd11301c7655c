//! The interactive selection flow: which question to put to the user next,
//! given what is known so far, and what the answers resolve to. A value
//! that was supplied up front is never asked for.

use crate::architecture::Architecture;
use crate::editor::{EditorChoice, EditorChoiceView, IdeOption};
use crate::request::{ProjectRequest, ProjectRequestView};
use crate::text::text_view;
use vstd::prelude::*;

verus! {

/// A question of the flow. The flow puts them in the order in which they
/// stand here.
#[derive(Clone, Copy, Debug, PartialEq, Eq, Structural)]
pub enum Question {
    /// Free text: the project's name.
    ProjectName,
    /// One of the architectural styles.
    Architecture,
    /// One entry of the editor menu.
    Editor,
    /// Free text: the command of an editor that the menu does not list.
    EditorCommand,
}

impl Question {
    /// Wording of the question.
    pub open spec fn prompt_text(self) -> Seq<char> {
        match self {
            Question::ProjectName => "Proje ismi nedir?"@,
            Question::Architecture => "Hangi mimariyi kullanmak istersin?"@,
            Question::Editor => "Projeyi oluşturduktan sonra nerede açmak istersiniz?"@,
            Question::EditorCommand => "Editör komutunu giriniz (örn: nvim, subl, atom):"@,
        }
    }

    /// The text to put the question with.
    pub fn prompt(&self) -> (text: &'static str)
        ensures
            text@ == self.prompt_text(),
    {
        match self {
            Question::ProjectName => "Proje ismi nedir?",
            Question::Architecture => "Hangi mimariyi kullanmak istersin?",
            Question::Editor => "Projeyi oluşturduktan sonra nerede açmak istersiniz?",
            Question::EditorCommand => "Editör komutunu giriniz (örn: nvim, subl, atom):",
        }
    }

    /// Place of the question in the flow.
    pub open spec fn place(self) -> nat {
        match self {
            Question::ProjectName => 0,
            Question::Architecture => 1,
            Question::Editor => 2,
            Question::EditorCommand => 3,
        }
    }
}

/// An answer to a question of the flow.
#[derive(Debug)]
pub enum Answer {
    /// What was typed in reply to a free-text question.
    Text(String),
    /// The style that was picked.
    Architecture(Architecture),
    /// The menu entry that was picked.
    Editor(IdeOption),
}

/// What an [`Answer`] holds, as a mathematical value.
pub enum AnswerView {
    Text(Seq<char>),
    Architecture(Architecture),
    Editor(IdeOption),
}

impl View for Answer {
    type V = AnswerView;

    open spec fn view(&self) -> AnswerView {
        match self {
            Answer::Text(text) => AnswerView::Text(text@),
            Answer::Architecture(style) => AnswerView::Architecture(*style),
            Answer::Editor(option) => AnswerView::Editor(*option),
        }
    }
}

/// What is known so far of the user's wishes.
#[derive(Debug)]
pub struct Selection {
    name: Option<String>,
    architecture: Option<Architecture>,
    editor: Option<IdeOption>,
    command: Option<String>,
}

/// What a [`Selection`] holds, as a mathematical value.
pub struct SelectionView {
    pub name: Option<Seq<char>>,
    pub architecture: Option<Architecture>,
    pub editor: Option<IdeOption>,
    pub command: Option<Seq<char>>,
}

impl View for Selection {
    type V = SelectionView;

    closed spec fn view(&self) -> SelectionView {
        SelectionView {
            name: text_view(self.name),
            architecture: self.architecture,
            editor: self.editor,
            command: text_view(self.command),
        }
    }
}

/// An answer that does not fit the question that is pending, handed back
/// with the selection as it stood.
#[derive(Debug)]
pub struct Misfit {
    pub selection: Selection,
    pub answer: Answer,
}

impl SelectionView {
    /// The flow at its start: the name and the style as far as they were
    /// supplied up front, and no editor yet, which is always asked for.
    pub open spec fn start(
        name: Option<Seq<char>>,
        architecture: Option<Architecture>,
    ) -> SelectionView {
        SelectionView { name, architecture, editor: None, command: None }
    }

    /// The question to put next: the first, in the order of the flow, whose
    /// answer is wanting. The editor's command is wanting only where the
    /// menu entry picked is `Custom`. `None` once everything is known.
    pub open spec fn pending(self) -> Option<Question> {
        if self.name is None {
            Some(Question::ProjectName)
        } else if self.architecture is None {
            Some(Question::Architecture)
        } else if self.editor is None {
            Some(Question::Editor)
        } else if self.editor == Some(IdeOption::Custom) && self.command is None {
            Some(Question::EditorCommand)
        } else {
            None
        }
    }

    /// Whether `answer` is of the kind that the pending question asks for.
    pub open spec fn fits(self, answer: AnswerView) -> bool {
        match self.pending() {
            Some(Question::ProjectName) => answer is Text,
            Some(Question::Architecture) => answer is Architecture,
            Some(Question::Editor) => answer is Editor,
            Some(Question::EditorCommand) => answer is Text,
            None => false,
        }
    }

    /// The selection once the pending question is answered with `answer`.
    pub open spec fn answered(self, answer: AnswerView) -> SelectionView {
        match (self.pending(), answer) {
            (Some(Question::ProjectName), AnswerView::Text(name)) => SelectionView {
                name: Some(name),
                ..self
            },
            (Some(Question::Architecture), AnswerView::Architecture(style)) => SelectionView {
                architecture: Some(style),
                ..self
            },
            (Some(Question::Editor), AnswerView::Editor(option)) => SelectionView {
                editor: Some(option),
                ..self
            },
            (Some(Question::EditorCommand), AnswerView::Text(command)) => SelectionView {
                command: Some(command),
                ..self
            },
            (_, _) => self,
        }
    }

    /// The text that was typed for the editor; nothing where none was asked
    /// for.
    pub open spec fn typed(self) -> Seq<char> {
        match self.command {
            Some(command) => command,
            None => Seq::empty(),
        }
    }

    /// What a selection with no question pending resolves to: the request
    /// to scaffold, and the editor choice.
    pub open spec fn resolved(self) -> (ProjectRequestView, EditorChoiceView) {
        (
            ProjectRequestView { name: self.name->0, architecture: self.architecture->0 },
            EditorChoiceView::of(self.editor->0, self.typed()),
        )
    }

    /// How many questions the flow may still put.
    pub open spec fn questions_left(self) -> nat {
        match self.pending() {
            Some(question) => (4 - question.place()) as nat,
            None => 0,
        }
    }
}

impl Selection {
    /// Starts the flow with what was supplied up front.
    pub fn new(name: Option<String>, architecture: Option<Architecture>) -> (selection: Selection)
        ensures
            selection@ == SelectionView::start(text_view(name), architecture),
    {
        Selection { name, architecture, editor: None, command: None }
    }

    /// The question to put next, or `None` once everything is known.
    pub fn pending(&self) -> (question: Option<Question>)
        ensures
            question == self@.pending(),
    {
        if self.name.is_none() {
            Some(Question::ProjectName)
        } else if self.architecture.is_none() {
            Some(Question::Architecture)
        } else {
            match self.editor {
                None => Some(Question::Editor),
                Some(IdeOption::Custom) => if self.command.is_none() {
                    Some(Question::EditorCommand)
                } else {
                    None
                },
                Some(_) => None,
            }
        }
    }

    /// Takes the answer to the pending question. An answer of another kind
    /// than the question asks for, or one that comes when no question is
    /// pending, is rejected, and the selection and the answer come back as
    /// they were.
    pub fn answer(self, answer: Answer) -> (result: Result<Selection, Misfit>)
        ensures
            self@.fits(answer@) ==> (result matches Ok(selection) && selection@
                == self@.answered(answer@)),
            !self@.fits(answer@) ==> (result matches Err(misfit) && misfit.selection@ == self@
                && misfit.answer@ == answer@),
    {
        match self.pending() {
            Some(Question::ProjectName) => match answer {
                Answer::Text(name) => Ok(Selection { name: Some(name), ..self }),
                other => Err(Misfit { selection: self, answer: other }),
            },
            Some(Question::Architecture) => match answer {
                Answer::Architecture(style) => Ok(Selection { architecture: Some(style), ..self }),
                other => Err(Misfit { selection: self, answer: other }),
            },
            Some(Question::Editor) => match answer {
                Answer::Editor(option) => Ok(Selection { editor: Some(option), ..self }),
                other => Err(Misfit { selection: self, answer: other }),
            },
            Some(Question::EditorCommand) => match answer {
                Answer::Text(command) => Ok(Selection { command: Some(command), ..self }),
                other => Err(Misfit { selection: self, answer: other }),
            },
            None => Err(Misfit { selection: self, answer }),
        }
    }

    /// Resolves a selection with no question pending to the request to
    /// scaffold and the editor choice. While a question is pending the
    /// selection comes back as it was.
    pub fn resolve(self) -> (result: Result<(ProjectRequest, EditorChoice), Selection>)
        ensures
            self@.pending() is None ==> (result matches Ok(pair) && (pair.0@, pair.1@)
                == self@.resolved()),
            self@.pending() is Some ==> (result matches Err(selection) && selection@ == self@),
    {
        if self.pending().is_some() {
            return Err(self);
        }
        let Selection { name, architecture, editor, command } = self;
        match (name, architecture, editor) {
            (Some(name), Some(architecture), Some(option)) => {
                let choice = match command {
                    Some(typed) => EditorChoice::new(option, typed.as_str()),
                    None => EditorChoice::new(option, ""),
                };
                proof {
                    reveal_strlit("");
                    assert(""@ =~= Seq::<char>::empty());
                }
                Ok((ProjectRequest { name, architecture }, choice))
            },
            (name, architecture, editor) => Err(Selection { name, architecture, editor, command }),
        }
    }
}

/// The questions come in the order of the flow, and each at most once: a
/// fitting answer settles the pending question for good, and what is asked
/// next, if anything, stands later in the flow. So the flow ends after four
/// answers at most.
pub proof fn law_questions_in_order(selection: SelectionView, answer: AnswerView)
    requires
        selection.fits(answer),
    ensures
        selection.answered(answer).pending() matches Some(next) ==> next.place()
            > selection.pending()->0.place(),
        selection.answered(answer).questions_left() < selection.questions_left() <= 4,
{
}

/// A value that is known is never asked for, and stays known: neither the
/// name nor the style is asked for where it was supplied up front, and an
/// answer changes nothing but what its question asked for.
pub proof fn law_known_values_are_kept(selection: SelectionView, answer: AnswerView)
    ensures
        selection.name is Some ==> selection.pending() != Some(Question::ProjectName)
            && selection.answered(answer).name == selection.name,
        selection.architecture is Some ==> selection.pending() != Some(Question::Architecture)
            && selection.answered(answer).architecture == selection.architecture,
        selection.editor is Some ==> selection.pending() != Some(Question::Editor)
            && selection.answered(answer).editor == selection.editor,
        selection.command is Some ==> selection.pending() != Some(Question::EditorCommand)
            && selection.answered(answer).command == selection.command,
{
}

/// The editor is always asked for, whatever was supplied up front: a flow
/// at its start has a question to put, and where the name and the style
/// were both supplied, that question is the editor menu.
pub proof fn law_editor_is_always_asked(
    name: Option<Seq<char>>,
    architecture: Option<Architecture>,
)
    ensures
        SelectionView::start(name, architecture).pending() is Some,
        SelectionView::start(name, architecture).editor is None,
        name is Some && architecture is Some ==> SelectionView::start(name, architecture).pending()
            == Some(Question::Editor),
{
}

/// The editor's command is asked for exactly where the menu entry picked is
/// `Custom`: with any other entry the flow is through.
pub proof fn law_command_is_asked_for_custom_only(selection: SelectionView, option: IdeOption)
    requires
        selection.pending() == Some(Question::Editor),
        selection.command is None,
    ensures
        selection.answered(AnswerView::Editor(option)).pending() == if option
            == IdeOption::Custom {
            Some(Question::EditorCommand)
        } else {
            None
        },
{
}

} // verus!
