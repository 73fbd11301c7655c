//! Plans for launching the outside programs: which executable, with which
//! arguments, from where, and how attached. Launching itself is the
//! caller's part; what came of it returns as a [`ProcessOutcome`].

use crate::text::text_view;
use vstd::prelude::*;
use vstd::string::StringExecFns;

verus! {

/// Family of operating systems that the programs are launched on.
#[derive(Clone, Copy, Debug, PartialEq, Eq, Structural)]
pub enum Platform {
    Windows,
    Other,
}

/// How a launched program is attached to its parent.
#[derive(Clone, Copy, Debug, PartialEq, Eq, Structural)]
pub enum Mode {
    /// The child shares the parent's input and output, and the parent waits
    /// until it ends.
    Foreground,
    /// The child's input and output lead nowhere, and the parent does not
    /// wait for it.
    Background,
}

/// What came of launching a program.
#[derive(Clone, Copy, Debug, PartialEq, Eq, Structural)]
pub enum ProcessOutcome {
    /// A foreground program ran and ended, well or not.
    Exited { success: bool },
    /// A background program was started.
    Launched,
    /// The program could not be found or started.
    LaunchFailed,
}

/// One launch of a program.
#[derive(Debug)]
pub struct Invocation {
    pub program: String,
    pub args: Vec<String>,
    /// Directory to launch in; the parent's own where there is none.
    pub cwd: Option<String>,
    pub mode: Mode,
    /// Whether the child must start without a console window of its own.
    pub no_window: bool,
}

/// What an [`Invocation`] holds, as a mathematical value.
pub struct InvocationView {
    pub program: Seq<char>,
    pub args: Seq<Seq<char>>,
    pub cwd: Option<Seq<char>>,
    pub mode: Mode,
    pub no_window: bool,
}

impl View for Invocation {
    type V = InvocationView;

    open spec fn view(&self) -> InvocationView {
        InvocationView {
            program: self.program@,
            args: self.args.deep_view(),
            cwd: text_view(self.cwd),
            mode: self.mode,
            no_window: self.no_window,
        }
    }
}

/// Name under which the project generator is installed on `platform`.
pub open spec fn generator_name(platform: Platform) -> Seq<char> {
    match platform {
        Platform::Windows => "flutter.bat"@,
        Platform::Other => "flutter"@,
    }
}

/// Name of the generator's executable on `platform`.
pub fn generator_program(platform: Platform) -> (program: &'static str)
    ensures
        program@ == generator_name(platform),
{
    match platform {
        Platform::Windows => "flutter.bat",
        Platform::Other => "flutter",
    }
}

impl InvocationView {
    /// The launch that generates the project `name`: the generator with
    /// `create` and the name, in the foreground, from the parent's own
    /// directory.
    pub open spec fn generator(platform: Platform, name: Seq<char>) -> InvocationView {
        InvocationView {
            program: generator_name(platform),
            args: seq!["create"@, name],
            cwd: None,
            mode: Mode::Foreground,
            no_window: false,
        }
    }

    /// The launch that opens the directory `project` in the editor
    /// `command`: the command itself with `.` as what to open, in the
    /// background, from within the project. The platforms differ in one
    /// thing: on Windows the child starts without a console window.
    pub open spec fn editor(
        platform: Platform,
        command: Seq<char>,
        project: Seq<char>,
    ) -> InvocationView {
        InvocationView {
            program: command,
            args: seq!["."@],
            cwd: Some(project),
            mode: Mode::Background,
            no_window: platform == Platform::Windows,
        }
    }
}

/// Plans the foreground launch of the generator for the project `name`.
pub fn generator_invocation(platform: Platform, name: &str) -> (invocation: Invocation)
    ensures
        invocation@ == InvocationView::generator(platform, name@),
{
    let args = vec![String::from_str("create"), String::from_str(name)];
    assert(args.deep_view() =~= seq!["create"@, name@]);
    Invocation {
        program: String::from_str(generator_program(platform)),
        args,
        cwd: None,
        mode: Mode::Foreground,
        no_window: false,
    }
}

/// Plans the background launch of the editor `command` on the directory
/// `project`.
pub fn editor_invocation(platform: Platform, command: &str, project: &str) -> (invocation:
    Invocation)
    ensures
        invocation@ == InvocationView::editor(platform, command@, project@),
{
    let args = vec![String::from_str(".")];
    assert(args.deep_view() =~= seq!["."@]);
    let no_window = match platform {
        Platform::Windows => true,
        Platform::Other => false,
    };
    Invocation {
        program: String::from_str(command),
        args,
        cwd: Some(String::from_str(project)),
        mode: Mode::Background,
        no_window,
    }
}

/// On every platform the editor is launched as the command itself with the
/// one argument `.`, in the background and from within the project: the
/// project is where the child runs, not an argument. Windows alone asks for
/// no console window.
pub proof fn law_editor_launch_is_the_command(
    platform: Platform,
    command: Seq<char>,
    project: Seq<char>,
)
    ensures
        InvocationView::editor(platform, command, project).program == command,
        InvocationView::editor(platform, command, project).args == seq![seq!['.']],
        InvocationView::editor(platform, command, project).cwd == Some(project),
        InvocationView::editor(platform, command, project).mode == Mode::Background,
        InvocationView::editor(platform, command, project).no_window <==> platform
            == Platform::Windows,
{
    reveal_strlit(".");
    assert("."@ =~= seq!['.']);
    assert(seq!["."@] =~= seq![seq!['.']]);
}

/// The generator is launched in the foreground from the caller's own
/// directory, with `create` and the project's name as its two arguments,
/// under the name that the platform knows it by.
pub proof fn law_generator_launch(platform: Platform, name: Seq<char>)
    ensures
        InvocationView::generator(platform, name).program == generator_name(platform),
        InvocationView::generator(platform, name).args == seq![
            seq!['c', 'r', 'e', 'a', 't', 'e'],
            name,
        ],
        InvocationView::generator(platform, name).cwd is None,
        InvocationView::generator(platform, name).mode == Mode::Foreground,
        !InvocationView::generator(platform, name).no_window,
{
    reveal_strlit("create");
    assert("create"@ =~= seq!['c', 'r', 'e', 'a', 't', 'e']);
    assert(seq!["create"@, name] =~= seq![seq!['c', 'r', 'e', 'a', 't', 'e'], name]);
}

} // verus!
