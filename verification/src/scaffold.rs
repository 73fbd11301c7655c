//! The scaffold orchestrator: the run from a resolved request to its end,
//! as a state machine. Each step names the one thing to do next; what came
//! of doing it returns as an event.

use crate::editor::{EditorChoice, EditorChoiceView};
use crate::fault::{Fault, Outcome};
use crate::message::{Message, MessageView};
use crate::process::{
    editor_invocation, generator_invocation, Invocation, InvocationView, Platform, ProcessOutcome,
};
use crate::request::{ProjectRequest, ProjectRequestView};
use vstd::prelude::*;

verus! {

/// Where a run stands: what it is waiting for.
#[derive(Clone, Copy, Debug, PartialEq, Eq, Structural)]
pub enum Stage {
    /// The generator runs.
    Generating,
    /// The skeleton's directories are being created.
    CreatingDirectories,
    /// The editor is being launched.
    LaunchingEditor,
    /// The run is over.
    Done,
}

/// What came of the step that a run asked for.
#[derive(Clone, Copy, Debug, PartialEq, Eq, Structural)]
pub enum Event {
    /// The program that was to be launched.
    Process(ProcessOutcome),
    /// The directories that were to be created: all of them, or not.
    Directories { created: bool },
}

/// The one thing that a step asks its caller to do.
#[derive(Debug)]
pub enum Action {
    /// Launch a program as planned, and report what came of it.
    Invoke(Invocation),
    /// Create these directories with all their parents, taking no offence
    /// at one that exists, and report whether all could be created.
    CreateDirectories(Vec<String>),
    /// End the run with this outcome.
    Finish(Outcome),
}

/// What an [`Action`] holds, as a mathematical value.
pub enum ActionView {
    Invoke(InvocationView),
    CreateDirectories(Seq<Seq<char>>),
    Finish(Outcome),
}

impl View for Action {
    type V = ActionView;

    open spec fn view(&self) -> ActionView {
        match self {
            Action::Invoke(invocation) => ActionView::Invoke(invocation@),
            Action::CreateDirectories(paths) => ActionView::CreateDirectories(paths.deep_view()),
            Action::Finish(outcome) => ActionView::Finish(*outcome),
        }
    }
}

/// A run of the orchestrator.
#[derive(Debug)]
pub struct Scaffold {
    platform: Platform,
    request: ProjectRequest,
    editor: EditorChoice,
    stage: Stage,
}

/// What a [`Scaffold`] holds, as a mathematical value.
pub struct ScaffoldView {
    pub platform: Platform,
    pub request: ProjectRequestView,
    pub editor: EditorChoiceView,
    pub stage: Stage,
}

impl View for Scaffold {
    type V = ScaffoldView;

    closed spec fn view(&self) -> ScaffoldView {
        ScaffoldView {
            platform: self.platform,
            request: self.request@,
            editor: self.editor@,
            stage: self.stage,
        }
    }
}

/// One step of a run: where the run stands after it, what to tell the user,
/// in this order, and then what to do.
#[derive(Debug)]
pub struct Step {
    pub scaffold: Scaffold,
    pub notices: Vec<Message>,
    pub action: Action,
}

/// What a [`Step`] holds, as a mathematical value.
pub struct StepView {
    pub scaffold: ScaffoldView,
    pub notices: Seq<MessageView>,
    pub action: ActionView,
}

impl View for Step {
    type V = StepView;

    open spec fn view(&self) -> StepView {
        StepView {
            scaffold: self.scaffold@,
            notices: self.notices.deep_view(),
            action: self.action@,
        }
    }
}

/// An event that the run was not waiting for, handed back with the run as
/// it stood.
#[derive(Debug)]
pub struct Rejected {
    pub scaffold: Scaffold,
    pub event: Event,
}

impl ScaffoldView {
    /// The run at `stage`.
    pub open spec fn at(self, stage: Stage) -> ScaffoldView {
        ScaffoldView { stage, ..self }
    }

    /// The step that ends the run for `fault`, after telling `notices`.
    pub open spec fn finish(self, notices: Seq<MessageView>, fault: Fault) -> StepView {
        StepView {
            scaffold: self.at(Stage::Done),
            notices,
            action: ActionView::Finish(Outcome::after(fault)),
        }
    }

    /// The first step of a run: announce the project and run the generator
    /// in the foreground.
    pub open spec fn begin(
        platform: Platform,
        request: ProjectRequestView,
        editor: EditorChoiceView,
    ) -> StepView {
        StepView {
            scaffold: ScaffoldView { platform, request, editor, stage: Stage::Generating },
            notices: seq![MessageView::preparing(request.name, request.architecture)],
            action: ActionView::Invoke(InvocationView::generator(platform, request.name)),
        }
    }

    /// Whether the run is waiting for `event`.
    pub open spec fn awaits(self, event: Event) -> bool {
        match self.stage {
            Stage::Generating => event matches Event::Process(outcome) && outcome
                != ProcessOutcome::Launched,
            Stage::CreatingDirectories => event is Directories,
            Stage::LaunchingEditor => self.editor.command() is Some && (event == Event::Process(
                ProcessOutcome::Launched,
            ) || event == Event::Process(ProcessOutcome::LaunchFailed)),
            Stage::Done => false,
        }
    }

    /// What is said once the directories stand.
    pub open spec fn created_notices(self) -> Seq<MessageView> {
        seq![MessageView::folders_added(self.request.architecture), MessageView::completed()]
    }

    /// The step that follows the creation of the directories: launch the
    /// editor in the background if the choice resolves to a command, else
    /// tell how to go on by hand and end the run.
    pub open spec fn after_directories(self) -> StepView {
        match self.editor.command() {
            Some(command) => StepView {
                scaffold: self.at(Stage::LaunchingEditor),
                notices: self.created_notices().push(MessageView::launching_editor(command)),
                action: ActionView::Invoke(
                    InvocationView::editor(self.platform, command, self.request.name),
                ),
            },
            None => StepView {
                scaffold: self.at(Stage::Done),
                notices: self.created_notices().push(MessageView::manual_heading()).push(
                    MessageView::manual_steps(self.request.name),
                ),
                action: ActionView::Finish(Outcome::Completed),
            },
        }
    }

    /// What is said when the editor could not be launched.
    pub open spec fn editor_warning(self) -> Seq<MessageView> {
        let warning = MessageView::editor_not_found(self.platform, self.editor.command()->0);
        match self.platform {
            Platform::Windows => seq![warning, MessageView::path_hint()],
            Platform::Other => seq![warning],
        }
    }

    /// The step with which the run answers an event that it is waiting for.
    /// For any other event the value means nothing.
    pub open spec fn next(self, event: Event) -> StepView {
        match (self.stage, event) {
            (Stage::Generating, Event::Process(ProcessOutcome::Exited { success: true })) => {
                StepView {
                    scaffold: self.at(Stage::CreatingDirectories),
                    notices: seq![],
                    action: ActionView::CreateDirectories(self.request.directories()),
                }
            },
            (Stage::Generating, Event::Process(ProcessOutcome::Exited { success: false })) => {
                self.finish(seq![MessageView::generator_failed()], Fault::GeneratorFailure)
            },
            (Stage::Generating, _) => self.finish(seq![], Fault::GeneratorLaunch),
            (Stage::CreatingDirectories, Event::Directories { created: true }) => {
                self.after_directories()
            },
            (Stage::CreatingDirectories, _) => self.finish(seq![], Fault::Filesystem),
            (Stage::LaunchingEditor, Event::Process(ProcessOutcome::LaunchFailed)) => {
                self.finish(self.editor_warning(), Fault::EditorLaunch)
            },
            (_, _) => StepView {
                scaffold: self.at(Stage::Done),
                notices: seq![],
                action: ActionView::Finish(Outcome::Completed),
            },
        }
    }

    /// What the run asks for, step by step, as `events` come in. The run
    /// takes the events one by one for as long as it is waiting for the
    /// next of them.
    pub open spec fn actions(self, events: Seq<Event>) -> Seq<ActionView>
        decreases events.len(),
    {
        if events.len() == 0 || !self.awaits(events.first()) {
            seq![]
        } else {
            let step = self.next(events.first());
            seq![step.action] + step.scaffold.actions(events.drop_first())
        }
    }
}

impl Scaffold {
    /// Begins a run for `request` with the editor choice `editor`.
    pub fn begin(platform: Platform, request: ProjectRequest, editor: EditorChoice) -> (first:
        Step)
        ensures
            first@ == ScaffoldView::begin(platform, request@, editor@),
    {
        let notices = vec![Message::preparing(request.name.as_str(), request.architecture)];
        let action = Action::Invoke(generator_invocation(platform, request.name.as_str()));
        assert(notices.deep_view() =~= seq![
            MessageView::preparing(request.name@, request.architecture),
        ]);
        Step {
            scaffold: Scaffold { platform, request, editor, stage: Stage::Generating },
            notices,
            action,
        }
    }

    /// Where the run stands.
    pub fn stage(&self) -> (stage: Stage)
        ensures
            stage == self@.stage,
    {
        self.stage
    }

    /// The platform that the run plans its launches for.
    pub fn platform(&self) -> (platform: Platform)
        ensures
            platform == self@.platform,
    {
        self.platform
    }

    /// What the run scaffolds.
    pub fn request(&self) -> (request: &ProjectRequest)
        ensures
            request@ == self@.request,
    {
        &self.request
    }

    /// The editor choice that the run was begun with.
    pub fn editor(&self) -> (editor: &EditorChoice)
        ensures
            editor@ == self@.editor,
    {
        &self.editor
    }

    /// Tells whether the run is waiting for `event`.
    pub fn is_awaiting(&self, event: Event) -> (awaited: bool)
        ensures
            awaited == self@.awaits(event),
    {
        match self.stage {
            Stage::Generating => match event {
                Event::Process(ProcessOutcome::Launched) => false,
                Event::Process(_) => true,
                Event::Directories { .. } => false,
            },
            Stage::CreatingDirectories => match event {
                Event::Directories { .. } => true,
                Event::Process(_) => false,
            },
            Stage::LaunchingEditor => {
                let command = self.editor.command();
                match event {
                    Event::Process(ProcessOutcome::Launched) => command.is_some(),
                    Event::Process(ProcessOutcome::LaunchFailed) => command.is_some(),
                    _ => false,
                }
            },
            Stage::Done => false,
        }
    }

    /// Ends the run for `fault`, after telling `notices`.
    fn finish(self, notices: Vec<Message>, fault: Fault) -> (step: Step)
        ensures
            step@ == self@.finish(notices.deep_view(), fault),
    {
        Step {
            scaffold: Scaffold { stage: Stage::Done, ..self },
            notices,
            action: Action::Finish(Outcome::of_fault(fault)),
        }
    }

    /// Goes on once the directories stand.
    fn after_directories(self) -> (step: Step)
        ensures
            step@ == self@.after_directories(),
    {
        let style = self.request.architecture;
        match self.editor.command() {
            Some(command) => {
                let notices = vec![
                    Message::folders_added(style),
                    Message::completed(),
                    Message::launching_editor(command.as_str()),
                ];
                assert(notices.deep_view() =~= self@.created_notices().push(
                    MessageView::launching_editor(command@),
                ));
                let action = Action::Invoke(
                    editor_invocation(self.platform, command.as_str(), self.request.name.as_str()),
                );
                Step {
                    scaffold: Scaffold { stage: Stage::LaunchingEditor, ..self },
                    notices,
                    action,
                }
            },
            None => {
                let notices = vec![
                    Message::folders_added(style),
                    Message::completed(),
                    Message::manual_heading(),
                    Message::manual_steps(self.request.name.as_str()),
                ];
                assert(notices.deep_view() =~= self@.created_notices().push(
                    MessageView::manual_heading(),
                ).push(MessageView::manual_steps(self.request.name@)));
                Step {
                    scaffold: Scaffold { stage: Stage::Done, ..self },
                    notices,
                    action: Action::Finish(Outcome::Completed),
                }
            },
        }
    }

    /// Words the warning that the editor could not be launched.
    fn editor_warning(&self, command: &str) -> (notices: Vec<Message>)
        requires
            self@.editor.command() == Some(command@),
        ensures
            notices.deep_view() == self@.editor_warning(),
    {
        let warning = Message::editor_not_found(self.platform, command);
        let notices = match self.platform {
            Platform::Windows => vec![warning, Message::path_hint()],
            Platform::Other => vec![warning],
        };
        assert(notices.deep_view() =~= self@.editor_warning());
        notices
    }

    /// Takes the run one step on. An event that the run is waiting for is
    /// answered with the next step; any other is rejected, and the run and
    /// the event come back as they were.
    pub fn advance(self, event: Event) -> (result: Result<Step, Rejected>)
        ensures
            self@.awaits(event) ==> (result matches Ok(step) && step@ == self@.next(event)),
            !self@.awaits(event) ==> (result matches Err(rejected) && rejected.scaffold@ == self@
                && rejected.event == event),
    {
        if !self.is_awaiting(event) {
            return Err(Rejected { scaffold: self, event });
        }
        let step = match self.stage {
            Stage::Generating => match event {
                Event::Process(ProcessOutcome::Exited { success: true }) => {
                    let paths = self.request.directories();
                    Step {
                        scaffold: Scaffold { stage: Stage::CreatingDirectories, ..self },
                        notices: Vec::new(),
                        action: Action::CreateDirectories(paths),
                    }
                },
                Event::Process(ProcessOutcome::Exited { success: false }) => {
                    let notices = vec![Message::generator_failed()];
                    assert(notices.deep_view() =~= seq![MessageView::generator_failed()]);
                    self.finish(notices, Fault::GeneratorFailure)
                },
                _ => self.finish(Vec::new(), Fault::GeneratorLaunch),
            },
            Stage::CreatingDirectories => match event {
                Event::Directories { created: true } => self.after_directories(),
                _ => self.finish(Vec::new(), Fault::Filesystem),
            },
            _ => match event {
                Event::Process(ProcessOutcome::LaunchFailed) => {
                    let notices = match self.editor.command() {
                        Some(command) => self.editor_warning(command.as_str()),
                        None => Vec::new(),
                    };
                    self.finish(notices, Fault::EditorLaunch)
                },
                _ => Step {
                    scaffold: Scaffold { stage: Stage::Done, ..self },
                    notices: Vec::new(),
                    action: Action::Finish(Outcome::Completed),
                },
            },
        };
        assert(step@.notices =~= self@.next(event).notices);
        Ok(step)
    }
}

/// How far a run has come: the stages in their order.
pub open spec fn progress(stage: Stage) -> nat {
    match stage {
        Stage::Generating => 0,
        Stage::CreatingDirectories => 1,
        Stage::LaunchingEditor => 2,
        Stage::Done => 3,
    }
}

/// A run only moves forward: every step that it takes leaves it at a later
/// stage, with the same platform, request and editor choice, and what the
/// step asks for goes with the stage that it leads to: the directories with
/// `CreatingDirectories`, a launch with `LaunchingEditor`, the end with
/// `Done`. So a run asks for the directories once at most, launches the
/// editor once at most, and never launches the generator again.
pub proof fn law_step_moves_forward(run: ScaffoldView, event: Event)
    requires
        run.awaits(event),
    ensures
        progress(run.next(event).scaffold.stage) > progress(run.stage),
        run.next(event).scaffold == run.at(run.next(event).scaffold.stage),
        run.next(event).action is CreateDirectories <==> run.next(event).scaffold.stage
            == Stage::CreatingDirectories,
        run.next(event).action is Invoke <==> run.next(event).scaffold.stage
            == Stage::LaunchingEditor,
        run.next(event).action is Finish <==> run.next(event).scaffold.stage == Stage::Done,
{
}

/// A run takes three steps at most, whatever is reported to it, and a run
/// that is over asks for nothing more.
pub proof fn law_run_is_short(run: ScaffoldView, events: Seq<Event>)
    ensures
        run.stage == Stage::Done ==> run.actions(events) == Seq::<ActionView>::empty(),
        run.actions(events).len() + progress(run.stage) <= 3,
    decreases events.len(),
{
    if events.len() > 0 && run.awaits(events.first()) {
        law_step_moves_forward(run, events.first());
        law_run_is_short(run.next(events.first()).scaffold, events.drop_first());
    }
}

/// A generator that reports failure ends the run, and as a success: the one
/// thing that the run then asks for is to finish, whatever is reported to it
/// afterwards. No directory is created and no editor is launched.
pub proof fn law_generator_failure_ends_run(run: ScaffoldView, later: Seq<Event>)
    requires
        run.stage == Stage::Generating,
    ensures
        ({
            let failure = Event::Process(ProcessOutcome::Exited { success: false });
            &&& run.awaits(failure)
            &&& run.next(failure).notices == seq![MessageView::generator_failed()]
            &&& run.next(failure).scaffold.stage == Stage::Done
            &&& run.actions(seq![failure] + later) == seq![ActionView::Finish(Outcome::Completed)]
        }),
{
    let failure = Event::Process(ProcessOutcome::Exited { success: false });
    let events = seq![failure] + later;
    let step = run.next(failure);
    assert(events.first() == failure);
    assert(events.drop_first() =~= later);
    law_run_is_short(step.scaffold, later);
    assert(run.actions(events) =~= seq![ActionView::Finish(Outcome::Completed)]);
}

/// A generator that reports success has the run ask for every directory of
/// the style's template, and for nothing else: as many directories as the
/// template has paths, each the project's name, `/lib/` and the template's
/// path at that place.
pub proof fn law_generator_success_creates_template(run: ScaffoldView)
    requires
        run.stage == Stage::Generating,
    ensures
        ({
            let success = Event::Process(ProcessOutcome::Exited { success: true });
            let template = crate::template::template_paths(run.request.architecture);
            &&& run.awaits(success)
            &&& run.next(success).scaffold.stage == Stage::CreatingDirectories
            &&& run.next(success).action matches ActionView::CreateDirectories(paths)
            &&& paths.len() == template.len()
            &&& forall|i: int|
                0 <= i < template.len() ==> #[trigger] paths[i] == run.request.name + "/lib/"@
                    + template[i]
        }),
{
    reveal_strlit("/lib");
    reveal_strlit("/lib/");
    let template = crate::template::template_paths(run.request.architecture);
    let paths = run.request.directories();
    assert("/lib"@ + seq!['/'] =~= "/lib/"@);
    assert forall|i: int| 0 <= i < template.len() implies #[trigger] paths[i] == run.request.name
        + "/lib/"@ + template[i] by {
        assert(paths[i] =~= run.request.name + ("/lib"@ + seq!['/']) + template[i]);
    }
}

/// An editor that cannot be launched does not fail the run: the run warns
/// and ends as a success.
pub proof fn law_editor_failure_completes(run: ScaffoldView, later: Seq<Event>)
    requires
        run.stage == Stage::LaunchingEditor,
        run.editor.command() is Some,
    ensures
        ({
            let failure = Event::Process(ProcessOutcome::LaunchFailed);
            &&& run.awaits(failure)
            &&& run.next(failure).notices == run.editor_warning()
            &&& run.next(failure).scaffold.stage == Stage::Done
            &&& run.actions(seq![failure] + later) == seq![ActionView::Finish(Outcome::Completed)]
        }),
{
    let failure = Event::Process(ProcessOutcome::LaunchFailed);
    let events = seq![failure] + later;
    let step = run.next(failure);
    assert(events.first() == failure);
    assert(events.drop_first() =~= later);
    law_run_is_short(step.scaffold, later);
    assert(run.actions(events) =~= seq![ActionView::Finish(Outcome::Completed)]);
}

/// A run fails for two reasons alone: the generator could not be launched,
/// or a directory could not be created. Every other step that ends a run
/// ends it as a success.
pub proof fn law_run_fails_for_fatal_faults_only(run: ScaffoldView, event: Event)
    requires
        run.awaits(event),
    ensures
        run.next(event).action matches ActionView::Finish(Outcome::Failed(fault)) ==> fault.fatal()
            && (fault == Fault::GeneratorLaunch <==> run.stage == Stage::Generating && event
            == Event::Process(ProcessOutcome::LaunchFailed)) && (fault == Fault::Filesystem <==>
            run.stage == Stage::CreatingDirectories && event == Event::Directories {
                created: false,
            }),
        run.stage == Stage::Generating && event == Event::Process(ProcessOutcome::LaunchFailed)
            ==> run.next(event).action == ActionView::Finish(
            Outcome::Failed(Fault::GeneratorLaunch),
        ),
        run.stage == Stage::CreatingDirectories && event == (Event::Directories { created: false })
            ==> run.next(event).action == ActionView::Finish(Outcome::Failed(Fault::Filesystem)),
{
}

/// An editor is launched only once the directories stand, and only where
/// the editor choice resolves to a command: then with that command, in the
/// background, from within the project. Where it resolves to none, the run
/// tells how to enter and start the project by hand, and ends.
pub proof fn law_editor_follows_directories(run: ScaffoldView, event: Event)
    requires
        run.awaits(event),
    ensures
        run.next(event).action is Invoke <==> run.stage == Stage::CreatingDirectories && event == (
        Event::Directories { created: true }) && run.editor.command() is Some,
        run.next(event).action matches ActionView::Invoke(invocation) ==> invocation
            == InvocationView::editor(run.platform, run.editor.command()->0, run.request.name)
            && invocation.mode == crate::process::Mode::Background && invocation.cwd == Some(
            run.request.name,
        ),
        run.stage == Stage::CreatingDirectories && event == (Event::Directories { created: true })
            && run.editor.command() is None ==> run.next(event).action == ActionView::Finish(
            Outcome::Completed,
        ) && run.next(event).notices.last() == MessageView::manual_steps(run.request.name),
{
}

} // verus!
