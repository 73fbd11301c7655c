use flutter_cli::architecture::Architecture;
use flutter_cli::editor::EditorChoice;
use flutter_cli::fault::{Fault, Outcome};
use flutter_cli::message::Tone;
use flutter_cli::process::{Invocation, Mode, Platform, ProcessOutcome};
use flutter_cli::request::ProjectRequest;
use flutter_cli::scaffold::{Action, Event, Scaffold, Stage, Step};
use std::collections::BTreeSet;

/// What a fake world answers to the run's requests.
struct World {
    generator: ProcessOutcome,
    directories: bool,
    editor: ProcessOutcome,
}

/// What a run asked of the world.
struct Record {
    launches: Vec<Invocation>,
    created: BTreeSet<String>,
    creations: usize,
    printed: Vec<(Tone, String)>,
    outcome: Outcome,
}

fn request(name: &str, architecture: Architecture) -> ProjectRequest {
    ProjectRequest { name: name.to_string(), architecture }
}

fn drive(platform: Platform, request: ProjectRequest, editor: EditorChoice, world: &World) -> Record {
    let mut record = Record {
        launches: Vec::new(),
        created: BTreeSet::new(),
        creations: 0,
        printed: Vec::new(),
        outcome: Outcome::Completed,
    };
    let mut step: Step = Scaffold::begin(platform, request, editor);
    loop {
        for notice in step.notices {
            record.printed.push((notice.tone, notice.text));
        }
        let event = match step.action {
            Action::Invoke(invocation) => {
                let outcome = match invocation.mode {
                    Mode::Foreground => world.generator,
                    Mode::Background => world.editor,
                };
                record.launches.push(invocation);
                Event::Process(outcome)
            }
            Action::CreateDirectories(paths) => {
                record.creations += 1;
                if world.directories {
                    record.created.extend(paths);
                }
                Event::Directories { created: world.directories }
            }
            Action::Finish(outcome) => {
                assert_eq!(step.scaffold.stage(), Stage::Done);
                record.outcome = outcome;
                return record;
            }
        };
        assert!(step.scaffold.is_awaiting(event));
        step = step.scaffold.advance(event).unwrap();
    }
}

fn kind_world() -> World {
    World {
        generator: ProcessOutcome::Exited { success: true },
        directories: true,
        editor: ProcessOutcome::Launched,
    }
}

#[test]
fn clean_project_without_editor_end_to_end() {
    let record =
        drive(Platform::Other, request("demo_app", Architecture::Clean), EditorChoice::NoEditor, &kind_world());
    assert_eq!(record.outcome, Outcome::Completed);
    assert_eq!(record.launches.len(), 1);
    let generator = &record.launches[0];
    assert_eq!(generator.program, "flutter");
    assert_eq!(generator.args, vec!["create", "demo_app"]);
    assert_eq!(generator.mode, Mode::Foreground);
    assert_eq!(generator.cwd, None);
    assert_eq!(record.creations, 1);
    assert_eq!(record.created.len(), 14);
    for path in &record.created {
        assert!(path.starts_with("demo_app/lib/"));
    }
    assert!(record.created.contains("demo_app/lib/core/error"));
    assert!(record.created.contains("demo_app/lib/data/datasources/remote"));
    assert!(record.created.contains("demo_app/lib/presentation/widgets"));
    let texts: Vec<&str> = record.printed.iter().map(|(_, text)| text.as_str()).collect();
    assert_eq!(
        texts,
        vec![
            "🚀 demo_app projesi Clean Architecture ile hazırlanıyor...",
            "📂 Clean Architecture mimarisine uygun klasörler eklendi.",
            "\n✅ İşlem Başarıyla Tamamlandı! Klasörler oluşturuldu.",
            "Terminalden girmek için:",
            "cd demo_app\nflutter run",
        ]
    );
    let guidance = texts.last().unwrap();
    assert!(guidance.contains("cd demo_app"));
    assert!(guidance.contains("flutter run"));
}

#[test]
fn mvvm_project_creates_its_six_directories() {
    let record =
        drive(Platform::Other, request("shop", Architecture::Mvvm), EditorChoice::NoEditor, &kind_world());
    assert_eq!(record.outcome, Outcome::Completed);
    let want: BTreeSet<String> = [
        "shop/lib/core/constants",
        "shop/lib/core/services",
        "shop/lib/models",
        "shop/lib/views",
        "shop/lib/viewmodels",
        "shop/lib/widgets",
    ]
    .iter()
    .map(|path| path.to_string())
    .collect();
    assert_eq!(record.created.len(), 6);
    assert_eq!(record.created, want);
}

#[test]
fn failed_generator_ends_the_run_without_side_effects() {
    let world = World { generator: ProcessOutcome::Exited { success: false }, ..kind_world() };
    let record = drive(Platform::Other, request("demo_app", Architecture::Clean), EditorChoice::VsCode, &world);
    assert_eq!(record.outcome, Outcome::Completed);
    assert_eq!(record.launches.len(), 1);
    assert_eq!(record.launches[0].mode, Mode::Foreground);
    assert_eq!(record.creations, 0);
    assert!(record.created.is_empty());
    assert_eq!(record.printed.len(), 2);
    assert_eq!(record.printed[1], (Tone::Failure, "Flutter projesi oluşturulurken hata oluştu!".to_string()));
}

#[test]
fn generator_that_cannot_be_launched_is_fatal() {
    let world = World { generator: ProcessOutcome::LaunchFailed, ..kind_world() };
    let record = drive(Platform::Windows, request("demo_app", Architecture::Clean), EditorChoice::Cursor, &world);
    assert_eq!(record.outcome, Outcome::Failed(Fault::GeneratorLaunch));
    assert_eq!(record.launches.len(), 1);
    assert_eq!(record.launches[0].program, "flutter.bat");
    assert_eq!(record.creations, 0);
    assert_eq!(record.printed.len(), 1);
}

#[test]
fn directory_that_cannot_be_created_is_fatal() {
    let world = World { directories: false, ..kind_world() };
    let record = drive(Platform::Other, request("demo_app", Architecture::Mvvm), EditorChoice::VsCode, &world);
    assert_eq!(record.outcome, Outcome::Failed(Fault::Filesystem));
    assert_eq!(record.creations, 1);
    assert_eq!(record.launches.len(), 1);
    assert_eq!(record.printed.len(), 1);
}

#[test]
fn editor_is_launched_in_the_project_after_the_directories() {
    let record = drive(Platform::Other, request("demo_app", Architecture::Mvvm), EditorChoice::VsCode, &kind_world());
    assert_eq!(record.outcome, Outcome::Completed);
    assert_eq!(record.created.len(), 6);
    assert_eq!(record.launches.len(), 2);
    let editor = &record.launches[1];
    assert_eq!(editor.program, "code");
    assert_eq!(editor.args, vec!["."]);
    assert_eq!(editor.cwd, Some("demo_app".to_string()));
    assert_eq!(editor.mode, Mode::Background);
    let texts: Vec<&str> = record.printed.iter().map(|(_, text)| text.as_str()).collect();
    assert_eq!(
        texts,
        vec![
            "🚀 demo_app projesi MVVM ile hazırlanıyor...",
            "📂 MVVM mimarisine uygun klasörler eklendi.",
            "\n✅ İşlem Başarıyla Tamamlandı! Klasörler oluşturuldu.",
            "🖥️  'code' komutu ile editör başlatılıyor...",
        ]
    );
}

#[test]
fn editor_that_cannot_be_launched_does_not_fail_the_run() {
    let world = World { editor: ProcessOutcome::LaunchFailed, ..kind_world() };
    let record = drive(
        Platform::Other,
        request("demo_app", Architecture::Clean),
        EditorChoice::Custom("nvim".to_string()),
        &world,
    );
    assert_eq!(record.outcome, Outcome::Completed);
    assert_eq!(record.created.len(), 14);
    assert_eq!(record.launches.len(), 2);
    assert_eq!(record.launches[1].program, "nvim");
    assert_eq!(
        record.printed.last().unwrap(),
        &(Tone::Warning, "⚠️  Uyarı: 'nvim' komutu bulunamadı.".to_string())
    );
}

#[test]
fn editor_failure_on_windows_adds_the_path_hint() {
    let world = World { editor: ProcessOutcome::LaunchFailed, ..kind_world() };
    let record = drive(Platform::Windows, request("demo_app", Architecture::Clean), EditorChoice::Cursor, &world);
    assert_eq!(record.outcome, Outcome::Completed);
    let editor = &record.launches[1];
    assert_eq!(editor.program, "cursor");
    assert_eq!(editor.args, vec!["."]);
    assert_eq!(editor.cwd, Some("demo_app".to_string()));
    assert_eq!(editor.mode, Mode::Background);
    assert!(editor.no_window);
    let n = record.printed.len();
    assert_eq!(
        record.printed[n - 2],
        (Tone::Warning, "⚠️  Uyarı: 'cursor' komutu bulunamadı veya çalıştırılamadı.".to_string())
    );
    assert_eq!(
        record.printed[n - 1],
        (Tone::Plain, "Lütfen komutun PATH'e ekli olduğundan emin olun.".to_string())
    );
}

#[test]
fn blank_custom_editor_launches_nothing() {
    let record = drive(
        Platform::Other,
        request("demo_app", Architecture::Mvvm),
        EditorChoice::Custom("   ".to_string()),
        &kind_world(),
    );
    assert_eq!(record.outcome, Outcome::Completed);
    assert_eq!(record.launches.len(), 1);
    assert_eq!(record.printed.last().unwrap().1, "cd demo_app\nflutter run");
}

#[test]
fn custom_editor_is_launched_by_its_trimmed_command() {
    let record = drive(
        Platform::Other,
        request("demo_app", Architecture::Mvvm),
        EditorChoice::Custom("  subl ".to_string()),
        &kind_world(),
    );
    assert_eq!(record.launches.len(), 2);
    assert_eq!(record.launches[1].program, "subl");
}

#[test]
fn running_twice_asks_for_the_same_directories() {
    let first = drive(Platform::Other, request("demo_app", Architecture::Clean), EditorChoice::NoEditor, &kind_world());
    let second = drive(Platform::Other, request("demo_app", Architecture::Clean), EditorChoice::NoEditor, &kind_world());
    assert_eq!(first.outcome, Outcome::Completed);
    assert_eq!(second.outcome, Outcome::Completed);
    assert_eq!(first.created, second.created);
}

#[test]
fn event_out_of_turn_is_handed_back() {
    let first = Scaffold::begin(Platform::Other, request("a", Architecture::Clean), EditorChoice::NoEditor);
    assert_eq!(first.scaffold.stage(), Stage::Generating);
    assert_eq!(first.scaffold.platform(), Platform::Other);
    assert_eq!(first.scaffold.request().name, "a");
    assert!(matches!(first.scaffold.editor(), EditorChoice::NoEditor));
    let rejected = first.scaffold.advance(Event::Directories { created: true }).unwrap_err();
    assert_eq!(rejected.event, Event::Directories { created: true });
    assert_eq!(rejected.scaffold.stage(), Stage::Generating);
    let rejected = rejected.scaffold.advance(Event::Process(ProcessOutcome::Launched)).unwrap_err();
    assert_eq!(rejected.scaffold.stage(), Stage::Generating);

    let step = rejected.scaffold.advance(Event::Process(ProcessOutcome::Exited { success: true })).unwrap();
    assert_eq!(step.scaffold.stage(), Stage::CreatingDirectories);
    let rejected = step.scaffold.advance(Event::Process(ProcessOutcome::Launched)).unwrap_err();
    assert_eq!(rejected.scaffold.stage(), Stage::CreatingDirectories);

    let step = rejected.scaffold.advance(Event::Directories { created: true }).unwrap();
    assert_eq!(step.scaffold.stage(), Stage::Done);
    assert!(!step.scaffold.is_awaiting(Event::Process(ProcessOutcome::Launched)));
    let rejected = step.scaffold.advance(Event::Process(ProcessOutcome::Launched)).unwrap_err();
    assert_eq!(rejected.scaffold.stage(), Stage::Done);
}

#[test]
fn editor_stage_takes_launch_results_only() {
    let first = Scaffold::begin(Platform::Other, request("a", Architecture::Clean), EditorChoice::VsCode);
    let step = first.scaffold.advance(Event::Process(ProcessOutcome::Exited { success: true })).unwrap();
    let step = step.scaffold.advance(Event::Directories { created: true }).unwrap();
    assert_eq!(step.scaffold.stage(), Stage::LaunchingEditor);
    let rejected =
        step.scaffold.advance(Event::Process(ProcessOutcome::Exited { success: true })).unwrap_err();
    let rejected = rejected.scaffold.advance(Event::Directories { created: false }).unwrap_err();
    let step = rejected.scaffold.advance(Event::Process(ProcessOutcome::Launched)).unwrap();
    assert!(step.notices.is_empty());
    assert!(matches!(step.action, Action::Finish(Outcome::Completed)));
}

#[test]
fn request_names_its_source_root_and_directories() {
    let request = request("demo_app", Architecture::Mvvm);
    assert_eq!(request.source_root(), "demo_app/lib");
    assert_eq!(request.directories().len(), 6);
    assert_eq!(request.directories()[2], "demo_app/lib/models");
}
