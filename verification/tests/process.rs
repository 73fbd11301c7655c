use flutter_cli::fault::{Fault, Outcome};
use flutter_cli::process::{
    editor_invocation, generator_invocation, generator_program, Mode, Platform,
};

#[test]
fn generator_is_named_by_platform() {
    assert_eq!(generator_program(Platform::Windows), "flutter.bat");
    assert_eq!(generator_program(Platform::Other), "flutter");
}

#[test]
fn generator_runs_in_the_foreground_with_create_and_the_name() {
    let plan = generator_invocation(Platform::Other, "demo_app");
    assert_eq!(plan.program, "flutter");
    assert_eq!(plan.args, vec!["create", "demo_app"]);
    assert_eq!(plan.cwd, None);
    assert_eq!(plan.mode, Mode::Foreground);
    assert!(!plan.no_window);

    let plan = generator_invocation(Platform::Windows, "my app");
    assert_eq!(plan.program, "flutter.bat");
    assert_eq!(plan.args, vec!["create", "my app"]);
    assert_eq!(plan.cwd, None);
    assert_eq!(plan.mode, Mode::Foreground);
    assert!(!plan.no_window);
}

#[test]
fn editor_opens_the_project_in_the_background() {
    let plan = editor_invocation(Platform::Other, "nvim", "demo_app");
    assert_eq!(plan.program, "nvim");
    assert_eq!(plan.args, vec!["."]);
    assert_eq!(plan.cwd, Some("demo_app".to_string()));
    assert_eq!(plan.mode, Mode::Background);
    assert!(!plan.no_window);
}

#[test]
fn editor_on_windows_differs_in_the_console_window_alone() {
    let plan = editor_invocation(Platform::Windows, "code", "demo_app");
    assert_eq!(plan.program, "code");
    assert_eq!(plan.args, vec!["."]);
    assert_eq!(plan.cwd, Some("demo_app".to_string()));
    assert_eq!(plan.mode, Mode::Background);
    assert!(plan.no_window);
}

#[test]
fn editor_plan_does_not_pass_the_project_as_an_argument() {
    for platform in [Platform::Windows, Platform::Other] {
        let plan = editor_invocation(platform, "my editor", "some dir/app");
        assert_eq!(plan.program, "my editor");
        assert_eq!(plan.args, vec!["."]);
        assert_eq!(plan.cwd, Some("some dir/app".to_string()));
        assert_eq!(plan.mode, Mode::Background);
    }
}

#[test]
fn three_faults_are_fatal() {
    assert!(Fault::Prompt.is_fatal());
    assert!(Fault::GeneratorLaunch.is_fatal());
    assert!(Fault::Filesystem.is_fatal());
    assert!(!Fault::GeneratorFailure.is_fatal());
    assert!(!Fault::EditorLaunch.is_fatal());
}

#[test]
fn a_run_fails_for_a_fatal_fault_only() {
    assert_eq!(Outcome::of_fault(Fault::Prompt), Outcome::Failed(Fault::Prompt));
    assert_eq!(Outcome::of_fault(Fault::GeneratorLaunch), Outcome::Failed(Fault::GeneratorLaunch));
    assert_eq!(Outcome::of_fault(Fault::Filesystem), Outcome::Failed(Fault::Filesystem));
    assert_eq!(Outcome::of_fault(Fault::GeneratorFailure), Outcome::Completed);
    assert_eq!(Outcome::of_fault(Fault::EditorLaunch), Outcome::Completed);
    assert!(Outcome::Completed.is_success());
    assert!(!Outcome::Failed(Fault::Filesystem).is_success());
}
