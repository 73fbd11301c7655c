use flutter_cli::architecture::Architecture;
use flutter_cli::template::{directory_template, folder_paths, join_path};
use std::collections::BTreeSet;

const CLEAN: [&str; 14] = [
    "core/error",
    "core/usecases",
    "core/util",
    "core/constants",
    "data/datasources/local",
    "data/datasources/remote",
    "data/models",
    "data/repositories",
    "domain/entities",
    "domain/repositories",
    "domain/usecases",
    "presentation/bloc",
    "presentation/pages",
    "presentation/widgets",
];

const MVVM: [&str; 6] =
    ["core/constants", "core/services", "models", "views", "viewmodels", "widgets"];

#[test]
fn clean_template_is_the_exact_set() {
    let paths = directory_template(Architecture::Clean);
    assert_eq!(paths.len(), 14);
    let got: BTreeSet<&str> = paths.iter().copied().collect();
    let want: BTreeSet<&str> = CLEAN.iter().copied().collect();
    assert_eq!(got, want);
    assert_eq!(got.len(), 14);
}

#[test]
fn mvvm_template_is_the_exact_set() {
    let paths = directory_template(Architecture::Mvvm);
    assert_eq!(paths.len(), 6);
    let got: BTreeSet<&str> = paths.iter().copied().collect();
    let want: BTreeSet<&str> = MVVM.iter().copied().collect();
    assert_eq!(got, want);
    assert_eq!(got.len(), 6);
}

#[test]
fn templates_keep_their_order() {
    assert_eq!(directory_template(Architecture::Clean), CLEAN.to_vec());
    assert_eq!(directory_template(Architecture::Mvvm), MVVM.to_vec());
}

#[test]
fn every_template_path_is_relative() {
    for style in Architecture::all() {
        let paths = directory_template(style);
        assert!(!paths.is_empty());
        for path in paths {
            assert!(!path.is_empty());
            assert!(!path.starts_with('/'));
        }
    }
}

#[test]
fn join_path_puts_one_slash_between() {
    assert_eq!(join_path("demo_app/lib", "core/error"), "demo_app/lib/core/error");
    assert_eq!(join_path("", "models"), "/models");
    assert_eq!(join_path("a", ""), "a/");
}

#[test]
fn folder_paths_are_the_template_below_the_base() {
    let paths = folder_paths("demo_app/lib", Architecture::Mvvm);
    assert_eq!(
        paths,
        vec![
            "demo_app/lib/core/constants",
            "demo_app/lib/core/services",
            "demo_app/lib/models",
            "demo_app/lib/views",
            "demo_app/lib/viewmodels",
            "demo_app/lib/widgets",
        ]
    );
    let clean = folder_paths("x", Architecture::Clean);
    assert_eq!(clean.len(), 14);
    for (path, folder) in clean.iter().zip(CLEAN.iter()) {
        assert_eq!(path, &format!("x/{}", folder));
    }
}

#[test]
fn architecture_labels_and_order() {
    assert_eq!(Architecture::Clean.label(), "Clean Architecture");
    assert_eq!(Architecture::Mvvm.label(), "MVVM");
    assert_eq!(Architecture::all(), vec![Architecture::Clean, Architecture::Mvvm]);
}
