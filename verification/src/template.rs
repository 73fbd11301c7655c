//! Registry of directory templates: which directories each architectural
//! style lays out below a project's source root.

use crate::architecture::Architecture;
use vstd::prelude::*;
use vstd::string::StringExecFns;

verus! {

/// The directories of the clean architecture, relative to the source root.
pub open spec fn clean_paths() -> Seq<Seq<char>> {
    seq![
        "core/error"@,
        "core/usecases"@,
        "core/util"@,
        "core/constants"@,
        "data/datasources/local"@,
        "data/datasources/remote"@,
        "data/models"@,
        "data/repositories"@,
        "domain/entities"@,
        "domain/repositories"@,
        "domain/usecases"@,
        "presentation/bloc"@,
        "presentation/pages"@,
        "presentation/widgets"@,
    ]
}

/// The directories of the MVVM architecture, relative to the source root.
pub open spec fn mvvm_paths() -> Seq<Seq<char>> {
    seq![
        "core/constants"@,
        "core/services"@,
        "models"@,
        "views"@,
        "viewmodels"@,
        "widgets"@,
    ]
}

/// The template of a style: its directories, in the order in which they are
/// created.
pub open spec fn template_paths(style: Architecture) -> Seq<Seq<char>> {
    match style {
        Architecture::Clean => clean_paths(),
        Architecture::Mvvm => mvvm_paths(),
    }
}

/// The template of a style as a set: its directories with no regard to
/// order.
pub open spec fn template_set(style: Architecture) -> Set<Seq<char>> {
    match style {
        Architecture::Clean => set![
            "core/error"@,
            "core/usecases"@,
            "core/util"@,
            "core/constants"@,
            "data/datasources/local"@,
            "data/datasources/remote"@,
            "data/models"@,
            "data/repositories"@,
            "domain/entities"@,
            "domain/repositories"@,
            "domain/usecases"@,
            "presentation/bloc"@,
            "presentation/pages"@,
            "presentation/widgets"@,
        ],
        Architecture::Mvvm => set![
            "core/constants"@,
            "core/services"@,
            "models"@,
            "views"@,
            "viewmodels"@,
            "widgets"@,
        ],
    }
}

/// A path is relative when it names something and does not start at the
/// root of the file system.
pub open spec fn is_relative(path: Seq<char>) -> bool {
    path.len() > 0 && path[0] != '/'
}

/// Looks up the directory template of `style`.
pub fn directory_template(style: Architecture) -> (paths: Vec<&'static str>)
    ensures
        paths.deep_view() == template_paths(style),
{
    let paths = match style {
        Architecture::Clean => vec![
            "core/error",
            "core/usecases",
            "core/util",
            "core/constants",
            "data/datasources/local",
            "data/datasources/remote",
            "data/models",
            "data/repositories",
            "domain/entities",
            "domain/repositories",
            "domain/usecases",
            "presentation/bloc",
            "presentation/pages",
            "presentation/widgets",
        ],
        Architecture::Mvvm => vec![
            "core/constants",
            "core/services",
            "models",
            "views",
            "viewmodels",
            "widgets",
        ],
    };
    assert(paths.deep_view() =~= template_paths(style));
    paths
}

/// The path of `folder` below `base`: the two joined by a slash.
pub open spec fn joined(base: Seq<char>, folder: Seq<char>) -> Seq<char> {
    base + seq!['/'] + folder
}

/// Joins `folder` to `base` with a slash.
pub fn join_path(base: &str, folder: &str) -> (path: String)
    ensures
        path@ == joined(base@, folder@),
{
    proof {
        reveal_strlit("/");
        assert("/"@ =~= seq!['/']);
    }
    let mut path = String::from_str(base);
    path.append("/");
    path.append(folder);
    path
}

/// The directories that `style` lays out below `base`: each path of the
/// template joined to `base`, in the template's order.
pub open spec fn folder_paths_below(base: Seq<char>, style: Architecture) -> Seq<Seq<char>> {
    Seq::new(template_paths(style).len(), |i: int| joined(base, template_paths(style)[i]))
}

/// Lists the directories to create below `base` for `style`.
pub fn folder_paths(base: &str, style: Architecture) -> (paths: Vec<String>)
    ensures
        paths.deep_view() == folder_paths_below(base@, style),
{
    let folders = directory_template(style);
    let mut paths: Vec<String> = Vec::new();
    let mut i: usize = 0;
    while i < folders.len()
        invariant
            folders.deep_view() == template_paths(style),
            i <= folders.len(),
            paths.len() == i,
            forall|k: int|
                0 <= k < i ==> (#[trigger] paths[k])@ == joined(base@, template_paths(style)[k]),
        decreases folders.len() - i,
    {
        assert(folders[i as int]@ == folders.deep_view()[i as int]);
        paths.push(join_path(base, folders[i]));
        i = i + 1;
    }
    assert(folders.deep_view().len() == folders.len());
    assert(paths.deep_view() =~= folder_paths_below(base@, style));
    paths
}

/// The template of every style is a set of relative paths that is not
/// empty: it lists no directory twice, and it holds the directories of the
/// style and no others. The clean architecture has 14 directories, MVVM 6.
pub proof fn law_template_is_exact(style: Architecture)
    ensures
        template_paths(style).len() > 0,
        template_paths(style).len() == match style {
            Architecture::Clean => 14nat,
            Architecture::Mvvm => 6nat,
        },
        template_paths(style).no_duplicates(),
        template_paths(style).to_set() == template_set(style),
        forall|i: int|
            0 <= i < template_paths(style).len() ==> is_relative(
                #[trigger] template_paths(style)[i],
            ),
{
    reveal_strlit("core/error");
    reveal_strlit("core/usecases");
    reveal_strlit("core/util");
    reveal_strlit("core/constants");
    reveal_strlit("data/datasources/local");
    reveal_strlit("data/datasources/remote");
    reveal_strlit("data/models");
    reveal_strlit("data/repositories");
    reveal_strlit("domain/entities");
    reveal_strlit("domain/repositories");
    reveal_strlit("domain/usecases");
    reveal_strlit("presentation/bloc");
    reveal_strlit("presentation/pages");
    reveal_strlit("presentation/widgets");
    reveal_strlit("core/services");
    reveal_strlit("models");
    reveal_strlit("views");
    reveal_strlit("viewmodels");
    reveal_strlit("widgets");
    let paths = template_paths(style);
    assert(paths.no_duplicates()) by {
        // Two directories of one template differ in length, but for two
        // pairs of the clean architecture, which differ in a character.
        assert forall|i: int, j: int| 0 <= i < j < paths.len() implies paths[i] != paths[j] by {
            if paths[i].len() == paths[j].len() {
                assert(style == Architecture::Clean);
                assert((i == 8 && j == 10) || (i == 7 && j == 11));
                assert(paths[8][7] != paths[10][7]);
                assert(paths[7][0] != paths[11][0]);
            }
        }
    }
    assert(paths.to_set() =~= template_set(style));
}

} // verus!
