use project_tree::opts::GitignoreOpt;
use project_tree::opts::ProjectTree;
use project_tree::tree::Entry;
use project_tree::tree::Folder;

fn file(name: &str) -> Entry {
    Entry::File { name: name.to_string() }
}

fn dir(name: &str, entries: Vec<Entry>) -> Entry {
    Entry::Dir { name: name.to_string(), folder: Folder { entries, gitignore: None } }
}

fn strings(xs: &[&str]) -> Vec<String> {
    xs.iter().map(|s| s.to_string()).collect()
}

fn run(
    root: &Folder,
    ignore_list: Vec<String>,
    stop_list: Vec<String>,
    prioritise_dirs: bool,
    root_flag: bool,
) -> String {
    run_with_gitignore(
        root,
        ignore_list,
        stop_list,
        prioritise_dirs,
        root_flag,
        GitignoreOpt::GiOff,
    )
}

fn run_with_gitignore(
    root: &Folder,
    ignore_list: Vec<String>,
    stop_list: Vec<String>,
    prioritise_dirs: bool,
    root_flag: bool,
    gitignore: GitignoreOpt,
) -> String {
    let tree = ProjectTree::new(ignore_list, stop_list, prioritise_dirs, gitignore);
    let mut result = tree.scan_folder(root, String::from(""), root_flag).join("\n");
    if root_flag {
        result = format!("project\n{result}");
    }
    result
}

// The representative project structure: files hold the text "test data", so
// the root `.gitignore` parses to that single (harmless) rule.
fn create_test_rust_project() -> Folder {
    Folder {
        entries: vec![
            file(".gitignore"),
            file("Cargo.lock"),
            file("Cargo.toml"),
            file("README.md"),
            dir("src", vec![file("main.rs")]),
            dir("target", vec![dir("debug", vec![]), dir("release", vec![])]),
        ],
        gitignore: Some(strings(&["test data"])),
    }
}

// The same project with a cache directory and a real `.gitignore`.
fn create_test_rust_project_with_gitignore() -> Folder {
    Folder {
        entries: vec![
            file(".gitignore"),
            dir("cache", vec![file("cache_file1.dat"), file("cache_file2.dat")]),
            file("Cargo.lock"),
            file("Cargo.toml"),
            file("README.md"),
            dir("src", vec![file("main.rs")]),
            dir("target", vec![dir("debug", vec![]), dir("release", vec![])]),
        ],
        gitignore: Some(strings(&["/target", "cache"])),
    }
}

#[test]
fn test_basic_usage() {
    let project = create_test_rust_project();
    let tree = run(&project, strings(&[]), strings(&[]), false, false);
    assert_eq!(
        tree,
        "\
.gitignore
Cargo.lock
Cargo.toml
README.md
src/
│   └── main.rs
target/
    ├── debug/
    └── release/"
    );
}

#[test]
fn test_prioritise_dirs() {
    let project = create_test_rust_project();
    let tree = run(&project, strings(&[]), strings(&[]), true, false);
    assert_eq!(
        tree,
        "\
src/
│   └── main.rs
target/
│   ├── debug/
│   └── release/
.gitignore
Cargo.lock
Cargo.toml
README.md"
    );
}

#[test]
fn test_stop() {
    let project = create_test_rust_project();
    let tree = run(&project, strings(&[]), strings(&["target"]), false, false);
    assert_eq!(
        tree,
        "\
.gitignore
Cargo.lock
Cargo.toml
README.md
src/
│   └── main.rs
target/"
    );
}

#[test]
fn test_root() {
    let project = create_test_rust_project();
    let tree = run(&project, strings(&[]), strings(&["target"]), false, true);
    assert_eq!(
        tree,
        "\
project
├── .gitignore
├── Cargo.lock
├── Cargo.toml
├── README.md
├── src/
│   └── main.rs
└── target/"
    );
}

#[test]
fn test_ignore_absolute() {
    let project = create_test_rust_project();
    let tree = run(
        &project,
        strings(&["./src/main.rs"]),
        strings(&["./target"]),
        false,
        true,
    );
    assert_eq!(
        tree,
        "\
project
├── .gitignore
├── Cargo.lock
├── Cargo.toml
├── README.md
├── src/
└── target/"
    );
}

#[test]
fn test_ignore_absolute_no_dot() {
    let project = create_test_rust_project();
    let tree = run(
        &project,
        strings(&["src/main.rs"]),
        strings(&["target"]),
        false,
        true,
    );
    assert_eq!(
        tree,
        "\
project
├── .gitignore
├── Cargo.lock
├── Cargo.toml
├── README.md
├── src/
└── target/"
    );
}

#[test]
fn test_ignore_relative() {
    let project = create_test_rust_project();
    let tree = run(
        &project,
        strings(&["main.rs", "Cargo.lock"]),
        strings(&["target"]),
        false,
        true,
    );
    assert_eq!(
        tree,
        "\
project
├── .gitignore
├── Cargo.toml
├── README.md
├── src/
└── target/"
    );
}

#[test]
fn test_gitignore_dim_and_stop() {
    let project = create_test_rust_project_with_gitignore();
    let tree = run_with_gitignore(
        &project,
        strings(&[]),
        strings(&[]),
        false,
        true,
        GitignoreOpt::GiDimAndStop,
    );
    assert_eq!(
        tree,
        "\
project
├── .gitignore
├── \u{1b}[2mcache\u{1b}[0m/
├── Cargo.lock
├── Cargo.toml
├── README.md
├── src/
│   └── main.rs
└── \u{1b}[2mtarget\u{1b}[0m/"
    );
}

#[test]
fn test_gitignore_stop() {
    let project = create_test_rust_project_with_gitignore();
    let tree = run_with_gitignore(
        &project,
        strings(&[]),
        strings(&[]),
        false,
        true,
        GitignoreOpt::GiStop,
    );
    assert_eq!(
        tree,
        "\
project
├── .gitignore
├── cache/
├── Cargo.lock
├── Cargo.toml
├── README.md
├── src/
│   └── main.rs
└── target/"
    );
}

#[test]
fn test_gitignore_ignore() {
    let project = create_test_rust_project_with_gitignore();
    let tree = run_with_gitignore(
        &project,
        strings(&[]),
        strings(&[]),
        false,
        true,
        GitignoreOpt::GiIgnore,
    );
    assert_eq!(
        tree,
        "\
project
├── .gitignore
├── Cargo.lock
├── Cargo.toml
├── README.md
└── src/
    └── main.rs"
    );
}

#[test]
fn test_gitignore_dim() {
    let project = create_test_rust_project_with_gitignore();
    let tree = run_with_gitignore(
        &project,
        strings(&[]),
        strings(&[]),
        false,
        true,
        GitignoreOpt::GiDim,
    );
    assert_eq!(
        tree,
        "\
project
├── .gitignore
├── \u{1b}[2mcache\u{1b}[0m/
│   \u{1b}[2m├── cache_file1.dat\u{1b}[0m
│   \u{1b}[2m└── cache_file2.dat\u{1b}[0m
├── Cargo.lock
├── Cargo.toml
├── README.md
├── src/
│   └── main.rs
└── \u{1b}[2mtarget\u{1b}[0m/
    \u{1b}[2m├── debug/\u{1b}[0m
    \u{1b}[2m└── release/\u{1b}[0m"
    );
}

#[test]
fn test_all_together() {
    let project = create_test_rust_project_with_gitignore();
    let tree = run_with_gitignore(
        &project,
        strings(&["cache", ".gitignore"]),
        strings(&["./target"]),
        true,
        true,
        GitignoreOpt::GiDim,
    );
    assert_eq!(
        tree,
        "\
project
├── src/
│   └── main.rs
├── \u{1b}[2mtarget\u{1b}[0m/
├── Cargo.lock
├── Cargo.toml
└── README.md"
    );
}

// The three spellings of one ignore pattern exclude the same entry and give
// identical output.
#[test]
fn test_ignore_pattern_forms_equivalent() {
    let project = create_test_rust_project();
    let with_dot = run(
        &project,
        strings(&["./src/main.rs"]),
        strings(&[]),
        false,
        true,
    );
    let without_dot = run(&project, strings(&["src/main.rs"]), strings(&[]), false, true);
    let bare = run(&project, strings(&["main.rs"]), strings(&[]), false, true);
    assert_eq!(with_dot, without_dot);
    assert_eq!(without_dot, bare);
    assert!(!with_dot.contains("main.rs"));
}

// A nested `.gitignore` fully replaces the inherited ruleset: a name the root
// rules ignore is visible again inside a subdirectory with its own rules.
#[test]
fn test_gitignore_scope_override_not_merge() {
    let sub = Entry::Dir {
        name: "sub".to_string(),
        folder: Folder {
            entries: vec![file(".gitignore"), file("cache")],
            gitignore: Some(strings(&["other"])),
        },
    };
    let project = Folder {
        entries: vec![file("cache"), sub],
        gitignore: Some(strings(&["cache"])),
    };
    let tree = run_with_gitignore(
        &project,
        strings(&[]),
        strings(&[]),
        false,
        false,
        GitignoreOpt::GiIgnore,
    );
    assert_eq!(
        tree,
        "\
sub/
    ├── .gitignore
    └── cache"
    );
}

// Dimming a line that already holds styling re-arms the dim style after the
// inner reset sequence.
#[test]
fn test_dim_wraps_nested_styles() {
    let project = Folder {
        entries: vec![
            dir("cache", vec![file("inner.txt"), file("plain.txt")]),
            file("note.txt"),
        ],
        gitignore: Some(strings(&["cache", "inner.txt"])),
    };
    let tree = run_with_gitignore(
        &project,
        strings(&[]),
        strings(&[]),
        false,
        false,
        GitignoreOpt::GiDim,
    );
    assert_eq!(
        tree,
        "\
\u{1b}[2mcache\u{1b}[0m/
│   \u{1b}[2m├── \u{1b}[2minner.txt\u{1b}[0m\u{1b}[2m\u{1b}[0m
│   \u{1b}[2m└── plain.txt\u{1b}[0m
note.txt"
    );
}

// A line that cannot be parsed as a gitignore rule is skipped; the remaining
// rules still apply.
#[test]
fn test_unparsable_gitignore_line_skipped() {
    let project = Folder {
        entries: vec![dir("cache", vec![file("junk.dat")]), file("keep.txt")],
        gitignore: Some(strings(&["a[z-a]", "cache"])),
    };
    let tree = run_with_gitignore(
        &project,
        strings(&[]),
        strings(&[]),
        false,
        false,
        GitignoreOpt::GiIgnore,
    );
    assert_eq!(tree, "keep.txt");
}

// A directory with no surviving children is still entered and still renders
// its own line with the trailing separator.
#[test]
fn test_empty_directory_listed() {
    let project = Folder {
        entries: vec![dir("empty", vec![]), file("a.txt")],
        gitignore: None,
    };
    let tree = run(&project, strings(&[]), strings(&[]), false, false);
    assert_eq!(tree, "empty/\na.txt");
}

// With connectors drawn, a single entry carries the terminal connector.
#[test]
fn test_single_entry_terminal_connector() {
    let project = Folder { entries: vec![file("only.txt")], gitignore: None };
    let tree = run(&project, strings(&[]), strings(&[]), false, true);
    assert_eq!(tree, "project\n└── only.txt");
}

// A stopped directory keeps its line and separator whatever it holds.
#[test]
fn test_stop_keeps_line_drops_descendants() {
    let project = Folder {
        entries: vec![dir("deep", vec![dir("a", vec![file("b")]), file("c")])],
        gitignore: None,
    };
    let tree = run(&project, strings(&[]), strings(&["deep"]), false, false);
    assert_eq!(tree, "deep/");
}

#[test]
fn test_gitignore_opt_flags() {
    assert!(!GitignoreOpt::GiOff.is_enabled());
    assert!(GitignoreOpt::GiIgnore.is_enabled());
    assert!(GitignoreOpt::GiStop.is_enabled());
    assert!(GitignoreOpt::GiDim.is_enabled());
    assert!(GitignoreOpt::GiDimAndStop.is_enabled());

    assert!(GitignoreOpt::GiIgnore.should_ignore());
    assert!(!GitignoreOpt::GiDim.should_ignore());

    assert!(GitignoreOpt::GiDim.should_dim());
    assert!(GitignoreOpt::GiDimAndStop.should_dim());
    assert!(!GitignoreOpt::GiStop.should_dim());

    assert!(GitignoreOpt::GiStop.should_stop());
    assert!(GitignoreOpt::GiDimAndStop.should_stop());
    assert!(!GitignoreOpt::GiDim.should_stop());
}

// The caller's prefix is attached to every line.
#[test]
fn test_caller_prefix_attached() {
    let project = Folder { entries: vec![file("a"), file("b")], gitignore: None };
    let tree = ProjectTree::new(strings(&[]), strings(&[]), false, GitignoreOpt::GiOff);
    let lines = tree.scan_folder(&project, String::from(">> "), false);
    assert_eq!(lines, vec![">> a".to_string(), ">> b".to_string()]);
}
