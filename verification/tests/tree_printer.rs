use devrs::commands::blueprint::utils::tree_printer::{
    arrange_entries, check_tree_root, print_directory_tree_to_string, TreeEntry, WalkStep,
};
use std::collections::HashMap;

fn entry(dir: &str, name: &str, is_dir: bool) -> TreeEntry {
    let path = format!("{}/{}", dir, name);
    TreeEntry { name: name.to_string(), is_dir, canonical: Some(path.clone()), path }
}

/// Draws an in-memory tree: `dirs` maps a directory's path to its entries.
fn draw(root: &str, display: &str, dirs: &HashMap<String, Vec<TreeEntry>>) -> String {
    let mut walk = match print_directory_tree_to_string(root, true, true, display, Some(root.to_string())) {
        Ok(w) => w,
        Err(m) => panic!("{}", m),
    };
    walk.enter(&dirs[root]);
    loop {
        match walk.advance() {
            WalkStep::Read(path) => walk.enter(dirs.get(&path).unwrap_or(&Vec::new())),
            WalkStep::Continue => {}
            WalkStep::Finished => break,
        }
    }
    walk.output().clone()
}

#[test]
fn test_print_directory_tree_nonexistent() {
    let result = check_tree_root("/path/that/absolutely/does/not/exist", false, false);
    assert!(result.is_err());
    assert!(result.unwrap_err().contains("does not exist"));
}

#[test]
fn test_print_directory_tree_file_as_root() {
    let result = check_tree_root("a_file.txt", true, false);
    assert_eq!(result.unwrap_err(), "Cannot print tree: Path 'a_file.txt' is not a directory.");
    assert!(check_tree_root("dir", true, true).is_ok());
}

#[test]
fn test_print_directory_tree_to_string_basic() {
    let mut dirs = HashMap::new();
    dirs.insert(
        "/p".to_string(),
        vec![
            entry("/p", "Cargo.toml", false),
            entry("/p", "src", true),
            entry("/p", "tests", true),
            entry("/p", ".gitignore", false),
            entry("/p", ".git", true),
        ],
    );
    dirs.insert("/p/src".to_string(), vec![entry("/p/src", "main.rs", false)]);
    dirs.insert(
        "/p/tests".to_string(),
        vec![entry("/p/tests", "mod.rs", false), entry("/p/tests", "integration.rs", false)],
    );
    let tree = draw("/p", "test-project", &dirs);
    let expected = "\x1b[1mtest-project/\x1b[0m\n\
├── \x1b[1msrc\x1b[0m\n\
│   └── main.rs\n\
├── \x1b[1mtests\x1b[0m\n\
│   ├── integration.rs\n\
│   └── mod.rs\n\
└── Cargo.toml\n";
    assert_eq!(tree, expected);
    assert!(!tree.contains(".git"));
}

#[test]
fn test_print_directory_tree_empty() {
    let mut dirs = HashMap::new();
    dirs.insert("/e".to_string(), Vec::new());
    let tree = draw("/e", "empty-project", &dirs);
    assert_eq!(tree.trim(), "\x1b[1mempty-project/\x1b[0m");
}

#[test]
fn test_print_directory_tree_symlink_cycle() {
    let mut dirs = HashMap::new();
    dirs.insert("/c".to_string(), vec![entry("/c", "dir1", true)]);
    // `dir1/link_to_root` leads back to the root.
    let link = TreeEntry {
        name: "link_to_root".to_string(),
        is_dir: true,
        path: "/c/dir1/link_to_root".to_string(),
        canonical: Some("/c".to_string()),
    };
    dirs.insert("/c/dir1".to_string(), vec![link]);
    let tree = draw("/c", "cycle-test", &dirs);
    assert_eq!(
        tree,
        "\x1b[1mcycle-test/\x1b[0m\n\
└── \x1b[1mdir1\x1b[0m\n    \
    └── \x1b[1mlink_to_root\x1b[0m\n    \
└──  -> [CYCLE DETECTED]\n"
    );
}

#[test]
fn cycle_marker_drops_trailing_pipes() {
    let mut dirs = HashMap::new();
    dirs.insert("/r".to_string(), vec![entry("/r", "a", true), entry("/r", "b", true)]);
    let back = TreeEntry { name: "up".to_string(), is_dir: true, path: "/r/a/up".to_string(), canonical: Some("/r".to_string()) };
    dirs.insert("/r/a".to_string(), vec![back, entry("/r/a", "z.txt", false)]);
    dirs.insert("/r/b".to_string(), Vec::new());
    let tree = draw("/r", "r", &dirs);
    assert_eq!(
        tree,
        "\x1b[1mr/\x1b[0m\n\
├── \x1b[1ma\x1b[0m\n\
│   ├── \x1b[1mup\x1b[0m\n    \
└──  -> [CYCLE DETECTED]\n\
│   └── z.txt\n\
└── \x1b[1mb\x1b[0m\n"
    );
}

#[test]
fn test_directory_sorting() {
    let raw = vec![
        entry("/d", "file_z.txt", false),
        entry("/d", "dir_c", true),
        entry("/d", "file_a.txt", false),
        entry("/d", "dir_b", true),
        entry("/d", "dir_a", true),
    ];
    let entries = arrange_entries(&raw);
    assert_eq!(entries.len(), 5);
    assert_eq!(entries[0].name, "dir_a");
    assert!(entries[0].is_dir);
    assert_eq!(entries[1].name, "dir_b");
    assert!(entries[1].is_dir);
    assert_eq!(entries[2].name, "dir_c");
    assert!(entries[2].is_dir);
    assert_eq!(entries[3].name, "file_a.txt");
    assert!(!entries[3].is_dir);
    assert_eq!(entries[4].name, "file_z.txt");
    assert!(!entries[4].is_dir);
}

#[test]
fn sorting_is_by_character_code() {
    let raw = vec![entry("/d", "b", false), entry("/d", "B", false), entry("/d", "a", false), entry("/d", "_x", false)];
    let names: Vec<String> = arrange_entries(&raw).into_iter().map(|e| e.name).collect();
    assert_eq!(names, vec!["B", "_x", "a", "b"]);
}

#[test]
fn tree_drawing_refuses_a_missing_root() {
    match print_directory_tree_to_string("/nope", false, false, "nope", None) {
        Err(m) => assert_eq!(m, "Cannot print tree: Path '/nope' does not exist."),
        Ok(_) => panic!("a missing root must be refused"),
    }
}
