use devrs::commands::blueprint::create::navigation_path;
use devrs::commands::blueprint::info::{
    check_blueprint_path, dockerfile_names, info_report, readme_fields,
};
use devrs::commands::blueprint::list::{
    blueprint_table_lines, name_column_width, read_blueprints_from_dir, DirEntryInfo,
};
use devrs::commands::blueprint::utils::project_detector::ProjectInfo;

fn entry(name: &str, is_dir: bool, readme: Option<&str>) -> DirEntryInfo {
    DirEntryInfo { name: name.to_string(), is_dir, readme: readme.map(|r| r.to_string()) }
}

#[test]
fn test_read_blueprints_from_dir_logic() {
    let entries = vec![
        entry("rust-api", true, Some("# Rust API\n\nCreates a Rust web API.")),
        entry("go-cli", true, None),
        entry("python-simple", true, Some("Just a basic python script setup.")),
        entry(".hidden", true, None),
        entry("not-a-dir.txt", false, None),
    ];
    let blueprints = read_blueprints_from_dir(&entries);
    assert_eq!(blueprints.len(), 3);
    assert_eq!(blueprints[0].0, "go-cli");
    assert!(blueprints[0].1.contains("[No README.md or description found]"));
    assert_eq!(blueprints[1].0, "python-simple");
    assert!(blueprints[1].1.contains("Just a basic python script setup"));
    assert_eq!(blueprints[2].0, "rust-api");
    assert!(blueprints[2].1.contains("Creates a Rust web API"));
}

#[test]
fn readme_without_paragraph_gets_placeholder() {
    let entries = vec![entry("b", true, Some("# Title\n## Section")), entry("a", true, Some(""))];
    let blueprints = read_blueprints_from_dir(&entries);
    assert_eq!(blueprints[0], ("a".to_string(), "[No README.md or description found]".to_string()));
    assert_eq!(blueprints[1], ("b".to_string(), "[No README.md or description found]".to_string()));
}

#[test]
fn table_layout() {
    let bps = vec![
        ("go-cli".to_string(), "A CLI.".to_string()),
        ("rust".to_string(), "Rust Project Template".to_string()),
    ];
    assert_eq!(name_column_width(&bps), 10);
    let lines = blueprint_table_lines(&bps, "/bp");
    assert_eq!(
        lines,
        vec![
            "".to_string(),
            "Available Blueprints in '/bp':".to_string(),
            "".to_string(),
            "Name       | Description".to_string(),
            format!("{}-+-{}", "-".repeat(10), "-".repeat(50)),
            "go-cli     | A CLI.".to_string(),
            "rust       | Rust Project Template".to_string(),
            "".to_string(),
            "Found 2 blueprint(s).".to_string(),
            "Use 'devrs blueprint info <Name>' for details or 'devrs blueprint create --lang <Name> ...' to use one.".to_string(),
        ]
    );
}

#[test]
fn table_name_width_is_clamped() {
    let long = "x".repeat(40);
    let bps = vec![(long.clone(), "d".to_string()), ("mid-length-name-here".to_string(), "e".to_string())];
    assert_eq!(name_column_width(&bps), 30);
    let lines = blueprint_table_lines(&bps, "/bp");
    assert_eq!(lines[5], format!("{} | d", long));
    assert_eq!(lines[6], format!("{:<30} | e", "mid-length-name-here"));
    let mid = vec![("abcdefghijklmno".to_string(), "d".to_string())];
    assert_eq!(name_column_width(&mid), 15);
}

#[test]
fn empty_table_explains_how_to_add_blueprints() {
    let lines = blueprint_table_lines(&vec![], "/bp");
    assert_eq!(
        lines,
        vec![
            "",
            "No blueprints found in '/bp'.",
            "",
            "To add blueprints, create subdirectories in this location containing project templates.",
            "Each subdirectory represents one blueprint (e.g., '/bp/rust/').",
        ]
    );
}

#[test]
fn blueprint_path_checks() {
    assert_eq!(check_blueprint_path("rust", "/bp", "/bp/rust", true, true), Ok(()));
    let missing = check_blueprint_path("nonexistent-bp", "/bp", "/bp/nonexistent-bp", false, false);
    assert!(missing.clone().unwrap_err().contains("not found"));
    assert_eq!(
        missing,
        Err("Blueprint 'nonexistent-bp' not found in '/bp'. Run 'devrs blueprint list' to see available blueprints.".to_string())
    );
    assert_eq!(
        check_blueprint_path("f", "/bp", "/bp/f", true, false),
        Err("Path '/bp/f' exists but is not a directory.".to_string())
    );
    assert_eq!(dockerfile_names().len(), 4);
}

#[test]
fn readme_fields_defaults_and_parsing() {
    let (t, d, u) = readme_fields(&None);
    assert_eq!(t, "Blueprint Information");
    assert_eq!(d, "No README.md found.");
    assert_eq!(u, None);
    let (t, d, u) = readme_fields(&Some("# Test BP\n\nDescription here.\n\n## Usage\nRun it.".to_string()));
    assert_eq!(t, "Test BP");
    assert_eq!(d, "Description here.");
    assert_eq!(u, Some("Run it.".to_string()));
}

#[test]
fn info_report_box() {
    let project = ProjectInfo { project_type: "Rust".to_string(), build_system: "Cargo".to_string() };
    let (lines, result) = info_report(
        "test-bp",
        "Test BP",
        "Description here.",
        &project,
        true,
        &Ok("test-bp\n└── src".to_string()),
        &Some("Run it.\n  cargo run  ".to_string()),
    );
    assert_eq!(result, Ok(()));
    assert_eq!(lines[0], "");
    assert_eq!(lines[2], format!("┃ 🔎 Blueprint Details: test-bp {}", " ".repeat(44)));
    assert_eq!(lines[4], "┃ 🏷️  Title:         Test BP");
    assert_eq!(lines[5], "┃ 📝 Description:   Description here.");
    assert_eq!(lines[8], "┃    - Type:          Rust");
    assert_eq!(lines[9], "┃    - Build System:  Cargo");
    assert_eq!(lines[10], "┃    - Docker Support: Yes");
    assert_eq!(lines[13], "┃    test-bp");
    assert_eq!(lines[14], "┃    └── src");
    assert!(lines.contains(&"┃      devrs blueprint create --lang test-bp my-awesome-app".to_string()));
    assert!(lines.contains(&"┃ 📋 Additional Notes (from README.md):".to_string()));
    assert!(lines.contains(&"┃    > Run it.".to_string()));
    assert!(lines.contains(&"┃    >   cargo run".to_string()));
    assert!(lines[lines.len() - 1].starts_with("┗"));
}

#[test]
fn info_report_tree_failure() {
    let project = ProjectInfo::default();
    let (lines, result) = info_report("x", "t", "d", &project, false, &Err("boom".to_string()), &None);
    assert_eq!(lines[10], "┃    - Docker Support: No");
    assert_eq!(lines[lines.len() - 1], "┃    [Error displaying file structure]");
    assert_eq!(result, Err("Failed to display blueprint file structure".to_string()));
}

#[test]
fn navigation_path_is_relative_to_the_current_directory() {
    assert_eq!(navigation_path("/home/u/projects/app", Some("/home/u")), "projects/app");
    assert_eq!(navigation_path("/home/u/app", Some("/home/u/projects")), "../app");
    assert_eq!(navigation_path("/home/u/app", None), "/home/u/app");
}
