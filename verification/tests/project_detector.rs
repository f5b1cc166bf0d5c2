use devrs::commands::blueprint::utils::project_detector::{
    detect_project_type, ListingEntry, ProjectInfo, ProjectListing,
};

/// The top-level entries that the given relative paths create.
fn listing(paths: &[&str], package_json: Option<&str>) -> ProjectListing {
    let mut names: Vec<String> = Vec::new();
    for p in paths {
        let top = p.split('/').next().unwrap().to_string();
        if !names.contains(&top) {
            names.push(top);
        }
    }
    ProjectListing {
        entries: names.into_iter().map(|name| ListingEntry { name, exists: true }).collect(),
        package_json: package_json.map(|c| c.to_string()),
    }
}

fn info(t: &str, b: &str) -> ProjectInfo {
    ProjectInfo { project_type: t.to_string(), build_system: b.to_string() }
}

#[test]
fn test_detect_rust() {
    assert_eq!(detect_project_type(&listing(&["Cargo.toml", "src/main.rs"], None)), info("Rust", "Cargo"));
}

#[test]
fn test_detect_go() {
    assert_eq!(detect_project_type(&listing(&["go.mod", "main.go"], None)), info("Go", "Go Modules"));
}

#[test]
fn test_detect_nodejs() {
    let c = r#"{"dependencies": {"express": "4.x"}}"#;
    assert_eq!(detect_project_type(&listing(&["package.json"], Some(c))), info("Node.js", "npm/yarn"));
}

#[test]
fn test_detect_frontend_react() {
    let c = r#"{"dependencies": {"react": "18.x"}}"#;
    assert_eq!(
        detect_project_type(&listing(&["package.json"], Some(c))),
        info("Frontend JavaScript/TypeScript", "npm/yarn")
    );
}

#[test]
fn test_detect_frontend_vite() {
    let c = r#"{"devDependencies": {"vite": "3.x"}}"#;
    let i = detect_project_type(&listing(&["package.json"], Some(c)));
    assert!(i.project_type.contains("Node.js") || i.project_type.contains("TypeScript"));
    assert_eq!(i.build_system, "Vite".to_string());
}

#[test]
fn test_detect_python_pip() {
    assert_eq!(detect_project_type(&listing(&["requirements.txt", "app.py"], None)), info("Python", "pip"));
}

#[test]
fn test_detect_python_pyproject() {
    assert_eq!(
        detect_project_type(&listing(&["pyproject.toml", "src/main.py"], None)),
        info("Python", "pyproject/pip")
    );
}

#[test]
fn test_detect_cmake() {
    assert_eq!(detect_project_type(&listing(&["CMakeLists.txt", "src/main.cpp"], None)), info("C/C++", "CMake"));
}

#[test]
fn test_detect_maven() {
    assert_eq!(detect_project_type(&listing(&["pom.xml", "src/main/java/App.java"], None)), info("Java", "Maven"));
}

#[test]
fn test_detect_gradle() {
    assert_eq!(
        detect_project_type(&listing(&["build.gradle", "src/main/kotlin/App.kt"], None)),
        info("Java/Kotlin", "Gradle")
    );
}

#[test]
fn test_detect_fallback_extension() {
    assert_eq!(detect_project_type(&listing(&["main.rb"], None)), info("Ruby", "Unknown (by extension)"));
}

#[test]
fn test_detect_unknown() {
    assert_eq!(
        detect_project_type(&listing(&["README.md", "config.txt", "data.xml"], None)),
        ProjectInfo::default()
    );
}
