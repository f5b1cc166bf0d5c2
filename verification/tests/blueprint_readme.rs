use devrs::commands::blueprint::info::{extract_title_and_description, extract_usage_from_readme};
use devrs::commands::blueprint::list::extract_description_from_readme;

#[test]
fn test_extract_title_and_description_parsing() {
    let readme1 = "# Title\n\nDesc line 1.\nDesc line 2.\n\n## Next";
    let (t1, d1) = extract_title_and_description(readme1);
    assert_eq!(t1, "Title");
    assert_eq!(d1, "Desc line 1. Desc line 2.");

    let readme2 = "# Only Title\n\n## Section";
    let (t2, d2) = extract_title_and_description(readme2);
    assert_eq!(t2, "Only Title");
    assert!(d2.contains("No description available"));

    let readme3 = "No title line.\nFirst paragraph.";
    let (t3, d3) = extract_title_and_description(readme3);
    assert!(t3.contains("Blueprint Information"));
    assert_eq!(d3, "No title line. First paragraph.");

    let readme4 = "First line\n# Title Later\n\nDesc after title";
    let (t4, d4) = extract_title_and_description(readme4);
    assert_eq!(t4, "Title Later");
    assert_eq!(d4, "Desc after title");

    let readme5 = "# Title\n\n    Indented paragraph.\n";
    let (t5, d5) = extract_title_and_description(readme5);
    assert_eq!(t5, "Title");
    assert_eq!(d5, "Indented paragraph.");
}

#[test]
fn test_extract_usage_from_readme_parsing() {
    let readme1 = "# Title\n\nDesc.\n\n## Usage\nRun this.\nThen that.\n\n## Other";
    assert_eq!(
        extract_usage_from_readme(readme1),
        Some("Run this.\nThen that.".to_string())
    );

    let readme2 = "# Title\n\n## Installation\nInstall A.\nInstall B.\n### Sub Section\nMore details\n## Next Section\nfoo";
    assert_eq!(
        extract_usage_from_readme(readme2),
        Some("Install A.\nInstall B.\n### Sub Section\nMore details".to_string())
    );

    let readme3 = "# Title\n\n## Features\nFeature list.";
    assert_eq!(extract_usage_from_readme(readme3), None);

    let readme4 = "# Title\n\n## Usage\nLine1\n\nLine2 after empty\n\n## Build\nBuild step.";
    assert_eq!(
        extract_usage_from_readme(readme4),
        Some("Line1\n\nLine2 after empty".to_string())
    );

    let readme5 = "# Title\n## Getting Started\nStep 1\n```bash\ncode example\n```\nStep 2";
    assert_eq!(
        extract_usage_from_readme(readme5),
        Some("Step 1\n```bash\ncode example\n```\nStep 2".to_string())
    );

    let readme6 = "# Title\n## Usage Instructions\nUse it wisely.";
    assert_eq!(
        extract_usage_from_readme(readme6),
        Some("Use it wisely.".to_string())
    );

    let readme7 = "# Title\n## Usage\n\n## Next Section";
    assert_eq!(extract_usage_from_readme(readme7), None);

    let readme8 = "# Title\n## Running\nRun command foo\n";
    assert_eq!(extract_usage_from_readme(readme8), Some("Run command foo".to_string()));
}

#[test]
fn test_extract_description_from_readme_logic() {
    let readme1 = "# Title\n\nThis is the description.\nMore text.\n\n## Next Section";
    assert_eq!(
        extract_description_from_readme(readme1),
        Some("This is the description. More text.".to_string())
    );
    let readme2 = "# Title\nDescription line.\n## Next";
    assert_eq!(
        extract_description_from_readme(readme2),
        Some("Description line.".to_string())
    );
    let readme3 = "# Title\n\n## First Section\nSome content here first.";
    assert_eq!(
        extract_description_from_readme(readme3),
        Some("Some content here first.".to_string())
    );
    let long_desc = "This is a very long description designed to test the truncation logic which should limit the output to eighty characters including the ellipsis.";
    let readme4 = format!("# Title\n\n{}\n\n## Next", long_desc);
    let expected_truncated =
        "This is a very long description designed to test the truncation logic which s...";
    assert_eq!(
        extract_description_from_readme(&readme4),
        Some(expected_truncated.to_string())
    );
    let readme5 = "# Title\n\n## Section1\n## Section2";
    assert_eq!(extract_description_from_readme(readme5), None);
    let readme6 = "";
    assert_eq!(extract_description_from_readme(readme6), None);
    let readme7 = "First line of content.\nSecond line.";
    assert_eq!(
        extract_description_from_readme(readme7),
        Some("First line of content. Second line.".to_string())
    );
    let readme8 = "# Only Title";
    assert_eq!(extract_description_from_readme(readme8), None);
    let readme9 = "# Title\n## Section";
    assert_eq!(extract_description_from_readme(readme9), None);
}

#[test]
fn usage_section_keeps_deeper_headings_and_indentation() {
    let readme = "## Setup\n\n  indented step\n#### deep\n### Building\nx\n\n\n## After";
    assert_eq!(
        extract_usage_from_readme(readme),
        Some("  indented step\n#### deep\n### Building\nx".to_string())
    );
}

#[test]
fn usage_heading_match_ignores_case_and_crlf_lines() {
    let readme = "# T\r\n## USAGE\r\nstep one\r\n";
    assert_eq!(extract_usage_from_readme(readme), Some("step one".to_string()));
}

#[test]
fn title_strips_repeated_markers_and_description_falls_back_before_title() {
    let (t, d) = extract_title_and_description("intro\n# # Deep Title");
    assert_eq!(t, "Deep Title");
    assert_eq!(d, "intro");
}

#[test]
fn description_exactly_eighty_chars_is_kept() {
    let line = "a".repeat(80);
    assert_eq!(extract_description_from_readme(&line), Some(line.clone()));
    let longer = "b".repeat(81);
    assert_eq!(
        extract_description_from_readme(&longer),
        Some(format!("{}...", "b".repeat(77)))
    );
}
