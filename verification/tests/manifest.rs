//! Tests of line classification, directive dispatch, full validation and
//! domain equality.

use eso_addon_manifest::{AddonManifest, AddonManifestParser, DependsEntry, LineType, ManifestError};

fn parse_all(lines: &[&str], full_validate: bool) -> AddonManifest {
    let parser = AddonManifestParser::default();
    let owned: Vec<String> = lines.iter().map(|l| l.to_string()).collect();
    parser.parse_lines(&owned, full_validate)
}

#[test]
fn test_from_line_classification() {
    assert_eq!(LineType::Directive, LineType::from_line("## Title: X"));
    assert_eq!(LineType::Comment, LineType::from_line("# a comment"));
    assert_eq!(LineType::Comment, LineType::from_line("; also a comment"));
    assert_eq!(LineType::Comment, LineType::from_line("##NoSpace"));
    assert_eq!(LineType::Blank, LineType::from_line(""));
    assert_eq!(LineType::Blank, LineType::from_line(" \t  "));
    assert_eq!(LineType::Data, LineType::from_line("free form trailing text"));
}

#[test]
fn test_title_directive() {
    let result = parse_all(&["## Title: SomeTitle"], false);
    assert_eq!("SomeTitle".to_string(), result.title);
    assert!(result.errors.is_empty());
    assert!(result.warnings.is_empty());
}

#[test]
fn test_title_last_wins() {
    let result = parse_all(&["## Title: First", "## Title: Second"], false);
    assert_eq!("Second".to_string(), result.title);
    assert!(result.errors.is_empty());
}

#[test]
fn test_author_last_wins() {
    let result = parse_all(&["## Author: One", "## Author: Two"], false);
    assert_eq!("Two".to_string(), result.author);
    assert!(result.errors.is_empty());
}

#[test]
fn test_validate_runs_on_record() {
    let parser = AddonManifestParser::default();
    let mut result = AddonManifest::new();
    result.title = "T".to_string();
    result.api_version = 100003;
    parser.validate(&mut result);
    assert_eq!(
        vec![ManifestError::MissingDirective("Author".to_string())],
        result.errors
    );
}

#[test]
fn test_depends_on_accumulates() {
    let result = parse_all(&["## DependsOn: LibA", "## DependsOn: LibB"], false);
    assert_eq!(
        vec![
            DependsEntry {
                title: "LibA".to_string(),
                version: None,
            },
            DependsEntry {
                title: "LibB".to_string(),
                version: None,
            },
        ],
        result.depends_on
    );
    assert!(result.errors.is_empty());
}

#[test]
fn test_parse_line_depends() {
    let parser = AddonManifestParser::default();
    let mut result = AddonManifest::new();
    parser.parse_line("## DependsOn: LibLibrary", &mut result, false);
    let mut expected = AddonManifest::new();
    expected.depends_on = vec![DependsEntry {
        title: "LibLibrary".to_string(),
        version: None,
    }];
    assert!(result.domain_eq(&expected));
}

#[test]
fn test_parse_lines() {
    let result = parse_all(
        &[
            "## Title: LibLibrary",
            "## DependsOn: CustomLib>=4 OtherLib",
            "## Version: 1.20",
            "## AddOnVersion: 27",
            "## APIVersion: 101000 101001",
            "## Author: TheAuthor",
        ],
        false,
    );
    let mut expected = AddonManifest::new();
    expected.title = "LibLibrary".to_string();
    expected.depends_on = vec![
        DependsEntry {
            title: "CustomLib".to_string(),
            version: Some(4),
        },
        DependsEntry {
            title: "OtherLib".to_string(),
            version: None,
        },
    ];
    expected.version = Some("1.20".to_string());
    expected.addon_version = Some(27);
    expected.api_version = 101000;
    expected.api_version_2 = Some(101001);
    expected.author = "TheAuthor".to_string();
    assert!(result.domain_eq(&expected));
    assert!(result.errors.is_empty());
    assert!(result.warnings.is_empty());
}

#[test]
fn test_full_validation_empty_stream() {
    let result = parse_all(&[], true);
    assert_eq!(
        vec![
            ManifestError::MissingDirective("Title".to_string()),
            ManifestError::MissingDirective("Author".to_string()),
            ManifestError::ApiMinimumVersion(0),
        ],
        result.errors
    );
    assert!(result.warnings.is_empty());
}

#[test]
fn test_no_validation_when_off() {
    let result = parse_all(&[], false);
    assert!(result.errors.is_empty());
    assert!(result.warnings.is_empty());
}

#[test]
fn test_comment_length() {
    let parser = AddonManifestParser::default();
    let mut result = AddonManifest::new();
    let comment = format!("#{}", "x".repeat(1024));
    assert_eq!(1025, comment.chars().count());
    parser.parse_line(&comment, &mut result, true);
    assert_eq!(vec![ManifestError::CommentLength(1025)], result.errors);
    assert!(result.warnings.is_empty());
}

#[test]
fn test_comment_length_not_checked_without_full_validation() {
    let parser = AddonManifestParser::default();
    let mut result = AddonManifest::new();
    let comment = format!("#{}", "x".repeat(1024));
    parser.parse_line(&comment, &mut result, false);
    assert!(result.errors.is_empty());
}

#[test]
fn test_line_length() {
    let parser = AddonManifestParser::default();
    let mut result = AddonManifest::new();
    let value = "a".repeat(291);
    let line = format!("## Author: {}", value);
    assert_eq!(302, line.len());
    parser.parse_line(&line, &mut result, true);
    assert_eq!(vec![ManifestError::LineLength(302)], result.errors);
    assert_eq!(value, result.author);
}

#[test]
fn test_line_length_not_checked_without_full_validation() {
    let parser = AddonManifestParser::default();
    let mut result = AddonManifest::new();
    let line = format!("## Author: {}", "a".repeat(291));
    parser.parse_line(&line, &mut result, false);
    assert!(result.errors.is_empty());
}

#[test]
fn test_title_length() {
    let parser = AddonManifestParser::default();
    let mut result = AddonManifest::new();
    let value = "t".repeat(65);
    let line = format!("## Title: {}", value);
    parser.parse_line(&line, &mut result, true);
    assert_eq!(vec![ManifestError::TitleLength(65)], result.errors);
    assert_eq!(value, result.title);
}

#[test]
fn test_unmapped_directive() {
    let result = parse_all(&["## Credits: SomeName"], false);
    assert_eq!(
        vec![ManifestError::UnmappedDirective("SomeName".to_string())],
        result.warnings
    );
    assert!(result.errors.is_empty());
    assert!(result.domain_eq(&AddonManifest::new()));
}

#[test]
fn test_invalid_directive() {
    let result = parse_all(&["## NoSeparator"], false);
    assert_eq!(
        vec![ManifestError::InvalidDirective("## NoSeparator".to_string())],
        result.errors
    );
}

#[test]
fn test_api_version_single() {
    let result = parse_all(&["## APIVersion: 101037"], false);
    assert_eq!(101037, result.api_version);
    assert_eq!(None, result.api_version_2);
    assert!(result.errors.is_empty());
}

#[test]
fn test_api_version_two_values() {
    let result = parse_all(&["## APIVersion: 100026 100027"], false);
    assert_eq!(100026, result.api_version);
    assert_eq!(Some(100027), result.api_version_2);
    assert!(result.errors.is_empty());
}

#[test]
fn test_api_version_invalid_records_error() {
    let result = parse_all(&["## APIVersion: abc"], false);
    assert_eq!(0, result.api_version);
    assert_eq!(
        vec![ManifestError::InvalidValue(
            "APIVersion".to_string(),
            "abc".to_string()
        )],
        result.errors
    );
}

#[test]
fn test_api_version_second_invalid_records_error() {
    let result = parse_all(&["## APIVersion: 101000 xyz"], false);
    assert_eq!(101000, result.api_version);
    assert_eq!(None, result.api_version_2);
    assert_eq!(
        vec![ManifestError::InvalidValue(
            "APIVersion".to_string(),
            "xyz".to_string()
        )],
        result.errors
    );
}

#[test]
fn test_addon_version_invalid_records_error() {
    let result = parse_all(&["## AddOnVersion: 1.2"], false);
    assert_eq!(None, result.addon_version);
    assert_eq!(
        vec![ManifestError::InvalidValue(
            "AddOnVersion".to_string(),
            "1.2".to_string()
        )],
        result.errors
    );
}

#[test]
fn test_is_library_values() {
    let result = parse_all(&["## IsLibrary: true"], false);
    assert_eq!(Some(true), result.is_library);
    let result = parse_all(&["## IsLibrary: false"], false);
    assert_eq!(Some(false), result.is_library);
}

#[test]
fn test_is_library_invalid_records_error() {
    let result = parse_all(&["## IsLibrary: yes"], false);
    assert_eq!(None, result.is_library);
    assert_eq!(
        vec![ManifestError::InvalidValue(
            "IsLibrary".to_string(),
            "yes".to_string()
        )],
        result.errors
    );
}

#[test]
fn test_malformed_directive_does_not_stop_parse() {
    let result = parse_all(
        &["## APIVersion: abc", "## Title: StillParsed"],
        false,
    );
    assert_eq!("StillParsed".to_string(), result.title);
    assert_eq!(1, result.errors.len());
}

#[test]
fn test_validation_minimum_api_version() {
    let result = parse_all(
        &["## Title: T", "## Author: A", "## APIVersion: 100002"],
        true,
    );
    assert_eq!(vec![ManifestError::ApiMinimumVersion(100002)], result.errors);
    let result = parse_all(
        &["## Title: T", "## Author: A", "## APIVersion: 100003"],
        true,
    );
    assert!(result.errors.is_empty());
}

#[test]
fn test_domain_eq_ignores_diagnostics() {
    let mut a = AddonManifest::new();
    a.title = "Same".to_string();
    a.errors.push(ManifestError::Unknown);
    a.warnings.push(ManifestError::Encoding);
    let mut b = AddonManifest::new();
    b.title = "Same".to_string();
    assert!(a.domain_eq(&b));
    assert!(b.domain_eq(&a));
    b.title = "Other".to_string();
    assert!(!a.domain_eq(&b));
}

#[test]
fn test_data_lines_ignored() {
    let result = parse_all(&["free text", "more: text", "   ", "## Title: T"], false);
    assert_eq!("T".to_string(), result.title);
    assert!(result.errors.is_empty());
    assert!(result.warnings.is_empty());
}
