//! Tests of dependency-token parsing and the `DependsEntry` type.

use eso_addon_manifest::{AddonManifestParser, DependsEntry, ManifestError};

#[test]
fn test_default() {
    AddonManifestParser::default();
}

#[test]
fn test_depends_ne_version_none() {
    assert_ne!(
        DependsEntry {
            title: "".to_string(),
            version: Some(1)
        },
        DependsEntry {
            title: "".to_string(),
            version: None
        }
    );
}

#[test]
fn test_parse_depend_single() {
    let parser = AddonManifestParser::default();
    let (entries, errors) = parser.parse_depends("DependsOn", "LibLibrary");
    assert_eq!(
        vec![DependsEntry {
            title: "LibLibrary".to_string(),
            version: None,
        }],
        entries
    );
    assert!(errors.is_empty());
}

#[test]
fn test_parse_depend_multiple() {
    let parser = AddonManifestParser::default();
    let (entries, errors) = parser.parse_depends("DependsOn", "LibLibrary LibOther");
    assert_eq!(
        vec![
            DependsEntry {
                title: "LibLibrary".to_string(),
                version: None,
            },
            DependsEntry {
                title: "LibOther".to_string(),
                version: None,
            },
        ],
        entries
    );
    assert!(errors.is_empty());
}

#[test]
fn test_parse_depend_version() {
    let parser = AddonManifestParser::default();
    let (entries, errors) = parser.parse_depends("DependsOn", "LibLibrary>=20");
    assert_eq!(
        vec![DependsEntry {
            title: "LibLibrary".to_string(),
            version: Some(20),
        }],
        entries
    );
    assert!(errors.is_empty());
}

#[test]
fn test_parse_depend_version_multiple() {
    let parser = AddonManifestParser::default();
    let (entries, errors) = parser.parse_depends("DependsOn", "LibLibrary>=10 CustomAddon LibOther<=5");
    assert_eq!(
        vec![
            DependsEntry {
                title: "LibLibrary".to_string(),
                version: Some(10),
            },
            DependsEntry {
                title: "CustomAddon".to_string(),
                version: None,
            },
            DependsEntry {
                title: "LibOther".to_string(),
                version: Some(5),
            },
        ],
        entries
    );
    assert!(errors.is_empty());
}

#[test]
fn test_parse_depend_bad_version_records_error() {
    let parser = AddonManifestParser::default();
    let (entries, errors) = parser.parse_depends("DependsOn", "LibLibrary>=x");
    assert!(entries.is_empty());
    assert_eq!(
        vec![ManifestError::InvalidValue(
            "DependsOn".to_string(),
            "LibLibrary>=x".to_string()
        )],
        errors
    );
}

#[test]
fn test_parse_depend_missing_version_records_error() {
    let parser = AddonManifestParser::default();
    let (entries, errors) = parser.parse_depends("OptionalDependsOn", "LibLibrary>=");
    assert!(entries.is_empty());
    assert_eq!(
        vec![ManifestError::InvalidValue(
            "OptionalDependsOn".to_string(),
            "LibLibrary>=".to_string()
        )],
        errors
    );
}

#[test]
fn test_parse_depend_empty_value() {
    let parser = AddonManifestParser::default();
    let (entries, errors) = parser.parse_depends("DependsOn", "");
    assert!(entries.is_empty());
    assert!(errors.is_empty());
}

#[test]
fn test_parse_depend_duplicates_kept() {
    let parser = AddonManifestParser::default();
    let (entries, _) = parser.parse_depends("DependsOn", "Lib Lib");
    assert_eq!(
        vec![
            DependsEntry {
                title: "Lib".to_string(),
                version: None,
            },
            DependsEntry {
                title: "Lib".to_string(),
                version: None,
            },
        ],
        entries
    );
}

#[test]
fn test_parse_depend_version_overflow_records_error() {
    let parser = AddonManifestParser::default();
    let (entries, errors) = parser.parse_depends("DependsOn", "Lib>=4294967296");
    assert!(entries.is_empty());
    assert_eq!(
        vec![ManifestError::InvalidValue(
            "DependsOn".to_string(),
            "Lib>=4294967296".to_string()
        )],
        errors
    );
}

#[test]
fn test_parse_depend_version_max_fits() {
    let parser = AddonManifestParser::default();
    let (entries, errors) = parser.parse_depends("DependsOn", "Lib>=4294967295");
    assert_eq!(
        vec![DependsEntry {
            title: "Lib".to_string(),
            version: Some(4294967295),
        }],
        entries
    );
    assert!(errors.is_empty());
}
