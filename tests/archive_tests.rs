//! The archive state machine and the configuration helpers.

use url2ref::archive::{archive_next, parse_archive_timestamp, parse_location_timestamp, ArchiveAction, ArchiveEvent, ArchiveSnapshot, ArchiveState};
use url2ref::attribute::Timestamp;
use url2ref::generator::{check_parsers, AttributeConfig, AttributePriority, ArchiveOptions, MetadataType, ReferenceGenerationError};
use url2ref::archive::archive_target;
use url2ref::attribute::Attribute;

fn options(lookup: bool, create: bool) -> ArchiveOptions {
    ArchiveOptions { include_archived: lookup, perform_archival: create }
}

#[test]
fn no_snapshot_and_no_creation_ends_without_archive() {
    let (next, action) = archive_next(ArchiveState::Querying { after_save: false }, ArchiveEvent::QueryAnswered(None), options(true, false));
    assert_eq!(next, ArchiveState::Done { found: None });
    assert_eq!(action, ArchiveAction::Finish);
}

#[test]
fn archive_skipped_when_not_requested() {
    let (next, action) = archive_next(ArchiveState::Idle, ArchiveEvent::Begin, options(false, true));
    assert_eq!(next, ArchiveState::Done { found: None });
    assert_eq!(action, ArchiveAction::Finish);
}

#[test]
fn query_finds_snapshot() {
    let (state, action) = archive_next(ArchiveState::Idle, ArchiveEvent::Begin, options(true, false));
    assert_eq!(action, ArchiveAction::Query);
    let answer = Some(("http://web.archive.org/web/20240101123456/https://e.x".to_string(), "20240101123456".to_string()));
    let (done, action) = archive_next(state, ArchiveEvent::QueryAnswered(answer), options(true, false));
    assert_eq!(action, ArchiveAction::Finish);
    assert_eq!(
        done,
        ArchiveState::Done {
            found: Some(ArchiveSnapshot {
                url: "http://web.archive.org/web/20240101123456/https://e.x".to_string(),
                timestamp: Timestamp { year: 2024, month: 1, day: 1, hour: 12, minute: 34, second: 56 },
            })
        }
    );
}

#[test]
fn save_then_retry_once() {
    let opts = options(true, true);
    let (state, action) = archive_next(ArchiveState::Querying { after_save: false }, ArchiveEvent::QueryAnswered(None), opts);
    assert_eq!((state.clone(), action), (ArchiveState::Saving, ArchiveAction::Save));
    let (state, action) = archive_next(state, ArchiveEvent::SaveAnswered("https://web.archive.org/blocked".to_string()), opts);
    assert_eq!((state.clone(), action), (ArchiveState::Waiting, ArchiveAction::Wait));
    let (state, action) = archive_next(state, ArchiveEvent::Waited, opts);
    assert_eq!((state.clone(), action), (ArchiveState::Querying { after_save: true }, ArchiveAction::Query));
    let (state, action) = archive_next(state, ArchiveEvent::QueryAnswered(None), opts);
    assert_eq!((state, action), (ArchiveState::Done { found: None }, ArchiveAction::Finish));
}

#[test]
fn save_redirect_gives_timestamp() {
    let location = "https://web.archive.org/web/20240102030405/https://e.x/".to_string();
    let (state, _) = archive_next(ArchiveState::Saving, ArchiveEvent::SaveAnswered(location.clone()), options(true, true));
    assert_eq!(
        state,
        ArchiveState::Done {
            found: Some(ArchiveSnapshot { url: location, timestamp: Timestamp { year: 2024, month: 1, day: 2, hour: 3, minute: 4, second: 5 } })
        }
    );
    let (failed, action) = archive_next(ArchiveState::Saving, ArchiveEvent::Failed, options(true, true));
    assert_eq!((failed, action), (ArchiveState::Done { found: None }, ArchiveAction::Finish));
}

#[test]
fn archive_timestamps() {
    assert_eq!(
        parse_archive_timestamp("20231213235959"),
        Some(Timestamp { year: 2023, month: 12, day: 13, hour: 23, minute: 59, second: 59 })
    );
    assert_eq!(parse_archive_timestamp("20231313000000"), None);
    assert_eq!(parse_archive_timestamp("2023121300000"), None);
    assert_eq!(parse_archive_timestamp("2023121300000x"), None);
    assert_eq!(parse_location_timestamp("/web/20200229000000/x"), Some(Timestamp { year: 2020, month: 2, day: 29, hour: 0, minute: 0, second: 0 }));
    assert_eq!(parse_location_timestamp("/web/20210229000000/x"), None);
}

#[test]
fn test_get_unique_parsers() {
    let expected = vec![MetadataType::OpenGraph, MetadataType::Doi];
    let config = AttributeConfig::new(AttributePriority { priority: expected.clone() });
    let result = config.parsers_used();
    assert_eq!(expected.len(), result.len());
    assert!(expected.iter().all(|item| result.contains(item)));
}

#[test]
fn test_attribute_config_default() {
    let expected = vec![MetadataType::OpenGraph, MetadataType::SchemaOrg, MetadataType::HtmlMeta];
    let config = AttributeConfig::default();
    let result = config.parsers_used();
    assert_eq!(expected.len(), result.len());
    assert!(expected.iter().all(|item| result.contains(item)));
}

#[test]
fn failed_parsing_of_every_requested_source() {
    let both = vec![MetadataType::SchemaOrg, MetadataType::Doi];
    assert_eq!(check_parsers(&both, false, false), Err(ReferenceGenerationError::ParseFailure));
    assert_eq!(check_parsers(&both, true, false), Ok(()));
    assert_eq!(check_parsers(&vec![MetadataType::OpenGraph], false, false), Ok(()));
}

#[test]
fn archive_target_choice() {
    let resolved = Some(Attribute::Url("https://canonical.e.x/".to_string()));
    assert_eq!(archive_target(&resolved, &Some("https://e.x/?a".to_string())), Some("https://canonical.e.x/".to_string()));
    assert_eq!(archive_target(&None, &Some("https://e.x/?a".to_string())), Some("https://e.x/?a".to_string()));
    assert_eq!(archive_target(&Some(Attribute::Title("t".to_string())), &Some(String::new())), None);
    assert_eq!(archive_target(&None, &None), None);
}
