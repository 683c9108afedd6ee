use chrono::TimeZone;

use focl::archive::layout::{aligned_epoch, build_custom_relative_path, path_join, segment_paths};
use focl::archive::types::ArchiveStream;
use focl::config::{ArchiveConfig, CustomLayoutTemplates, LayoutProfile};
use focl::errors::ErrorKind;

fn test_timestamp() -> i64 {
    chrono::Utc
        .with_ymd_and_hms(2026, 2, 21, 13, 43, 0)
        .unwrap()
        .timestamp()
}

#[test]
fn routeviews_layout_matches_expected_convention() {
    let mut cfg = ArchiveConfig::default();
    cfg.enabled = true;
    cfg.collector_id = "focl01".to_string();
    let ts = test_timestamp();
    let paths = segment_paths(&cfg, ArchiveStream::Updates, ts).unwrap();
    assert_eq!(
        paths.relative_path,
        "focl01/2026.02/UPDATES/updates.20260221.1330.gz"
    );
}

#[test]
fn ris_layout_matches_expected_convention() {
    let mut cfg = ArchiveConfig::default();
    cfg.enabled = true;
    cfg.layout_profile = LayoutProfile::Ris;
    cfg.collector_id = "rrc00".to_string();
    let ts = test_timestamp();
    let paths = segment_paths(&cfg, ArchiveStream::Ribs, ts).unwrap();
    assert_eq!(paths.relative_path, "rrc00/2026.02/bview.20260221.1200.gz");
}

#[test]
fn custom_layout_uses_tokens() {
    let mut cfg = ArchiveConfig::default();
    cfg.enabled = true;
    cfg.layout_profile = LayoutProfile::Custom;
    cfg.custom_templates = Some(CustomLayoutTemplates {
        updates: "{collector}/{yyyy}/{mm}/updates.{yyyymmdd}.{hhmm}.{ext}".to_string(),
        ribs: "{collector}/{yyyy}/{mm}/ribs.{yyyymmdd}.{hhmm}.{ext}".to_string(),
    });
    let ts = test_timestamp();
    let paths = segment_paths(&cfg, ArchiveStream::Updates, ts).unwrap();
    assert_eq!(
        paths.relative_path,
        "focl01/2026/02/updates.20260221.1330.gz"
    );
}

#[test]
fn aligns_epoch_boundaries() {
    assert_eq!(aligned_epoch(1_700_000_001, 900), 1_699_999_200);
}

#[test]
fn aligns_negative_timestamps_stably() {
    let aligned = aligned_epoch(-1, 900);
    assert_eq!(aligned, -900);
    assert!(aligned <= -1 && -1 < aligned + 900);
}

#[test]
fn temporary_path_lives_under_the_tmp_root() {
    let mut cfg = ArchiveConfig::default();
    cfg.enabled = true;
    cfg.root = "/data/archive".to_string();
    cfg.tmp_root = "/data/archive/.tmp".to_string();
    let ts = test_timestamp();
    let paths = segment_paths(&cfg, ArchiveStream::Updates, ts).unwrap();
    assert_eq!(
        paths.final_path,
        "/data/archive/focl01/2026.02/UPDATES/updates.20260221.1330.gz"
    );
    assert_eq!(
        paths.tmp_path,
        "/data/archive/.tmp/focl01/2026.02/UPDATES/.updates.20260221.1330.gz.tmp"
    );
}

#[test]
fn custom_template_appends_extension_when_missing() {
    let rendered = build_custom_relative_path(
        "{collector}/{yyyymmdd}-{hhmm}",
        "focl01",
        2026,
        2,
        21,
        13,
        30,
        "gz",
    )
    .unwrap();
    assert_eq!(rendered, "focl01/20260221-1330.gz");
}

#[test]
fn custom_template_without_tokens_is_a_config_error() {
    let err = build_custom_relative_path("{collector}/static", "focl01", 2026, 2, 21, 13, 30, "gz")
        .unwrap_err();
    assert_eq!(err.kind(), ErrorKind::Config);
}

#[test]
fn unrepresentable_timestamp_is_a_layout_error() {
    let mut cfg = ArchiveConfig::default();
    cfg.enabled = true;
    let err = segment_paths(&cfg, ArchiveStream::Updates, i64::MAX - 10_000).unwrap_err();
    assert_eq!(err.kind(), ErrorKind::Layout);
}

#[test]
fn path_join_handles_trailing_separators() {
    assert_eq!(path_join("/a/b", "c"), "/a/b/c");
    assert_eq!(path_join("/a/b/", "c"), "/a/b/c");
    assert_eq!(path_join("", "c"), "c");
}
