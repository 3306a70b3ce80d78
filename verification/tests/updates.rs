use modpack_updater::app::UpdateStatus;
use modpack_updater::update::{check_for_updates_background, judge_release};

#[test]
fn newer_release_is_an_update() {
    assert_eq!(
        check_for_updates_background("1.2.0", Some("1.2.3".to_string())),
        UpdateStatus::UpdateAvailable("1.2.3".to_string())
    );
    assert_eq!(
        check_for_updates_background("0.9.9", Some("1.0.0".to_string())),
        UpdateStatus::UpdateAvailable("1.0.0".to_string())
    );
}

#[test]
fn same_or_older_release_is_no_update() {
    assert_eq!(
        check_for_updates_background("1.2.3", Some("1.2.3".to_string())),
        UpdateStatus::UpToDate
    );
    assert_eq!(
        check_for_updates_background("1.2.3", Some("1.2.0".to_string())),
        UpdateStatus::UpToDate
    );
    assert_eq!(
        check_for_updates_background("2.0.0", Some("1.9.9".to_string())),
        UpdateStatus::UpToDate
    );
}

#[test]
fn versions_compare_by_number_and_not_by_text() {
    assert_eq!(
        check_for_updates_background("1.9.0", Some("1.10.0".to_string())),
        UpdateStatus::UpdateAvailable("1.10.0".to_string())
    );
    assert_eq!(
        check_for_updates_background("1.10.0", Some("1.9.0".to_string())),
        UpdateStatus::UpToDate
    );
}

#[test]
fn release_takes_precedence_over_its_pre_release() {
    assert_eq!(
        check_for_updates_background("1.0.0-rc.1", Some("1.0.0".to_string())),
        UpdateStatus::UpdateAvailable("1.0.0".to_string())
    );
    assert_eq!(
        check_for_updates_background("1.0.0", Some("1.0.0-rc.1".to_string())),
        UpdateStatus::UpToDate
    );
}

#[test]
fn what_is_no_version_is_an_error() {
    assert_eq!(
        check_for_updates_background("1.2.3", Some("latest".to_string())),
        UpdateStatus::Error
    );
    assert_eq!(
        check_for_updates_background("nonsense", Some("1.2.3".to_string())),
        UpdateStatus::Error
    );
    assert_eq!(check_for_updates_background("1.2.3", Some("v1.2.4".to_string())), UpdateStatus::Error);
}

#[test]
fn unreachable_service_is_an_error() {
    assert_eq!(check_for_updates_background("1.2.3", None), UpdateStatus::Error);
}

#[test]
fn verdict_decides_the_status() {
    assert_eq!(
        judge_release("3.0.0".to_string(), Some(true)),
        UpdateStatus::UpdateAvailable("3.0.0".to_string())
    );
    assert_eq!(judge_release("3.0.0".to_string(), Some(false)), UpdateStatus::UpToDate);
    assert_eq!(judge_release("3.0.0".to_string(), None), UpdateStatus::Error);
}
