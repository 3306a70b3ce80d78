//! Whether a newer release of the application is out.
//!
//! Asking the release service is for the caller. Comparing the two versions
//! is done by the update library, whose verdict is named here; what the
//! verdict means for the application is decided here.

use crate::app::UpdateStatus;
use vstd::prelude::*;

verus! {

/// The account that publishes the application.
pub const REPO_OWNER: &'static str = "minecraftwithtwink";

/// The repository that the releases belong to.
pub const REPO_NAME: &'static str = "Modpack-Updater";

/// The name of the executable in a release.
pub const BIN_NAME: &'static str = "modpack-updater";

/// The update library's error. It is passed through unseen: whatever it
/// holds, the check reports an error.
#[verifier::external_type_specification]
#[verifier::external_body]
pub struct ExUpdateError(self_update::errors::Error);

/// Whether the version `other` is greater than the version `current` in the
/// order in which the update library compares parsed versions; nothing when
/// one of the two is no version.
pub uninterp spec fn release_is_newer(current: Seq<char>, other: Seq<char>) -> Option<bool>;

/// Compares two versions.
///
/// Stands for `self_update::version::bump_is_greater`, which parses both
/// texts as versions and says whether the second is the greater in the
/// order of its version type; it fails when one of them does not parse. The
/// result depends on the two texts alone; the contract gives it its name and
/// claims no more.
#[verifier::external_body]
fn bump_is_greater(current: &str, other: &str) -> (verdict: Result<
    bool,
    self_update::errors::Error,
>)
    ensures
        match verdict {
            Ok(greater) => release_is_newer(current@, other@) == Some(greater),
            Err(_) => release_is_newer(current@, other@) is None,
        },
{
    self_update::version::bump_is_greater(current, other)
}

/// What the check reports, given the version of the latest release and
/// whether it is newer than the running one: an update to that version if it
/// is newer, nothing to do if it is not, and an error if the two could not be
/// compared.
pub open spec fn status_for(latest: String, newer: Option<bool>) -> UpdateStatus {
    match newer {
        Some(true) => UpdateStatus::UpdateAvailable(latest),
        Some(false) => UpdateStatus::UpToDate,
        None => UpdateStatus::Error,
    }
}

/// Says what to report for the latest release `latest`, given the verdict on
/// whether it is newer than the running version.
pub fn judge_release(latest: String, newer: Option<bool>) -> (status: UpdateStatus)
    ensures
        status == status_for(latest, newer),
{
    match newer {
        Some(true) => UpdateStatus::UpdateAvailable(latest),
        Some(false) => UpdateStatus::UpToDate,
        None => UpdateStatus::Error,
    }
}

/// Says whether an update is available to the application of version
/// `current`, given the version of the latest release, or nothing where the
/// release service could not be asked.
///
/// An update is available exactly if the latest release is the greater of
/// the two versions, as the update library compares them.
/// Whatever goes wrong, with the service or with the versions, is reported
/// as an error and is no reason to stop.
pub fn check_for_updates_background(
    current: &str,
    latest: Option<String>,
) -> (status: UpdateStatus)
    ensures
        match latest {
            Some(version) => status == status_for(version, release_is_newer(current@, version@)),
            None => status == UpdateStatus::Error,
        },
{
    match latest {
        None => UpdateStatus::Error,
        Some(version) => {
            let newer = match bump_is_greater(current, version.as_str()) {
                Ok(greater) => Some(greater),
                Err(_) => None,
            };
            judge_release(version, newer)
        },
    }
}

} // verus!
