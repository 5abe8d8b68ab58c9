use vstd::prelude::*;
use crate::error::{ErrorView, UpdateError};
use crate::feed::{latest_release, latest_release_of, ReleaseDescriptor, ReleaseView};
use crate::platform::{get_platform_asset_name, Platform};
use crate::version_store::{get_installed_version, installed_version_of, RecordFile, RecordView};

verus! {

/// The answer to an update check.
#[derive(Debug, Clone, PartialEq, Eq)]
pub struct UpdateInfo {
    pub latest_version: String,
    pub download_url: String,
    pub release_notes: String,
    pub is_update_available: bool,
    pub installed_version: Option<String>,
}

/// The mathematical value of an [`UpdateInfo`].
pub struct UpdateView {
    pub latest_version: Seq<char>,
    pub download_url: Seq<char>,
    pub release_notes: Seq<char>,
    pub is_update_available: bool,
    pub installed_version: Option<Seq<char>>,
}

impl View for UpdateInfo {
    type V = UpdateView;

    open spec fn view(&self) -> UpdateView {
        UpdateView {
            latest_version: self.latest_version@,
            download_url: self.download_url@,
            release_notes: self.release_notes@,
            is_update_available: self.is_update_available,
            installed_version: self.installed_version.deep_view(),
        }
    }
}

/// An update is available when nothing is installed, or when the
/// installed version is written otherwise than the latest one. Versions
/// are compared as texts and never ordered.
pub open spec fn is_available(latest: Seq<char>, installed: Option<Seq<char>>) -> bool {
    installed is None || installed->0 != latest
}

/// The answer to an update check, from the latest release and the
/// installed version.
pub open spec fn availability(release: ReleaseView, installed: Option<Seq<char>>) -> UpdateView {
    UpdateView {
        latest_version: release.version,
        download_url: release.asset_url,
        release_notes: release.notes,
        is_update_available: is_available(release.version, installed),
        installed_version: installed,
    }
}

/// The rule of availability: with nothing installed an update is
/// available; with the latest version installed none is; with any other
/// version installed one is, be that version older or newer.
pub proof fn lemma_availability_rule(latest: Seq<char>, installed: Seq<char>)
    ensures
        is_available(latest, None),
        !is_available(latest, Some(latest)),
        installed != latest ==> is_available(latest, Some(installed)),
{
}

/// Puts the latest release beside the installed version.
pub fn compare_versions(release: ReleaseDescriptor, installed: Option<String>) -> (info:
    UpdateInfo)
    ensures
        info@ == availability(release@, installed.deep_view()),
{
    let is_update_available = match &installed {
        Some(version) => !(*version == release.version),
        None => true,
    };
    UpdateInfo {
        latest_version: release.version,
        download_url: release.asset_url,
        release_notes: release.notes,
        is_update_available,
        installed_version: installed,
    }
}

/// The outcome of an update check, from the bytes that the feed answered
/// with and what was found at the place of the version record. The feed
/// is looked at first, so its failure comes before that of the record;
/// nothing is returned beside an error.
pub open spec fn update_check(platform: Platform, feed_body: Seq<u8>, record: RecordView) -> Result<
    UpdateView,
    ErrorView,
> {
    match latest_release_of(feed_body, platform.asset_fragment()) {
        Err(error) => Err(error),
        Ok(release) => match installed_version_of(record) {
            Err(error) => Err(error),
            Ok(installed) => Ok(availability(release, installed)),
        },
    }
}

/// Checks for an update, from the bytes that the feed answered with and
/// what was found at the place of the version record.
pub fn check_for_updates(platform: Platform, feed_body: &[u8], record: &RecordFile) -> (outcome:
    Result<UpdateInfo, UpdateError>)
    ensures
        match update_check(platform, feed_body@, record@) {
            Ok(info) => outcome is Ok && outcome->Ok_0@ == info,
            Err(error) => outcome is Err && outcome->Err_0@ == error,
        },
{
    let fragment = get_platform_asset_name(platform);
    let release = match latest_release(feed_body, fragment.as_str()) {
        Ok(release) => release,
        Err(error) => {
            return Err(error);
        },
    };
    let installed = match get_installed_version(record) {
        Ok(installed) => installed,
        Err(error) => {
            return Err(error);
        },
    };
    Ok(compare_versions(release, installed))
}

} // verus!
