use vstd::prelude::*;
use crate::error::{is_text_outcome, ErrorView, UpdateError};
use crate::json::{
    error_text, member, parse_text, parsed_text, pretty_object, pretty_object_text, text,
    text_member, wording_of,
};

verus! {

/// What was found at the place of the version record.
#[derive(Debug, Clone, PartialEq, Eq)]
pub enum RecordFile {
    /// There is no such file.
    Missing,
    /// The record could not be reached or read, for this cause.
    Unreadable(String),
    /// The content of the file.
    Content(String),
}

/// The mathematical value of a [`RecordFile`].
pub enum RecordView {
    Missing,
    Unreadable(Seq<char>),
    Content(Seq<char>),
}

impl View for RecordFile {
    type V = RecordView;

    open spec fn view(&self) -> RecordView {
        match self {
            RecordFile::Missing => RecordView::Missing,
            RecordFile::Unreadable(cause) => RecordView::Unreadable(cause@),
            RecordFile::Content(content) => RecordView::Content(content@),
        }
    }
}

/// The version that a record names: that of its member `version`, where
/// the record is an object with such a member and the member is a string.
pub open spec fn version_named_in(document: serde_json::Value) -> Option<Seq<char>> {
    text_member(document, "version"@)
}

/// The words for a record that is a JSON document and names no version:
/// it is no object, or has no member `version`, or that member is no
/// string.
pub open spec fn no_version_named() -> Seq<char> {
    "Version record names no version"@
}

/// The words for a record that was written and does not read back as the
/// version it was written for.
pub open spec fn record_unconfirmed() -> Seq<char> {
    "Version record does not read back"@
}

/// The words for a clock that shows no moment that can be written down.
pub open spec fn clock_out_of_range() -> Seq<char> {
    "System clock is out of range"@
}

/// The version that the content of a record names. A content that is no
/// JSON document is corrupt, told in the parser's words; so is a document
/// that names no version.
pub open spec fn recorded_version_of(content: Seq<char>) -> Result<Seq<char>, ErrorView> {
    match parsed_text(content) {
        Ok(document) => match version_named_in(document) {
            Some(version) => Ok(version),
            None => Err(ErrorView::CorruptState(no_version_named())),
        },
        Err(error) => Err(ErrorView::CorruptState(wording_of(error))),
    }
}

/// The installed version, from what was found at the place of the
/// version record. Nothing is installed only where there is no record. A
/// record that could not be reached or read is an error of the file
/// system, and one that does not name a version is corrupt: neither is
/// taken for a missing one.
pub open spec fn installed_version_of(record: RecordView) -> Result<Option<Seq<char>>, ErrorView> {
    match record {
        RecordView::Missing => Ok(None),
        RecordView::Unreadable(cause) => Err(ErrorView::Filesystem(cause)),
        RecordView::Content(content) => match recorded_version_of(content) {
            Ok(version) => Ok(Some(version)),
            Err(error) => Err(error),
        },
    }
}

/// The members of the record of one install.
pub open spec fn record_members(version: Seq<char>, installed_at: Seq<char>) -> Seq<
    (Seq<char>, Seq<char>),
> {
    seq![("version"@, version), ("installed_at"@, installed_at)]
}

/// The content of the record of one install: a JSON object of the two
/// members, written out in lines, which reads back as the version. Where
/// it cannot be written, the error is one of the file system in the
/// writer's words; so it is where what was written does not read back.
pub open spec fn version_record_of(version: Seq<char>, installed_at: Seq<char>) -> Result<
    Seq<char>,
    ErrorView,
> {
    match pretty_object_text(record_members(version, installed_at)) {
        Ok(content) => if recorded_version_of(content) == Ok::<Seq<char>, ErrorView>(version) {
            Ok(content)
        } else {
            Err(ErrorView::Filesystem(record_unconfirmed()))
        },
        Err(error) => Err(ErrorView::Filesystem(wording_of(error))),
    }
}

/// The content of the record of one install at the moment that the clock
/// showed, if it showed one.
pub open spec fn stamped_record_of(version: Seq<char>, stamp: Option<Seq<char>>) -> Result<
    Seq<char>,
    ErrorView,
> {
    match stamp {
        Some(installed_at) => version_record_of(version, installed_at),
        None => Err(ErrorView::Filesystem(clock_out_of_range())),
    }
}

/// A record that was written reads back as the version it was written
/// for, whatever the moment of the install.
pub proof fn lemma_written_record_reads_back(version: Seq<char>, installed_at: Seq<char>)
    requires
        version_record_of(version, installed_at) is Ok,
    ensures
        installed_version_of(RecordView::Content(version_record_of(version, installed_at)->Ok_0))
            == Ok::<Option<Seq<char>>, ErrorView>(Some(version)),
{
}

/// The version that the content of a version record names.
pub fn recorded_version(content: &str) -> (outcome: Result<String, UpdateError>)
    ensures
        is_text_outcome(outcome, recorded_version_of(content@)),
{
    match parse_text(content) {
        Ok(document) => match member(&document, "version") {
            Some(inner) => match text(inner) {
                Some(version) => Ok(version.to_owned()),
                None => Err(
                    UpdateError::CorruptState("Version record names no version".to_owned()),
                ),
            },
            None => Err(UpdateError::CorruptState("Version record names no version".to_owned())),
        },
        Err(error) => Err(UpdateError::CorruptState(error_text(&error))),
    }
}

/// The installed version, from what was found at the place of the
/// version record.
pub fn get_installed_version(record: &RecordFile) -> (outcome: Result<Option<String>, UpdateError>)
    ensures
        match installed_version_of(record@) {
            Ok(version) => outcome is Ok && outcome->Ok_0.deep_view() == version,
            Err(error) => outcome is Err && outcome->Err_0@ == error,
        },
{
    match record {
        RecordFile::Missing => Ok(None),
        RecordFile::Unreadable(cause) => Err(UpdateError::Filesystem(cause.clone())),
        RecordFile::Content(content) => match recorded_version(content.as_str()) {
            Ok(version) => Ok(Some(version)),
            Err(error) => Err(error),
        },
    }
}

/// The content of the version record for `version`, installed at the
/// moment that `installed_at` names. What was written is read again
/// before it is handed out, so that a record that is returned names the
/// version.
pub fn version_record(version: &str, installed_at: &str) -> (outcome: Result<
    String,
    UpdateError,
>)
    ensures
        is_text_outcome(outcome, version_record_of(version@, installed_at@)),
{
    let mut members: Vec<(String, String)> = Vec::new();
    members.push(("version".to_owned(), version.to_owned()));
    members.push(("installed_at".to_owned(), installed_at.to_owned()));
    proof {
        assert(members.deep_view() =~= record_members(version@, installed_at@));
    }
    let content = match pretty_object(&members) {
        Ok(content) => content,
        Err(error) => {
            return Err(UpdateError::Filesystem(error_text(&error)));
        },
    };
    let confirmed = match recorded_version(content.as_str()) {
        Ok(named) => named == version.to_owned(),
        Err(_) => false,
    };
    if confirmed {
        Ok(content)
    } else {
        Err(UpdateError::Filesystem("Version record does not read back".to_owned()))
    }
}

/// Reads the clock with `SystemTime::now` and writes the moment out with
/// chrono: `DateTime::from_timestamp` on the time since 1970, then
/// `DateTime::to_rfc3339`. The result is the time of the call, so nothing
/// is claimed of it. There is none where the clock stands before 1970 or
/// beyond the years that chrono holds.
#[verifier::external_body]
fn current_timestamp() -> (stamp: Option<String>) {
    let since = std::time::SystemTime::now().duration_since(std::time::UNIX_EPOCH).ok()?;
    let seconds = i64::try_from(since.as_secs()).ok()?;
    let moment = chrono::DateTime::<chrono::Utc>::from_timestamp(seconds, since.subsec_nanos())?;
    Some(moment.to_rfc3339())
}

/// The content of the version record for `version`, installed at the
/// moment that the clock showed; an error of the file system where it
/// showed none.
pub fn stamped_record(version: &str, stamp: Option<String>) -> (outcome: Result<
    String,
    UpdateError,
>)
    ensures
        is_text_outcome(outcome, stamped_record_of(version@, stamp.deep_view())),
{
    match stamp {
        Some(installed_at) => version_record(version, installed_at.as_str()),
        None => Err(UpdateError::Filesystem("System clock is out of range".to_owned())),
    }
}

/// The content of the version record for `version`, installed now. The
/// moment comes from the clock, so the result is stated for whatever the
/// clock showed.
pub fn new_version_record(version: &str) -> (outcome: Result<String, UpdateError>)
    ensures
        exists|stamp: Option<Seq<char>>|
            is_text_outcome(outcome, #[trigger] stamped_record_of(version@, stamp)),
{
    let stamp = current_timestamp();
    let ghost shown = stamp.deep_view();
    let outcome = stamped_record(version, stamp);
    proof {
        assert(is_text_outcome(outcome, stamped_record_of(version@, shown)));
    }
    outcome
}

} // verus!
