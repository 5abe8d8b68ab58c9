use vstd::prelude::*;

verus! {

/// What can go wrong while checking for, installing or launching a build.
#[derive(Debug, Clone, PartialEq, Eq)]
pub enum UpdateError {
    /// The release feed or the download failed at the transport layer.
    Network(String),
    /// The release feed holds no release.
    NoReleaseFound,
    /// The version record exists and cannot be read as one.
    CorruptState(String),
    /// A directory, a file or the archive could not be created, written,
    /// unpacked or removed.
    Filesystem(String),
    /// A launch was asked for while no executable is present.
    NotInstalled,
}

/// The mathematical value of an [`UpdateError`].
pub enum ErrorView {
    Network(Seq<char>),
    NoReleaseFound,
    CorruptState(Seq<char>),
    Filesystem(Seq<char>),
    NotInstalled,
}

impl ErrorView {
    /// The text shown to the user for this error.
    pub open spec fn message(self) -> Seq<char> {
        match self {
            ErrorView::Network(cause) => cause,
            ErrorView::NoReleaseFound => "No game release found"@,
            ErrorView::CorruptState(cause) => cause,
            ErrorView::Filesystem(cause) => cause,
            ErrorView::NotInstalled => "Game not installed. Please download first."@,
        }
    }
}

impl View for UpdateError {
    type V = ErrorView;

    open spec fn view(&self) -> ErrorView {
        match self {
            UpdateError::Network(cause) => ErrorView::Network(cause@),
            UpdateError::NoReleaseFound => ErrorView::NoReleaseFound,
            UpdateError::CorruptState(cause) => ErrorView::CorruptState(cause@),
            UpdateError::Filesystem(cause) => ErrorView::Filesystem(cause@),
            UpdateError::NotInstalled => ErrorView::NotInstalled,
        }
    }
}

impl UpdateError {
    /// The text shown to the user: the underlying cause where the error
    /// carries one, a fixed sentence otherwise.
    pub fn message(&self) -> (text: String)
        ensures
            text@ == self@.message(),
    {
        match self {
            UpdateError::Network(cause) => cause.clone(),
            UpdateError::NoReleaseFound => "No game release found".to_owned(),
            UpdateError::CorruptState(cause) => cause.clone(),
            UpdateError::Filesystem(cause) => cause.clone(),
            UpdateError::NotInstalled => "Game not installed. Please download first.".to_owned(),
        }
    }
}

/// `outcome` is the text or the error that `expected` names.
pub open spec fn is_text_outcome(
    outcome: Result<String, UpdateError>,
    expected: Result<Seq<char>, ErrorView>,
) -> bool {
    match expected {
        Ok(text) => outcome is Ok && outcome->Ok_0@ == text,
        Err(error) => outcome is Err && outcome->Err_0@ == error,
    }
}

} // verus!
