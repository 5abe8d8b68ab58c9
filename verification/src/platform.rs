use vstd::prelude::*;
use vstd::string::*;
use crate::config::LauncherConfig;
use crate::error::{is_text_outcome, ErrorView, UpdateError};

verus! {

/// The operating systems that builds are published for.
#[derive(Clone, Copy, Debug, PartialEq, Eq, Structural)]
pub enum Platform {
    Windows,
    MacOs,
    Linux,
}

/// The name of the install directory inside the user's local data directory.
pub open spec fn game_folder_name() -> Seq<char> {
    "astra-game"@
}

/// The name of the version record inside the install directory.
pub open spec fn version_file_name() -> Seq<char> {
    "version.json"@
}

/// The name under which the archive is kept while an install runs.
pub open spec fn temp_archive_name() -> Seq<char> {
    "update.zip"@
}

impl Platform {
    /// The lowercase keyword by which a release asset is recognised as
    /// built for this platform.
    pub open spec fn asset_fragment(self) -> Seq<char> {
        match self {
            Platform::Windows => "windows"@,
            Platform::MacOs => "macos"@,
            Platform::Linux => "linux"@,
        }
    }

    /// The character that this platform writes between the parts of a path.
    pub open spec fn separator(self) -> char {
        match self {
            Platform::Windows => '\\',
            Platform::MacOs => '/',
            Platform::Linux => '/',
        }
    }

    /// The characters that this platform reads as the end of a path's part.
    pub open spec fn is_separator(self, c: char) -> bool {
        c == '/' || (self is Windows && c == '\\')
    }

    /// Where the entry point lies inside the install directory: the
    /// executable itself on Windows and Linux, a path into the application
    /// bundle on macOS.
    pub open spec fn executable_name(self) -> Seq<char> {
        match self {
            Platform::Windows => "ASTRA.exe"@,
            Platform::MacOs => "ASTRA.app/Contents/MacOS/ASTRA"@,
            Platform::Linux => "ASTRA"@,
        }
    }

    /// The path of `name` inside `dir`: a separator is put between the two
    /// unless `dir` is empty or ends in one.
    pub open spec fn joined(self, dir: Seq<char>, name: Seq<char>) -> Seq<char> {
        if dir.len() == 0 || self.is_separator(dir.last()) {
            dir + name
        } else {
            dir + seq![self.separator()] + name
        }
    }

    /// The install directory inside the local data directory `data_dir`.
    pub open spec fn install_dir_in(self, data_dir: Seq<char>) -> Seq<char> {
        self.joined(data_dir, game_folder_name())
    }

    fn ends_part(self, c: char) -> (ends: bool)
        ensures
            ends == self.is_separator(c),
    {
        match self {
            Platform::Windows => c == '/' || c == '\\',
            Platform::MacOs => c == '/',
            Platform::Linux => c == '/',
        }
    }

    /// Writes the path of `name` inside `dir`.
    pub fn join(self, dir: &str, name: &str) -> (path: String)
        ensures
            path@ == self.joined(dir@, name@),
    {
        let n = dir.unicode_len();
        let mut path = dir.to_owned();
        if n > 0 && !self.ends_part(dir.get_char(n - 1)) {
            proof {
                reveal_strlit("\\");
                reveal_strlit("/");
            }
            match self {
                Platform::Windows => path.append("\\"),
                Platform::MacOs => path.append("/"),
                Platform::Linux => path.append("/"),
            }
        }
        path.append(name);
        path
    }
}

/// What the environment says of the user's local data directory.
#[derive(Debug, Clone, PartialEq, Eq)]
pub enum DataDir {
    /// It names none.
    Missing,
    /// It names one whose path is not Unicode, so that it cannot be
    /// written as text.
    NotUnicode,
    /// The path of the directory.
    Found(String),
}

/// The mathematical value of a [`DataDir`].
pub enum DataDirView {
    Missing,
    NotUnicode,
    Found(Seq<char>),
}

impl View for DataDir {
    type V = DataDirView;

    open spec fn view(&self) -> DataDirView {
        match self {
            DataDir::Missing => DataDirView::Missing,
            DataDir::NotUnicode => DataDirView::NotUnicode,
            DataDir::Found(path) => DataDirView::Found(path@),
        }
    }
}

/// Calls `dirs::data_local_dir`, which asks the environment for the user's
/// local data directory, and hands on what it says: no directory, or the
/// directory's path as text, or that the path has no text. Nothing is
/// known of the answer.
#[verifier::external_body]
fn local_data_dir() -> (found: DataDir) {
    match dirs::data_local_dir() {
        None => DataDir::Missing,
        Some(dir) => match dir.into_os_string().into_string() {
            Ok(path) => DataDir::Found(path),
            Err(_) => DataDir::NotUnicode,
        },
    }
}

/// The keyword by which a release asset is recognised as built for
/// `platform`.
pub fn get_platform_asset_name(platform: Platform) -> (fragment: String)
    ensures
        fragment@ == platform.asset_fragment(),
{
    match platform {
        Platform::Windows => "windows".to_owned(),
        Platform::MacOs => "macos".to_owned(),
        Platform::Linux => "linux".to_owned(),
    }
}

/// The install directory that belongs to the local data directory
/// `data_dir`.
pub fn install_dir_under(platform: Platform, data_dir: &str) -> (dir: String)
    ensures
        dir@ == platform.install_dir_in(data_dir@),
{
    platform.join(data_dir, "astra-game")
}

/// The path of the installed entry point inside `install_dir`.
pub fn executable_path(platform: Platform, install_dir: &str) -> (path: String)
    ensures
        path@ == platform.joined(install_dir@, platform.executable_name()),
{
    match platform {
        Platform::Windows => platform.join(install_dir, "ASTRA.exe"),
        Platform::MacOs => platform.join(install_dir, "ASTRA.app/Contents/MacOS/ASTRA"),
        Platform::Linux => platform.join(install_dir, "ASTRA"),
    }
}

/// The path of the version record inside `install_dir`.
pub fn version_file_path(platform: Platform, install_dir: &str) -> (path: String)
    ensures
        path@ == platform.joined(install_dir@, version_file_name()),
{
    platform.join(install_dir, "version.json")
}

/// The path at which the archive is kept inside `install_dir` while an
/// install runs.
pub fn temp_archive_path(platform: Platform, install_dir: &str) -> (path: String)
    ensures
        path@ == platform.joined(install_dir@, temp_archive_name()),
{
    platform.join(install_dir, "update.zip")
}

/// The error for an environment that names no local data directory.
pub open spec fn no_data_dir() -> ErrorView {
    ErrorView::Filesystem("Could not find local data directory"@)
}

/// The error for a local data directory whose path is not Unicode.
pub open spec fn data_dir_not_unicode() -> ErrorView {
    ErrorView::Filesystem("Local data directory is not valid Unicode"@)
}

/// The install directory that belongs to what the environment says of
/// the local data directory.
pub open spec fn install_dir_of(platform: Platform, data_dir: DataDirView) -> Result<
    Seq<char>,
    ErrorView,
> {
    match data_dir {
        DataDirView::Found(path) => Ok(platform.install_dir_in(path)),
        DataDirView::Missing => Err(no_data_dir()),
        DataDirView::NotUnicode => Err(data_dir_not_unicode()),
    }
}

/// The path of `name` inside the install directory that belongs to what
/// the environment says of the local data directory.
pub open spec fn installed_path_of(
    platform: Platform,
    data_dir: DataDirView,
    name: Seq<char>,
) -> Result<Seq<char>, ErrorView> {
    match install_dir_of(platform, data_dir) {
        Ok(dir) => Ok(platform.joined(dir, name)),
        Err(error) => Err(error),
    }
}

/// The install directory, from what the environment says of the local
/// data directory.
pub fn install_dir_from(platform: Platform, data_dir: DataDir) -> (found: Result<
    String,
    UpdateError,
>)
    ensures
        is_text_outcome(found, install_dir_of(platform, data_dir@)),
{
    match data_dir {
        DataDir::Found(path) => Ok(install_dir_under(platform, path.as_str())),
        DataDir::Missing => Err(
            UpdateError::Filesystem("Could not find local data directory".to_owned()),
        ),
        DataDir::NotUnicode => Err(
            UpdateError::Filesystem("Local data directory is not valid Unicode".to_owned()),
        ),
    }
}

/// The install directory of this machine. The local data directory comes
/// from the environment, so the result is stated for whatever the
/// environment said.
pub fn get_install_dir(platform: Platform) -> (found: Result<String, UpdateError>)
    ensures
        exists|data_dir: DataDirView|
            is_text_outcome(found, #[trigger] install_dir_of(platform, data_dir)),
{
    let data_dir = local_data_dir();
    let found = install_dir_from(platform, data_dir);
    proof {
        assert(is_text_outcome(found, install_dir_of(platform, data_dir@)));
    }
    found
}

/// The path of the installed entry point on this machine.
pub fn get_game_executable(platform: Platform) -> (found: Result<String, UpdateError>)
    ensures
        exists|data_dir: DataDirView|
            is_text_outcome(
                found,
                #[trigger] installed_path_of(platform, data_dir, platform.executable_name()),
            ),
{
    let install_dir = get_install_dir(platform);
    let ghost data_dir = choose|data_dir: DataDirView|
        is_text_outcome(install_dir, #[trigger] install_dir_of(platform, data_dir));
    let found = match install_dir {
        Ok(dir) => Ok(executable_path(platform, dir.as_str())),
        Err(error) => Err(error),
    };
    proof {
        assert(is_text_outcome(
            found,
            installed_path_of(platform, data_dir, platform.executable_name()),
        ));
    }
    found
}

/// The path of the version record on this machine.
pub fn get_version_file_path(platform: Platform) -> (found: Result<String, UpdateError>)
    ensures
        exists|data_dir: DataDirView|
            is_text_outcome(
                found,
                #[trigger] installed_path_of(platform, data_dir, version_file_name()),
            ),
{
    let install_dir = get_install_dir(platform);
    let ghost data_dir = choose|data_dir: DataDirView|
        is_text_outcome(install_dir, #[trigger] install_dir_of(platform, data_dir));
    let found = match install_dir {
        Ok(dir) => Ok(version_file_path(platform, dir.as_str())),
        Err(error) => Err(error),
    };
    proof {
        assert(is_text_outcome(
            found,
            installed_path_of(platform, data_dir, version_file_name()),
        ));
    }
    found
}

/// A program to start and the arguments to hand it.
#[derive(Debug, Clone, PartialEq, Eq)]
pub struct LaunchCommand {
    pub program: String,
    pub args: Vec<String>,
}

/// The mathematical value of a [`LaunchCommand`].
pub struct LaunchView {
    pub program: Seq<char>,
    pub args: Seq<Seq<char>>,
}

impl View for LaunchCommand {
    type V = LaunchView;

    open spec fn view(&self) -> LaunchView {
        LaunchView { program: self.program@, args: self.args.deep_view() }
    }
}

/// The command that starts the application installed in `install_dir`.
/// On Windows and Linux the executable is started itself; on macOS the
/// bundle is opened through `open -a`. Fullscreen is asked for by one
/// more argument, on macOS behind `--args`.
pub open spec fn launch_command(platform: Platform, install_dir: Seq<char>, fullscreen: bool)
    -> LaunchView {
    match platform {
        Platform::MacOs => LaunchView {
            program: "open"@,
            args: if fullscreen {
                seq!["-a"@, platform.joined(install_dir, "ASTRA.app"@), "--args"@, "--fullscreen"@]
            } else {
                seq!["-a"@, platform.joined(install_dir, "ASTRA.app"@)]
            },
        },
        _ => LaunchView {
            program: platform.joined(install_dir, platform.executable_name()),
            args: if fullscreen {
                seq!["--fullscreen"@]
            } else {
                Seq::empty()
            },
        },
    }
}

/// Decides how the installed application is started. `executable_exists`
/// says whether the entry point was found on disk: without it nothing is
/// started.
pub fn launch_game(
    platform: Platform,
    install_dir: &str,
    executable_exists: bool,
    config: &LauncherConfig,
) -> (plan: Result<LaunchCommand, UpdateError>)
    ensures
        match plan {
            Ok(command) => executable_exists && command@ == launch_command(
                platform,
                install_dir@,
                config.fullscreen,
            ),
            Err(error) => !executable_exists && error@ == ErrorView::NotInstalled,
        },
{
    if !executable_exists {
        return Err(UpdateError::NotInstalled);
    }
    let mut args: Vec<String> = Vec::new();
    let program = match platform {
        Platform::MacOs => {
            args.push("-a".to_owned());
            args.push(platform.join(install_dir, "ASTRA.app"));
            if config.fullscreen {
                args.push("--args".to_owned());
                args.push("--fullscreen".to_owned());
            }
            "open".to_owned()
        },
        _ => {
            if config.fullscreen {
                args.push("--fullscreen".to_owned());
            }
            executable_path(platform, install_dir)
        },
    };
    let command = LaunchCommand { program, args };
    proof {
        assert(command@.args =~= launch_command(platform, install_dir@, config.fullscreen).args);
    }
    Ok(command)
}

} // verus!
