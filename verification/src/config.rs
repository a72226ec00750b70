//! Where a configuration fragment is kept: a fixed directory, which may be
//! given relative to the home directory, and a file named after the fragment.

use std::path::PathBuf;
use vstd::prelude::*;
use vstd::string::*;

verus! {

/// The directory that holds the fragments. The leading `~` stands for the
/// home directory.
pub const CONFIGURATION_DIRECTORY: &'static str = "~/.config/sway/config.d";

/// What follows the name of a fragment in the name of its file.
pub const EXTENSION: &'static str = ".conf";

/// `std::path::PathBuf`, a path as the operating system takes it. Nothing is
/// known of what a path holds: it is handed on as it came.
#[verifier::external_type_specification]
#[verifier::external_body]
pub struct ExPathBuf(PathBuf);

/// Asks `dirs::home_dir` for the home directory of the user. Nothing is
/// claimed of the answer: it depends on the environment of the process, and
/// there may be no home directory at all.
#[verifier::external_body]
fn home_directory() -> (home: Option<PathBuf>) {
    dirs::home_dir()
}

/// A directory, as it is to be looked up.
#[derive(Debug)]
pub enum BaseDirectory {
    /// The path that leads to the directory from the home directory.
    UnderHome(String),
    /// The path of the directory as it stands.
    Fixed(String),
}

/// Why the file of a fragment could not be located.
#[derive(Clone, Copy, Debug, PartialEq, Eq, Structural)]
pub enum ConfigError {
    /// The directory is given relative to the home directory, and there is
    /// no home directory.
    HomeNotFound,
}

/// The file of a fragment: `file_name` in the directory that `directory`
/// leads to, from `base` where there is one.
#[derive(Debug)]
pub struct ConfigTarget {
    /// The home directory, where the directory is given relative to it.
    pub base: Option<PathBuf>,
    /// The path of the directory, from `base` or as it stands.
    pub directory: String,
    /// The name of the file in the directory.
    pub file_name: String,
}

impl BaseDirectory {
    /// Whether the directory is to be looked up from the home directory.
    pub open spec fn under_home(self) -> bool {
        self is UnderHome
    }

    /// The path, from the home directory or as it stands.
    pub open spec fn path(self) -> Seq<char> {
        match self {
            BaseDirectory::UnderHome(path) => path@,
            BaseDirectory::Fixed(path) => path@,
        }
    }
}

impl ConfigError {
    /// What this error says when it is shown.
    pub open spec fn message_text(self) -> Seq<char> {
        "Could not find home directory"@
    }

    /// What to show for this error.
    pub fn message(&self) -> (text: String)
        ensures
            text@ == self.message_text(),
    {
        String::from_str("Could not find home directory")
    }
}

/// Whether a path begins with the sign for the home directory.
pub open spec fn begins_at_home(path: Seq<char>) -> bool {
    path.len() > 0 && path[0] == '~'
}

/// What is left of a path that begins at home once the sign and the
/// separator behind it are taken off: all but the first two characters.
pub open spec fn below_home(path: Seq<char>) -> Seq<char> {
    if path.len() >= 2 {
        path.skip(2)
    } else {
        Seq::empty()
    }
}

/// The name of the file of a fragment: the fragment's name and the extension.
pub open spec fn file_name_text(name: Seq<char>) -> Seq<char> {
    name + EXTENSION@
}

/// Whether `target` is the file of the fragment `name` in `directory`, with
/// `home` for the home directory.
pub open spec fn locates(
    target: ConfigTarget,
    directory: BaseDirectory,
    home: Option<PathBuf>,
    name: Seq<char>,
) -> bool {
    &&& target.base == if directory.under_home() {
        home
    } else {
        None
    }
    &&& target.directory@ == directory.path()
    &&& target.file_name@ == file_name_text(name)
}

/// Tells a path that begins with `~` from one that does not. Of the first
/// the result holds what follows the sign and its separator, of the second
/// the whole path.
pub fn resolve_directory(path: &str) -> (directory: BaseDirectory)
    ensures
        directory.under_home() == begins_at_home(path@),
        directory.path() == if begins_at_home(path@) {
            below_home(path@)
        } else {
            path@
        },
{
    let n = path.unicode_len();
    if n > 0 && path.get_char(0) == '~' {
        if n >= 2 {
            BaseDirectory::UnderHome(String::from_str(path.substring_char(2, n)))
        } else {
            BaseDirectory::UnderHome(String::new())
        }
    } else {
        BaseDirectory::Fixed(String::from_str(path))
    }
}

/// The name of the file of a fragment: the fragment's name and the extension.
pub fn config_file_name(name: &str) -> (file_name: String)
    ensures
        file_name@ == file_name_text(name@),
{
    let mut file_name = String::from_str(name);
    file_name.append(EXTENSION);
    file_name
}

/// Locates the file of the fragment `name` in `directory`, with `home` for
/// the home directory. This fails where the directory is given relative to
/// the home directory and there is none, and nowhere else.
pub fn locate(directory: BaseDirectory, home: Option<PathBuf>, name: &str) -> (result: Result<
    ConfigTarget,
    ConfigError,
>)
    ensures
        result is Err <==> directory.under_home() && home is None,
        result matches Ok(target) ==> locates(target, directory, home, name@),
{
    let file_name = config_file_name(name);
    match directory {
        BaseDirectory::UnderHome(path) => match home {
            Some(home) => Ok(ConfigTarget { base: Some(home), directory: path, file_name }),
            None => Err(ConfigError::HomeNotFound),
        },
        BaseDirectory::Fixed(path) => Ok(ConfigTarget { base: None, directory: path, file_name }),
    }
}

/// Locates the file of the fragment `name` in the configuration directory,
/// with `home` for the home directory. The configuration directory is given
/// relative to the home directory, so this fails where there is none.
pub fn config_target_under(home: Option<PathBuf>, name: &str) -> (result: Result<
    ConfigTarget,
    ConfigError,
>)
    ensures
        result is Err <==> home is None,
        result matches Ok(target) ==> {
            &&& target.base == home
            &&& target.directory@ == below_home(CONFIGURATION_DIRECTORY@)
            &&& target.file_name@ == file_name_text(name@)
        },
{
    proof {
        reveal_strlit("~/.config/sway/config.d");
    }
    locate(resolve_directory(CONFIGURATION_DIRECTORY), home, name)
}

/// Locates the file of the fragment `name` in the configuration directory
/// of the user. Whether there is a home directory is for the environment to
/// say; where there is one, the result is as `config_target_under` gives it.
pub fn config_target(name: &str) -> (result: Result<ConfigTarget, ConfigError>)
    ensures
        result matches Ok(target) ==> {
            &&& target.base is Some
            &&& target.directory@ == below_home(CONFIGURATION_DIRECTORY@)
            &&& target.file_name@ == file_name_text(name@)
        },
{
    config_target_under(home_directory(), name)
}

} // verus!
