//! The settings that the program starts with.

use vstd::prelude::*;

verus! {

/// Name of the file that holds the settings.
pub const CONFIG_FILE: &'static str = "config.ini";

/// Key of the path of the catalogue.
pub const CSV_FILE_KEY: &'static str = "csv_file";

/// Key of the user's token at the remote catalogue.
pub const TOKEN_KEY: &'static str = "token";

/// The two settings. Both are required.
#[derive(Debug, PartialEq, Eq)]
pub struct Config {
    pub csv_file: String,
    pub token: String,
}

/// Why the program cannot start.
#[derive(Clone, Copy, Debug, PartialEq, Eq, Structural)]
pub enum StartupError {
    /// There is no file of settings.
    MissingConfigFile,
    /// The settings do not name a catalogue.
    MissingCsvFile,
    /// The settings hold no token.
    MissingToken,
    /// The catalogue cannot be read.
    UnreadableCatalog,
}

impl StartupError {
    /// What the user is told.
    pub open spec fn message_text(self) -> Seq<char> {
        match self {
            StartupError::MissingConfigFile =>
                "Please create a config-file from 'config.example.ini!'"@,
            StartupError::MissingCsvFile =>
                "Please specify a CSV-filepath with the 'csv_file'-key!"@,
            StartupError::MissingToken =>
                "Please specify a Discogs user-token with the 'token'-key!"@,
            StartupError::UnreadableCatalog => "Invalid CSV-filepath!"@,
        }
    }

    /// The message for the user.
    pub fn message(self) -> (text: &'static str)
        ensures
            text@ == self.message_text(),
    {
        match self {
            StartupError::MissingConfigFile =>
                "Please create a config-file from 'config.example.ini!'",
            StartupError::MissingCsvFile =>
                "Please specify a CSV-filepath with the 'csv_file'-key!",
            StartupError::MissingToken =>
                "Please specify a Discogs user-token with the 'token'-key!",
            StartupError::UnreadableCatalog => "Invalid CSV-filepath!",
        }
    }
}

/// Makes the settings of what was found under the two keys. The catalogue is
/// asked for first: where both are missing, it is the one that is named.
pub fn settings(csv_file: Option<String>, token: Option<String>) -> (made: Result<
    Config,
    StartupError,
>)
    ensures
        match (csv_file, token) {
            (Some(path), Some(secret)) => made == Ok::<Config, StartupError>(
                Config { csv_file: path, token: secret },
            ),
            (None, _) => made == Err::<Config, StartupError>(StartupError::MissingCsvFile),
            (Some(_), None) => made == Err::<Config, StartupError>(StartupError::MissingToken),
        },
{
    match csv_file {
        Some(path) => match token {
            Some(secret) => Ok(Config { csv_file: path, token: secret }),
            None => Err(StartupError::MissingToken),
        },
        None => Err(StartupError::MissingCsvFile),
    }
}

} // verus!
