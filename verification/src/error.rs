//! The fields of a configuration and the ways in which resolving one fails.

use vstd::prelude::*;

verus! {

pub const MISSING_CREDENTIAL_MESSAGE: &'static str =
    "no API key was supplied on the command line, in the environment or in the configuration file";

pub const OUT_OF_RANGE_MESSAGE: &'static str = "value out of range: ";

pub const INVALID_FILE_FORMAT_MESSAGE: &'static str =
    "the configuration file is not a valid document";

pub const IO_ERROR_MESSAGE: &'static str = "the configuration file could not be read or written";

pub const NO_HOME_DIRECTORY_MESSAGE: &'static str =
    "neither a configuration home nor a home directory was found";

/// One field of a configuration.
#[derive(Clone, Copy, Debug, PartialEq, Eq, Structural)]
pub enum Field {
    ApiKey,
    Endpoint,
    Model,
    MaxTokens,
    Temperature,
    TopP,
    FrequencyPenalty,
    PresencePenalty,
    Stop,
    Timeout,
}

impl Field {
    /// The name under which the field is reported to the user.
    pub open spec fn name_spec(self) -> Seq<char> {
        match self {
            Field::ApiKey => "api_key"@,
            Field::Endpoint => "endpoint"@,
            Field::Model => "model"@,
            Field::MaxTokens => "max_tokens"@,
            Field::Temperature => "temperature"@,
            Field::TopP => "top_p"@,
            Field::FrequencyPenalty => "frequency_penalty"@,
            Field::PresencePenalty => "presence_penalty"@,
            Field::Stop => "stop_sequence"@,
            Field::Timeout => "timeout_seconds"@,
        }
    }

    /// The name under which the field is reported to the user.
    pub fn name(self) -> (r: &'static str)
        ensures
            r@ == self.name_spec(),
    {
        match self {
            Field::ApiKey => "api_key",
            Field::Endpoint => "endpoint",
            Field::Model => "model",
            Field::MaxTokens => "max_tokens",
            Field::Temperature => "temperature",
            Field::TopP => "top_p",
            Field::FrequencyPenalty => "frequency_penalty",
            Field::PresencePenalty => "presence_penalty",
            Field::Stop => "stop_sequence",
            Field::Timeout => "timeout_seconds",
        }
    }
}

/// Why a configuration could not be resolved, loaded or saved.
#[derive(Clone, Copy, Debug, PartialEq, Eq, Structural)]
pub enum ConfigError {
    /// No source supplied an API key, or the key is empty.
    MissingCredential,
    /// A numeric field lies outside its range.
    OutOfRange(Field),
    /// The configuration file is not a document of the expected form, or
    /// holds a value of the wrong type under a known key.
    InvalidFileFormat,
    /// The file system refused to read or write the configuration file.
    IoError,
    /// Neither the configuration home nor the home directory is known.
    NoHomeDirectory,
}

impl ConfigError {
    /// What the user is told of the error. A range error names its field.
    pub open spec fn message_spec(self) -> Seq<char> {
        match self {
            ConfigError::MissingCredential => MISSING_CREDENTIAL_MESSAGE@,
            ConfigError::OutOfRange(field) => OUT_OF_RANGE_MESSAGE@ + field.name_spec(),
            ConfigError::InvalidFileFormat => INVALID_FILE_FORMAT_MESSAGE@,
            ConfigError::IoError => IO_ERROR_MESSAGE@,
            ConfigError::NoHomeDirectory => NO_HOME_DIRECTORY_MESSAGE@,
        }
    }

    /// What the user is told of the error. A range error names its field.
    pub fn message(self) -> (r: String)
        ensures
            r@ == self.message_spec(),
    {
        match self {
            ConfigError::MissingCredential => String::from_str(MISSING_CREDENTIAL_MESSAGE),
            ConfigError::OutOfRange(field) => {
                let mut text = String::from_str(OUT_OF_RANGE_MESSAGE);
                text.append(field.name());
                text
            },
            ConfigError::InvalidFileFormat => String::from_str(INVALID_FILE_FORMAT_MESSAGE),
            ConfigError::IoError => String::from_str(IO_ERROR_MESSAGE),
            ConfigError::NoHomeDirectory => String::from_str(NO_HOME_DIRECTORY_MESSAGE),
        }
    }
}

} // verus!
