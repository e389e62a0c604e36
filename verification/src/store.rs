//! Loading a configuration from its file and saving it there.
//!
//! The library does not touch the file system. The caller reads the file and
//! hands over what the reading gave; to save, the library says where and
//! what, and the caller writes.

use vstd::prelude::*;
use crate::builder::{PartialView, WinstonConfigBuilder};
use crate::config::{text_view, ConfigView, WinstonConfig};
use crate::document::{
    decoded, document_round_trip, items_of, lines_view, parse_config, parsed,
    partial_result_view, Entry,
};
use crate::error::{ConfigError, Field};
use crate::number::F64Bits;
use crate::path::{config_home_of, config_path, is_place_for, DirectoryProbe, PathSpec};
use crate::resolver::{resolved, result_view};

verus! {

/// What reading the configuration file gave.
#[derive(Clone, Debug, PartialEq, Eq)]
pub enum FileRead {
    /// There is no file at the path.
    Missing,
    /// There is a file, but it could not be read.
    Failed,
    /// The text of the file.
    Contents(String),
}

/// What a reading supplies: nothing where the file is missing.
pub open spec fn loaded(read: FileRead) -> Result<PartialView, ConfigError> {
    match read {
        FileRead::Missing => Ok(PartialView::empty()),
        FileRead::Failed => Err(ConfigError::IoError),
        FileRead::Contents(text) => parsed(text@),
    }
}

/// The partial configuration that the file supplies.
///
/// A missing file is no error: it supplies nothing. A file that could not
/// be read gives `IoError`, and one that is not a well-typed document
/// `InvalidFileFormat`.
pub fn load_from_file(read: FileRead) -> (r: Result<WinstonConfigBuilder, ConfigError>)
    ensures
        partial_result_view(r) == loaded(read),
{
    match read {
        FileRead::Missing => Ok(WinstonConfigBuilder::new()),
        FileRead::Failed => Err(ConfigError::IoError),
        FileRead::Contents(text) => parse_config(text.as_str()),
    }
}

/// Where to write a configuration, and what.
#[derive(Clone, Debug, PartialEq, Eq)]
pub struct SavePlan {
    pub path: PathSpec,
    pub document: Vec<Entry>,
}

/// What the builder is after the file has been laid under it: the file
/// ranks below whatever the builder holds, and fills only the fields that
/// the builder lacks.
pub open spec fn overlaid(builder: PartialView, read: FileRead) -> Result<
    PartialView,
    ConfigError,
> {
    match loaded(read) {
        Ok(file) => Ok(builder.or(file)),
        Err(e) => Err(e),
    }
}

/// The record that the file gives by itself, over the built-in defaults.
pub open spec fn loaded_record(read: FileRead) -> Result<ConfigView, ConfigError> {
    match overlaid(PartialView::empty(), read) {
        Ok(sources) => resolved(
            sources,
            PartialView::empty(),
            None,
            ConfigView::defaults(),
        ),
        Err(e) => Err(e),
    }
}

fn same_text(supplied: &Option<String>, value: &String) -> (r: bool)
    ensures
        r == (text_view(*supplied) == Some(value@)),
{
    match supplied {
        Some(s) => *s == *value,
        None => false,
    }
}

fn same_number(supplied: Option<F64Bits>, value: F64Bits) -> (r: bool)
    ensures
        r == (supplied == Some(value)),
{
    match supplied {
        Some(x) => x == value,
        None => false,
    }
}

impl WinstonConfigBuilder {
    /// Lays the values of the file under those of the builder: a field that
    /// the builder holds stays as it is, and a field that it lacks takes the
    /// value of the file, if the file supplies one. What the builder holds
    /// came from a source that ranks above the file.
    pub fn load_config(self, read: FileRead) -> (r: Result<WinstonConfigBuilder, ConfigError>)
        ensures
            partial_result_view(r) == overlaid(self@, read),
    {
        match load_from_file(read) {
            Ok(file) => Ok(self.or(file)),
            Err(e) => Err(e),
        }
    }
}

impl WinstonConfig {
    /// The record that the file gives by itself, over the built-in defaults.
    pub fn load_config(read: FileRead) -> (r: Result<WinstonConfig, ConfigError>)
        ensures
            result_view(r) == loaded_record(read),
    {
        match WinstonConfigBuilder::new().load_config(read) {
            Ok(builder) => builder.build(),
            Err(e) => Err(e),
        }
    }

    /// Whether the text, read as a configuration file, supplies this record
    /// and nothing else: every field with the value that the record has, and
    /// a stop sequence exactly where the record has one.
    pub fn reads_back_from(&self, text: &str) -> (r: bool)
        ensures
            r == (parsed(text@) == Ok::<PartialView, ConfigError>(self@.as_partial())),
    {
        match parse_config(text) {
            Err(_) => false,
            Ok(file) => {
                same_text(&file.openai_api_key, &self.openai_api_key) && same_text(
                    &file.api_endpoint,
                    &self.api_endpoint,
                ) && same_text(&file.model, &self.model) && (match file.max_tokens {
                    Some(n) => n == self.max_tokens,
                    None => false,
                }) && same_number(file.temperature, self.temperature) && same_number(
                    file.top_p,
                    self.top_p,
                ) && same_number(file.frequency_penalty, self.frequency_penalty) && same_number(
                    file.presence_penalty,
                    self.presence_penalty,
                ) && same_number(file.timeout, self.timeout) && (match &self.stop {
                    Some(stop) => same_text(&file.stop, stop),
                    None => file.stop.is_none(),
                })
            },
        }
    }

    /// Plans the saving of the record: at the explicit path if one is given,
    /// else at the default place, and with every field in the document.
    ///
    /// Fails only where no path is given and no default place is found.
    pub fn save_config(&self, fp: Option<String>, config_home: Option<DirectoryProbe>) -> (r:
        Result<SavePlan, ConfigError>)
        ensures
            match r {
                Ok(plan) => {
                    &&& is_place_for(
                        text_view(fp),
                        config_home_of(config_home),
                        Ok(plan.path@),
                    )
                    &&& lines_view(plan.document@) == self@.document()
                },
                Err(e) => is_place_for(text_view(fp), config_home_of(config_home), Err(e)),
            },
    {
        match config_path(fp, config_home) {
            Ok(path) => Ok(SavePlan { path, document: self.to_document() }),
            Err(e) => Err(e),
        }
    }
}

/// Missing file: a file that is not there supplies the empty partial
/// configuration, and is no error.
pub proof fn missing_file_law()
    ensures
        loaded(FileRead::Missing) == Ok::<PartialView, ConfigError>(PartialView::empty()),
{
}

/// Round trip: the document of a valid record, read back as the only source
/// and resolved over defaults equal to the record, gives the record again,
/// field for field.
pub proof fn round_trip_law(record: ConfigView)
    requires
        record.valid(),
    ensures
        decoded(items_of(record.document())) == Ok::<PartialView, ConfigError>(
            record.as_partial(),
        ),
        resolved(PartialView::empty(), PartialView::empty(), Some(record.as_partial()), record)
            == Ok::<ConfigView, ConfigError>(record),
{
    document_round_trip(record);
}

/// The file ranks below the builder: after `load_config` every field that
/// the builder held has the builder's value, whatever the file says of it,
/// and every other field has what the file supplies.
pub proof fn file_fills_only_gaps(
    builder: PartialView,
    read: FileRead,
    file: PartialView,
    result: PartialView,
    field: Field,
)
    requires
        loaded(read) == Ok::<PartialView, ConfigError>(file),
        overlaid(builder, read) == Ok::<PartialView, ConfigError>(result),
    ensures
        builder.get(field) is Some ==> result.get(field) == builder.get(field),
        builder.get(field) is None ==> result.get(field) == file.get(field),
{
}

/// Round trip through the text of a file: where the text reads back as what
/// a valid record supplies, as `reads_back_from` tests, loading it gives the
/// record again, field for field, over the built-in defaults as over
/// defaults equal to the record.
pub proof fn text_round_trip_law(record: ConfigView, text: String)
    requires
        record.valid(),
    ensures
        parsed(text@) == Ok::<PartialView, ConfigError>(record.as_partial()) ==> {
            &&& loaded_record(FileRead::Contents(text)) == Ok::<ConfigView, ConfigError>(record)
            &&& resolved(
                PartialView::empty(),
                PartialView::empty(),
                Some(record.as_partial()),
                record,
            ) == Ok::<ConfigView, ConfigError>(record)
        },
{
}

} // verus!
