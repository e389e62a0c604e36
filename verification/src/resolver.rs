//! Merging the sources into one record.
//!
//! The sources rank, from the highest: command line, environment, file,
//! defaults. Each field of the record comes from the highest source that
//! supplies it. The credential has no default.

use vstd::prelude::*;
use crate::builder::{first_of, text_or, PartialView, WinstonConfigBuilder};
use crate::config::{ConfigView, WinstonConfig};
use crate::error::{ConfigError, Field};
use crate::number::F64Bits;

verus! {

/// What the file contributes: nothing where there is none.
pub open spec fn file_layer(file: Option<PartialView>) -> PartialView {
    match file {
        Some(f) => f,
        None => PartialView::empty(),
    }
}

/// The three sources laid over one another, the command line on top.
pub open spec fn layered(cli: PartialView, env: PartialView, file: Option<PartialView>)
    -> PartialView {
    cli.or(env).or(file_layer(file))
}

/// The merged record, before it is validated: each field from the highest
/// source that supplies it, else from the defaults. Without a key from one
/// of the three sources there is no record.
pub open spec fn merged(
    cli: PartialView,
    env: PartialView,
    file: Option<PartialView>,
    defaults: ConfigView,
) -> Result<ConfigView, ConfigError> {
    let sources = layered(cli, env, file);
    match sources.openai_api_key {
        None => Err(ConfigError::MissingCredential),
        Some(key) => Ok(sources.complete(key, defaults)),
    }
}

/// The outcome of resolving the given sources over the given defaults: the
/// merged record, if it breaks no rule.
pub open spec fn resolved(
    cli: PartialView,
    env: PartialView,
    file: Option<PartialView>,
    defaults: ConfigView,
) -> Result<ConfigView, ConfigError> {
    match merged(cli, env, file, defaults) {
        Err(e) => Err(e),
        Ok(record) => match record.violation() {
            Some(e) => Err(e),
            None => Ok(record),
        },
    }
}

/// The view of an outcome.
pub open spec fn result_view(r: Result<WinstonConfig, ConfigError>) -> Result<
    ConfigView,
    ConfigError,
> {
    match r {
        Ok(c) => Ok(c@),
        Err(e) => Err(e),
    }
}

/// The view of an optional builder.
pub open spec fn file_view(file: Option<WinstonConfigBuilder>) -> Option<PartialView> {
    match file {
        Some(f) => Some(f@),
        None => None,
    }
}

/// Merges the sources into one record without validating it.
///
/// Each field is taken from the first of `cli`, `env`, `file` and `defaults`
/// that has it; the key of `defaults` is never used. Fails with
/// `MissingCredential` if no source has a key, and in no other way.
pub fn merge(
    cli: WinstonConfigBuilder,
    env: WinstonConfigBuilder,
    file: Option<WinstonConfigBuilder>,
    defaults: WinstonConfig,
) -> (r: Result<WinstonConfig, ConfigError>)
    ensures
        result_view(r) == merged(cli@, env@, file_view(file), defaults@),
{
    let lowest = match file {
        Some(f) => f,
        None => WinstonConfigBuilder::new(),
    };
    let sources = cli.or(env).or(lowest);
    let key = match sources.openai_api_key {
        Some(key) => key,
        None => {
            return Err(ConfigError::MissingCredential);
        },
    };
    Ok(
        WinstonConfig {
            openai_api_key: key,
            api_endpoint: text_or(sources.api_endpoint, defaults.api_endpoint),
            model: text_or(sources.model, defaults.model),
            max_tokens: sources.max_tokens.unwrap_or(defaults.max_tokens),
            temperature: sources.temperature.unwrap_or(defaults.temperature),
            top_p: sources.top_p.unwrap_or(defaults.top_p),
            frequency_penalty: sources.frequency_penalty.unwrap_or(defaults.frequency_penalty),
            presence_penalty: sources.presence_penalty.unwrap_or(defaults.presence_penalty),
            stop: first_of(sources.stop, defaults.stop),
            timeout: sources.timeout.unwrap_or(defaults.timeout),
        },
    )
}

/// Resolves one configuration from its sources.
///
/// The sources are merged as `merge` does, and the merged record is
/// validated. Fails with `MissingCredential` if no source has a key, and
/// with what `validate` reports if the merged record breaks a rule.
pub fn resolve(
    cli: WinstonConfigBuilder,
    env: WinstonConfigBuilder,
    file: Option<WinstonConfigBuilder>,
    defaults: WinstonConfig,
) -> (r: Result<WinstonConfig, ConfigError>)
    ensures
        result_view(r) == resolved(cli@, env@, file_view(file), defaults@),
{
    let record = merge(cli, env, file, defaults)?;
    match record.validate() {
        Err(e) => Err(e),
        Ok(()) => Ok(record),
    }
}

/// The value of one field, whatever its type.
pub enum FieldValue {
    Text(Seq<char>),
    Count(u32),
    Number(F64Bits),
}

/// A text value, if there is one.
pub open spec fn text_value(v: Option<Seq<char>>) -> Option<FieldValue> {
    match v {
        Some(s) => Some(FieldValue::Text(s)),
        None => None,
    }
}

/// A number value, if there is one.
pub open spec fn number_value(v: Option<F64Bits>) -> Option<FieldValue> {
    match v {
        Some(x) => Some(FieldValue::Number(x)),
        None => None,
    }
}

/// A count value, if there is one.
pub open spec fn count_value(v: Option<u32>) -> Option<FieldValue> {
    match v {
        Some(n) => Some(FieldValue::Count(n)),
        None => None,
    }
}

impl PartialView {
    /// The value that the source supplies for a field, if it supplies one.
    pub open spec fn get(self, field: Field) -> Option<FieldValue> {
        match field {
            Field::ApiKey => text_value(self.openai_api_key),
            Field::Endpoint => text_value(self.api_endpoint),
            Field::Model => text_value(self.model),
            Field::MaxTokens => count_value(self.max_tokens),
            Field::Temperature => number_value(self.temperature),
            Field::TopP => number_value(self.top_p),
            Field::FrequencyPenalty => number_value(self.frequency_penalty),
            Field::PresencePenalty => number_value(self.presence_penalty),
            Field::Stop => text_value(self.stop),
            Field::Timeout => number_value(self.timeout),
        }
    }
}

impl ConfigView {
    /// The value of a field of the record. Only the stop sequence can be
    /// absent.
    pub open spec fn get(self, field: Field) -> Option<FieldValue> {
        match field {
            Field::ApiKey => Some(FieldValue::Text(self.openai_api_key)),
            Field::Endpoint => Some(FieldValue::Text(self.api_endpoint)),
            Field::Model => Some(FieldValue::Text(self.model)),
            Field::MaxTokens => Some(FieldValue::Count(self.max_tokens)),
            Field::Temperature => Some(FieldValue::Number(self.temperature)),
            Field::TopP => Some(FieldValue::Number(self.top_p)),
            Field::FrequencyPenalty => Some(FieldValue::Number(self.frequency_penalty)),
            Field::PresencePenalty => Some(FieldValue::Number(self.presence_penalty)),
            Field::Stop => text_value(self.stop),
            Field::Timeout => Some(FieldValue::Number(self.timeout)),
        }
    }
}

/// Priority: every field of a resolved record holds the value of the highest
/// source that supplies it. A value on the command line wins; else one from
/// the environment wins over the file; else the file's value stands.
pub proof fn priority_law(
    cli: PartialView,
    env: PartialView,
    file: Option<PartialView>,
    defaults: ConfigView,
    record: ConfigView,
    field: Field,
)
    requires
        resolved(cli, env, file, defaults) == Ok::<ConfigView, ConfigError>(record),
    ensures
        cli.get(field) is Some ==> record.get(field) == cli.get(field),
        cli.get(field) is None && env.get(field) is Some ==> record.get(field) == env.get(
            field,
        ),
        cli.get(field) is None && env.get(field) is None && file_layer(file).get(field) is Some
            ==> record.get(field) == file_layer(file).get(field),
{
}

/// Default fill: a field other than the credential that no source supplies
/// holds the default exactly.
pub proof fn default_fill_law(
    cli: PartialView,
    env: PartialView,
    file: Option<PartialView>,
    defaults: ConfigView,
    record: ConfigView,
    field: Field,
)
    requires
        resolved(cli, env, file, defaults) == Ok::<ConfigView, ConfigError>(record),
        field != Field::ApiKey,
        cli.get(field) is None,
        env.get(field) is None,
        file_layer(file).get(field) is None,
    ensures
        record.get(field) == defaults.get(field),
{
}

/// Credential: where no source supplies a key, resolving fails with
/// `MissingCredential`, whatever else the sources and the defaults hold.
pub proof fn credential_law(
    cli: PartialView,
    env: PartialView,
    file: Option<PartialView>,
    defaults: ConfigView,
)
    requires
        cli.openai_api_key is None,
        env.openai_api_key is None,
        file_layer(file).openai_api_key is None,
    ensures
        resolved(cli, env, file, defaults) == Err::<ConfigView, ConfigError>(
            ConfigError::MissingCredential,
        ),
{
}

/// Every record that resolving gives is complete: it has a credential, and
/// it breaks none of the rules of its fields.
pub proof fn resolved_is_valid(
    cli: PartialView,
    env: PartialView,
    file: Option<PartialView>,
    defaults: ConfigView,
    record: ConfigView,
)
    requires
        resolved(cli, env, file, defaults) == Ok::<ConfigView, ConfigError>(record),
    ensures
        record.valid(),
        record.openai_api_key.len() > 0,
{
}

} // verus!
