//! A partial configuration: what one source supplies.

use vstd::prelude::*;
use crate::config::{text_view, ConfigView, WinstonConfig};
use crate::error::ConfigError;
use crate::number::F64Bits;
use crate::resolver::{resolve, resolved, result_view};

verus! {

/// The environment variable that holds the API key.
pub const ENV_API_KEY: &'static str = "OPENAI_API_KEY";

/// The environment variable that holds the model.
pub const ENV_MODEL: &'static str = "OPENAI_MODEL";

/// The environment variable that names the configuration home. It decides
/// where the configuration file lies and supplies no field.
pub const ENV_CONFIG_HOME: &'static str = "XDG_CONFIG_HOME";

/// The values that one source supplies: every field may be absent.
///
/// The command line, the environment and the configuration file each give
/// one; `resolve` merges them into a [`WinstonConfig`].
#[derive(Clone, Debug, PartialEq, Eq)]
pub struct WinstonConfigBuilder {
    pub openai_api_key: Option<String>,
    pub api_endpoint: Option<String>,
    pub model: Option<String>,
    pub max_tokens: Option<u32>,
    pub temperature: Option<F64Bits>,
    pub top_p: Option<F64Bits>,
    pub frequency_penalty: Option<F64Bits>,
    pub presence_penalty: Option<F64Bits>,
    pub stop: Option<String>,
    pub timeout: Option<F64Bits>,
}

/// What a [`WinstonConfigBuilder`] holds, as mathematical values.
pub struct PartialView {
    pub openai_api_key: Option<Seq<char>>,
    pub api_endpoint: Option<Seq<char>>,
    pub model: Option<Seq<char>>,
    pub max_tokens: Option<u32>,
    pub temperature: Option<F64Bits>,
    pub top_p: Option<F64Bits>,
    pub frequency_penalty: Option<F64Bits>,
    pub presence_penalty: Option<F64Bits>,
    pub stop: Option<Seq<char>>,
    pub timeout: Option<F64Bits>,
}

impl View for WinstonConfigBuilder {
    type V = PartialView;

    open spec fn view(&self) -> PartialView {
        PartialView {
            openai_api_key: text_view(self.openai_api_key),
            api_endpoint: text_view(self.api_endpoint),
            model: text_view(self.model),
            max_tokens: self.max_tokens,
            temperature: self.temperature,
            top_p: self.top_p,
            frequency_penalty: self.frequency_penalty,
            presence_penalty: self.presence_penalty,
            stop: text_view(self.stop),
            timeout: self.timeout,
        }
    }
}

/// `a` if it is present, else `b`.
pub open spec fn first_present<T>(a: Option<T>, b: Option<T>) -> Option<T> {
    if a is Some {
        a
    } else {
        b
    }
}

/// `a` if it is present, else `b`.
pub(crate) fn first_of<T>(a: Option<T>, b: Option<T>) -> (r: Option<T>)
    ensures
        r == first_present(a, b),
{
    match a {
        Some(x) => Some(x),
        None => b,
    }
}

/// The value of a present text field, else the default.
pub(crate) fn text_or(a: Option<String>, default: String) -> (r: String)
    ensures
        r@ == (match a {
            Some(x) => x@,
            None => default@,
        }),
{
    match a {
        Some(x) => x,
        None => default,
    }
}

impl PartialView {
    /// The partial configuration that supplies nothing.
    pub open spec fn empty() -> PartialView {
        PartialView {
            openai_api_key: None,
            api_endpoint: None,
            model: None,
            max_tokens: None,
            temperature: None,
            top_p: None,
            frequency_penalty: None,
            presence_penalty: None,
            stop: None,
            timeout: None,
        }
    }

    /// Field by field, the value of `self` where it has one, else that of
    /// `lower`.
    pub open spec fn or(self, lower: PartialView) -> PartialView {
        PartialView {
            openai_api_key: first_present(self.openai_api_key, lower.openai_api_key),
            api_endpoint: first_present(self.api_endpoint, lower.api_endpoint),
            model: first_present(self.model, lower.model),
            max_tokens: first_present(self.max_tokens, lower.max_tokens),
            temperature: first_present(self.temperature, lower.temperature),
            top_p: first_present(self.top_p, lower.top_p),
            frequency_penalty: first_present(self.frequency_penalty, lower.frequency_penalty),
            presence_penalty: first_present(self.presence_penalty, lower.presence_penalty),
            stop: first_present(self.stop, lower.stop),
            timeout: first_present(self.timeout, lower.timeout),
        }
    }

    /// The record with the given key and, field by field, the value of
    /// `self` where it has one, else the default. The key of `defaults` is
    /// not looked at.
    pub open spec fn complete(self, key: Seq<char>, defaults: ConfigView) -> ConfigView {
        ConfigView {
            openai_api_key: key,
            api_endpoint: self.api_endpoint.unwrap_or(defaults.api_endpoint),
            model: self.model.unwrap_or(defaults.model),
            max_tokens: self.max_tokens.unwrap_or(defaults.max_tokens),
            temperature: self.temperature.unwrap_or(defaults.temperature),
            top_p: self.top_p.unwrap_or(defaults.top_p),
            frequency_penalty: self.frequency_penalty.unwrap_or(defaults.frequency_penalty),
            presence_penalty: self.presence_penalty.unwrap_or(defaults.presence_penalty),
            stop: first_present(self.stop, defaults.stop),
            timeout: self.timeout.unwrap_or(defaults.timeout),
        }
    }
}

impl WinstonConfigBuilder {
    /// The builder that supplies nothing.
    pub fn new() -> (r: Self)
        ensures
            r@ == PartialView::empty(),
    {
        WinstonConfigBuilder {
            openai_api_key: None,
            api_endpoint: None,
            model: None,
            max_tokens: None,
            temperature: None,
            top_p: None,
            frequency_penalty: None,
            presence_penalty: None,
            stop: None,
            timeout: None,
        }
    }

    /// What the environment supplies: the key from `OPENAI_API_KEY` and the
    /// model from `OPENAI_MODEL`, each where the variable is set.
    pub fn from_environment(api_key: Option<String>, model: Option<String>) -> (r: Self)
        ensures
            r@ == (PartialView {
                openai_api_key: text_view(api_key),
                model: text_view(model),
                ..PartialView::empty()
            }),
    {
        WinstonConfigBuilder {
            openai_api_key: api_key,
            api_endpoint: None,
            model,
            max_tokens: None,
            temperature: None,
            top_p: None,
            frequency_penalty: None,
            presence_penalty: None,
            stop: None,
            timeout: None,
        }
    }

    /// Field by field, the value of `self` where it has one, else that of
    /// `lower`.
    pub fn or(self, lower: WinstonConfigBuilder) -> (r: Self)
        ensures
            r@ == self@.or(lower@),
    {
        WinstonConfigBuilder {
            openai_api_key: first_of(self.openai_api_key, lower.openai_api_key),
            api_endpoint: first_of(self.api_endpoint, lower.api_endpoint),
            model: first_of(self.model, lower.model),
            max_tokens: first_of(self.max_tokens, lower.max_tokens),
            temperature: first_of(self.temperature, lower.temperature),
            top_p: first_of(self.top_p, lower.top_p),
            frequency_penalty: first_of(self.frequency_penalty, lower.frequency_penalty),
            presence_penalty: first_of(self.presence_penalty, lower.presence_penalty),
            stop: first_of(self.stop, lower.stop),
            timeout: first_of(self.timeout, lower.timeout),
        }
    }

    /// Supplies the API key; the other fields stay as they are.
    pub fn openai_api_key(self, key: String) -> (r: Self)
        ensures
            r@ == (PartialView { openai_api_key: Some(key@), ..self@ }),
    {
        let mut b = self;
        b.openai_api_key = Some(key);
        b
    }

    /// Supplies the endpoint; the other fields stay as they are.
    pub fn api_endpoint(self, endpoint: String) -> (r: Self)
        ensures
            r@ == (PartialView { api_endpoint: Some(endpoint@), ..self@ }),
    {
        let mut b = self;
        b.api_endpoint = Some(endpoint);
        b
    }

    /// Supplies the model; the other fields stay as they are.
    pub fn model(self, model: String) -> (r: Self)
        ensures
            r@ == (PartialView { model: Some(model@), ..self@ }),
    {
        let mut b = self;
        b.model = Some(model);
        b
    }

    /// Supplies the limit on the tokens of a completion; the other fields stay as they are.
    pub fn max_tokens(self, max_tokens: u32) -> (r: Self)
        ensures
            r@ == (PartialView { max_tokens: Some(max_tokens), ..self@ }),
    {
        let mut b = self;
        b.max_tokens = Some(max_tokens);
        b
    }

    /// Supplies the temperature; the other fields stay as they are.
    pub fn temperature(self, temperature: F64Bits) -> (r: Self)
        ensures
            r@ == (PartialView { temperature: Some(temperature), ..self@ }),
    {
        let mut b = self;
        b.temperature = Some(temperature);
        b
    }

    /// Supplies `top_p`; the other fields stay as they are.
    pub fn top_p(self, top_p: F64Bits) -> (r: Self)
        ensures
            r@ == (PartialView { top_p: Some(top_p), ..self@ }),
    {
        let mut b = self;
        b.top_p = Some(top_p);
        b
    }

    /// Supplies the frequency penalty; the other fields stay as they are.
    pub fn frequency_penalty(self, frequency_penalty: F64Bits) -> (r: Self)
        ensures
            r@ == (PartialView { frequency_penalty: Some(frequency_penalty), ..self@ }),
    {
        let mut b = self;
        b.frequency_penalty = Some(frequency_penalty);
        b
    }

    /// Supplies the presence penalty; the other fields stay as they are.
    pub fn presence_penalty(self, presence_penalty: F64Bits) -> (r: Self)
        ensures
            r@ == (PartialView { presence_penalty: Some(presence_penalty), ..self@ }),
    {
        let mut b = self;
        b.presence_penalty = Some(presence_penalty);
        b
    }

    /// Supplies the stop sequence; the other fields stay as they are.
    pub fn stop(self, stop: String) -> (r: Self)
        ensures
            r@ == (PartialView { stop: Some(stop@), ..self@ }),
    {
        let mut b = self;
        b.stop = Some(stop);
        b
    }

    /// Supplies the timeout, in seconds; the other fields stay as they are.
    pub fn timeout(self, timeout: F64Bits) -> (r: Self)
        ensures
            r@ == (PartialView { timeout: Some(timeout), ..self@ }),
    {
        let mut b = self;
        b.timeout = Some(timeout);
        b
    }

    /// The record that the builder gives by itself: its values over the
    /// built-in defaults, validated.
    pub fn build(self) -> (r: Result<WinstonConfig, ConfigError>)
        ensures
            result_view(r) == resolved(
                self@,
                PartialView::empty(),
                None,
                ConfigView::defaults(),
            ),
    {
        resolve(self, WinstonConfigBuilder::new(), None, WinstonConfig::defaults())
    }
}

} // verus!
