//! The resolved configuration record and its validation.

use vstd::prelude::*;
use crate::error::{ConfigError, Field};
use crate::number::{
    lemma_above_integer, lemma_magnitudes_order, lemma_small_integers, lemma_within_integers,
    F64Bits,
};

verus! {

/// The default endpoint of the completion service.
pub const OPENAI_ENDPOINT: &'static str = "https://api.openai.com";

/// The path of the chat completions under an endpoint.
pub const OPENAI_CHAT: &'static str = "/v1/chat/completions";

/// The default model.
pub const MODEL: &'static str = "davinci";

/// The default limit on the tokens of a completion.
pub const MAX_TOKENS: u32 = 64;

/// The default temperature: the bit pattern of 0.9.
pub const TEMPERATURE: u64 = 0x3fec_cccc_cccc_cccd;

/// The default `top_p`: the bit pattern of 1.0.
pub const TOP_P: u64 = 0x3ff0_0000_0000_0000;

/// The default frequency penalty: the bit pattern of 0.0.
pub const FREQUENCY_PENALTY: u64 = 0;

/// The default presence penalty: the bit pattern of 0.0.
pub const PRESENCE_PENALTY: u64 = 0;

/// The default timeout in seconds: the bit pattern of 30.0.
pub const TIMEOUT: u64 = 0x403e_0000_0000_0000;

/// The bit pattern of 0.0.
pub const ZERO: u64 = 0;

/// The bit pattern of 1.0.
pub const ONE: u64 = 0x3ff0_0000_0000_0000;

/// The bit pattern of 2.0.
pub const TWO: u64 = 0x4000_0000_0000_0000;

/// The bit pattern of -2.0.
pub const MINUS_TWO: u64 = 0xc000_0000_0000_0000;

/// A fully resolved configuration: the credential and the generation
/// parameters with which the completion service is called.
#[derive(Clone, Debug, PartialEq, Eq)]
pub struct WinstonConfig {
    pub openai_api_key: String,
    pub api_endpoint: String,
    pub model: String,
    pub max_tokens: u32,
    pub temperature: F64Bits,
    pub top_p: F64Bits,
    pub frequency_penalty: F64Bits,
    pub presence_penalty: F64Bits,
    pub stop: Option<String>,
    pub timeout: F64Bits,
}

/// What a [`WinstonConfig`] holds, as mathematical values.
pub struct ConfigView {
    pub openai_api_key: Seq<char>,
    pub api_endpoint: Seq<char>,
    pub model: Seq<char>,
    pub max_tokens: u32,
    pub temperature: F64Bits,
    pub top_p: F64Bits,
    pub frequency_penalty: F64Bits,
    pub presence_penalty: F64Bits,
    pub stop: Option<Seq<char>>,
    pub timeout: F64Bits,
}

/// Whether a number lies between two integers, both included.
pub open spec fn in_range(x: F64Bits, low: int, high: int) -> bool {
    x.at_least(low) && x.at_most(high)
}

/// Whether a number is greater than zero.
pub open spec fn positive(x: F64Bits) -> bool {
    x.greater_than(0)
}

/// The view of an optional string.
pub open spec fn text_view(s: Option<String>) -> Option<Seq<char>> {
    match s {
        Some(s) => Some(s@),
        None => None,
    }
}

impl View for WinstonConfig {
    type V = ConfigView;

    open spec fn view(&self) -> ConfigView {
        ConfigView {
            openai_api_key: self.openai_api_key@,
            api_endpoint: self.api_endpoint@,
            model: self.model@,
            max_tokens: self.max_tokens,
            temperature: self.temperature,
            top_p: self.top_p,
            frequency_penalty: self.frequency_penalty,
            presence_penalty: self.presence_penalty,
            stop: text_view(self.stop),
            timeout: self.timeout,
        }
    }
}

impl ConfigView {
    /// The first rule that the record breaks, if it breaks one: the key must
    /// not be empty, `max_tokens` must be positive, `temperature` must lie in
    /// [0, 2], `top_p` in [0, 1], both penalties in [-2, 2], and the timeout
    /// must be positive. A NaN lies in no range.
    pub open spec fn violation(self) -> Option<ConfigError> {
        if self.openai_api_key.len() == 0 {
            Some(ConfigError::MissingCredential)
        } else if self.max_tokens == 0 {
            Some(ConfigError::OutOfRange(Field::MaxTokens))
        } else if !in_range(self.temperature, 0, 2) {
            Some(ConfigError::OutOfRange(Field::Temperature))
        } else if !in_range(self.top_p, 0, 1) {
            Some(ConfigError::OutOfRange(Field::TopP))
        } else if !in_range(self.frequency_penalty, -2, 2) {
            Some(ConfigError::OutOfRange(Field::FrequencyPenalty))
        } else if !in_range(self.presence_penalty, -2, 2) {
            Some(ConfigError::OutOfRange(Field::PresencePenalty))
        } else if !positive(self.timeout) {
            Some(ConfigError::OutOfRange(Field::Timeout))
        } else {
            None
        }
    }

    /// Whether the record breaks no rule.
    pub open spec fn valid(self) -> bool {
        self.violation() is None
    }

    /// The built-in defaults. They hold no credential.
    pub open spec fn defaults() -> ConfigView {
        ConfigView {
            openai_api_key: Seq::empty(),
            api_endpoint: OPENAI_ENDPOINT@,
            model: MODEL@,
            max_tokens: MAX_TOKENS,
            temperature: F64Bits::from_bits(TEMPERATURE),
            top_p: F64Bits::from_bits(TOP_P),
            frequency_penalty: F64Bits::from_bits(FREQUENCY_PENALTY),
            presence_penalty: F64Bits::from_bits(PRESENCE_PENALTY),
            stop: None,
            timeout: F64Bits::from_bits(TIMEOUT),
        }
    }
}

impl WinstonConfig {
    /// The record of the built-in defaults, to be handed to `resolve`. Its
    /// key is empty: there is no default credential.
    pub fn defaults() -> (r: WinstonConfig)
        ensures
            r@ == ConfigView::defaults(),
    {
        WinstonConfig {
            openai_api_key: String::new(),
            api_endpoint: String::from_str(OPENAI_ENDPOINT),
            model: String::from_str(MODEL),
            max_tokens: MAX_TOKENS,
            temperature: F64Bits::from_bits(TEMPERATURE),
            top_p: F64Bits::from_bits(TOP_P),
            frequency_penalty: F64Bits::from_bits(FREQUENCY_PENALTY),
            presence_penalty: F64Bits::from_bits(PRESENCE_PENALTY),
            stop: None,
            timeout: F64Bits::from_bits(TIMEOUT),
        }
    }

    /// Checks the record against the rules of its fields and reports the
    /// first one that it breaks.
    pub fn validate(&self) -> (r: Result<(), ConfigError>)
        ensures
            r == match self@.violation() {
                Some(e) => Err::<(), ConfigError>(e),
                None => Ok(()),
            },
    {
        let zero = F64Bits::from_bits(ZERO);
        let one = F64Bits::from_bits(ONE);
        let two = F64Bits::from_bits(TWO);
        let minus_two = F64Bits::from_bits(MINUS_TWO);
        proof {
            lemma_small_integers();
            lemma_within_integers(self.temperature, zero, two, 0, 2);
            lemma_within_integers(self.top_p, zero, one, 0, 1);
            lemma_within_integers(self.frequency_penalty, minus_two, two, -2, 2);
            lemma_within_integers(self.presence_penalty, minus_two, two, -2, 2);
            lemma_above_integer(self.timeout, zero, 0);
        }
        if self.openai_api_key.as_str().is_empty() {
            Err(ConfigError::MissingCredential)
        } else if self.max_tokens == 0 {
            Err(ConfigError::OutOfRange(Field::MaxTokens))
        } else if !self.temperature.within(zero, two) {
            Err(ConfigError::OutOfRange(Field::Temperature))
        } else if !self.top_p.within(zero, one) {
            Err(ConfigError::OutOfRange(Field::TopP))
        } else if !self.frequency_penalty.within(minus_two, two) {
            Err(ConfigError::OutOfRange(Field::FrequencyPenalty))
        } else if !self.presence_penalty.within(minus_two, two) {
            Err(ConfigError::OutOfRange(Field::PresencePenalty))
        } else if !zero.lt(self.timeout) {
            Err(ConfigError::OutOfRange(Field::Timeout))
        } else {
            Ok(())
        }
    }
}

/// The built-in defaults break no rule but the one on the credential: with
/// any key that is not empty they are a valid record.
pub proof fn defaults_lack_only_a_key(key: Seq<char>)
    requires
        key.len() > 0,
    ensures
        (ConfigView { openai_api_key: key, ..ConfigView::defaults() }).valid(),
{
    let zero = F64Bits::from_bits(ZERO);
    let one = F64Bits::from_bits(ONE);
    let two = F64Bits::from_bits(TWO);
    let minus_two = F64Bits::from_bits(MINUS_TWO);
    let defaults = ConfigView::defaults();
    lemma_small_integers();
    lemma_within_integers(defaults.temperature, zero, two, 0, 2);
    lemma_within_integers(defaults.top_p, zero, one, 0, 1);
    lemma_within_integers(defaults.frequency_penalty, minus_two, two, -2, 2);
    lemma_within_integers(defaults.presence_penalty, minus_two, two, -2, 2);
    lemma_above_integer(defaults.timeout, zero, 0);
    lemma_magnitudes_order(zero, defaults.temperature);
    lemma_magnitudes_order(defaults.temperature, two);
    lemma_magnitudes_order(zero, defaults.timeout);
}

} // verus!
