use winston::{ConfigError, F64Bits, Field, WinstonConfig};

fn number(x: f64) -> F64Bits {
    F64Bits::from_bits(x.to_bits())
}

fn valid_record() -> WinstonConfig {
    let mut record = WinstonConfig::defaults();
    record.openai_api_key = "sk-test".to_string();
    record
}

#[test]
fn defaults_hold_the_documented_values() {
    let record = WinstonConfig::defaults();
    assert_eq!(record.openai_api_key, "");
    assert_eq!(record.api_endpoint, "https://api.openai.com");
    assert_eq!(record.model, "davinci");
    assert_eq!(record.max_tokens, 64);
    assert_eq!(record.temperature, number(0.9));
    assert_eq!(record.top_p, number(1.0));
    assert_eq!(record.frequency_penalty, number(0.0));
    assert_eq!(record.presence_penalty, number(0.0));
    assert_eq!(record.stop, None);
    assert_eq!(record.timeout, number(30.0));
}

#[test]
fn defaults_lack_only_the_credential() {
    assert_eq!(WinstonConfig::defaults().validate(), Err(ConfigError::MissingCredential));
    assert_eq!(valid_record().validate(), Ok(()));
}

#[test]
fn empty_key_is_a_missing_credential() {
    let mut record = valid_record();
    record.openai_api_key = String::new();
    record.temperature = number(9.0);
    assert_eq!(record.validate(), Err(ConfigError::MissingCredential));
}

#[test]
fn max_tokens_must_be_positive() {
    let mut record = valid_record();
    record.max_tokens = 0;
    assert_eq!(record.validate(), Err(ConfigError::OutOfRange(Field::MaxTokens)));
    record.max_tokens = 1;
    assert_eq!(record.validate(), Ok(()));
    record.max_tokens = u32::MAX;
    assert_eq!(record.validate(), Ok(()));
}

#[test]
fn temperature_lies_between_zero_and_two() {
    let mut record = valid_record();
    for (x, ok) in [
        (0.0, true),
        (-0.0, true),
        (2.0, true),
        (0.7, true),
        (3.5, false),
        (2.0000000000000004, false),
        (-5e-324, false),
        (f64::NAN, false),
        (f64::INFINITY, false),
    ] {
        record.temperature = number(x);
        let expected = if ok { Ok(()) } else { Err(ConfigError::OutOfRange(Field::Temperature)) };
        assert_eq!(record.validate(), expected, "{x}");
    }
}

#[test]
fn top_p_lies_between_zero_and_one() {
    let mut record = valid_record();
    for (x, ok) in [
        (0.0, true),
        (1.0, true),
        (0.5, true),
        (1.0000000000000002, false),
        (-0.1, false),
        (f64::NAN, false),
    ] {
        record.top_p = number(x);
        let expected = if ok { Ok(()) } else { Err(ConfigError::OutOfRange(Field::TopP)) };
        assert_eq!(record.validate(), expected, "{x}");
    }
}

#[test]
fn penalties_lie_between_minus_two_and_two() {
    for (x, ok) in [
        (-2.0, true),
        (2.0, true),
        (0.5, true),
        (-2.0000000000000004, false),
        (2.5, false),
        (f64::NEG_INFINITY, false),
        (f64::NAN, false),
    ] {
        let mut record = valid_record();
        record.frequency_penalty = number(x);
        let expected =
            if ok { Ok(()) } else { Err(ConfigError::OutOfRange(Field::FrequencyPenalty)) };
        assert_eq!(record.validate(), expected, "{x}");
        let mut record = valid_record();
        record.presence_penalty = number(x);
        let expected =
            if ok { Ok(()) } else { Err(ConfigError::OutOfRange(Field::PresencePenalty)) };
        assert_eq!(record.validate(), expected, "{x}");
    }
}

#[test]
fn timeout_must_be_positive() {
    let mut record = valid_record();
    for (x, ok) in [
        (30.0, true),
        (5e-324, true),
        (f64::INFINITY, true),
        (0.0, false),
        (-0.0, false),
        (-1.0, false),
        (f64::NAN, false),
    ] {
        record.timeout = number(x);
        let expected = if ok { Ok(()) } else { Err(ConfigError::OutOfRange(Field::Timeout)) };
        assert_eq!(record.validate(), expected, "{x}");
    }
}

#[test]
fn the_first_broken_rule_is_reported() {
    let mut record = valid_record();
    record.timeout = number(0.0);
    record.presence_penalty = number(3.0);
    assert_eq!(record.validate(), Err(ConfigError::OutOfRange(Field::PresencePenalty)));
    record.frequency_penalty = number(3.0);
    assert_eq!(record.validate(), Err(ConfigError::OutOfRange(Field::FrequencyPenalty)));
    record.top_p = number(3.0);
    assert_eq!(record.validate(), Err(ConfigError::OutOfRange(Field::TopP)));
    record.temperature = number(3.0);
    assert_eq!(record.validate(), Err(ConfigError::OutOfRange(Field::Temperature)));
    record.max_tokens = 0;
    assert_eq!(record.validate(), Err(ConfigError::OutOfRange(Field::MaxTokens)));
}

#[test]
fn fields_have_their_names() {
    assert_eq!(Field::ApiKey.name(), "api_key");
    assert_eq!(Field::Endpoint.name(), "endpoint");
    assert_eq!(Field::Model.name(), "model");
    assert_eq!(Field::MaxTokens.name(), "max_tokens");
    assert_eq!(Field::Temperature.name(), "temperature");
    assert_eq!(Field::TopP.name(), "top_p");
    assert_eq!(Field::FrequencyPenalty.name(), "frequency_penalty");
    assert_eq!(Field::PresencePenalty.name(), "presence_penalty");
    assert_eq!(Field::Stop.name(), "stop_sequence");
    assert_eq!(Field::Timeout.name(), "timeout_seconds");
}
