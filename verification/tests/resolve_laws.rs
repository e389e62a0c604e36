use winston::resolver::{merge, resolve};
use winston::{ConfigError, F64Bits, Field, WinstonConfig, WinstonConfigBuilder};

fn number(x: f64) -> F64Bits {
    F64Bits::from_bits(x.to_bits())
}

fn full(tag: &str, tokens: u32, x: f64) -> WinstonConfigBuilder {
    WinstonConfigBuilder::new()
        .openai_api_key(format!("{tag}-key"))
        .api_endpoint(format!("https://{tag}.example"))
        .model(format!("{tag}-model"))
        .max_tokens(tokens)
        .temperature(number(x))
        .top_p(number(x / 2.0))
        .frequency_penalty(number(-x))
        .presence_penalty(number(x - 1.0))
        .stop(format!("{tag}-stop"))
        .timeout(number(x * 100.0))
}

fn record_of(tag: &str, tokens: u32, x: f64) -> WinstonConfig {
    WinstonConfig {
        openai_api_key: format!("{tag}-key"),
        api_endpoint: format!("https://{tag}.example"),
        model: format!("{tag}-model"),
        max_tokens: tokens,
        temperature: number(x),
        top_p: number(x / 2.0),
        frequency_penalty: number(-x),
        presence_penalty: number(x - 1.0),
        stop: Some(format!("{tag}-stop")),
        timeout: number(x * 100.0),
    }
}

#[test]
fn command_line_wins_over_everything() {
    let record = resolve(
        full("cli", 1, 0.25),
        full("env", 2, 0.5),
        Some(full("file", 3, 0.75)),
        WinstonConfig::defaults(),
    );
    assert_eq!(record, Ok(record_of("cli", 1, 0.25)));
}

#[test]
fn environment_wins_over_file() {
    let record = resolve(
        WinstonConfigBuilder::new(),
        full("env", 2, 0.5),
        Some(full("file", 3, 0.75)),
        WinstonConfig::defaults(),
    );
    assert_eq!(record, Ok(record_of("env", 2, 0.5)));
}

#[test]
fn file_wins_over_defaults() {
    let record = resolve(
        WinstonConfigBuilder::new(),
        WinstonConfigBuilder::new(),
        Some(full("file", 3, 0.75)),
        WinstonConfig::defaults(),
    );
    assert_eq!(record, Ok(record_of("file", 3, 0.75)));
}

#[test]
fn each_field_comes_from_its_highest_source() {
    let cli = WinstonConfigBuilder::new().model("cli-model".to_string()).top_p(number(0.125));
    let env = WinstonConfigBuilder::new()
        .openai_api_key("env-key".to_string())
        .model("env-model".to_string())
        .max_tokens(2);
    let file = full("file", 3, 0.75);
    let record = resolve(cli, env, Some(file), WinstonConfig::defaults()).unwrap();
    assert_eq!(record.openai_api_key, "env-key");
    assert_eq!(record.api_endpoint, "https://file.example");
    assert_eq!(record.model, "cli-model");
    assert_eq!(record.max_tokens, 2);
    assert_eq!(record.temperature, number(0.75));
    assert_eq!(record.top_p, number(0.125));
    assert_eq!(record.frequency_penalty, number(-0.75));
    assert_eq!(record.presence_penalty, number(-0.25));
    assert_eq!(record.stop, Some("file-stop".to_string()));
    assert_eq!(record.timeout, number(75.0));
}

#[test]
fn unsupplied_fields_hold_the_defaults() {
    let defaults = record_of("default", 7, 0.5);
    let cli = WinstonConfigBuilder::new().openai_api_key("cli-key".to_string());
    let record = resolve(cli, WinstonConfigBuilder::new(), None, defaults).unwrap();
    let mut expected = record_of("default", 7, 0.5);
    expected.openai_api_key = "cli-key".to_string();
    assert_eq!(record, expected);
}

#[test]
fn the_default_key_is_never_used() {
    let defaults = record_of("default", 7, 0.5);
    let outcome = resolve(
        WinstonConfigBuilder::new().model("m".to_string()),
        WinstonConfigBuilder::new().max_tokens(5),
        Some(WinstonConfigBuilder::new().temperature(number(1.0))),
        defaults,
    );
    assert_eq!(outcome, Err(ConfigError::MissingCredential));
}

#[test]
fn missing_credential_wins_over_a_range_error() {
    let outcome = resolve(
        WinstonConfigBuilder::new().temperature(number(9.0)),
        WinstonConfigBuilder::new(),
        None,
        WinstonConfig::defaults(),
    );
    assert_eq!(outcome, Err(ConfigError::MissingCredential));
}

#[test]
fn an_empty_key_counts_as_supplied_and_fails_validation() {
    let outcome = resolve(
        WinstonConfigBuilder::new().openai_api_key(String::new()),
        WinstonConfigBuilder::new().openai_api_key("env-key".to_string()),
        None,
        WinstonConfig::defaults(),
    );
    assert_eq!(outcome, Err(ConfigError::MissingCredential));
}

#[test]
fn validation_errors_are_passed_on() {
    let key = || WinstonConfigBuilder::new().openai_api_key("k".to_string());
    let outcome = resolve(key().max_tokens(0), key(), None, WinstonConfig::defaults());
    assert_eq!(outcome, Err(ConfigError::OutOfRange(Field::MaxTokens)));
    let outcome = resolve(key(), key().top_p(number(1.5)), None, WinstonConfig::defaults());
    assert_eq!(outcome, Err(ConfigError::OutOfRange(Field::TopP)));
    let outcome = resolve(
        key(),
        key(),
        Some(key().timeout(number(-1.0))),
        WinstonConfig::defaults(),
    );
    assert_eq!(outcome, Err(ConfigError::OutOfRange(Field::Timeout)));
}

#[test]
fn a_higher_source_repairs_a_lower_one() {
    let outcome = resolve(
        WinstonConfigBuilder::new().temperature(number(1.0)),
        WinstonConfigBuilder::new().openai_api_key("k".to_string()),
        Some(WinstonConfigBuilder::new().temperature(number(3.5))),
        WinstonConfig::defaults(),
    );
    assert_eq!(outcome.unwrap().temperature, number(1.0));
}

#[test]
fn resolving_twice_gives_the_same_record() {
    let run = || {
        resolve(
            full("cli", 1, 0.25),
            WinstonConfigBuilder::new(),
            None,
            WinstonConfig::defaults(),
        )
    };
    assert_eq!(run(), run());
}

#[test]
fn builder_starts_empty() {
    let b = WinstonConfigBuilder::new();
    assert_eq!(b.openai_api_key, None);
    assert_eq!(b.api_endpoint, None);
    assert_eq!(b.model, None);
    assert_eq!(b.max_tokens, None);
    assert_eq!(b.temperature, None);
    assert_eq!(b.top_p, None);
    assert_eq!(b.frequency_penalty, None);
    assert_eq!(b.presence_penalty, None);
    assert_eq!(b.stop, None);
    assert_eq!(b.timeout, None);
}

#[test]
fn setters_set_one_field_each() {
    let b = full("x", 9, 0.5);
    assert_eq!(b.openai_api_key, Some("x-key".to_string()));
    assert_eq!(b.api_endpoint, Some("https://x.example".to_string()));
    assert_eq!(b.model, Some("x-model".to_string()));
    assert_eq!(b.max_tokens, Some(9));
    assert_eq!(b.temperature, Some(number(0.5)));
    assert_eq!(b.top_p, Some(number(0.25)));
    assert_eq!(b.frequency_penalty, Some(number(-0.5)));
    assert_eq!(b.presence_penalty, Some(number(-0.5)));
    assert_eq!(b.stop, Some("x-stop".to_string()));
    assert_eq!(b.timeout, Some(number(50.0)));
    let one = WinstonConfigBuilder::new().max_tokens(3);
    assert_eq!(one, WinstonConfigBuilder { max_tokens: Some(3), ..WinstonConfigBuilder::new() });
}

#[test]
fn or_prefers_the_left_side() {
    let left = WinstonConfigBuilder::new().model("left".to_string());
    let right = WinstonConfigBuilder::new().model("right".to_string()).max_tokens(4);
    let both = left.or(right);
    assert_eq!(both.model, Some("left".to_string()));
    assert_eq!(both.max_tokens, Some(4));
    assert_eq!(both.temperature, None);
}

#[test]
fn build_fills_the_built_in_defaults() {
    let record = WinstonConfigBuilder::new()
        .openai_api_key("sk-test".to_string())
        .max_tokens(128)
        .build()
        .unwrap();
    let mut expected = WinstonConfig::defaults();
    expected.openai_api_key = "sk-test".to_string();
    expected.max_tokens = 128;
    assert_eq!(record, expected);
}

#[test]
fn build_needs_a_credential_and_valid_values() {
    assert_eq!(WinstonConfigBuilder::new().build(), Err(ConfigError::MissingCredential));
    let outcome = WinstonConfigBuilder::new()
        .openai_api_key("sk-test".to_string())
        .frequency_penalty(number(-2.5))
        .build();
    assert_eq!(outcome, Err(ConfigError::OutOfRange(Field::FrequencyPenalty)));
}

#[test]
fn merging_does_not_validate() {
    let outcome = merge(
        WinstonConfigBuilder::new().temperature(number(3.5)),
        WinstonConfigBuilder::new().openai_api_key("k".to_string()),
        Some(WinstonConfigBuilder::new().max_tokens(0).temperature(number(1.0))),
        WinstonConfig::defaults(),
    );
    let mut expected = WinstonConfig::defaults();
    expected.openai_api_key = "k".to_string();
    expected.temperature = number(3.5);
    expected.max_tokens = 0;
    assert_eq!(outcome, Ok(expected));
    let outcome = merge(
        WinstonConfigBuilder::new().temperature(number(3.5)),
        WinstonConfigBuilder::new(),
        None,
        WinstonConfig::defaults(),
    );
    assert_eq!(outcome, Err(ConfigError::MissingCredential));
}
