use winston::document::parse_config;
use winston::resolver::resolve;
use winston::{ConfigError, F64Bits, Field, WinstonConfig, WinstonConfigBuilder};

fn number(x: f64) -> F64Bits {
    F64Bits::from_bits(x.to_bits())
}

#[test]
fn file_and_environment_scenario() {
    let file = parse_config("model = \"gpt-4\"\nmax_tokens = 100\n").unwrap();
    let env = WinstonConfigBuilder::new().openai_api_key("sk-test".to_string());
    let record = resolve(
        WinstonConfigBuilder::new(),
        env,
        Some(file),
        WinstonConfig::defaults(),
    )
    .unwrap();
    assert_eq!(record.openai_api_key, "sk-test");
    assert_eq!(record.model, "gpt-4");
    assert_eq!(record.max_tokens, 100);
    assert_eq!(record.api_endpoint, "https://api.openai.com");
    assert_eq!(record.temperature, number(0.9));
    assert_eq!(record.top_p, number(1.0));
    assert_eq!(record.frequency_penalty, number(0.0));
    assert_eq!(record.presence_penalty, number(0.0));
    assert_eq!(record.stop, None);
    assert_eq!(record.timeout, number(30.0));
}

#[test]
fn temperature_out_of_range_scenario() {
    let file = parse_config("temperature = 3.5\n").unwrap();
    assert_eq!(file.temperature, Some(number(3.5)));
    let env = WinstonConfigBuilder::new().openai_api_key("sk-test".to_string());
    let outcome = resolve(
        WinstonConfigBuilder::new(),
        env,
        Some(file),
        WinstonConfig::defaults(),
    );
    assert_eq!(outcome, Err(ConfigError::OutOfRange(Field::Temperature)));
    assert_eq!(Field::Temperature.name(), "temperature");
}

#[test]
fn no_credential_scenario() {
    let outcome = resolve(
        WinstonConfigBuilder::new(),
        WinstonConfigBuilder::new(),
        None,
        WinstonConfig::defaults(),
    );
    assert_eq!(outcome, Err(ConfigError::MissingCredential));
}
