use pacifica::config::{require_non_empty, Config, ConfigError, StartupPolicy};

const SEED: [u8; 32] = [
    0x9d, 0x61, 0xb1, 0x9d, 0xef, 0xfd, 0x5a, 0x60, 0xba, 0x84, 0x4a, 0xf4, 0x92, 0xec, 0x2c, 0xc4,
    0x44, 0x49, 0xc5, 0x69, 0x7b, 0x32, 0x69, 0x19, 0x70, 0x3b, 0xac, 0x03, 0x1c, 0xae, 0x7f, 0x60,
];

const PUBLIC_KEY: [u8; 32] = [
    0xd7, 0x5a, 0x98, 0x01, 0x82, 0xb1, 0x0a, 0xb7, 0xd5, 0x4b, 0xfe, 0xd3, 0xc9, 0x64, 0x07, 0x3a,
    0x0e, 0xe1, 0x72, 0xf3, 0xda, 0xa6, 0x23, 0x25, 0xaf, 0x02, 0x1a, 0x68, 0xf7, 0x07, 0x51, 0x1a,
];

fn unread() -> Result<String, String> {
    Err("not read".to_string())
}

fn parse(text: &str) -> Result<Config, String> {
    let table: toml::Table = text.parse().map_err(|error: toml::de::Error| error.to_string())?;
    let mut config = Config::default();
    let text_of = |name: &str| table.get(name).and_then(|value| value.as_str()).map(String::from);
    if let Some(account) = text_of("account") {
        config.account = account;
    }
    if let Some(file) = text_of("private_key_file") {
        config.private_key_file = file;
    }
    if let Some(prefix) = text_of("order_prefix") {
        config.order_prefix = prefix;
    }
    Ok(config)
}

#[test]
fn config_validate_still_requires_account_before_resolve() {
    let config = Config { private_key_file: "key.json".to_string(), ..Default::default() };

    assert_eq!(config.validate(), Err(ConfigError::Missing("account")));
}

#[test]
fn config_defaults_to_testnet_guarded_mode() {
    let config = Config {
        account: "acct".to_string(),
        private_key_file: "key.json".to_string(),
        ..Default::default()
    };

    assert_eq!(config.startup_policy, StartupPolicy::FailOnUnknownOrders);
    assert!(config.testnet);
    assert!(config.rest_url.contains("test-api"));
    assert_eq!(config.validate(), Ok(()));
}

#[test]
fn config_parses_from_toml() {
    let config = parse(
        r#"
account = "acct"
private_key_file = "key.json"
order_prefix = "pfhbt-"
"#,
    )
    .unwrap();

    assert_eq!(config.account, "acct");
    assert_eq!(config.private_key_file, "key.json");
    assert_eq!(config.validate(), Ok(()));
}

#[test]
fn config_resolve_derives_account_from_key_text() {
    let config = Config { private_key_file: "key.json".to_string(), ..Default::default() };
    let key = format!(" {:?}\n", SEED);

    assert_eq!(config.private_key_path(&None), Some("key.json".to_string()));
    let resolved = config.resolve(&None, unread(), Ok(key)).unwrap();

    assert_eq!(resolved.account, bs58::encode(PUBLIC_KEY).into_string());
    assert_eq!(resolved.validate(), Ok(()));
}

#[test]
fn config_resolve_expands_home_private_key_path() {
    let config = Config {
        account: "acct".to_string(),
        private_key_file: "~/pacifica-key.json".to_string(),
        ..Default::default()
    };

    let resolved = config.resolve(&Some("/home/bot".to_string()), unread(), unread()).unwrap();

    assert_eq!(resolved.private_key_file, "/home/bot/pacifica-key.json");
}

#[test]
fn path_stays_without_a_home_or_without_the_mark() {
    let config = Config {
        account: "acct".to_string(),
        private_key_file: "~/key".to_string(),
        api_key: Some("k".to_string()),
        api_key_file: "a/~/b".to_string(),
        ..Default::default()
    };

    let resolved = config.clone().resolve(&None, unread(), unread()).unwrap();
    assert_eq!(resolved.private_key_file, "~/key");
    let resolved = config.resolve(&Some("/h".to_string()), unread(), unread()).unwrap();
    assert_eq!(resolved.private_key_file, "/h/key");
    assert_eq!(resolved.api_key_file, "a/~/b");
}

#[test]
fn config_resolve_treats_blank_api_key_as_none() {
    let config = Config {
        account: "acct".to_string(),
        private_key_file: "key.json".to_string(),
        api_key: Some("  ".to_string()),
        ..Default::default()
    };

    let resolved = config.resolve(&None, unread(), unread()).unwrap();

    assert_eq!(resolved.api_key, None);
}

#[test]
fn config_resolve_loads_api_key_file() {
    let config = Config {
        account: "acct".to_string(),
        private_key_file: "key.json".to_string(),
        api_key_file: "/tmp/key.txt".to_string(),
        ..Default::default()
    };

    assert_eq!(config.api_key_path(&None), Some("/tmp/key.txt".to_string()));
    assert_eq!(config.private_key_path(&None), None);
    let resolved = config.resolve(&None, Ok("  test-api-key\n".to_string()), unread()).unwrap();

    assert_eq!(resolved.api_key, Some("test-api-key".to_string()));
}

#[test]
fn given_api_key_is_trimmed_and_no_file_is_read() {
    let config = Config {
        account: "acct".to_string(),
        api_key: Some(" k\t".to_string()),
        api_key_file: "/tmp/key.txt".to_string(),
        ..Default::default()
    };

    assert_eq!(config.api_key_path(&None), None);
    let resolved = config.resolve(&None, unread(), unread()).unwrap();
    assert_eq!(resolved.api_key, Some("k".to_string()));
}

#[test]
fn files_that_cannot_be_read_are_errors() {
    let config = Config { api_key_file: "a".to_string(), ..Default::default() };
    assert_eq!(
        config.resolve(&None, Err("no file".to_string()), unread()),
        Err(ConfigError::ApiKey("no file".to_string()))
    );

    let config = Config { private_key_file: "k".to_string(), ..Default::default() };
    let error = config.resolve(&None, unread(), Err("no key".to_string())).unwrap_err();
    assert_eq!(error, ConfigError::PrivateKey("no key".to_string()));
    assert_eq!(error.message(), "private key: no key");
}

#[test]
fn key_that_cannot_be_used_is_an_error() {
    let config = Config { private_key_file: "k".to_string(), ..Default::default() };
    let error = config.clone().resolve(&None, unread(), Ok("[1, 2]".to_string())).unwrap_err();
    assert_eq!(
        error.message(),
        "account derivation: invalid key length: expected 32 or 64 bytes, got 2"
    );
    let error = config.resolve(&None, unread(), Ok("0".to_string())).unwrap_err();
    assert!(error.message().starts_with("account derivation: invalid base58 key: "));
}

#[test]
fn fields_are_required_in_order() {
    let complete = Config {
        account: "acct".to_string(),
        private_key_file: "key.json".to_string(),
        ..Default::default()
    };
    let blank = || " \n".to_string();

    let config = Config { public_url: blank(), trade_url: blank(), ..complete.clone() };
    assert_eq!(config.validate(), Err(ConfigError::Missing("public_url")));
    let config = Config { private_url: blank(), ..complete.clone() };
    assert_eq!(config.validate(), Err(ConfigError::Missing("private_url")));
    let config = Config { trade_url: blank(), rest_url: blank(), ..complete.clone() };
    assert_eq!(config.validate(), Err(ConfigError::Missing("trade_url")));
    let config = Config { rest_url: blank(), ..complete.clone() };
    assert_eq!(config.validate(), Err(ConfigError::Missing("rest_url")));
    let config = Config { private_key_file: blank(), ..complete.clone() };
    assert_eq!(config.validate(), Err(ConfigError::Missing("private_key_file")));
    let config = Config { order_prefix: blank(), ..complete.clone() };
    let error = config.validate().unwrap_err();
    assert_eq!(error.message(), "missing required config field: order_prefix");
}

#[test]
fn long_prefix_is_refused() {
    let mut config = Config {
        account: "acct".to_string(),
        private_key_file: "key.json".to_string(),
        order_prefix: "x".repeat(32),
        ..Default::default()
    };
    assert_eq!(config.validate(), Ok(()));
    config.order_prefix = "x".repeat(33);
    let error = config.validate().unwrap_err();
    assert_eq!(
        error.message(),
        "invalid config field order_prefix: must be 32 characters or fewer"
    );
}

#[test]
fn prefix_is_measured_in_characters() {
    let with_prefix = |order_prefix: String| Config {
        account: "acct".to_string(),
        private_key_file: "key.json".to_string(),
        order_prefix,
        ..Default::default()
    };
    assert_eq!(with_prefix("\u{e9}".repeat(17)).validate(), Ok(()));
    assert_eq!(with_prefix("\u{e9}".repeat(32)).validate(), Ok(()));
    assert_eq!(with_prefix("\u{1f4b0}".repeat(32)).validate(), Ok(()));
    assert_eq!(
        with_prefix("\u{e9}".repeat(33)).validate(),
        Err(ConfigError::Invalid {
            field: "order_prefix",
            reason: "must be 32 characters or fewer",
        })
    );
}

#[test]
fn blank_value_is_missing() {
    assert_eq!(require_non_empty("f", "x"), Ok(()));
    assert_eq!(require_non_empty("f", "\u{a0}"), Err(ConfigError::Missing("f")));
}
