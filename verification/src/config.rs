//! The settings of the connector.

use crate::signing::{
    keypair_bytes, public_key_from_keypair_text, public_key_of, SigningErrorView,
};
use crate::text::{clone_option_text, is_blank, outcome, strip_prefix, trim, trimmed};
use vstd::prelude::*;
use vstd::string::{StrSliceExecFns, StringExecFns};

verus! {

/// The settings.
#[derive(Debug, PartialEq)]
pub struct Config {
    pub public_url: String,
    pub private_url: String,
    pub trade_url: String,
    pub rest_url: String,
    pub account: String,
    pub private_key_file: String,
    pub api_key: Option<String>,
    pub api_key_file: String,
    pub order_prefix: String,
    pub startup_policy: StartupPolicy,
    pub testnet: bool,
}

/// What to do with what is there at the start.
#[derive(Clone, Copy, Debug, PartialEq, Eq, Structural)]
pub enum StartupPolicy {
    FailOnUnknownOrders,
}

/// What a [`Config`] says.
#[verifier::ext_equal]
pub struct ConfigView {
    pub public_url: Seq<char>,
    pub private_url: Seq<char>,
    pub trade_url: Seq<char>,
    pub rest_url: Seq<char>,
    pub account: Seq<char>,
    pub private_key_file: Seq<char>,
    pub api_key: Option<Seq<char>>,
    pub api_key_file: Seq<char>,
    pub order_prefix: Seq<char>,
    pub startup_policy: StartupPolicy,
    pub testnet: bool,
}

impl View for Config {
    type V = ConfigView;

    open spec fn view(&self) -> ConfigView {
        ConfigView {
            public_url: self.public_url@,
            private_url: self.private_url@,
            trade_url: self.trade_url@,
            rest_url: self.rest_url@,
            account: self.account@,
            private_key_file: self.private_key_file@,
            api_key: self.api_key.deep_view(),
            api_key_file: self.api_key_file@,
            order_prefix: self.order_prefix@,
            startup_policy: self.startup_policy,
            testnet: self.testnet,
        }
    }
}

impl DeepView for Config {
    type V = ConfigView;

    open spec fn deep_view(&self) -> ConfigView {
        self@
    }
}

/// Why settings cannot be used.
#[derive(Debug, PartialEq, Eq)]
pub enum ConfigError {
    Missing(&'static str),
    Invalid { field: &'static str, reason: &'static str },
    PrivateKey(String),
    ApiKey(String),
    AccountDerivation(String),
}

/// What a [`ConfigError`] says.
pub enum ConfigErrorView {
    Missing(Seq<char>),
    Invalid { field: Seq<char>, reason: Seq<char> },
    PrivateKey(Seq<char>),
    ApiKey(Seq<char>),
    AccountDerivation(Seq<char>),
}

impl View for ConfigError {
    type V = ConfigErrorView;

    open spec fn view(&self) -> ConfigErrorView {
        match *self {
            ConfigError::Missing(field) => ConfigErrorView::Missing(field@),
            ConfigError::Invalid { field, reason } => ConfigErrorView::Invalid {
                field: field@,
                reason: reason@,
            },
            ConfigError::PrivateKey(error) => ConfigErrorView::PrivateKey(error@),
            ConfigError::ApiKey(error) => ConfigErrorView::ApiKey(error@),
            ConfigError::AccountDerivation(error) => ConfigErrorView::AccountDerivation(error@),
        }
    }
}

impl ConfigErrorView {
    /// The words for the error.
    pub open spec fn words(self) -> Seq<char> {
        match self {
            ConfigErrorView::Missing(field) => "missing required config field: "@ + field,
            ConfigErrorView::Invalid { field, reason } => "invalid config field "@ + field + ": "@
                + reason,
            ConfigErrorView::PrivateKey(error) => "private key: "@ + error,
            ConfigErrorView::ApiKey(error) => "api key: "@ + error,
            ConfigErrorView::AccountDerivation(error) => "account derivation: "@ + error,
        }
    }
}

impl ConfigError {
    /// The words for the error.
    pub fn message(&self) -> (r: String)
        ensures
            r@ == self@.words(),
    {
        match self {
            ConfigError::Missing(field) => "missing required config field: ".to_string().concat(
                field,
            ),
            ConfigError::Invalid { field, reason } => "invalid config field ".to_string().concat(
                field,
            ).concat(": ").concat(reason),
            ConfigError::PrivateKey(error) => "private key: ".to_string().concat(error.as_str()),
            ConfigError::ApiKey(error) => "api key: ".to_string().concat(error.as_str()),
            ConfigError::AccountDerivation(error) => "account derivation: ".to_string().concat(
                error.as_str(),
            ),
        }
    }
}

impl Default for Config {
    /// The settings for the test network. The account and the key are left to fill in.
    fn default() -> (r: Self)
        ensures
            r@ == (ConfigView {
                public_url: "wss://test-ws.pacifica.fi/ws"@,
                private_url: "wss://test-ws.pacifica.fi/ws"@,
                trade_url: "wss://test-ws.pacifica.fi/ws"@,
                rest_url: "https://test-api.pacifica.fi"@,
                account: Seq::empty(),
                private_key_file: Seq::empty(),
                api_key: None,
                api_key_file: Seq::empty(),
                order_prefix: "pfhbt-"@,
                startup_policy: StartupPolicy::FailOnUnknownOrders,
                testnet: true,
            }),
    {
        Config {
            public_url: "wss://test-ws.pacifica.fi/ws".to_string(),
            private_url: "wss://test-ws.pacifica.fi/ws".to_string(),
            trade_url: "wss://test-ws.pacifica.fi/ws".to_string(),
            rest_url: "https://test-api.pacifica.fi".to_string(),
            account: String::new(),
            private_key_file: String::new(),
            api_key: None,
            api_key_file: String::new(),
            order_prefix: "pfhbt-".to_string(),
            startup_policy: StartupPolicy::FailOnUnknownOrders,
            testnet: true,
        }
    }
}

impl Clone for Config {
    fn clone(&self) -> (r: Self)
        ensures
            r@ == self@,
    {
        Config {
            public_url: self.public_url.clone(),
            private_url: self.private_url.clone(),
            trade_url: self.trade_url.clone(),
            rest_url: self.rest_url.clone(),
            account: self.account.clone(),
            private_key_file: self.private_key_file.clone(),
            api_key: clone_option_text(&self.api_key),
            api_key_file: self.api_key_file.clone(),
            order_prefix: self.order_prefix.clone(),
            startup_policy: self.startup_policy,
            testnet: self.testnet,
        }
    }
}

/// Only white space.
pub open spec fn blank(text: Seq<char>) -> bool {
    trimmed(text).len() == 0
}

/// A path under the home directory in full.
pub open spec fn expanded_path(path: Seq<char>, home: Option<Seq<char>>) -> Seq<char> {
    let marker = "~/"@;
    if home is Some && marker.len() <= path.len() && path.subrange(0, marker.len() as int)
        == marker {
        home->0 + "/"@ + path.subrange(marker.len() as int, path.len() as int)
    } else {
        path
    }
}

/// A key as it is used: without white space around it, and none where nothing is left.
pub open spec fn used_key(key: Seq<char>) -> Option<Seq<char>> {
    if blank(key) {
        None
    } else {
        Some(trimmed(key))
    }
}

impl ConfigView {
    /// The settings with full paths, and with the key as it is used.
    pub open spec fn prepared(self, home: Option<Seq<char>>) -> ConfigView {
        ConfigView {
            private_key_file: expanded_path(self.private_key_file, home),
            api_key_file: expanded_path(self.api_key_file, home),
            api_key: match self.api_key {
                Some(key) => used_key(key),
                None => None,
            },
            ..self
        }
    }

    /// The file that holds the key, where it has to be read.
    pub open spec fn api_key_source(self) -> Option<Seq<char>> {
        if self.api_key is None && !blank(self.api_key_file) {
            Some(self.api_key_file)
        } else {
            None
        }
    }

    /// The file from which the account is derived, where it has to be read.
    pub open spec fn account_source(self) -> Option<Seq<char>> {
        if blank(self.account) && !blank(self.private_key_file) {
            Some(self.private_key_file)
        } else {
            None
        }
    }

    /// The settings after the key was read, where it had to be.
    pub open spec fn with_api_key(self, file: Result<Seq<char>, Seq<char>>) -> Result<
        ConfigView,
        ConfigErrorView,
    > {
        if self.api_key_source() is None {
            Ok(self)
        } else {
            match file {
                Ok(text) => Ok(ConfigView { api_key: used_key(text), ..self }),
                Err(error) => Err(ConfigErrorView::ApiKey(error)),
            }
        }
    }

    /// The settings after the account was derived, where it had to be.
    pub open spec fn with_account(self, file: Result<Seq<char>, Seq<char>>) -> Result<
        ConfigView,
        ConfigErrorView,
    > {
        if self.account_source() is None {
            Ok(self)
        } else {
            match file {
                Ok(text) => match derived_account(trimmed(text)) {
                    Ok(account) => Ok(ConfigView { account, ..self }),
                    Err(error) => Err(ConfigErrorView::AccountDerivation(error.words())),
                },
                Err(error) => Err(ConfigErrorView::PrivateKey(error)),
            }
        }
    }

    /// The settings with everything filled in that can be found out.
    pub open spec fn resolved(
        self,
        home: Option<Seq<char>>,
        api_key_file: Result<Seq<char>, Seq<char>>,
        private_key_file: Result<Seq<char>, Seq<char>>,
    ) -> Result<ConfigView, ConfigErrorView> {
        match self.prepared(home).with_api_key(api_key_file) {
            Ok(config) => config.with_account(private_key_file),
            Err(error) => Err(error),
        }
    }

    /// What is wrong with the settings: the first field that is left out, or a prefix of more than 32
    /// characters.
    pub open spec fn fault(self) -> Option<ConfigErrorView> {
        if blank(self.public_url) {
            Some(ConfigErrorView::Missing("public_url"@))
        } else if blank(self.private_url) {
            Some(ConfigErrorView::Missing("private_url"@))
        } else if blank(self.trade_url) {
            Some(ConfigErrorView::Missing("trade_url"@))
        } else if blank(self.rest_url) {
            Some(ConfigErrorView::Missing("rest_url"@))
        } else if blank(self.account) {
            Some(ConfigErrorView::Missing("account"@))
        } else if blank(self.private_key_file) {
            Some(ConfigErrorView::Missing("private_key_file"@))
        } else if blank(self.order_prefix) {
            Some(ConfigErrorView::Missing("order_prefix"@))
        } else if self.order_prefix.len() > 32 {
            Some(
                ConfigErrorView::Invalid {
                    field: "order_prefix"@,
                    reason: "must be 32 characters or fewer"@,
                },
            )
        } else {
            None
        }
    }
}

/// The account that belongs to a key pair.
pub open spec fn derived_account(keypair: Seq<char>) -> Result<Seq<char>, SigningErrorView> {
    match keypair_bytes(keypair) {
        Ok(bytes) => public_key_of(bytes),
        Err(error) => Err(error),
    }
}

/// What came of reading a file: its text, or the words of the error.
pub open spec fn file_read(file: Result<String, String>) -> Result<Seq<char>, Seq<char>> {
    match file {
        Ok(text) => Ok(text@),
        Err(error) => Err(error@),
    }
}

impl Config {
    /// The file that holds the key, where it has to be read.
    pub fn api_key_path(&self, home: &Option<String>) -> (r: Option<String>)
        ensures
            r.deep_view() == self@.prepared(home.deep_view()).api_key_source(),
    {
        let prepared = self.clone().prepare(home);
        if prepared.api_key.is_none() && !is_blank(prepared.api_key_file.as_str()) {
            Some(prepared.api_key_file)
        } else {
            None
        }
    }

    /// The file from which the account is derived, where it has to be read.
    pub fn private_key_path(&self, home: &Option<String>) -> (r: Option<String>)
        ensures
            r.deep_view() == self@.prepared(home.deep_view()).account_source(),
    {
        let prepared = self.clone().prepare(home);
        if is_blank(prepared.account.as_str()) && !is_blank(prepared.private_key_file.as_str()) {
            Some(prepared.private_key_file)
        } else {
            None
        }
    }

    /// The settings with full paths, and with the key as it is used.
    fn prepare(self, home: &Option<String>) -> (r: Self)
        ensures
            r@ == self@.prepared(home.deep_view()),
    {
        let mut config = self;
        config.private_key_file = expand_user_path(config.private_key_file.as_str(), home);
        config.api_key_file = expand_user_path(config.api_key_file.as_str(), home);
        config.api_key = match config.api_key {
            Some(api_key) => use_key(api_key.as_str()),
            None => None,
        };
        config
    }

    /// The settings with everything filled in that can be found out. `home` is the home
    /// directory. What was read of the two files counts only where [`Config::api_key_path`] and
    /// [`Config::private_key_path`] name them.
    pub fn resolve(
        self,
        home: &Option<String>,
        api_key_file: Result<String, String>,
        private_key_file: Result<String, String>,
    ) -> (r: Result<Self, ConfigError>)
        ensures
            outcome(r) == self@.resolved(
                home.deep_view(),
                file_read(api_key_file),
                file_read(private_key_file),
            ),
    {
        let mut config = self.prepare(home);
        if config.api_key.is_none() && !is_blank(config.api_key_file.as_str()) {
            config.api_key = match api_key_file {
                Ok(api_key) => use_key(api_key.as_str()),
                Err(error) => {
                    return Err(ConfigError::ApiKey(error));
                },
            };
        }
        if is_blank(config.account.as_str()) && !is_blank(config.private_key_file.as_str()) {
            let keypair = match private_key_file {
                Ok(keypair) => keypair,
                Err(error) => {
                    return Err(ConfigError::PrivateKey(error));
                },
            };
            config.account = match public_key_from_keypair_text(trim(keypair.as_str())) {
                Ok(account) => account,
                Err(error) => {
                    return Err(ConfigError::AccountDerivation(error.message()));
                },
            };
        }
        Ok(config)
    }

    /// Whether the settings can be used.
    pub fn validate(&self) -> (r: Result<(), ConfigError>)
        ensures
            outcome(r) == (match self@.fault() {
                Some(error) => Err::<(), ConfigErrorView>(error),
                None => Ok(()),
            }),
    {
        match require_non_empty("public_url", self.public_url.as_str()) {
            Err(error) => {
                return Err(error);
            },
            Ok(_) => {},
        }
        match require_non_empty("private_url", self.private_url.as_str()) {
            Err(error) => {
                return Err(error);
            },
            Ok(_) => {},
        }
        match require_non_empty("trade_url", self.trade_url.as_str()) {
            Err(error) => {
                return Err(error);
            },
            Ok(_) => {},
        }
        match require_non_empty("rest_url", self.rest_url.as_str()) {
            Err(error) => {
                return Err(error);
            },
            Ok(_) => {},
        }
        match require_non_empty("account", self.account.as_str()) {
            Err(error) => {
                return Err(error);
            },
            Ok(_) => {},
        }
        match require_non_empty("private_key_file", self.private_key_file.as_str()) {
            Err(error) => {
                return Err(error);
            },
            Ok(_) => {},
        }
        match require_non_empty("order_prefix", self.order_prefix.as_str()) {
            Err(error) => {
                return Err(error);
            },
            Ok(_) => {},
        }
        if self.order_prefix.as_str().unicode_len() > 32 {
            return Err(
                ConfigError::Invalid {
                    field: "order_prefix",
                    reason: "must be 32 characters or fewer",
                },
            );
        }
        Ok(())
    }
}

/// A path under the home directory in full.
fn expand_user_path(path: &str, home: &Option<String>) -> (r: String)
    ensures
        r@ == expanded_path(path@, home.deep_view()),
{
    match (strip_prefix(path, "~/"), home) {
        (Some(rest), Some(home)) => home.clone().concat("/").concat(rest.as_str()),
        _ => path.to_string(),
    }
}

/// A key as it is used.
fn use_key(key: &str) -> (r: Option<String>)
    ensures
        r.deep_view() == used_key(key@),
{
    if is_blank(key) {
        None
    } else {
        Some(trim(key).to_string())
    }
}

/// Whether a field is filled in.
pub fn require_non_empty(field: &'static str, value: &str) -> (r: Result<(), ConfigError>)
    ensures
        outcome(r) == (if blank(value@) {
            Err::<(), ConfigErrorView>(ConfigErrorView::Missing(field@))
        } else {
            Ok(())
        }),
{
    if is_blank(value) {
        Err(ConfigError::Missing(field))
    } else {
        Ok(())
    }
}

/// Settings that name their account and their key ask for no file, whatever the files hold.
pub proof fn complete_settings_read_nothing(
    config: ConfigView,
    home: Option<Seq<char>>,
    api_key_file: Result<Seq<char>, Seq<char>>,
    private_key_file: Result<Seq<char>, Seq<char>>,
)
    requires
        !blank(config.account),
        config.api_key is None ==> blank(config.prepared(home).api_key_file),
        config.api_key matches Some(key) ==> !blank(key),
    ensures
        config.prepared(home).api_key_source() is None,
        config.prepared(home).account_source() is None,
        config.resolved(home, api_key_file, private_key_file) == Ok::<ConfigView, ConfigErrorView>(
            config.prepared(home),
        ),
{
}

/// Resolving fills in the account and the key and expands paths; it leaves the other settings as
/// they are.
pub proof fn resolving_keeps_the_rest(
    config: ConfigView,
    home: Option<Seq<char>>,
    api_key_file: Result<Seq<char>, Seq<char>>,
    private_key_file: Result<Seq<char>, Seq<char>>,
)
    requires
        config.resolved(home, api_key_file, private_key_file) is Ok,
    ensures
        ({
            let resolved = config.resolved(home, api_key_file, private_key_file)->Ok_0;
            &&& resolved.public_url == config.public_url
            &&& resolved.private_url == config.private_url
            &&& resolved.trade_url == config.trade_url
            &&& resolved.rest_url == config.rest_url
            &&& resolved.order_prefix == config.order_prefix
            &&& resolved.startup_policy == config.startup_policy
            &&& resolved.testnet == config.testnet
            &&& !blank(config.account) ==> resolved.account == config.account
            &&& resolved.private_key_file == expanded_path(config.private_key_file, home)
            &&& resolved.api_key_file == expanded_path(config.api_key_file, home)
        }),
{
}

} // verus!
