use crate::text::str_eq;
use vstd::prelude::*;

verus! {

/// The settings of one run: the API key, the board and the user.
#[derive(Debug)]
pub struct Config {
    pub api_key: String,
    pub board_id: String,
    pub user_id: String,
}

/// The value of a [`Config`].
pub struct ConfigModel {
    pub api_key: Seq<char>,
    pub board_id: Seq<char>,
    pub user_id: Seq<char>,
}

impl View for Config {
    type V = ConfigModel;

    open spec fn view(&self) -> ConfigModel {
        ConfigModel { api_key: self.api_key@, board_id: self.board_id@, user_id: self.user_id@ }
    }
}

/// A setting that the file must give.
#[derive(Debug, Clone, Copy, PartialEq, Eq, Structural)]
pub enum ConfigField {
    ApiKey,
    BoardId,
    UserId,
}

impl ConfigField {
    /// The key under which the file gives the setting.
    pub open spec fn spec_key(self) -> Seq<char> {
        match self {
            ConfigField::ApiKey => "api_key"@,
            ConfigField::BoardId => "board_id"@,
            ConfigField::UserId => "user_id"@,
        }
    }

    /// The key under which the file gives the setting.
    pub fn key(self) -> (res: &'static str)
        ensures
            res@ == self.spec_key(),
    {
        match self {
            ConfigField::ApiKey => "api_key",
            ConfigField::BoardId => "board_id",
            ConfigField::UserId => "user_id",
        }
    }
}

/// What is wrong with a setting.
#[derive(Debug, Clone, Copy, PartialEq, Eq, Structural)]
pub enum ConfigFault {
    /// The file has no such key.
    Missing(ConfigField),
    /// The key holds something that is not a string.
    NotText(ConfigField),
}

/// Why the settings could not be loaded.
#[derive(Debug)]
pub enum ConfigError {
    /// The file is no TOML document; with the reader's message.
    Malformed(String),
    /// A setting is missing or is no string.
    Invalid(ConfigFault),
}

/// The top-level entries of a TOML document: each key, with the string it
/// holds, or `None` where it holds anything else.
pub type TomlEntries = Seq<(Seq<char>, Option<Seq<char>>)>;

/// The entries of a list as values.
pub open spec fn toml_views(entries: Seq<(String, Option<String>)>) -> TomlEntries {
    Seq::new(
        entries.len(),
        |i: int|
            (
                entries[i].0@,
                match entries[i].1 {
                    Some(text) => Some(text@),
                    None => None,
                },
            ),
    )
}

/// What the first entry with the key `key` holds.
pub open spec fn entry_of(entries: TomlEntries, key: Seq<char>) -> Option<Option<Seq<char>>>
    decreases entries.len(),
{
    if entries.len() == 0 {
        None
    } else if entries[0].0 == key {
        Some(entries[0].1)
    } else {
        entry_of(entries.drop_first(), key)
    }
}

/// The setting `field` among the entries, or what is wrong with it.
pub open spec fn setting_of(entries: TomlEntries, field: ConfigField) -> Result<
    Seq<char>,
    ConfigFault,
> {
    match entry_of(entries, field.spec_key()) {
        Some(Some(text)) => Ok(text),
        Some(None) => Err(ConfigFault::NotText(field)),
        None => Err(ConfigFault::Missing(field)),
    }
}

/// The settings that the entries give: all three, or the fault of the first
/// setting that has one, in the order API key, board, user.
pub open spec fn config_of(entries: TomlEntries) -> Result<ConfigModel, ConfigFault> {
    match setting_of(entries, ConfigField::ApiKey) {
        Err(fault) => Err(fault),
        Ok(api_key) => match setting_of(entries, ConfigField::BoardId) {
            Err(fault) => Err(fault),
            Ok(board_id) => match setting_of(entries, ConfigField::UserId) {
                Err(fault) => Err(fault),
                Ok(user_id) => Ok(ConfigModel { api_key, board_id, user_id }),
            },
        },
    }
}

/// `toml::de::Error`, what the TOML reader says of a text it refuses.
#[verifier::external_type_specification]
#[verifier::external_body]
pub struct ExTomlError(toml::de::Error);

/// What `toml::from_str` reads from a text as a table: its top-level
/// entries, or `None` where it refuses the text.
pub uninterp spec fn toml_parse(text: Seq<char>) -> Option<TomlEntries>;

/// The message with which `toml::from_str` refuses a text.
pub uninterp spec fn toml_parse_error(text: Seq<char>) -> Seq<char>;

/// What `to_string` writes for a `toml::de::Error`: its message.
pub uninterp spec fn toml_error_text(error: toml::de::Error) -> Seq<char>;

/// Calls `toml::from_str` for a `toml::Table` and hands out its entries,
/// each string value as it is and any other value as `None`. Trusted:
/// whether the text is accepted, what is read, and the message with which it
/// is refused, depend on the text alone.
#[verifier::external_body]
fn toml_entries(text: &str) -> (res: Result<Vec<(String, Option<String>)>, toml::de::Error>)
    ensures
        match res {
            Ok(entries) => toml_parse(text@) == Some(toml_views(entries@)),
            Err(error) => toml_parse(text@) is None && toml_error_text(error) == toml_parse_error(
                text@,
            ),
        },
{
    let table = toml::from_str::<toml::Table>(text)?;
    Ok(
        table.into_iter().map(
            |(key, value)|
                match value {
                    toml::Value::String(text) => (key, Some(text)),
                    toml::Value::Integer(_) | toml::Value::Float(_) | toml::Value::Boolean(_) => (key, None),
                    toml::Value::Datetime(_) | toml::Value::Array(_) | toml::Value::Table(_) => (key, None),
                },
        ).collect(),
    )
}

/// Calls `to_string` on a `toml::de::Error` for its message. Trusted: the
/// message depends on the error alone.
#[verifier::external_body]
fn toml_error_message(error: &toml::de::Error) -> (res: String)
    ensures
        res@ == toml_error_text(*error),
{
    error.to_string()
}

/// Reads the setting `field` from the entries of a document.
pub fn read_setting(entries: &Vec<(String, Option<String>)>, field: ConfigField) -> (res: Result<
    String,
    ConfigFault,
>)
    ensures
        match res {
            Ok(text) => setting_of(toml_views(entries@), field) == Ok::<Seq<char>, ConfigFault>(
                text@,
            ),
            Err(fault) => setting_of(toml_views(entries@), field) == Err::<Seq<char>, ConfigFault>(
                fault,
            ),
        },
{
    let ghost all = toml_views(entries@);
    let key = field.key();
    let mut i: usize = 0;
    assert(all.skip(0) =~= all);
    while i < entries.len()
        invariant
            i <= entries.len(),
            all == toml_views(entries@),
            key@ == field.spec_key(),
            entry_of(all, key@) == entry_of(all.skip(i as int), key@),
        decreases entries.len() - i,
    {
        proof {
            assert(all.skip(i as int).drop_first() =~= all.skip(i + 1));
            assert(all.skip(i as int)[0] == all[i as int]);
        }
        if str_eq(entries[i].0.as_str(), key) {
            return match &entries[i].1 {
                Some(text) => Ok(text.clone()),
                None => Err(ConfigFault::NotText(field)),
            };
        }
        i += 1;
    }
    assert(all.skip(entries.len() as int) =~= seq![]);
    Err(ConfigFault::Missing(field))
}

impl Config {
    /// The settings that the entries of a document give.
    pub fn from_entries(entries: &Vec<(String, Option<String>)>) -> (res: Result<
        Config,
        ConfigFault,
    >)
        ensures
            match res {
                Ok(config) => config_of(toml_views(entries@)) == Ok::<ConfigModel, ConfigFault>(
                    config@,
                ),
                Err(fault) => config_of(toml_views(entries@)) == Err::<ConfigModel, ConfigFault>(
                    fault,
                ),
            },
    {
        let api_key = match read_setting(entries, ConfigField::ApiKey) {
            Ok(text) => text,
            Err(fault) => return Err(fault),
        };
        let board_id = match read_setting(entries, ConfigField::BoardId) {
            Ok(text) => text,
            Err(fault) => return Err(fault),
        };
        let user_id = match read_setting(entries, ConfigField::UserId) {
            Ok(text) => text,
            Err(fault) => return Err(fault),
        };
        Ok(Config { api_key, board_id, user_id })
    }

    /// Loads the settings from the text of a TOML document. The settings are
    /// all there, or the load fails.
    pub fn from_toml(text: &str) -> (res: Result<Config, ConfigError>)
        ensures
            match res {
                Ok(config) => toml_parse(text@) matches Some(entries) && config_of(entries)
                    == Ok::<ConfigModel, ConfigFault>(config@),
                Err(ConfigError::Malformed(message)) => toml_parse(text@) is None && message@
                    == toml_parse_error(text@),
                Err(ConfigError::Invalid(fault)) => toml_parse(text@) matches Some(entries)
                    && config_of(entries) == Err::<ConfigModel, ConfigFault>(fault),
            },
    {
        let entries = match toml_entries(text) {
            Ok(entries) => entries,
            Err(error) => return Err(ConfigError::Malformed(toml_error_message(&error))),
        };
        match Config::from_entries(&entries) {
            Ok(config) => Ok(config),
            Err(fault) => Err(ConfigError::Invalid(fault)),
        }
    }
}

} // verus!
